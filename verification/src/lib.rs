//! Head commit of a branch of a GitHub repository, through GitHub's GraphQL API.
//!
//! One invocation is one request. [`run_graphql_request`] says what to send,
//! the host sends it, and [`run_graphql_response`] turns the text of the
//! answer into the normalized [`data::Data`] or into the one error that ends
//! the invocation. Nothing is kept between invocations.
//!
//! A response that lacks a part of the result is refused: there is no `Data`
//! with holes in it. What the server reported beside complete data is
//! carried along in `Data::errors`.

use crate::data::{Data, DataView};
use crate::error::{outcome_view, Error, ErrorView, Kind};
use crate::github::{graphql_request_for, Github};
use crate::json::{parse, parsed, Json, JsonView};
use crate::mapper::{
    get_data, lemma_kinds_of_normalized, lemma_missing_branch_named, lemma_organization_owner,
    lemma_rate_limit_verbatim, lemma_target_not_a_commit, normalized, reported,
};
use crate::query::{BranchHeadCommitAuthor, Variables, VariablesView};
use crate::response::OwnerOnView;
use crate::text::occurs_in;
use crate::web::{
    gql_response_of, lemma_kinds_of_gql_response, lemma_platform_message_surfaces, read_response,
    response_of, Request, RequestView,
};
use vstd::prelude::*;

pub mod data;
pub mod decode;
pub mod error;
pub mod github;
pub mod json;
pub mod mapper;
pub mod query;
pub mod response;
pub mod text;
pub mod web;

verus! {

/// What one invocation sends.
pub open spec fn run_graphql_request_for(variables: VariablesView, token: Seq<char>) -> Result<
    RequestView,
    ErrorView,
> {
    graphql_request_for(token, variables)
}

/// What one invocation yields, given the document that the answer holds.
pub open spec fn run_graphql_document_of(variables: VariablesView, document: JsonView) -> Result<
    DataView,
    ErrorView,
> {
    match response_of(document) {
        Ok(response) => normalized(response, variables),
        Err(error) => Err(error),
    }
}

/// What one invocation yields, given the text of the answer.
pub open spec fn run_graphql_response_of(variables: VariablesView, text: Seq<char>) -> Result<
    DataView,
    ErrorView,
> {
    match parsed(text) {
        Ok(document) => run_graphql_document_of(variables, document),
        Err(error) => Err(error),
    }
}

/// The request of one invocation: the query with `variables`, sent to GitHub
/// in the name of `token`.
pub fn run_graphql_request(variables: &Variables, token: String) -> (outcome: Result<
    Request,
    Error,
>)
    ensures
        outcome_view(outcome) == run_graphql_request_for(variables@, token@),
        outcome matches Ok(request) ==> request@.well_formed(),
{
    let github = Github::new(token);
    github.graphql(BranchHeadCommitAuthor, variables.clone())
}

/// The result of one invocation, from the document that the answer to the
/// request of `variables` holds.
pub fn run_graphql_document(variables: &Variables, document: &Json) -> (outcome: Result<
    Data,
    Error,
>)
    ensures
        outcome_view(outcome) == run_graphql_document_of(variables@, document@),
{
    let response = read_response(document)?;
    get_data(response, variables)
}

/// The result of one invocation, from the text of the answer to the request
/// that `variables` made.
pub fn run_graphql_response(variables: &Variables, text: &str) -> (outcome: Result<Data, Error>)
    ensures
        outcome_view(outcome) == run_graphql_response_of(variables@, text@),
{
    let document = parse(text)?;
    run_graphql_document(variables, &document)
}

/// An invocation fails in one of four ways, told apart by how far it came:
/// the text of the answer is no JSON; the platform refused; the server
/// reported errors and sent no data; or the answer lacks a part of the result.
pub proof fn lemma_kinds_of_run(variables: VariablesView, text: Seq<char>)
    requires
        run_graphql_response_of(variables, text) is Err,
    ensures
        ({
            let kind = run_graphql_response_of(variables, text)->Err_0.kind();
            &&& kind == Kind::Transport <==> parsed(text) is Err
            &&& kind == Kind::Platform <==> parsed(text) is Ok && parsed(text)->Ok_0.member(
                "message"@,
            ) is Some && parsed(text)->Ok_0.member("message"@)->0 is String
            &&& kind == Kind::Graphql <==> gql_response_of(text) is Ok && gql_response_of(
                text,
            )->Ok_0.data is None && reported(gql_response_of(text)->Ok_0.errors).len() > 0
            &&& kind == Kind::Shape <==> kind != Kind::Transport && kind != Kind::Platform && kind
                != Kind::Graphql
        }),
{
    if gql_response_of(text) is Err {
        lemma_kinds_of_gql_response(text);
    } else {
        lemma_kinds_of_normalized(gql_response_of(text)->Ok_0, variables);
    }
}

/// The rate limit of a result is that of the answer, field by field.
pub proof fn lemma_run_keeps_rate_limit(variables: VariablesView, text: Seq<char>)
    requires
        run_graphql_response_of(variables, text) is Ok,
    ensures
        gql_response_of(text) is Ok,
        gql_response_of(text)->Ok_0.data is Some,
        gql_response_of(text)->Ok_0.data->0.rate_limit is Some,
        ({
            let raw = gql_response_of(text)->Ok_0.data->0.rate_limit->0;
            let info = run_graphql_response_of(variables, text)->Ok_0.rate_limit_info;
            &&& info.cost == raw.cost
            &&& info.limit == raw.limit
            &&& info.node_count == raw.node_count
            &&& info.remaining == raw.remaining
            &&& info.used == raw.used
            &&& info.reset_at == raw.reset_at
        }),
{
    lemma_rate_limit_verbatim(gql_response_of(text)->Ok_0, variables);
}

/// Where the repository of the answer belongs to an organization, the owner
/// of the result has the organization's login as its handle, and no email
/// where the organization has none.
pub proof fn lemma_run_keeps_organization(variables: VariablesView, text: Seq<char>)
    requires
        run_graphql_response_of(variables, text) is Ok,
        gql_response_of(text)->Ok_0.data->0.repository->0.owner.on is Organization,
    ensures
        ({
            let raw = gql_response_of(text)->Ok_0.data->0.repository->0.owner;
            let owner = run_graphql_response_of(variables, text)->Ok_0.repo.owner;
            &&& owner.handle == Some(raw.login)
            &&& raw.on matches OwnerOnView::Organization { name, email }
            &&& owner.name == name
            &&& owner.email == email
            &&& email is None ==> owner.email is None
        }),
{
    lemma_organization_owner(gql_response_of(text)->Ok_0, variables);
}

/// Where the answer holds the repository but not the branch, the invocation
/// fails, and the message of the error holds the name of the branch that was
/// asked for and the repository's name with its owner.
///
/// The answer must have come as far as the branch: it holds data with a rate
/// limit, and the repository's owner is a user or an organization.
pub proof fn lemma_run_names_missing_branch(variables: VariablesView, text: Seq<char>)
    requires
        gql_response_of(text) is Ok,
        gql_response_of(text)->Ok_0.data is Some,
        gql_response_of(text)->Ok_0.data->0.rate_limit is Some,
        gql_response_of(text)->Ok_0.data->0.repository is Some,
        !(gql_response_of(text)->Ok_0.data->0.repository->0.owner.on is Other),
        gql_response_of(text)->Ok_0.data->0.repository->0.ref_ is None,
    ensures
        run_graphql_response_of(variables, text) is Err,
        occurs_in(variables.branch, run_graphql_response_of(variables, text)->Err_0.message()),
        occurs_in(
            gql_response_of(text)->Ok_0.data->0.repository->0.name_with_owner,
            run_graphql_response_of(variables, text)->Err_0.message(),
        ),
{
    lemma_missing_branch_named(gql_response_of(text)->Ok_0, variables);
}

/// Where the branch of the answer points at something that is no commit, the
/// invocation fails, and the message of the error says that the ref does not
/// resolve to a commit.
///
/// The answer must have come as far as the target: it holds data with a rate
/// limit, and the repository's owner is a user or an organization.
pub proof fn lemma_run_refuses_other_target(variables: VariablesView, text: Seq<char>)
    requires
        gql_response_of(text) is Ok,
        gql_response_of(text)->Ok_0.data is Some,
        gql_response_of(text)->Ok_0.data->0.rate_limit is Some,
        gql_response_of(text)->Ok_0.data->0.repository is Some,
        !(gql_response_of(text)->Ok_0.data->0.repository->0.owner.on is Other),
        gql_response_of(text)->Ok_0.data->0.repository->0.ref_ is Some,
        gql_response_of(text)->Ok_0.data->0.repository->0.ref_->0.target is Some,
        gql_response_of(text)->Ok_0.data->0.repository->0.ref_->0.target->0.on is Other,
    ensures
        run_graphql_response_of(variables, text) is Err,
        run_graphql_response_of(variables, text)->Err_0 is NotACommit,
        occurs_in(
            "ref does not resolve to a commit"@,
            run_graphql_response_of(variables, text)->Err_0.message(),
        ),
{
    lemma_target_not_a_commit(gql_response_of(text)->Ok_0, variables);
}

/// Where the answer is a document with a text under `message`, the
/// invocation fails with the platform's refusal, whose message holds that
/// text: no envelope is looked for.
pub proof fn lemma_run_surfaces_platform_message(
    variables: VariablesView,
    text: Seq<char>,
    message: Seq<char>,
)
    requires
        parsed(text) is Ok,
        parsed(text)->Ok_0.member("message"@) == Some(JsonView::String(message)),
    ensures
        run_graphql_response_of(variables, text) == Err::<DataView, ErrorView>(
            ErrorView::Platform(message),
        ),
        occurs_in(message, run_graphql_response_of(variables, text)->Err_0.message()),
{
    lemma_platform_message_surfaces(parsed(text)->Ok_0, message);
}

/// Two invocations on the same answer yield the same: whatever
/// `run_graphql_response` returns for one text and one set of variables has
/// one value, be it a result or an error.
pub proof fn lemma_run_graphql_response_repeats(
    variables: VariablesView,
    text: Seq<char>,
    first: Result<Data, Error>,
    second: Result<Data, Error>,
)
    requires
        outcome_view(first) == run_graphql_response_of(variables, text),
        outcome_view(second) == run_graphql_response_of(variables, text),
    ensures
        outcome_view(first) == outcome_view(second),
        first matches Ok(data) ==> second is Ok && second->Ok_0@ == data@,
{
}

} // verus!
