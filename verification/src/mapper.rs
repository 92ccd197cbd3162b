//! From the response to the normalized result. Each link of the response
//! that is missing ends the mapping with an error of its own.

use crate::data::{
    Branch, BranchView, Commit, CommitView, Data, DataView, GraphqlError, GraphqlErrorView,
    RateLimitInfo, RateLimitInfoView, Repo, RepoView, User, UserView,
};
use crate::error::{lemma_message_names_its_subject, outcome_view, Error, ErrorView, Kind};
use crate::query::{Variables, VariablesView};
use crate::response::{
    errors_view, BranchRef, BranchRefView, GitActor, GitActorView, Owner, OwnerOn, OwnerOnView,
    OwnerView, RateLimit, RateLimitView, RawResponse, RawResponseView, Repository, RepositoryView,
    ResponseError, ResponseErrorView, Target, TargetOn, TargetOnView, TargetView,
};
use crate::text::{lemma_occurs_in_wider, occurs_at, occurs_in, opt_view, seq_view, texts};
use vstd::prelude::*;
use vstd::string::*;

verus! {

/// The rate limit, field by field as it came.
pub open spec fn rate_limit_info(rate_limit: RateLimitView) -> RateLimitInfoView {
    RateLimitInfoView {
        cost: rate_limit.cost,
        limit: rate_limit.limit,
        node_count: rate_limit.node_count,
        remaining: rate_limit.remaining,
        used: rate_limit.used,
        reset_at: rate_limit.reset_at,
    }
}

/// The owner of a repository as a user: the handle is the owner's login, and
/// an organization without an email has none. An owner of another type is
/// refused.
pub open spec fn user_from_owner(owner: OwnerView) -> Result<UserView, ErrorView> {
    match owner.on {
        OwnerOnView::User { name, email } => Ok(
            UserView {
                avatar_url: owner.avatar_url,
                handle: Some(owner.login),
                name,
                email: Some(email),
            },
        ),
        OwnerOnView::Organization { name, email } => Ok(
            UserView { avatar_url: owner.avatar_url, handle: Some(owner.login), name, email },
        ),
        OwnerOnView::Other { typename } => Err(ErrorView::UnsupportedOwner(typename)),
    }
}

/// A git signature as a user: the handle is the login of the account that the
/// signature's email belongs to, where there is such an account.
pub open spec fn user_from_actor(actor: GitActorView) -> UserView {
    UserView {
        avatar_url: actor.avatar_url,
        handle: match actor.user {
            Some(user) => Some(user.login),
            None => None,
        },
        name: actor.name,
        email: actor.email,
    }
}

/// The repository with its owner as a user.
pub open spec fn repo_info(repository: RepositoryView) -> Result<RepoView, ErrorView> {
    match user_from_owner(repository.owner) {
        Ok(owner) => Ok(RepoView { name_with_owner: repository.name_with_owner, owner }),
        Err(error) => Err(error),
    }
}

/// The commit that a target is. A target of another type is refused, and so
/// is a commit that lacks its author or its committer.
pub open spec fn commit_info_from_target(head: TargetView) -> Result<CommitView, ErrorView> {
    match head.on {
        TargetOnView::Commit(commit) => match (commit.author, commit.committer) {
            (None, _) => Err(ErrorView::NoAuthor { oid: commit.oid }),
            (Some(_), None) => Err(ErrorView::NoCommitter { oid: commit.oid }),
            (Some(author), Some(committer)) => Ok(
                CommitView {
                    author: user_from_actor(author),
                    committer: user_from_actor(committer),
                    sha: commit.oid,
                    message: commit.message,
                },
            ),
        },
        TargetOnView::Other { typename } => Err(ErrorView::NotACommit { typename }),
    }
}

/// The branch with its head commit. A branch that points at nothing is
/// refused.
pub open spec fn branch_info(branch: BranchRefView) -> Result<BranchView, ErrorView> {
    match branch.target {
        None => Err(ErrorView::NoCommitAtHead { branch: branch.name }),
        Some(head) => match commit_info_from_target(head) {
            Ok(head) => Ok(BranchView { name: branch.name, head }),
            Err(error) => Err(error),
        },
    }
}

/// The messages that the server reported, in its order.
pub open spec fn reported(errors: Option<Seq<ResponseErrorView>>) -> Seq<Seq<char>> {
    match errors {
        Some(errors) => errors.map_values(|error: ResponseErrorView| error.message),
        None => Seq::empty(),
    }
}

/// The errors that the server reported, in its order.
pub open spec fn graphql_errors(errors: Option<Seq<ResponseErrorView>>) -> Seq<GraphqlErrorView> {
    reported(errors).map_values(|message: Seq<char>| GraphqlErrorView { message })
}

/// The normalized result of a response to the query that `variables` made.
///
/// Without data the outcome is the list of what the server reported, or
/// `NoData` where it reported nothing. With data, the rate limit, the
/// repository with its owner, and the branch with its head commit must all be
/// there; the first of them that is not decides the error.
pub open spec fn normalized(response: RawResponseView, variables: VariablesView) -> Result<
    DataView,
    ErrorView,
> {
    match response.data {
        None => if reported(response.errors).len() > 0 {
            Err(ErrorView::Graphql(reported(response.errors)))
        } else {
            Err(ErrorView::NoData)
        },
        Some(data) => match (data.rate_limit, data.repository) {
            (None, _) => Err(ErrorView::NoRateLimit),
            (Some(_), None) => Err(
                ErrorView::RepositoryNotFound {
                    owner: variables.owner,
                    repo_name: variables.repo_name,
                },
            ),
            (Some(rate_limit), Some(repository)) => match repo_info(repository) {
                Err(error) => Err(error),
                Ok(repo) => match repository.ref_ {
                    None => Err(
                        ErrorView::BranchNotFound {
                            branch: variables.branch,
                            name_with_owner: repository.name_with_owner,
                        },
                    ),
                    Some(branch) => match branch_info(branch) {
                        Err(error) => Err(error),
                        Ok(branch) => Ok(
                            DataView {
                                errors: graphql_errors(response.errors),
                                rate_limit_info: rate_limit_info(rate_limit),
                                repo,
                                branch,
                            },
                        ),
                    },
                },
            },
        },
    }
}

/// Every link of the response is there, down to the author and the committer
/// of a commit at the head of the branch, and the owner of the repository is
/// a user or an organization.
pub open spec fn complete(response: RawResponseView) -> bool {
    &&& response.data matches Some(data)
    &&& data.rate_limit is Some
    &&& data.repository matches Some(repository)
    &&& !(repository.owner.on is Other)
    &&& repository.ref_ matches Some(branch)
    &&& branch.target matches Some(head)
    &&& head.on matches TargetOnView::Commit(commit)
    &&& commit.author is Some
    &&& commit.committer is Some
}

/// A response yields a result exactly where it is complete, whatever the
/// variables, and then each part of the result is the part of the response
/// that it stands for: names, texts and handles are those that the server
/// gave, and what the server left out is left out.
pub proof fn lemma_result_of_complete_response(response: RawResponseView, variables: VariablesView)
    ensures
        normalized(response, variables) is Ok <==> complete(response),
        complete(response) ==> ({
            let result = normalized(response, variables)->Ok_0;
            let repository = response.data->0.repository->0;
            let branch = repository.ref_->0;
            let commit = branch.target->0.on->Commit_0;
            &&& result.errors == graphql_errors(response.errors)
            &&& result.rate_limit_info == rate_limit_info(response.data->0.rate_limit->0)
            &&& result.repo.name_with_owner == repository.name_with_owner
            &&& result.repo.owner.avatar_url == repository.owner.avatar_url
            &&& result.repo.owner.handle == Some(repository.owner.login)
            &&& result.branch.name == branch.name
            &&& result.branch.head.sha == commit.oid
            &&& result.branch.head.message == commit.message
            &&& result.branch.head.author == user_from_actor(commit.author->0)
            &&& result.branch.head.committer == user_from_actor(commit.committer->0)
        }),
{
}

/// The rate limit of a result is that of the response, field by field: no
/// unit is converted and nothing is recomputed.
pub proof fn lemma_rate_limit_verbatim(response: RawResponseView, variables: VariablesView)
    requires
        normalized(response, variables) is Ok,
    ensures
        response.data is Some,
        response.data->0.rate_limit is Some,
        ({
            let raw = response.data->0.rate_limit->0;
            let info = normalized(response, variables)->Ok_0.rate_limit_info;
            &&& info.cost == raw.cost
            &&& info.limit == raw.limit
            &&& info.node_count == raw.node_count
            &&& info.remaining == raw.remaining
            &&& info.used == raw.used
            &&& info.reset_at == raw.reset_at
        }),
{
}

/// Where the owner of the repository is an organization, the owner of the
/// result has the organization's login as its handle and the organization's
/// email as it came: none where the organization has none.
pub proof fn lemma_organization_owner(response: RawResponseView, variables: VariablesView)
    requires
        normalized(response, variables) is Ok,
        response.data->0.repository->0.owner.on is Organization,
    ensures
        ({
            let raw = response.data->0.repository->0.owner;
            let owner = normalized(response, variables)->Ok_0.repo.owner;
            &&& owner.handle == Some(raw.login)
            &&& raw.on matches OwnerOnView::Organization { name, email }
            &&& owner.name == name
            &&& owner.email == email
            &&& email is None ==> owner.email is None
        }),
{
}

/// Where the repository is there but the branch is not, the error's message
/// holds the name of the branch that was asked for and the repository's name
/// with its owner.
///
/// The response must have come as far as the branch: it holds data with a
/// rate limit, and the repository's owner is a user or an organization.
pub proof fn lemma_missing_branch_named(response: RawResponseView, variables: VariablesView)
    requires
        response.data is Some,
        response.data->0.rate_limit is Some,
        response.data->0.repository is Some,
        !(response.data->0.repository->0.owner.on is Other),
        response.data->0.repository->0.ref_ is None,
    ensures
        normalized(response, variables) == Err::<DataView, ErrorView>(
            ErrorView::BranchNotFound {
                branch: variables.branch,
                name_with_owner: response.data->0.repository->0.name_with_owner,
            },
        ),
        occurs_in(variables.branch, normalized(response, variables)->Err_0.message()),
        occurs_in(
            response.data->0.repository->0.name_with_owner,
            normalized(response, variables)->Err_0.message(),
        ),
{
    lemma_message_names_its_subject(normalized(response, variables)->Err_0);
}

/// Where the branch points at something that is no commit, the error says
/// that the ref does not resolve to a commit, and names the type that it
/// found.
///
/// The response must have come as far as the target: it holds data with a
/// rate limit, and the repository's owner is a user or an organization.
pub proof fn lemma_target_not_a_commit(response: RawResponseView, variables: VariablesView)
    requires
        response.data is Some,
        response.data->0.rate_limit is Some,
        response.data->0.repository is Some,
        !(response.data->0.repository->0.owner.on is Other),
        response.data->0.repository->0.ref_ is Some,
        response.data->0.repository->0.ref_->0.target is Some,
        response.data->0.repository->0.ref_->0.target->0.on is Other,
    ensures
        normalized(response, variables) == Err::<DataView, ErrorView>(
            ErrorView::NotACommit {
                typename: response.data->0.repository->0.ref_->0.target->0.on->typename,
            },
        ),
        occurs_in(
            "ref does not resolve to a commit"@,
            normalized(response, variables)->Err_0.message(),
        ),
{
    let typename = response.data->0.repository->0.ref_->0.target->0.on->typename;
    assert(occurs_in("ref does not resolve to a commit"@, "ref does not resolve to a commit: "@))
        by {
        reveal_strlit("ref does not resolve to a commit");
        reveal_strlit("ref does not resolve to a commit: ");
        assert("ref does not resolve to a commit: "@.subrange(0, 32)
            =~= "ref does not resolve to a commit"@);
        assert(occurs_at(
            "ref does not resolve to a commit"@,
            "ref does not resolve to a commit: "@,
            0,
        ));
    }
    lemma_occurs_in_wider(
        "ref does not resolve to a commit"@,
        "ref does not resolve to a commit: "@,
        Seq::empty(),
        typename,
    );
}

/// The mapping fails in one of two ways: the server reported errors and sent
/// no data, or a part of the result is not there.
pub proof fn lemma_kinds_of_normalized(response: RawResponseView, variables: VariablesView)
    requires
        normalized(response, variables) is Err,
    ensures
        normalized(response, variables)->Err_0.kind() == Kind::Graphql <==> response.data is None
            && reported(response.errors).len() > 0,
        normalized(response, variables)->Err_0.kind() != Kind::Graphql ==> normalized(
            response,
            variables,
        )->Err_0.kind() == Kind::Shape,
{
}

/// Two responses of one value, mapped for variables of one value, give
/// outcomes of one value: the mapping adds nothing of its own.
pub proof fn lemma_get_data_repeats(
    first_response: RawResponse,
    second_response: RawResponse,
    first_variables: Variables,
    second_variables: Variables,
    first: Result<Data, Error>,
    second: Result<Data, Error>,
)
    requires
        first_response@ == second_response@,
        first_variables@ == second_variables@,
        outcome_view(first) == normalized(first_response@, first_variables@),
        outcome_view(second) == normalized(second_response@, second_variables@),
    ensures
        outcome_view(first) == outcome_view(second),
        first matches Ok(data) ==> second is Ok && second->Ok_0@ == data@,
{
}

/// A copy of an optional text.
pub fn clone_text(text: &Option<String>) -> (copy: Option<String>)
    ensures
        opt_view(copy) == opt_view(*text),
{
    match text {
        Some(text) => Some(text.clone()),
        None => None,
    }
}

/// Copies the rate limit into the result.
pub fn get_rate_limit_info(rate_limit: RateLimit) -> (info: RateLimitInfo)
    ensures
        info@ == rate_limit_info(rate_limit@),
{
    RateLimitInfo {
        cost: rate_limit.cost,
        limit: rate_limit.limit,
        node_count: rate_limit.node_count,
        remaining: rate_limit.remaining,
        used: rate_limit.used,
        reset_at: rate_limit.reset_at,
    }
}

/// Maps the owner of a repository to a user.
pub fn get_user_from_owner(owner: &Owner) -> (outcome: Result<User, Error>)
    ensures
        outcome_view(outcome) == user_from_owner(owner@),
{
    match &owner.on {
        OwnerOn::User { name, email } => Ok(
            User {
                avatar_url: owner.avatar_url.clone(),
                name: clone_text(name),
                email: Some(email.clone()),
                handle: Some(owner.login.clone()),
            },
        ),
        OwnerOn::Organization { name, email } => Ok(
            User {
                avatar_url: owner.avatar_url.clone(),
                name: clone_text(name),
                handle: Some(owner.login.clone()),
                email: clone_text(email),
            },
        ),
        OwnerOn::Other { typename } => Err(Error::UnsupportedOwner(typename.clone())),
    }
}

/// Maps a git signature to a user.
pub fn get_user_from_actor(actor: &GitActor) -> (user: User)
    ensures
        user@ == user_from_actor(actor@),
{
    User {
        avatar_url: actor.avatar_url.clone(),
        name: clone_text(&actor.name),
        handle: match &actor.user {
            Some(user) => Some(user.login.clone()),
            None => None,
        },
        email: clone_text(&actor.email),
    }
}

/// Maps a repository, with its owner.
pub fn get_repo_info(repo: &Repository) -> (outcome: Result<Repo, Error>)
    ensures
        outcome_view(outcome) == repo_info(repo@),
{
    let owner = get_user_from_owner(&repo.owner)?;
    Ok(Repo { name_with_owner: repo.name_with_owner.clone(), owner })
}

/// Maps the target of a branch to the commit that it is.
pub fn get_commit_info_from_target(head: &Target) -> (outcome: Result<Commit, Error>)
    ensures
        outcome_view(outcome) == commit_info_from_target(head@),
{
    match &head.on {
        TargetOn::Commit(commit) => {
            let github_author = match &commit.author {
                Some(author) => author,
                None => {
                    return Err(Error::NoAuthor { oid: commit.oid.clone() });
                },
            };
            let github_committer = match &commit.committer {
                Some(committer) => committer,
                None => {
                    return Err(Error::NoCommitter { oid: commit.oid.clone() });
                },
            };
            Ok(
                Commit {
                    author: get_user_from_actor(github_author),
                    committer: get_user_from_actor(github_committer),
                    message: commit.message.clone(),
                    sha: commit.oid.clone(),
                },
            )
        },
        TargetOn::Other { typename } => Err(Error::NotACommit { typename: typename.clone() }),
    }
}

/// Maps a branch, with its head commit.
pub fn get_branch_info(branch: &BranchRef) -> (outcome: Result<Branch, Error>)
    ensures
        outcome_view(outcome) == branch_info(branch@),
{
    let head = match &branch.target {
        Some(head) => head,
        None => {
            return Err(Error::NoCommitAtHead { branch: branch.name.clone() });
        },
    };
    Ok(Branch { name: branch.name.clone(), head: get_commit_info_from_target(head)? })
}

/// The messages that the server reported.
pub fn get_reported(errors: &Option<Vec<ResponseError>>) -> (messages: Vec<String>)
    ensures
        texts(messages@) == reported(errors_view(*errors)),
{
    let mut messages: Vec<String> = Vec::new();
    match errors {
        Some(list) => {
            let mut at: usize = 0;
            while at < list.len()
                invariant
                    at <= list.len(),
                    messages@.len() == at,
                    forall|i: int| 0 <= i < at ==> messages@[i]@ == list@[i].message@,
                decreases list.len() - at,
            {
                messages.push(list[at].message.clone());
                at = at + 1;
            }
        },
        None => {},
    }
    proof {
        assert(texts(messages@) =~= reported(errors_view(*errors)));
    }
    messages
}

/// The errors that the server reported.
pub fn get_graphql_errors(errors: Option<Vec<ResponseError>>) -> (list: Vec<GraphqlError>)
    ensures
        seq_view(list@) == graphql_errors(errors_view(errors)),
{
    let messages = get_reported(&errors);
    let mut list: Vec<GraphqlError> = Vec::new();
    let mut at: usize = 0;
    while at < messages.len()
        invariant
            at <= messages.len(),
            list@.len() == at,
            forall|i: int| 0 <= i < at ==> list@[i].message@ == messages@[i]@,
        decreases messages.len() - at,
    {
        list.push(GraphqlError { message: messages[at].clone() });
        at = at + 1;
    }
    proof {
        assert(seq_view(list@) =~= texts(messages@).map_values(
            |message: Seq<char>| GraphqlErrorView { message },
        ));
    }
    list
}

/// Maps a response to the normalized result.
pub fn get_data(response: RawResponse, variables: &Variables) -> (outcome: Result<Data, Error>)
    ensures
        outcome_view(outcome) == normalized(response@, variables@),
{
    let data = match response.data {
        Some(data) => data,
        None => {
            let messages = get_reported(&response.errors);
            if messages.len() > 0 {
                return Err(Error::Graphql(messages));
            }
            return Err(Error::NoData);
        },
    };
    let rate_limit = match data.rate_limit {
        Some(rate_limit) => rate_limit,
        None => {
            return Err(Error::NoRateLimit);
        },
    };
    let repository = match data.repository {
        Some(repository) => repository,
        None => {
            return Err(
                Error::RepositoryNotFound {
                    owner: variables.owner.clone(),
                    repo_name: variables.repo_name.clone(),
                },
            );
        },
    };
    let repo = get_repo_info(&repository)?;
    let branch = match &repository.ref_ {
        Some(branch) => get_branch_info(branch)?,
        None => {
            return Err(
                Error::BranchNotFound {
                    branch: variables.branch.clone(),
                    name_with_owner: repository.name_with_owner.clone(),
                },
            );
        },
    };
    Ok(
        Data {
            rate_limit_info: get_rate_limit_info(rate_limit),
            repo,
            branch,
            errors: get_graphql_errors(response.errors),
        },
    )
}

} // verus!
