//! Reading the response out of a JSON document: which members each part must
//! have, which it may have, and of what kind they are.

use crate::error::{outcome_view, Error, ErrorView, Expected, Kind};
use crate::json::{items_view, lemma_items_view, Json, JsonView};
use crate::response::{
    ActorUser, ActorUserView, BranchRef, BranchRefView, CommitTarget, CommitTargetView, GitActor,
    GitActorView, Owner, OwnerOn, OwnerOnView, OwnerView, RateLimit, RateLimitView, RawResponse,
    RawResponseView, Repository, RepositoryView, ResponseData, ResponseDataView, ResponseError,
    ResponseErrorView, Target, TargetOn, TargetOnView, TargetView,
};
use crate::text::{is_text, seq_view};
use vstd::prelude::*;
use vstd::string::*;

verus! {

/// What is read out of a part that may be absent: nothing where it is absent,
/// else what `read` makes of it.
pub open spec fn optionally<T>(
    found: Result<Option<JsonView>, ErrorView>,
    read: spec_fn(JsonView) -> Result<T, ErrorView>,
) -> Result<Option<T>, ErrorView> {
    match found {
        Err(error) => Err(error),
        Ok(None) => Ok(None),
        Ok(Some(json)) => match read(json) {
            Ok(value) => Ok(Some(value)),
            Err(error) => Err(error),
        },
    }
}

impl ResponseErrorView {
    /// An error of the server: its text under `message`.
    pub open spec fn from_json(json: JsonView) -> Result<ResponseErrorView, ErrorView> {
        match json.string_at("message"@) {
            Ok(message) => Ok(ResponseErrorView { message }),
            Err(error) => Err(error),
        }
    }

    /// The errors of a list, or what is wrong with the first item that is none.
    pub open spec fn all_from_json(items: Seq<JsonView>) -> Result<
        Seq<ResponseErrorView>,
        ErrorView,
    >
        decreases items.len(),
    {
        if items.len() == 0 {
            Ok(Seq::empty())
        } else {
            let front = Self::all_from_json(items.drop_last());
            let last = Self::from_json(items.last());
            if front is Err {
                front
            } else if last is Err {
                Err(last->Err_0)
            } else {
                Ok(front->Ok_0.push(last->Ok_0))
            }
        }
    }

    /// Once the items up to some place hold one that is no error, the whole
    /// list fails as they do.
    pub proof fn lemma_failure_stays(items: Seq<JsonView>, upto: int)
        requires
            0 <= upto <= items.len(),
            Self::all_from_json(items.take(upto)) is Err,
        ensures
            Self::all_from_json(items) == Self::all_from_json(items.take(upto)),
        decreases items.len() - upto,
    {
        if upto == items.len() {
            assert(items.take(upto) =~= items);
        } else {
            assert(items.take(upto + 1).drop_last() =~= items.take(upto));
            Self::lemma_failure_stays(items, upto + 1);
        }
    }
}

impl RateLimitView {
    /// The rate limit: five integers and the time of the reset, none of which
    /// may be absent.
    pub open spec fn from_json(json: JsonView) -> Result<RateLimitView, ErrorView> {
        let cost = json.integer_at("cost"@);
        let limit = json.integer_at("limit"@);
        let node_count = json.integer_at("nodeCount"@);
        let remaining = json.integer_at("remaining"@);
        let used = json.integer_at("used"@);
        let reset_at = json.string_at("resetAt"@);
        if cost is Err {
            Err(cost->Err_0)
        } else if limit is Err {
            Err(limit->Err_0)
        } else if node_count is Err {
            Err(node_count->Err_0)
        } else if remaining is Err {
            Err(remaining->Err_0)
        } else if used is Err {
            Err(used->Err_0)
        } else if reset_at is Err {
            Err(reset_at->Err_0)
        } else {
            Ok(
                RateLimitView {
                    cost: cost->Ok_0,
                    limit: limit->Ok_0,
                    node_count: node_count->Ok_0,
                    remaining: remaining->Ok_0,
                    used: used->Ok_0,
                    reset_at: reset_at->Ok_0,
                },
            )
        }
    }
}

impl OwnerOnView {
    /// What an owner has by its type. `__typename` decides which members are
    /// read; of a type other than `User` and `Organization` its name is kept.
    pub open spec fn from_json(json: JsonView) -> Result<OwnerOnView, ErrorView> {
        let typename = json.string_at("__typename"@);
        if typename is Err {
            Err(typename->Err_0)
        } else if typename->Ok_0 == "User"@ {
            let name = json.optional_string_at("name"@);
            let email = json.string_at("email"@);
            if name is Err {
                Err(name->Err_0)
            } else if email is Err {
                Err(email->Err_0)
            } else {
                Ok(OwnerOnView::User { name: name->Ok_0, email: email->Ok_0 })
            }
        } else if typename->Ok_0 == "Organization"@ {
            let name = json.optional_string_at("name"@);
            let email = json.optional_string_at("email"@);
            if name is Err {
                Err(name->Err_0)
            } else if email is Err {
                Err(email->Err_0)
            } else {
                Ok(OwnerOnView::Organization { name: name->Ok_0, email: email->Ok_0 })
            }
        } else {
            Ok(OwnerOnView::Other { typename: typename->Ok_0 })
        }
    }
}

impl OwnerView {
    /// The owner of a repository: login, avatar, and what it has by its type.
    pub open spec fn from_json(json: JsonView) -> Result<OwnerView, ErrorView> {
        let avatar_url = json.string_at("avatarUrl"@);
        let login = json.string_at("login"@);
        let on = OwnerOnView::from_json(json);
        if avatar_url is Err {
            Err(avatar_url->Err_0)
        } else if login is Err {
            Err(login->Err_0)
        } else if on is Err {
            Err(on->Err_0)
        } else {
            Ok(OwnerView { avatar_url: avatar_url->Ok_0, login: login->Ok_0, on: on->Ok_0 })
        }
    }
}

impl ActorUserView {
    /// The account of a git signature: its login.
    pub open spec fn from_json(json: JsonView) -> Result<ActorUserView, ErrorView> {
        match json.string_at("login"@) {
            Ok(login) => Ok(ActorUserView { login }),
            Err(error) => Err(error),
        }
    }
}

impl GitActorView {
    /// A git signature: the avatar, and name, email and account where there
    /// are any.
    pub open spec fn from_json(json: JsonView) -> Result<GitActorView, ErrorView> {
        let avatar_url = json.string_at("avatarUrl"@);
        let name = json.optional_string_at("name"@);
        let email = json.optional_string_at("email"@);
        let user = optionally(
            json.optional_object_at("user"@),
            |user: JsonView| ActorUserView::from_json(user),
        );
        if avatar_url is Err {
            Err(avatar_url->Err_0)
        } else if name is Err {
            Err(name->Err_0)
        } else if email is Err {
            Err(email->Err_0)
        } else if user is Err {
            Err(user->Err_0)
        } else {
            Ok(
                GitActorView {
                    avatar_url: avatar_url->Ok_0,
                    name: name->Ok_0,
                    email: email->Ok_0,
                    user: user->Ok_0,
                },
            )
        }
    }
}

impl CommitTargetView {
    /// A commit: its id and message, and author and committer where there are
    /// any.
    pub open spec fn from_json(json: JsonView) -> Result<CommitTargetView, ErrorView> {
        let oid = json.string_at("oid"@);
        let message = json.string_at("message"@);
        let author = optionally(
            json.optional_object_at("author"@),
            |actor: JsonView| GitActorView::from_json(actor),
        );
        let committer = optionally(
            json.optional_object_at("committer"@),
            |actor: JsonView| GitActorView::from_json(actor),
        );
        if oid is Err {
            Err(oid->Err_0)
        } else if message is Err {
            Err(message->Err_0)
        } else if author is Err {
            Err(author->Err_0)
        } else if committer is Err {
            Err(committer->Err_0)
        } else {
            Ok(
                CommitTargetView {
                    oid: oid->Ok_0,
                    message: message->Ok_0,
                    author: author->Ok_0,
                    committer: committer->Ok_0,
                },
            )
        }
    }
}

impl TargetView {
    /// The fields of a commit are read of a commit only: of any other object
    /// the type's name is all that is kept.
    pub open spec fn from_json(json: JsonView) -> Result<TargetView, ErrorView> {
        let typename = json.string_at("__typename"@);
        if typename is Err {
            Err(typename->Err_0)
        } else if typename->Ok_0 == "Commit"@ {
            match CommitTargetView::from_json(json) {
                Ok(commit) => Ok(TargetView { on: TargetOnView::Commit(commit) }),
                Err(error) => Err(error),
            }
        } else {
            Ok(TargetView { on: TargetOnView::Other { typename: typename->Ok_0 } })
        }
    }
}

/// Of a target that is no commit only the type's name is read: whatever else
/// the object holds, and whatever it lacks, changes nothing.
pub proof fn lemma_other_target_unread(json: JsonView, typename: Seq<char>)
    requires
        json.string_at("__typename"@) == Ok::<Seq<char>, ErrorView>(typename),
        typename != "Commit"@,
    ensures
        TargetView::from_json(json) == Ok::<TargetView, ErrorView>(
            TargetView { on: TargetOnView::Other { typename } },
        ),
{
}

impl BranchRefView {
    /// A branch: its name, and the target where it has one.
    pub open spec fn from_json(json: JsonView) -> Result<BranchRefView, ErrorView> {
        let name = json.string_at("name"@);
        let target = optionally(
            json.optional_object_at("target"@),
            |target: JsonView| TargetView::from_json(target),
        );
        if name is Err {
            Err(name->Err_0)
        } else if target is Err {
            Err(target->Err_0)
        } else {
            Ok(BranchRefView { name: name->Ok_0, target: target->Ok_0 })
        }
    }
}

impl RepositoryView {
    /// A repository: its name with owner, the owner, and the branch where
    /// there is one.
    pub open spec fn from_json(json: JsonView) -> Result<RepositoryView, ErrorView> {
        let name_with_owner = json.string_at("nameWithOwner"@);
        let owner = match json.object_at("owner"@) {
            Ok(owner) => OwnerView::from_json(owner),
            Err(error) => Err(error),
        };
        let ref_ = optionally(
            json.optional_object_at("ref"@),
            |branch: JsonView| BranchRefView::from_json(branch),
        );
        if name_with_owner is Err {
            Err(name_with_owner->Err_0)
        } else if owner is Err {
            Err(owner->Err_0)
        } else if ref_ is Err {
            Err(ref_->Err_0)
        } else {
            Ok(
                RepositoryView {
                    name_with_owner: name_with_owner->Ok_0,
                    owner: owner->Ok_0,
                    ref_: ref_->Ok_0,
                },
            )
        }
    }
}

impl ResponseDataView {
    /// The data of a response: the rate limit and the repository, where there
    /// are any.
    pub open spec fn from_json(json: JsonView) -> Result<ResponseDataView, ErrorView> {
        let rate_limit = optionally(
            json.optional_object_at("rateLimit"@),
            |rate_limit: JsonView| RateLimitView::from_json(rate_limit),
        );
        let repository = optionally(
            json.optional_object_at("repository"@),
            |repository: JsonView| RepositoryView::from_json(repository),
        );
        if rate_limit is Err {
            Err(rate_limit->Err_0)
        } else if repository is Err {
            Err(repository->Err_0)
        } else {
            Ok(ResponseDataView { rate_limit: rate_limit->Ok_0, repository: repository->Ok_0 })
        }
    }
}

impl RawResponseView {
    /// The envelope that a document holds. The document must be an object;
    /// `data` and `errors` may each be absent or `null`; members that the
    /// query did not ask for are passed over.
    pub open spec fn from_json(json: JsonView) -> Result<RawResponseView, ErrorView> {
        let data = optionally(
            json.optional_object_at("data"@),
            |data: JsonView| ResponseDataView::from_json(data),
        );
        let errors = match json.optional_array_at("errors"@) {
            Err(error) => Err(error),
            Ok(None) => Ok(None),
            Ok(Some(items)) => match ResponseErrorView::all_from_json(items) {
                Ok(errors) => Ok(Some(errors)),
                Err(error) => Err(error),
            },
        };
        if !(json is Object) {
            Err(ErrorView::InvalidType { field: "response"@, expected: Expected::Object })
        } else if data is Err {
            Err(data->Err_0)
        } else if errors is Err {
            Err(errors->Err_0)
        } else {
            Ok(RawResponseView { data: data->Ok_0, errors: errors->Ok_0 })
        }
    }
}

/// The error tells of a member that is absent or of the wrong kind.
pub open spec fn of_shape(error: ErrorView) -> bool {
    error is MissingField || error is InvalidType
}

/// Reading the envelope out of a document fails only on the document's shape.
pub proof fn lemma_kinds_of_envelope(document: JsonView)
    requires
        RawResponseView::from_json(document) is Err,
    ensures
        of_shape(RawResponseView::from_json(document)->Err_0),
        RawResponseView::from_json(document)->Err_0.kind() == Kind::Shape,
{
    let errors = document.optional_array_at("errors"@);
    if errors is Ok && errors->Ok_0 is Some {
        lemma_kinds_of_errors(errors->Ok_0->0);
    }
}

/// Reading the errors of a list fails only on an item's shape.
pub proof fn lemma_kinds_of_errors(items: Seq<JsonView>)
    ensures
        ResponseErrorView::all_from_json(items) is Err ==> of_shape(
            ResponseErrorView::all_from_json(items)->Err_0,
        ),
    decreases items.len(),
{
    if items.len() > 0 {
        lemma_kinds_of_errors(items.drop_last());
    }
}

/// The envelope is read out of `data` and `errors` alone: two objects that
/// agree on these two members hold the same envelope, whatever else they hold
/// and in whatever order.
pub proof fn lemma_envelope_reads_two_members(first: JsonView, second: JsonView)
    requires
        first is Object,
        second is Object,
        first.member("data"@) == second.member("data"@),
        first.member("errors"@) == second.member("errors"@),
    ensures
        RawResponseView::from_json(first) == RawResponseView::from_json(second),
{
}

impl ResponseError {
    /// Reads an error of the server.
    pub fn from_json(json: &Json) -> (outcome: Result<ResponseError, Error>)
        ensures
            outcome_view(outcome) == ResponseErrorView::from_json(json@),
    {
        let message = json.string_at("message")?;
        Ok(ResponseError { message })
    }

    /// The errors of a list, or what is wrong with the first item that is none.
    pub fn all_from_json(items: &Vec<Json>) -> (outcome: Result<Vec<ResponseError>, Error>)
        ensures
            match outcome {
                Ok(errors) => ResponseErrorView::all_from_json(items_view(items@)) == Ok::<
                    Seq<ResponseErrorView>,
                    ErrorView,
                >(seq_view(errors@)),
                Err(error) => ResponseErrorView::all_from_json(items_view(items@)) == Err::<
                    Seq<ResponseErrorView>,
                    ErrorView,
                >(error@),
            },
    {
        let ghost all = items_view(items@);
        proof {
            lemma_items_view(items@);
        }
        let mut errors: Vec<ResponseError> = Vec::new();
        let mut at: usize = 0;
        proof {
            assert(all.take(0).len() == 0);
            assert(seq_view(errors@) =~= Seq::<ResponseErrorView>::empty());
        }
        while at < items.len()
            invariant
                at <= items.len(),
                all == items_view(items@),
                all.len() == items@.len(),
                forall|i: int| 0 <= i < all.len() ==> #[trigger] all[i] == items@[i]@,
                ResponseErrorView::all_from_json(all.take(at as int)) == Ok::<
                    Seq<ResponseErrorView>,
                    ErrorView,
                >(seq_view(errors@)),
            decreases items.len() - at,
        {
            let ghost before = seq_view(errors@);
            proof {
                assert(all.take(at + 1).drop_last() =~= all.take(at as int));
                assert(all.take(at + 1).last() == items@[at as int]@);
            }
            match ResponseError::from_json(&items[at]) {
                Ok(error) => {
                    errors.push(error);
                    proof {
                        assert(seq_view(errors@) =~= before.push(error@));
                    }
                },
                Err(error) => {
                    proof {
                        ResponseErrorView::lemma_failure_stays(all, at + 1);
                    }
                    return Err(error);
                },
            }
            at = at + 1;
        }
        proof {
            assert(all.take(at as int) =~= all);
        }
        Ok(errors)
    }
}

impl RateLimit {
    /// Reads the rate limit.
    pub fn from_json(json: &Json) -> (outcome: Result<RateLimit, Error>)
        ensures
            outcome_view(outcome) == RateLimitView::from_json(json@),
    {
        let cost = json.integer_at("cost")?;
        let limit = json.integer_at("limit")?;
        let node_count = json.integer_at("nodeCount")?;
        let remaining = json.integer_at("remaining")?;
        let used = json.integer_at("used")?;
        let reset_at = json.string_at("resetAt")?;
        Ok(RateLimit { cost, limit, node_count, remaining, used, reset_at })
    }
}

impl OwnerOn {
    /// Reads what an owner has by its type.
    pub fn from_json(json: &Json) -> (outcome: Result<OwnerOn, Error>)
        ensures
            outcome_view(outcome) == OwnerOnView::from_json(json@),
    {
        let typename = json.string_at("__typename")?;
        if is_text(&typename, "User") {
            let name = json.optional_string_at("name")?;
            let email = json.string_at("email")?;
            Ok(OwnerOn::User { name, email })
        } else if is_text(&typename, "Organization") {
            let name = json.optional_string_at("name")?;
            let email = json.optional_string_at("email")?;
            Ok(OwnerOn::Organization { name, email })
        } else {
            Ok(OwnerOn::Other { typename })
        }
    }
}

impl Owner {
    /// Reads the owner of a repository.
    pub fn from_json(json: &Json) -> (outcome: Result<Owner, Error>)
        ensures
            outcome_view(outcome) == OwnerView::from_json(json@),
    {
        let avatar_url = json.string_at("avatarUrl")?;
        let login = json.string_at("login")?;
        let on = OwnerOn::from_json(json)?;
        Ok(Owner { avatar_url, login, on })
    }
}

impl ActorUser {
    /// Reads the account of a git signature.
    pub fn from_json(json: &Json) -> (outcome: Result<ActorUser, Error>)
        ensures
            outcome_view(outcome) == ActorUserView::from_json(json@),
    {
        let login = json.string_at("login")?;
        Ok(ActorUser { login })
    }
}

impl GitActor {
    /// Reads a git signature.
    pub fn from_json(json: &Json) -> (outcome: Result<GitActor, Error>)
        ensures
            outcome_view(outcome) == GitActorView::from_json(json@),
    {
        let avatar_url = json.string_at("avatarUrl")?;
        let name = json.optional_string_at("name")?;
        let email = json.optional_string_at("email")?;
        let user = match json.optional_object_at("user")? {
            Some(user) => Some(ActorUser::from_json(user)?),
            None => None,
        };
        Ok(GitActor { avatar_url, name, email, user })
    }
}

impl CommitTarget {
    /// Reads a commit.
    pub fn from_json(json: &Json) -> (outcome: Result<CommitTarget, Error>)
        ensures
            outcome_view(outcome) == CommitTargetView::from_json(json@),
    {
        let oid = json.string_at("oid")?;
        let message = json.string_at("message")?;
        let author = match json.optional_object_at("author")? {
            Some(actor) => Some(GitActor::from_json(actor)?),
            None => None,
        };
        let committer = match json.optional_object_at("committer")? {
            Some(actor) => Some(GitActor::from_json(actor)?),
            None => None,
        };
        Ok(CommitTarget { oid, message, author, committer })
    }
}

impl Target {
    /// Reads the target of a branch.
    pub fn from_json(json: &Json) -> (outcome: Result<Target, Error>)
        ensures
            outcome_view(outcome) == TargetView::from_json(json@),
    {
        let typename = json.string_at("__typename")?;
        if is_text(&typename, "Commit") {
            let commit = CommitTarget::from_json(json)?;
            Ok(Target { on: TargetOn::Commit(commit) })
        } else {
            Ok(Target { on: TargetOn::Other { typename } })
        }
    }
}

impl BranchRef {
    /// Reads a branch.
    pub fn from_json(json: &Json) -> (outcome: Result<BranchRef, Error>)
        ensures
            outcome_view(outcome) == BranchRefView::from_json(json@),
    {
        let name = json.string_at("name")?;
        let target = match json.optional_object_at("target")? {
            Some(target) => Some(Target::from_json(target)?),
            None => None,
        };
        Ok(BranchRef { name, target })
    }
}

impl Repository {
    /// Reads a repository.
    pub fn from_json(json: &Json) -> (outcome: Result<Repository, Error>)
        ensures
            outcome_view(outcome) == RepositoryView::from_json(json@),
    {
        let name_with_owner = json.string_at("nameWithOwner")?;
        let owner = Owner::from_json(json.object_at("owner")?)?;
        let ref_ = match json.optional_object_at("ref")? {
            Some(branch) => Some(BranchRef::from_json(branch)?),
            None => None,
        };
        Ok(Repository { name_with_owner, owner, ref_ })
    }
}

impl ResponseData {
    /// Reads the data of a response.
    pub fn from_json(json: &Json) -> (outcome: Result<ResponseData, Error>)
        ensures
            outcome_view(outcome) == ResponseDataView::from_json(json@),
    {
        let rate_limit = match json.optional_object_at("rateLimit")? {
            Some(rate_limit) => Some(RateLimit::from_json(rate_limit)?),
            None => None,
        };
        let repository = match json.optional_object_at("repository")? {
            Some(repository) => Some(Repository::from_json(repository)?),
            None => None,
        };
        Ok(ResponseData { rate_limit, repository })
    }
}

impl RawResponse {
    /// Reads the envelope out of a document.
    pub fn from_json(json: &Json) -> (outcome: Result<RawResponse, Error>)
        ensures
            outcome_view(outcome) == RawResponseView::from_json(json@),
    {
        match json {
            Json::Object(_) => {},
            _ => {
                return Err(
                    Error::InvalidType {
                        field: String::from_str("response"),
                        expected: Expected::Object,
                    },
                );
            },
        }
        let data = match json.optional_object_at("data")? {
            Some(data) => Some(ResponseData::from_json(data)?),
            None => None,
        };
        let errors = match json.optional_array_at("errors")? {
            Some(items) => Some(ResponseError::all_from_json(items)?),
            None => None,
        };
        Ok(RawResponse { data, errors })
    }
}

} // verus!
