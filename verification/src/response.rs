//! The response as the server sends it: every link may be absent, the
//! repository's owner and the branch's target come in variants.

use crate::text::{opt_view, seq_view};
use vstd::prelude::*;

verus! {

/// One error that the server reports.
#[derive(Debug, PartialEq, Eq)]
pub struct ResponseError {
    pub message: String,
}

/// What the query cost, and what is left of the token's quota.
#[derive(Debug, PartialEq, Eq)]
pub struct RateLimit {
    pub cost: i64,
    pub limit: i64,
    pub node_count: i64,
    pub remaining: i64,
    pub used: i64,
    pub reset_at: String,
}

/// What an owner has beyond login and avatar, by the owner's type.
#[derive(Debug, PartialEq, Eq)]
#[allow(inconsistent_fields)]
pub enum OwnerOn {
    User { name: Option<String>, email: String },
    Organization { name: Option<String>, email: Option<String> },
    /// A type of owner that this library does not know.
    Other { typename: String },
}

/// The owner of a repository.
#[derive(Debug, PartialEq, Eq)]
pub struct Owner {
    pub avatar_url: String,
    pub login: String,
    pub on: OwnerOn,
}

/// The account that a git signature's email belongs to.
#[derive(Debug, PartialEq, Eq)]
pub struct ActorUser {
    pub login: String,
}

/// A git signature: the author or the committer of a commit.
#[derive(Debug, PartialEq, Eq)]
pub struct GitActor {
    pub avatar_url: String,
    pub name: Option<String>,
    pub email: Option<String>,
    pub user: Option<ActorUser>,
}

/// A commit at the head of a branch.
#[derive(Debug, PartialEq, Eq)]
pub struct CommitTarget {
    pub oid: String,
    pub message: String,
    pub author: Option<GitActor>,
    pub committer: Option<GitActor>,
}

/// What a branch points at, by the object's type.
#[derive(Debug, PartialEq, Eq)]
pub enum TargetOn {
    Commit(CommitTarget),
    /// A git object that is no commit: its fields are not read.
    Other { typename: String },
}

/// The git object that a branch points at.
#[derive(Debug, PartialEq, Eq)]
pub struct Target {
    pub on: TargetOn,
}

/// A branch of a repository.
#[derive(Debug, PartialEq, Eq)]
pub struct BranchRef {
    pub name: String,
    pub target: Option<Target>,
}

/// A repository, with the branch that was asked for.
#[derive(Debug, PartialEq, Eq)]
pub struct Repository {
    pub name_with_owner: String,
    pub owner: Owner,
    pub ref_: Option<BranchRef>,
}

/// The data of a response.
#[derive(Debug, PartialEq, Eq)]
pub struct ResponseData {
    pub rate_limit: Option<RateLimit>,
    pub repository: Option<Repository>,
}

/// The GraphQL envelope: data, errors, or both.
#[derive(Debug, PartialEq, Eq)]
pub struct RawResponse {
    pub data: Option<ResponseData>,
    pub errors: Option<Vec<ResponseError>>,
}

/// The mathematical value of a [`ResponseError`].
pub struct ResponseErrorView {
    pub message: Seq<char>,
}

/// The mathematical value of a [`RateLimit`].
pub struct RateLimitView {
    pub cost: i64,
    pub limit: i64,
    pub node_count: i64,
    pub remaining: i64,
    pub used: i64,
    pub reset_at: Seq<char>,
}

/// The mathematical value of an [`OwnerOn`].
#[allow(inconsistent_fields)]
pub enum OwnerOnView {
    User { name: Option<Seq<char>>, email: Seq<char> },
    Organization { name: Option<Seq<char>>, email: Option<Seq<char>> },
    Other { typename: Seq<char> },
}

/// The mathematical value of an [`Owner`].
pub struct OwnerView {
    pub avatar_url: Seq<char>,
    pub login: Seq<char>,
    pub on: OwnerOnView,
}

/// The mathematical value of an [`ActorUser`].
pub struct ActorUserView {
    pub login: Seq<char>,
}

/// The mathematical value of a [`GitActor`].
pub struct GitActorView {
    pub avatar_url: Seq<char>,
    pub name: Option<Seq<char>>,
    pub email: Option<Seq<char>>,
    pub user: Option<ActorUserView>,
}

/// The mathematical value of a [`CommitTarget`].
pub struct CommitTargetView {
    pub oid: Seq<char>,
    pub message: Seq<char>,
    pub author: Option<GitActorView>,
    pub committer: Option<GitActorView>,
}

/// The mathematical value of a [`TargetOn`].
pub enum TargetOnView {
    Commit(CommitTargetView),
    Other { typename: Seq<char> },
}

/// The mathematical value of a [`Target`].
pub struct TargetView {
    pub on: TargetOnView,
}

/// The mathematical value of a [`BranchRef`].
pub struct BranchRefView {
    pub name: Seq<char>,
    pub target: Option<TargetView>,
}

/// The mathematical value of a [`Repository`].
pub struct RepositoryView {
    pub name_with_owner: Seq<char>,
    pub owner: OwnerView,
    pub ref_: Option<BranchRefView>,
}

/// The mathematical value of a [`ResponseData`].
pub struct ResponseDataView {
    pub rate_limit: Option<RateLimitView>,
    pub repository: Option<RepositoryView>,
}

/// The mathematical value of a [`RawResponse`].
pub struct RawResponseView {
    pub data: Option<ResponseDataView>,
    pub errors: Option<Seq<ResponseErrorView>>,
}

impl View for ResponseError {
    type V = ResponseErrorView;

    open spec fn view(&self) -> ResponseErrorView {
        ResponseErrorView { message: self.message@ }
    }
}

impl View for RateLimit {
    type V = RateLimitView;

    open spec fn view(&self) -> RateLimitView {
        RateLimitView {
            cost: self.cost,
            limit: self.limit,
            node_count: self.node_count,
            remaining: self.remaining,
            used: self.used,
            reset_at: self.reset_at@,
        }
    }
}

impl View for OwnerOn {
    type V = OwnerOnView;

    open spec fn view(&self) -> OwnerOnView {
        match self {
            OwnerOn::User { name, email } => OwnerOnView::User {
                name: opt_view(*name),
                email: email@,
            },
            OwnerOn::Organization { name, email } => OwnerOnView::Organization {
                name: opt_view(*name),
                email: opt_view(*email),
            },
            OwnerOn::Other { typename } => OwnerOnView::Other { typename: typename@ },
        }
    }
}

impl View for Owner {
    type V = OwnerView;

    open spec fn view(&self) -> OwnerView {
        OwnerView { avatar_url: self.avatar_url@, login: self.login@, on: self.on@ }
    }
}

impl View for ActorUser {
    type V = ActorUserView;

    open spec fn view(&self) -> ActorUserView {
        ActorUserView { login: self.login@ }
    }
}

impl View for GitActor {
    type V = GitActorView;

    open spec fn view(&self) -> GitActorView {
        GitActorView {
            avatar_url: self.avatar_url@,
            name: opt_view(self.name),
            email: opt_view(self.email),
            user: opt_view(self.user),
        }
    }
}

impl View for CommitTarget {
    type V = CommitTargetView;

    open spec fn view(&self) -> CommitTargetView {
        CommitTargetView {
            oid: self.oid@,
            message: self.message@,
            author: opt_view(self.author),
            committer: opt_view(self.committer),
        }
    }
}

impl View for TargetOn {
    type V = TargetOnView;

    open spec fn view(&self) -> TargetOnView {
        match self {
            TargetOn::Commit(commit) => TargetOnView::Commit(commit@),
            TargetOn::Other { typename } => TargetOnView::Other { typename: typename@ },
        }
    }
}

impl View for Target {
    type V = TargetView;

    open spec fn view(&self) -> TargetView {
        TargetView { on: self.on@ }
    }
}

impl View for BranchRef {
    type V = BranchRefView;

    open spec fn view(&self) -> BranchRefView {
        BranchRefView { name: self.name@, target: opt_view(self.target) }
    }
}

impl View for Repository {
    type V = RepositoryView;

    open spec fn view(&self) -> RepositoryView {
        RepositoryView {
            name_with_owner: self.name_with_owner@,
            owner: self.owner@,
            ref_: opt_view(self.ref_),
        }
    }
}

impl View for ResponseData {
    type V = ResponseDataView;

    open spec fn view(&self) -> ResponseDataView {
        ResponseDataView {
            rate_limit: opt_view(self.rate_limit),
            repository: opt_view(self.repository),
        }
    }
}

/// The mathematical value of the errors of a response.
pub open spec fn errors_view(errors: Option<Vec<ResponseError>>) -> Option<
    Seq<ResponseErrorView>,
> {
    match errors {
        Some(errors) => Some(seq_view(errors@)),
        None => None,
    }
}

impl View for RawResponse {
    type V = RawResponseView;

    open spec fn view(&self) -> RawResponseView {
        RawResponseView { data: opt_view(self.data), errors: errors_view(self.errors) }
    }
}

} // verus!
