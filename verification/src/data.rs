//! The normalized result: one flat, stable schema, whatever shape the
//! response had.

use crate::text::{opt_view, seq_view};
use vstd::prelude::*;

verus! {

/// An account or a git signature. `handle` is a login that the server gave,
/// never one made up here; `name` and `email` are passed on as they came.
#[derive(Debug, PartialEq, Eq)]
pub struct User {
    pub avatar_url: String,
    pub handle: Option<String>,
    pub name: Option<String>,
    pub email: Option<String>,
}

/// The repository that was asked about.
#[derive(Debug, PartialEq, Eq)]
pub struct Repo {
    pub name_with_owner: String,
    pub owner: User,
}

/// The commit at the head of the branch.
#[derive(Debug, PartialEq, Eq)]
pub struct Commit {
    pub author: User,
    pub committer: User,
    pub sha: String,
    pub message: String,
}

/// The branch that was asked about.
#[derive(Debug, PartialEq, Eq)]
pub struct Branch {
    pub name: String,
    pub head: Commit,
}

/// One error that the server reported.
#[derive(Debug, PartialEq, Eq)]
pub struct GraphqlError {
    pub message: String,
}

/// What the query cost, and what is left of the token's quota. `reset_at` is
/// the server's text, not looked into.
#[derive(Debug, PartialEq, Eq)]
pub struct RateLimitInfo {
    pub cost: i64,
    pub limit: i64,
    pub node_count: i64,
    pub remaining: i64,
    pub used: i64,
    pub reset_at: String,
}

/// What one invocation yields. Every part is there: a response that lacks one
/// yields an error and no `Data`. `errors` holds what the server reported
/// beside complete data, and is empty where it reported nothing.
#[derive(Debug, PartialEq, Eq)]
pub struct Data {
    pub errors: Vec<GraphqlError>,
    pub rate_limit_info: RateLimitInfo,
    pub repo: Repo,
    pub branch: Branch,
}

/// The mathematical value of a [`User`].
pub struct UserView {
    pub avatar_url: Seq<char>,
    pub handle: Option<Seq<char>>,
    pub name: Option<Seq<char>>,
    pub email: Option<Seq<char>>,
}

/// The mathematical value of a [`Repo`].
pub struct RepoView {
    pub name_with_owner: Seq<char>,
    pub owner: UserView,
}

/// The mathematical value of a [`Commit`].
pub struct CommitView {
    pub author: UserView,
    pub committer: UserView,
    pub sha: Seq<char>,
    pub message: Seq<char>,
}

/// The mathematical value of a [`Branch`].
pub struct BranchView {
    pub name: Seq<char>,
    pub head: CommitView,
}

/// The mathematical value of a [`GraphqlError`].
pub struct GraphqlErrorView {
    pub message: Seq<char>,
}

/// The mathematical value of a [`RateLimitInfo`].
pub struct RateLimitInfoView {
    pub cost: i64,
    pub limit: i64,
    pub node_count: i64,
    pub remaining: i64,
    pub used: i64,
    pub reset_at: Seq<char>,
}

/// The mathematical value of a [`Data`].
pub struct DataView {
    pub errors: Seq<GraphqlErrorView>,
    pub rate_limit_info: RateLimitInfoView,
    pub repo: RepoView,
    pub branch: BranchView,
}

impl View for User {
    type V = UserView;

    open spec fn view(&self) -> UserView {
        UserView {
            avatar_url: self.avatar_url@,
            handle: opt_view(self.handle),
            name: opt_view(self.name),
            email: opt_view(self.email),
        }
    }
}

impl View for Repo {
    type V = RepoView;

    open spec fn view(&self) -> RepoView {
        RepoView { name_with_owner: self.name_with_owner@, owner: self.owner@ }
    }
}

impl View for Commit {
    type V = CommitView;

    open spec fn view(&self) -> CommitView {
        CommitView {
            author: self.author@,
            committer: self.committer@,
            sha: self.sha@,
            message: self.message@,
        }
    }
}

impl View for Branch {
    type V = BranchView;

    open spec fn view(&self) -> BranchView {
        BranchView { name: self.name@, head: self.head@ }
    }
}

impl View for GraphqlError {
    type V = GraphqlErrorView;

    open spec fn view(&self) -> GraphqlErrorView {
        GraphqlErrorView { message: self.message@ }
    }
}

impl View for RateLimitInfo {
    type V = RateLimitInfoView;

    open spec fn view(&self) -> RateLimitInfoView {
        RateLimitInfoView {
            cost: self.cost,
            limit: self.limit,
            node_count: self.node_count,
            remaining: self.remaining,
            used: self.used,
            reset_at: self.reset_at@,
        }
    }
}

impl View for Data {
    type V = DataView;

    open spec fn view(&self) -> DataView {
        DataView {
            errors: seq_view(self.errors@),
            rate_limit_info: self.rate_limit_info@,
            repo: self.repo@,
            branch: self.branch@,
        }
    }
}

} // verus!
