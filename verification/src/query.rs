//! The one query that this library asks, and the body that carries it.

use crate::error::{outcome_view, Error, ErrorView};
use crate::json::{quote, quoted};
use vstd::prelude::*;
use vstd::string::*;

verus! {

/// The query document: repository and owner, the branch with its head commit
/// and the commit's author and committer, and the rate limit.
pub const QUERY: &'static str =
    "query BranchHeadCommitAuthor($owner: String!, $repoName: String!, $branch: String!) {
  rateLimit {
    cost
    limit
    nodeCount
    remaining
    used
    resetAt
  }
  repository(owner: $owner, name: $repoName) {
    nameWithOwner
    owner {
      __typename
      login
      avatarUrl
      ... on User {
        name
        email
      }
      ... on Organization {
        name
        email
      }
    }
    ref(qualifiedName: $branch) {
      name
      target {
        __typename
        ... on Commit {
          oid
          message
          author {
            avatarUrl
            name
            email
            user {
              login
            }
          }
          committer {
            avatarUrl
            name
            email
            user {
              login
            }
          }
        }
      }
    }
  }
}
";

/// The name of the operation in [`QUERY`].
pub const OPERATION_NAME: &'static str = "BranchHeadCommitAuthor";

/// The variables of the query. None is looked at here: the server judges them.
#[derive(Debug, PartialEq, Eq)]
pub struct Variables {
    pub owner: String,
    pub repo_name: String,
    pub branch: String,
}

/// The mathematical value of a [`Variables`].
pub struct VariablesView {
    pub owner: Seq<char>,
    pub repo_name: Seq<char>,
    pub branch: Seq<char>,
}

impl View for Variables {
    type V = VariablesView;

    open spec fn view(&self) -> VariablesView {
        VariablesView { owner: self.owner@, repo_name: self.repo_name@, branch: self.branch@ }
    }
}

impl Clone for Variables {
    fn clone(&self) -> (copy: Self)
        ensures
            copy@ == self@,
    {
        Variables {
            owner: self.owner.clone(),
            repo_name: self.repo_name.clone(),
            branch: self.branch.clone(),
        }
    }
}

/// What is sent over HTTP: the variables, the query document and the name of
/// its operation.
#[derive(Debug, PartialEq, Eq)]
pub struct QueryBody {
    pub variables: Variables,
    pub query: &'static str,
    pub operation_name: &'static str,
}

/// The mathematical value of a [`QueryBody`].
pub struct QueryBodyView {
    pub variables: VariablesView,
    pub query: Seq<char>,
    pub operation_name: Seq<char>,
}

impl View for QueryBody {
    type V = QueryBodyView;

    open spec fn view(&self) -> QueryBodyView {
        QueryBodyView {
            variables: self.variables@,
            query: self.query@,
            operation_name: self.operation_name@,
        }
    }
}

/// The query for the head commit of a branch, with its author and committer.
#[derive(Debug, Clone, Copy, PartialEq, Eq)]
pub struct BranchHeadCommitAuthor;

impl BranchHeadCommitAuthor {
    /// The body that asks this query with the given variables.
    pub fn build_query(variables: Variables) -> (body: QueryBody)
        ensures
            body@ == (QueryBodyView {
                variables: variables@,
                query: QUERY@,
                operation_name: OPERATION_NAME@,
            }),
    {
        QueryBody { variables, query: QUERY, operation_name: OPERATION_NAME }
    }
}

/// The JSON object of a body whose texts are already written as JSON string
/// literals: the members `variables` (with `owner`, `repoName` and `branch`),
/// `query` and `operationName`, in this order and without white space.
pub open spec fn framed(
    owner: Seq<char>,
    repo_name: Seq<char>,
    branch: Seq<char>,
    query: Seq<char>,
    operation_name: Seq<char>,
) -> Seq<char> {
    "{\"variables\":{\"owner\":"@ + owner + ",\"repoName\":"@ + repo_name + ",\"branch\":"@
        + branch + "},\"query\":"@ + query + ",\"operationName\":"@ + operation_name + "}"@
}

/// Puts five JSON string literals into the object of a body.
pub fn frame(
    owner: &str,
    repo_name: &str,
    branch: &str,
    query: &str,
    operation_name: &str,
) -> (text: String)
    ensures
        text@ == framed(owner@, repo_name@, branch@, query@, operation_name@),
{
    let mut text = String::from_str("{\"variables\":{\"owner\":");
    text.append(owner);
    text.append(",\"repoName\":");
    text.append(repo_name);
    text.append(",\"branch\":");
    text.append(branch);
    text.append("},\"query\":");
    text.append(query);
    text.append(",\"operationName\":");
    text.append(operation_name);
    text.append("}");
    text
}

impl QueryBodyView {
    /// The JSON text of the body: each text written as a JSON string literal,
    /// and the literals framed into one object. The first text that cannot be
    /// written decides the error.
    pub open spec fn to_json(self) -> Result<Seq<char>, ErrorView> {
        let owner = quoted(self.variables.owner);
        let repo_name = quoted(self.variables.repo_name);
        let branch = quoted(self.variables.branch);
        let query = quoted(self.query);
        let operation_name = quoted(self.operation_name);
        if owner is Err {
            Err(owner->Err_0)
        } else if repo_name is Err {
            Err(repo_name->Err_0)
        } else if branch is Err {
            Err(branch->Err_0)
        } else if query is Err {
            Err(query->Err_0)
        } else if operation_name is Err {
            Err(operation_name->Err_0)
        } else {
            Ok(
                framed(
                    owner->Ok_0,
                    repo_name->Ok_0,
                    branch->Ok_0,
                    query->Ok_0,
                    operation_name->Ok_0,
                ),
            )
        }
    }
}

impl QueryBody {
    /// Writes the body as JSON text.
    pub fn to_json(&self) -> (outcome: Result<String, Error>)
        ensures
            outcome_view(outcome) == self@.to_json(),
    {
        let owner = quote(self.variables.owner.as_str())?;
        let repo_name = quote(self.variables.repo_name.as_str())?;
        let branch = quote(self.variables.branch.as_str())?;
        let query = quote(self.query)?;
        let operation_name = quote(self.operation_name)?;
        Ok(
            frame(
                owner.as_str(),
                repo_name.as_str(),
                branch.as_str(),
                query.as_str(),
                operation_name.as_str(),
            ),
        )
    }
}

} // verus!
