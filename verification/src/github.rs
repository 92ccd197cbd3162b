//! The GitHub client: the fixed endpoint and the headers that carry the token.

use crate::error::{outcome_view, Error, ErrorView};
use crate::query::{
    BranchHeadCommitAuthor, QueryBodyView, Variables, VariablesView, OPERATION_NAME, QUERY,
};
use crate::text::{chain, seq_view};
use crate::web::{
    distinct_names, gql_request, gql_request_for, negotiating, Header, HeaderView, Request,
    RequestView,
};
use vstd::prelude::*;
use vstd::string::*;

verus! {

/// The endpoint of GitHub's GraphQL API.
pub const GITHUB: &'static str = "https://api.github.com/graphql";

/// A client of GitHub's GraphQL API, holding the bearer token.
pub struct Github {
    pub token: String,
}

/// The headers of every request: the token as a bearer, and JSON both ways.
pub open spec fn headers_for(token: Seq<char>) -> Seq<HeaderView> {
    seq![
        HeaderView { name: "Authorization"@, value: "Bearer "@ + token },
        HeaderView { name: "Accept"@, value: "application/vnd.github.v3+json"@ },
        HeaderView { name: "Content-Type"@, value: "application/json"@ },
    ]
}

/// The request that asks the query of GitHub in the name of `token`.
pub open spec fn graphql_request_for(token: Seq<char>, variables: VariablesView) -> Result<
    RequestView,
    ErrorView,
> {
    gql_request_for(
        QueryBodyView { variables, query: QUERY@, operation_name: OPERATION_NAME@ },
        GITHUB@,
        headers_for(token),
    )
}

/// The headers of [`headers_for`] are as the transport asks: the three names
/// differ, and two of them are `Content-Type` and `Accept`.
pub proof fn lemma_headers_negotiating(token: Seq<char>)
    ensures
        negotiating(headers_for(token)),
{
    let headers = headers_for(token);
    assert(distinct_names(headers)) by {
        reveal_strlit("Authorization");
        reveal_strlit("Accept");
        reveal_strlit("Content-Type");
        assert("Authorization"@.len() == 13);
        assert("Accept"@.len() == 6);
        assert("Content-Type"@.len() == 12);
    }
    assert(headers[1].name == "Accept"@);
    assert(headers[2].name == "Content-Type"@);
}

impl Github {
    /// Keeps the token as it is given; its format is not looked at.
    pub fn new(token: String) -> (github: Self)
        ensures
            github.token@ == token@,
    {
        Github { token }
    }

    /// The headers of every request of this client.
    pub fn headers(&self) -> (headers: Vec<Header>)
        ensures
            seq_view(headers@) == headers_for(self.token@),
    {
        let mut headers: Vec<Header> = Vec::new();
        headers.push(
            Header {
                name: String::from_str("Authorization"),
                value: chain("Bearer ", self.token.as_str()),
            },
        );
        headers.push(
            Header {
                name: String::from_str("Accept"),
                value: String::from_str("application/vnd.github.v3+json"),
            },
        );
        headers.push(
            Header {
                name: String::from_str("Content-Type"),
                value: String::from_str("application/json"),
            },
        );
        proof {
            assert(seq_view(headers@) =~= headers_for(self.token@));
        }
        headers
    }

    /// Builds the request that asks the query of GitHub: the fixed endpoint,
    /// the headers of this client, and the body with the variables.
    pub fn graphql(&self, _query: BranchHeadCommitAuthor, variables: Variables) -> (outcome: Result<
        Request,
        Error,
    >)
        ensures
            outcome_view(outcome) == graphql_request_for(self.token@, variables@),
            outcome matches Ok(request) ==> request@.well_formed(),
    {
        let body = BranchHeadCommitAuthor::build_query(variables);
        let headers = self.headers();
        proof {
            lemma_headers_negotiating(self.token@);
        }
        gql_request(&body, String::from_str(GITHUB), headers)
    }
}

} // verus!
