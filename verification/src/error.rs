//! What can go wrong between the request and the normalized result.

use crate::text::{
    chain, join, joined, lemma_joined_holds_each_part, lemma_occurs_at_either_end,
    lemma_occurs_between, lemma_occurs_in_wider, occurs_in, texts,
};
use vstd::prelude::*;
use vstd::string::*;

verus! {

/// The kind of JSON value that a member of the response must have.
#[derive(Clone, Copy, Debug, PartialEq, Eq, Structural)]
pub enum Expected {
    Object,
    Array,
    String,
    Integer,
}

/// The part of the host's work that failed.
#[derive(Clone, Copy, Debug, PartialEq, Eq, Structural)]
pub enum Stage {
    /// The request could not be built.
    Request,
    /// The network call failed.
    Network,
    /// The body of the answer could not be had as text.
    Body,
}

/// The classes of failure.
#[derive(Clone, Copy, Debug, PartialEq, Eq, Structural)]
pub enum Kind {
    /// The request could not be built or sent, or the answer is no JSON.
    Transport,
    /// The platform refused the request outside of any envelope.
    Platform,
    /// The server reported errors and sent no data.
    Graphql,
    /// The answer lacks a part, or holds one of the wrong kind.
    Shape,
}

/// A failure of one invocation. Nothing is recovered: each one ends the
/// invocation, and `message` says which link failed.
#[derive(Debug)]
pub enum Error {
    /// The host could not build or issue the request, or read the answer.
    Transport { stage: Stage, text: String },
    /// The request body could not be written as JSON.
    Encode(String),
    /// The response body is not JSON.
    Syntax(String),
    /// The platform answered with a bare `{"message": ..}` object.
    Platform(String),
    /// A member that the response must have is absent.
    MissingField(String),
    /// A member of the response holds a value of the wrong kind.
    InvalidType { field: String, expected: Expected },
    /// The server reported errors and sent no data.
    Graphql(Vec<String>),
    /// The response holds neither data nor errors.
    NoData,
    /// The data holds no rate limit.
    NoRateLimit,
    /// The data holds no repository.
    RepositoryNotFound { owner: String, repo_name: String },
    /// The repository's owner is neither a user nor an organization.
    UnsupportedOwner(String),
    /// The repository has no such branch.
    BranchNotFound { branch: String, name_with_owner: String },
    /// The branch points at nothing.
    NoCommitAtHead { branch: String },
    /// The branch points at something that is no commit.
    NotACommit { typename: String },
    /// The commit has no author.
    NoAuthor { oid: String },
    /// The commit has no committer.
    NoCommitter { oid: String },
}

/// The mathematical value of an [`Error`].
pub enum ErrorView {
    Transport { stage: Stage, text: Seq<char> },
    Encode(Seq<char>),
    Syntax(Seq<char>),
    Platform(Seq<char>),
    MissingField(Seq<char>),
    InvalidType { field: Seq<char>, expected: Expected },
    Graphql(Seq<Seq<char>>),
    NoData,
    NoRateLimit,
    RepositoryNotFound { owner: Seq<char>, repo_name: Seq<char> },
    UnsupportedOwner(Seq<char>),
    BranchNotFound { branch: Seq<char>, name_with_owner: Seq<char> },
    NoCommitAtHead { branch: Seq<char> },
    NotACommit { typename: Seq<char> },
    NoAuthor { oid: Seq<char> },
    NoCommitter { oid: Seq<char> },
}

impl View for Error {
    type V = ErrorView;

    open spec fn view(&self) -> ErrorView {
        match self {
            Error::Transport { stage, text } => ErrorView::Transport { stage: *stage, text: text@ },
            Error::Encode(text) => ErrorView::Encode(text@),
            Error::Syntax(text) => ErrorView::Syntax(text@),
            Error::Platform(text) => ErrorView::Platform(text@),
            Error::MissingField(field) => ErrorView::MissingField(field@),
            Error::InvalidType { field, expected } => ErrorView::InvalidType {
                field: field@,
                expected: *expected,
            },
            Error::Graphql(messages) => ErrorView::Graphql(texts(messages@)),
            Error::NoData => ErrorView::NoData,
            Error::NoRateLimit => ErrorView::NoRateLimit,
            Error::RepositoryNotFound { owner, repo_name } => ErrorView::RepositoryNotFound {
                owner: owner@,
                repo_name: repo_name@,
            },
            Error::UnsupportedOwner(typename) => ErrorView::UnsupportedOwner(typename@),
            Error::BranchNotFound { branch, name_with_owner } => ErrorView::BranchNotFound {
                branch: branch@,
                name_with_owner: name_with_owner@,
            },
            Error::NoCommitAtHead { branch } => ErrorView::NoCommitAtHead { branch: branch@ },
            Error::NotACommit { typename } => ErrorView::NotACommit { typename: typename@ },
            Error::NoAuthor { oid } => ErrorView::NoAuthor { oid: oid@ },
            Error::NoCommitter { oid } => ErrorView::NoCommitter { oid: oid@ },
        }
    }
}

/// The mathematical value of an outcome: that of what it holds, or that of
/// the error.
pub open spec fn outcome_view<T: View>(outcome: Result<T, Error>) -> Result<T::V, ErrorView> {
    match outcome {
        Ok(value) => Ok(value@),
        Err(error) => Err(error@),
    }
}

/// The mathematical value of an outcome that may hold nothing.
pub open spec fn optional_outcome_view<T: View>(outcome: Result<Option<T>, Error>) -> Result<
    Option<T::V>,
    ErrorView,
> {
    match outcome {
        Ok(Some(value)) => Ok(Some(value@)),
        Ok(None) => Ok(None),
        Err(error) => Err(error@),
    }
}

impl Expected {
    /// How a message names the kind.
    pub open spec fn noun(self) -> Seq<char> {
        match self {
            Expected::Object => "an object"@,
            Expected::Array => "an array"@,
            Expected::String => "a string"@,
            Expected::Integer => "an integer"@,
        }
    }

    /// How a message names the kind.
    pub fn name(self) -> (text: &'static str)
        ensures
            text@ == self.noun(),
    {
        match self {
            Expected::Object => "an object",
            Expected::Array => "an array",
            Expected::String => "a string",
            Expected::Integer => "an integer",
        }
    }
}

impl ErrorView {
    /// The class of the failure.
    pub open spec fn kind(self) -> Kind {
        match self {
            ErrorView::Transport { .. } => Kind::Transport,
            ErrorView::Encode(_) => Kind::Transport,
            ErrorView::Syntax(_) => Kind::Transport,
            ErrorView::Platform(_) => Kind::Platform,
            ErrorView::Graphql(_) => Kind::Graphql,
            _ => Kind::Shape,
        }
    }

    /// The text that the caller may show.
    pub open spec fn message(self) -> Seq<char> {
        match self {
            ErrorView::Transport { text, .. } => text,
            ErrorView::Encode(text) => text,
            ErrorView::Syntax(text) => text,
            ErrorView::Platform(text) => "Graphql error: "@ + text,
            ErrorView::MissingField(field) => "Could not parse response data. missing field `"@
                + field + "`"@,
            ErrorView::InvalidType { field, expected } =>
                "Could not parse response data. invalid type for field `"@ + field
                    + "`, expected "@ + expected.noun(),
            ErrorView::Graphql(messages) => "Graphql errors: "@ + joined(messages, "; "@),
            ErrorView::NoData => "No data on response"@,
            ErrorView::NoRateLimit => "No rate limit on response"@,
            ErrorView::RepositoryNotFound { owner, repo_name } => "repository not found: "@ + owner
                + "/"@ + repo_name,
            ErrorView::UnsupportedOwner(typename) => "unsupported repository owner: "@ + typename,
            ErrorView::BranchNotFound { branch, name_with_owner } => "branch "@ + branch
                + " not found in repository "@ + name_with_owner,
            ErrorView::NoCommitAtHead { branch } => "no commit at branch head: "@ + branch,
            ErrorView::NotACommit { typename } => "ref does not resolve to a commit: "@ + typename,
            ErrorView::NoAuthor { oid } => "No author on commit "@ + oid,
            ErrorView::NoCommitter { oid } => "No committer on commit "@ + oid,
        }
    }
}

/// A message names what the failure was about: the field, the repository, the
/// branch or the commit, and each error that the server reported.
pub proof fn lemma_message_names_its_subject(error: ErrorView)
    ensures
        match error {
            ErrorView::Transport { text, .. } => occurs_in(text, error.message()),
            ErrorView::Encode(text) => occurs_in(text, error.message()),
            ErrorView::Syntax(text) => occurs_in(text, error.message()),
            ErrorView::Platform(text) => occurs_in(text, error.message()),
            ErrorView::MissingField(field) => occurs_in(field, error.message()),
            ErrorView::InvalidType { field, expected } => occurs_in(field, error.message())
                && occurs_in(expected.noun(), error.message()),
            ErrorView::Graphql(messages) => forall|at: int|
                0 <= at < messages.len() ==> occurs_in(#[trigger] messages[at], error.message()),
            ErrorView::NoData => true,
            ErrorView::NoRateLimit => true,
            ErrorView::RepositoryNotFound { owner, repo_name } => occurs_in(
                owner,
                error.message(),
            ) && occurs_in(repo_name, error.message()),
            ErrorView::UnsupportedOwner(typename) => occurs_in(typename, error.message()),
            ErrorView::BranchNotFound { branch, name_with_owner } => occurs_in(
                branch,
                error.message(),
            ) && occurs_in(name_with_owner, error.message()),
            ErrorView::NoCommitAtHead { branch } => occurs_in(branch, error.message()),
            ErrorView::NotACommit { typename } => occurs_in(typename, error.message()),
            ErrorView::NoAuthor { oid } => occurs_in(oid, error.message()),
            ErrorView::NoCommitter { oid } => occurs_in(oid, error.message()),
        },
{
    let none = Seq::<char>::empty();
    match error {
        ErrorView::Transport { text, .. } => {
            lemma_occurs_at_either_end(text, none);
            assert(text + none =~= text);
        },
        ErrorView::Encode(text) => {
            lemma_occurs_at_either_end(text, none);
            assert(text + none =~= text);
        },
        ErrorView::Syntax(text) => {
            lemma_occurs_at_either_end(text, none);
            assert(text + none =~= text);
        },
        ErrorView::Platform(text) => {
            lemma_occurs_at_either_end(text, "Graphql error: "@);
        },
        ErrorView::MissingField(field) => {
            lemma_occurs_between("Could not parse response data. missing field `"@, field, "`"@);
        },
        ErrorView::InvalidType { field, expected } => {
            let start = "Could not parse response data. invalid type for field `"@;
            lemma_occurs_between(start, field, "`, expected "@ + expected.noun());
            assert(start + field + ("`, expected "@ + expected.noun()) =~= error.message());
            lemma_occurs_at_either_end(expected.noun(), start + field + "`, expected "@);
        },
        ErrorView::Graphql(messages) => {
            assert forall|at: int| 0 <= at < messages.len() implies occurs_in(
                #[trigger] messages[at],
                error.message(),
            ) by {
                lemma_joined_holds_each_part(messages, "; "@, at);
                lemma_occurs_in_wider(
                    messages[at],
                    joined(messages, "; "@),
                    "Graphql errors: "@,
                    none,
                );
                assert("Graphql errors: "@ + joined(messages, "; "@) + none =~= error.message());
            }
        },
        ErrorView::NoData => {},
        ErrorView::NoRateLimit => {},
        ErrorView::RepositoryNotFound { owner, repo_name } => {
            lemma_occurs_between("repository not found: "@, owner, "/"@ + repo_name);
            assert("repository not found: "@ + owner + ("/"@ + repo_name) =~= error.message());
            lemma_occurs_at_either_end(repo_name, "repository not found: "@ + owner + "/"@);
        },
        ErrorView::UnsupportedOwner(typename) => {
            lemma_occurs_at_either_end(typename, "unsupported repository owner: "@);
        },
        ErrorView::BranchNotFound { branch, name_with_owner } => {
            lemma_occurs_between(
                "branch "@,
                branch,
                " not found in repository "@ + name_with_owner,
            );
            assert("branch "@ + branch + (" not found in repository "@ + name_with_owner)
                =~= error.message());
            lemma_occurs_at_either_end(
                name_with_owner,
                "branch "@ + branch + " not found in repository "@,
            );
        },
        ErrorView::NoCommitAtHead { branch } => {
            lemma_occurs_at_either_end(branch, "no commit at branch head: "@);
        },
        ErrorView::NotACommit { typename } => {
            lemma_occurs_at_either_end(typename, "ref does not resolve to a commit: "@);
        },
        ErrorView::NoAuthor { oid } => {
            lemma_occurs_at_either_end(oid, "No author on commit "@);
        },
        ErrorView::NoCommitter { oid } => {
            lemma_occurs_at_either_end(oid, "No committer on commit "@);
        },
    }
}

impl Error {
    /// The class of the failure.
    pub fn kind(&self) -> (kind: Kind)
        ensures
            kind == self@.kind(),
    {
        match self {
            Error::Transport { .. } => Kind::Transport,
            Error::Encode(_) => Kind::Transport,
            Error::Syntax(_) => Kind::Transport,
            Error::Platform(_) => Kind::Platform,
            Error::Graphql(_) => Kind::Graphql,
            _ => Kind::Shape,
        }
    }

    /// The text that the caller may show.
    pub fn message(&self) -> (text: String)
        ensures
            text@ == self@.message(),
    {
        match self {
            Error::Transport { text, .. } => text.clone(),
            Error::Encode(text) => text.clone(),
            Error::Syntax(text) => text.clone(),
            Error::Platform(text) => chain("Graphql error: ", text.as_str()),
            Error::MissingField(field) => {
                let mut text = chain(
                    "Could not parse response data. missing field `",
                    field.as_str(),
                );
                text.append("`");
                text
            },
            Error::InvalidType { field, expected } => {
                let mut text = chain(
                    "Could not parse response data. invalid type for field `",
                    field.as_str(),
                );
                text.append("`, expected ");
                text.append(expected.name());
                text
            },
            Error::Graphql(messages) => {
                let list = join(messages, "; ");
                chain("Graphql errors: ", list.as_str())
            },
            Error::NoData => String::from_str("No data on response"),
            Error::NoRateLimit => String::from_str("No rate limit on response"),
            Error::RepositoryNotFound { owner, repo_name } => {
                let mut text = chain("repository not found: ", owner.as_str());
                text.append("/");
                text.append(repo_name.as_str());
                text
            },
            Error::UnsupportedOwner(typename) => chain(
                "unsupported repository owner: ",
                typename.as_str(),
            ),
            Error::BranchNotFound { branch, name_with_owner } => {
                let mut text = chain("branch ", branch.as_str());
                text.append(" not found in repository ");
                text.append(name_with_owner.as_str());
                text
            },
            Error::NoCommitAtHead { branch } => chain(
                "no commit at branch head: ",
                branch.as_str(),
            ),
            Error::NotACommit { typename } => chain(
                "ref does not resolve to a commit: ",
                typename.as_str(),
            ),
            Error::NoAuthor { oid } => chain("No author on commit ", oid.as_str()),
            Error::NoCommitter { oid } => chain("No committer on commit ", oid.as_str()),
        }
    }
}

} // verus!
