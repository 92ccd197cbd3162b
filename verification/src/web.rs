//! One GraphQL request and its response, as far as they are plain values: the
//! host issues the request and hands back the text of the answer.

use crate::decode::lemma_kinds_of_envelope;
use crate::error::{
    lemma_message_names_its_subject, outcome_view, Error, ErrorView, Kind, Stage,
};
use crate::json::{parse, parsed, Json, JsonView};
use crate::query::{QueryBody, QueryBodyView};
use crate::response::{RawResponse, RawResponseView};
use crate::text::{chain, occurs_in, seq_view};
use vstd::prelude::*;
use vstd::string::*;

verus! {

/// One header of a request.
#[derive(Debug, PartialEq, Eq)]
pub struct Header {
    pub name: String,
    pub value: String,
}

/// How far a request may go beyond the page's own origin.
#[derive(Clone, Copy, Debug, PartialEq, Eq, Structural)]
pub enum Mode {
    SameOrigin,
    NoCors,
    Cors,
    Navigate,
}

/// What the host is to send.
#[derive(Debug, PartialEq, Eq)]
pub struct Request {
    pub url: String,
    pub method: String,
    pub mode: Mode,
    pub headers: Vec<Header>,
    pub body: String,
}

/// The mathematical value of a [`Header`].
pub struct HeaderView {
    pub name: Seq<char>,
    pub value: Seq<char>,
}

/// The mathematical value of a [`Request`].
pub struct RequestView {
    pub url: Seq<char>,
    pub method: Seq<char>,
    pub mode: Mode,
    pub headers: Seq<HeaderView>,
    pub body: Seq<char>,
}

impl View for Header {
    type V = HeaderView;

    open spec fn view(&self) -> HeaderView {
        HeaderView { name: self.name@, value: self.value@ }
    }
}

impl View for Request {
    type V = RequestView;

    open spec fn view(&self) -> RequestView {
        RequestView {
            url: self.url@,
            method: self.method@,
            mode: self.mode,
            headers: seq_view(self.headers@),
            body: self.body@,
        }
    }
}

/// No two of the headers go by one name.
pub open spec fn distinct_names(headers: Seq<HeaderView>) -> bool {
    forall|i: int, j: int|
        0 <= i < j < headers.len() ==> (#[trigger] headers[i]).name != (#[trigger] headers[j]).name
}

/// One of the headers goes by `name`.
pub open spec fn carries(headers: Seq<HeaderView>, name: Seq<char>) -> bool {
    exists|i: int| 0 <= i < headers.len() && (#[trigger] headers[i]).name == name
}

/// What the transport asks of the headers of a request: they are a mapping,
/// each name standing once, and they say what is sent and what is accepted.
pub open spec fn negotiating(headers: Seq<HeaderView>) -> bool {
    &&& distinct_names(headers)
    &&& carries(headers, "Content-Type"@)
    &&& carries(headers, "Accept"@)
}

impl RequestView {
    /// The headers are as the transport asks.
    pub open spec fn well_formed(self) -> bool {
        negotiating(self.headers)
    }
}

/// The request that carries a body, already written as JSON text, to
/// `endpoint`: a POST that may cross origins, with the given headers.
pub open spec fn post_of(
    endpoint: Seq<char>,
    headers: Seq<HeaderView>,
    body: Seq<char>,
) -> RequestView {
    RequestView { url: endpoint, method: "POST"@, mode: Mode::Cors, headers, body }
}

/// The request that carries `body` to `endpoint`, where the body can be
/// written as JSON text.
pub open spec fn gql_request_for(
    body: QueryBodyView,
    endpoint: Seq<char>,
    headers: Seq<HeaderView>,
) -> Result<RequestView, ErrorView> {
    match body.to_json() {
        Ok(text) => Ok(post_of(endpoint, headers, text)),
        Err(error) => Err(error),
    }
}

/// What a document of the server means: an object with a text under
/// `message` is the platform's refusal, outside of any envelope; every other
/// document is read as an envelope.
pub open spec fn response_of(document: JsonView) -> Result<RawResponseView, ErrorView> {
    match document.member("message"@) {
        Some(JsonView::String(message)) => Err(ErrorView::Platform(message)),
        _ => RawResponseView::from_json(document),
    }
}

/// What the text of an answer means.
pub open spec fn gql_response_of(text: Seq<char>) -> Result<RawResponseView, ErrorView> {
    match parsed(text) {
        Ok(document) => response_of(document),
        Err(error) => Err(error),
    }
}

/// A document with a text under `message` is never read as an envelope: the
/// outcome is the platform's refusal, and its message holds that text.
pub proof fn lemma_platform_message_surfaces(document: JsonView, message: Seq<char>)
    requires
        document.member("message"@) == Some(JsonView::String(message)),
    ensures
        response_of(document) == Err::<RawResponseView, ErrorView>(ErrorView::Platform(message)),
        occurs_in(message, ErrorView::Platform(message).message()),
{
    lemma_message_names_its_subject(ErrorView::Platform(message));
}

/// Reading an answer fails in one of three ways: the text is no JSON, the
/// platform refused, or the document has not the shape of an envelope.
pub proof fn lemma_kinds_of_gql_response(text: Seq<char>)
    requires
        gql_response_of(text) is Err,
    ensures
        gql_response_of(text)->Err_0.kind() != Kind::Graphql,
        gql_response_of(text)->Err_0.kind() == Kind::Transport <==> parsed(text) is Err,
        gql_response_of(text)->Err_0.kind() == Kind::Platform <==> parsed(text) is Ok && parsed(
            text,
        )->Ok_0.member("message"@) is Some && parsed(text)->Ok_0.member("message"@)->0 is String,
{
    if parsed(text) is Ok && RawResponseView::from_json(parsed(text)->Ok_0) is Err {
        lemma_kinds_of_envelope(parsed(text)->Ok_0);
    }
}

/// The failure of a step of the host's work: what was attempted, then what
/// the host said of it, or `No idea why.` where it said nothing.
pub open spec fn js_error_of(
    stage: Stage,
    message: Seq<char>,
    reason: Option<Seq<char>>,
) -> ErrorView {
    ErrorView::Transport {
        stage,
        text: message + ": "@ + match reason {
            Some(reason) => reason,
            None => "No idea why."@,
        },
    }
}

/// The failure of a step of the host's work.
pub fn js_error(stage: Stage, message: &str, reason: Option<&str>) -> (error: Error)
    ensures
        error@ == js_error_of(
            stage,
            message@,
            match reason {
                Some(reason) => Some(reason@),
                None => None,
            },
        ),
{
    let mut text = chain(message, ": ");
    match reason {
        Some(reason) => text.append(reason),
        None => text.append("No idea why."),
    }
    Error::Transport { stage, text }
}

/// Builds the request that carries a body, already written as JSON text, to
/// `endpoint`.
pub fn post(endpoint: String, headers: Vec<Header>, body: String) -> (request: Request)
    requires
        negotiating(seq_view(headers@)),
    ensures
        request@ == post_of(endpoint@, seq_view(headers@), body@),
        request@.well_formed(),
{
    Request { url: endpoint, method: String::from_str("POST"), mode: Mode::Cors, headers, body }
}

/// Builds the request that carries `body` to `endpoint`.
pub fn gql_request(body: &QueryBody, endpoint: String, headers: Vec<Header>) -> (outcome: Result<
    Request,
    Error,
>)
    requires
        negotiating(seq_view(headers@)),
    ensures
        outcome_view(outcome) == gql_request_for(body@, endpoint@, seq_view(headers@)),
        outcome matches Ok(request) ==> request@.well_formed(),
{
    let text = body.to_json()?;
    Ok(post(endpoint, headers, text))
}

/// Reads the response out of a document of the server.
pub fn read_response(document: &Json) -> (outcome: Result<RawResponse, Error>)
    ensures
        outcome_view(outcome) == response_of(document@),
{
    match document.get("message") {
        Some(Json::String(message)) => Err(Error::Platform(message.clone())),
        _ => RawResponse::from_json(document),
    }
}

/// Reads the response out of the text of an answer.
pub fn gql_response(text: &str) -> (outcome: Result<RawResponse, Error>)
    ensures
        outcome_view(outcome) == gql_response_of(text@),
{
    let document = parse(text)?;
    read_response(&document)
}

} // verus!
