//! HTTP replies as the gateway frames them.

use vstd::prelude::*;

verus! {

/// The status of every reply the gateway frames itself: query-level failures
/// are reported inside the payload, never through the status.
pub const STATUS_OK: u16 = 200;

/// What a reply body holds.
#[derive(Clone, Copy, Debug, PartialEq, Eq, Structural)]
pub enum ContentKind {
    GraphQLJson,
    Html,
}

pub open spec fn mime_of(kind: ContentKind) -> Seq<char> {
    match kind {
        ContentKind::GraphQLJson => "application/graphql-response+json"@,
        ContentKind::Html => "text/html; charset=utf-8"@,
    }
}

impl ContentKind {
    /// The content-type header value for this kind of body.
    pub fn mime(&self) -> (r: &'static str)
        ensures
            r@ == mime_of(*self),
    {
        match self {
            ContentKind::GraphQLJson => "application/graphql-response+json",
            ContentKind::Html => "text/html; charset=utf-8",
        }
    }
}

/// A framed reply: status, content kind and body.
#[derive(Clone, Debug)]
pub struct Reply {
    pub status: u16,
    pub content: ContentKind,
    pub body: String,
}

pub struct ReplyView {
    pub status: u16,
    pub content: ContentKind,
    pub body: Seq<char>,
}

impl View for Reply {
    type V = ReplyView;

    open spec fn view(&self) -> ReplyView {
        ReplyView { status: self.status, content: self.content, body: self.body@ }
    }
}

/// The reply that carries a serialized execution response.
pub open spec fn graphql_reply_of(payload: Seq<char>) -> ReplyView {
    ReplyView { status: STATUS_OK, content: ContentKind::GraphQLJson, body: payload }
}

/// Frames a serialized execution response.
pub fn graphql_reply(payload: String) -> (r: Reply)
    ensures
        r@ == graphql_reply_of(payload@),
{
    Reply { status: STATUS_OK, content: ContentKind::GraphQLJson, body: payload }
}

/// The JSON string literal that spells `s`, quotes and escapes included.
pub uninterp spec fn json_string_of(s: Seq<char>) -> Seq<char>;

#[verifier::external_type_specification]
#[verifier::external_body]
pub struct ExJsonError(serde_json::Error);

/// Relies on `serde_json::to_string` on a `str`: it yields the string's JSON
/// literal, and cannot fail (a `str` serializes into a `Vec`, whose writes
/// do not fail).
#[verifier::external_body]
fn json_string(s: &str) -> (r: Result<String, serde_json::Error>)
    ensures
        r is Ok,
        r matches Ok(q) ==> q@ == json_string_of(s@),
{
    serde_json::to_string(s)
}

/// A response document with no data and a single error whose message is the
/// JSON literal `quoted`.
pub open spec fn error_document_of(quoted: Seq<char>) -> Seq<char> {
    "{\"data\":null,\"errors\":[{\"message\":"@ + quoted + "}]}"@
}

/// The response document for a request that could not be normalized.
pub fn error_document(message: &str) -> (r: String)
    ensures
        r@ == error_document_of(json_string_of(message@)),
{
    let quoted = json_string(message).unwrap();
    let doc = String::from_str("{\"data\":null,\"errors\":[{\"message\":");
    let doc = doc.concat(quoted.as_str());
    doc.concat("}]}")
}

/// The reply for one GraphQL request: `Ok` holds the serialized execution
/// response, `Err` the reason the request could not be normalized.
pub open spec fn outcome_reply_of(outcome: Result<Seq<char>, Seq<char>>) -> ReplyView {
    match outcome {
        Ok(payload) => graphql_reply_of(payload),
        Err(message) => graphql_reply_of(error_document_of(json_string_of(message))),
    }
}

/// Frames the outcome of a GraphQL request. Both a response and a request
/// that could not be normalized are reported with status 200.
pub fn graphql_outcome(outcome: Result<String, String>) -> (r: Reply)
    ensures
        r@ == outcome_reply_of(
            match outcome {
                Ok(p) => Ok(p@),
                Err(m) => Err(m@),
            },
        ),
{
    match outcome {
        Ok(payload) => graphql_reply(payload),
        Err(message) => graphql_reply(error_document(message.as_str())),
    }
}

/// The reply carrying an explorer document.
pub open spec fn html_reply_of(document: Seq<char>) -> ReplyView {
    ReplyView { status: STATUS_OK, content: ContentKind::Html, body: document }
}

/// Frames an HTML document.
pub fn html_reply(document: String) -> (r: Reply)
    ensures
        r@ == html_reply_of(document@),
{
    Reply { status: STATUS_OK, content: ContentKind::Html, body: document }
}

} // verus!
