//! The gateway's decisions for one request, the addresses it announces at
//! start-up, and the laws that tie them together.

use vstd::prelude::*;
use crate::explorer::{explorer_document_of, render};
use crate::reply::{
    error_document_of, graphql_reply_of, html_reply, html_reply_of, json_string_of,
    outcome_reply_of, ContentKind, Reply, ReplyView, STATUS_OK,
};
use crate::routes::{route, route_of, HttpMethod, Route, EXPLORER_PATH, GRAPHQL_PATH};

verus! {

/// Loopback address the server binds to.
pub const BIND_HOST: &'static str = "127.0.0.1";

/// Port the server listens on.
pub const BIND_PORT: u16 = 8080;

/// Number of worker contexts sharing the schema.
pub const WORKERS: usize = 2;

/// Origin under which the endpoints are announced.
pub const PUBLIC_ORIGIN: &'static str = "http://localhost:8080";

/// What to do with a request once its method and path are known.
#[derive(Clone, Debug)]
pub enum Dispatch {
    /// Normalize the request and execute it against the schema.
    Execute,
    /// Send this reply as it stands.
    Serve(Reply),
    /// Leave the request to the transport's not-found reply.
    NotFound,
}

pub enum DispatchView {
    Execute,
    Serve(ReplyView),
    NotFound,
}

impl View for Dispatch {
    type V = DispatchView;

    open spec fn view(&self) -> DispatchView {
        match self {
            Dispatch::Execute => DispatchView::Execute,
            Dispatch::Serve(r) => DispatchView::Serve(r@),
            Dispatch::NotFound => DispatchView::NotFound,
        }
    }
}

/// The explorer reply: always the same page, aimed at the GraphQL route.
pub open spec fn explorer_reply_of() -> ReplyView {
    html_reply_of(explorer_document_of(GRAPHQL_PATH@))
}

pub open spec fn dispatch_of(method: HttpMethod, path: Seq<char>) -> DispatchView {
    match route_of(method, path) {
        Route::GraphQL => DispatchView::Execute,
        Route::Explorer => DispatchView::Serve(explorer_reply_of()),
        Route::NotFound => DispatchView::NotFound,
    }
}

/// The explorer reply.
pub fn explorer_reply() -> (r: Reply)
    ensures
        r@ == explorer_reply_of(),
{
    html_reply(render(GRAPHQL_PATH))
}

/// Decides what becomes of a request with this method and path.
pub fn dispatch(method: HttpMethod, path: &str) -> (d: Dispatch)
    ensures
        d@ == dispatch_of(method, path@),
{
    match route(method, path) {
        Route::GraphQL => Dispatch::Execute,
        Route::Explorer => Dispatch::Serve(explorer_reply()),
        Route::NotFound => Dispatch::NotFound,
    }
}

pub open spec fn endpoint_url_of(path: Seq<char>) -> Seq<char> {
    PUBLIC_ORIGIN@ + path
}

/// The public URL of the route at `path`.
pub fn endpoint_url(path: &str) -> (r: String)
    ensures
        r@ == endpoint_url_of(path@),
{
    String::from_str(PUBLIC_ORIGIN).concat(path)
}

/// The lines logged at start-up, before the first connection is accepted:
/// the GraphQL endpoint, then the explorer.
pub fn announcements() -> (r: Vec<String>)
    ensures
        r.len() == 2,
        r[0]@ == "GraphQL endpoint: "@ + endpoint_url_of(GRAPHQL_PATH@),
        r[1]@ == "GraphQL explorer: "@ + endpoint_url_of(EXPLORER_PATH@),
{
    let mut lines: Vec<String> = Vec::new();
    lines.push(String::from_str("GraphQL endpoint: ").concat(endpoint_url(GRAPHQL_PATH).as_str()));
    lines.push(String::from_str("GraphQL explorer: ").concat(endpoint_url(EXPLORER_PATH).as_str()));
    lines
}

proof fn lemma_paths_differ()
    ensures
        GRAPHQL_PATH@ != EXPLORER_PATH@,
{
    reveal_strlit("/graphql");
    reveal_strlit("/playground");
    assert(GRAPHQL_PATH@.len() != EXPLORER_PATH@.len());
}

/// A GraphQL request is handled the same way whichever method carries it:
/// a read and a submission to the GraphQL route are both sent to execution,
/// and the reply is framed from the outcome alone, as a GraphQL document
/// with status 200.
pub proof fn method_invariance(outcome: Result<Seq<char>, Seq<char>>)
    ensures
        dispatch_of(HttpMethod::Get, GRAPHQL_PATH@) == DispatchView::Execute,
        dispatch_of(HttpMethod::Post, GRAPHQL_PATH@) == DispatchView::Execute,
        outcome_reply_of(outcome).status == STATUS_OK,
        outcome_reply_of(outcome).content == ContentKind::GraphQLJson,
{
}

/// Failures never change the status: a response is passed on as it is, so
/// the errors it lists reach the client, and a request that cannot be
/// normalized is answered with a document holding one error.
pub proof fn errors_stay_in_payload(outcome: Result<Seq<char>, Seq<char>>)
    ensures
        outcome_reply_of(outcome).status == STATUS_OK,
        outcome matches Ok(payload) ==> outcome_reply_of(outcome) == graphql_reply_of(payload),
        outcome matches Err(message) ==> outcome_reply_of(outcome).body == error_document_of(
            json_string_of(message),
        ),
{
}

/// Every read of the explorer route gets the same page, whatever its query
/// string (which routing never sees), and nothing else is served there.
pub proof fn explorer_is_fixed(method: HttpMethod)
    ensures
        dispatch_of(HttpMethod::Get, EXPLORER_PATH@) == DispatchView::Serve(explorer_reply_of()),
        explorer_reply_of().status == STATUS_OK,
        explorer_reply_of().body == explorer_document_of(GRAPHQL_PATH@),
        method != HttpMethod::Get ==> dispatch_of(method, EXPLORER_PATH@) == DispatchView::NotFound,
{
    lemma_paths_differ();
}

/// Requests in flight together are answered apart: each reply is framed from
/// its own execution result alone, so the reply to the i-th of many requests
/// carries exactly the i-th response, and two different responses never
/// produce the same reply.
pub proof fn replies_are_attributed(payloads: Seq<Seq<char>>)
    ensures
        forall|i: int|
            0 <= i < payloads.len() ==> #[trigger] outcome_reply_of(Ok(payloads[i])).body
                == payloads[i],
        forall|i: int, j: int|
            0 <= i < payloads.len() && 0 <= j < payloads.len() && payloads[i] != payloads[j]
                ==> #[trigger] outcome_reply_of(Ok(payloads[i])) != #[trigger] outcome_reply_of(
                Ok(payloads[j]),
            ),
{
}

} // verus!
