//! Which handler an inbound request goes to.

use vstd::prelude::*;

verus! {

/// Path at which GraphQL queries are served.
pub const GRAPHQL_PATH: &'static str = "/graphql";

/// Path at which the interactive explorer is served.
pub const EXPLORER_PATH: &'static str = "/playground";

/// The HTTP methods the gateway tells apart.
#[derive(Clone, Copy, Debug, PartialEq, Eq, Structural)]
pub enum HttpMethod {
    Get,
    Post,
    Other,
}

/// The handler a request is routed to.
#[derive(Clone, Copy, Debug, PartialEq, Eq, Structural)]
pub enum Route {
    GraphQL,
    Explorer,
    NotFound,
}

/// GraphQL takes reads and submissions; the explorer takes reads only;
/// anything else is left to the transport's not-found reply.
pub open spec fn route_of(method: HttpMethod, path: Seq<char>) -> Route {
    if path == GRAPHQL_PATH@ && (method == HttpMethod::Get || method == HttpMethod::Post) {
        Route::GraphQL
    } else if path == EXPLORER_PATH@ && method == HttpMethod::Get {
        Route::Explorer
    } else {
        Route::NotFound
    }
}

/// Character-wise equality of two strings.
pub fn str_equal(a: &str, b: &str) -> (r: bool)
    ensures
        r == (a@ == b@),
{
    let n = a.unicode_len();
    if n != b.unicode_len() {
        return false;
    }
    let mut i: usize = 0;
    while i < n
        invariant
            n == a@.len(),
            n == b@.len(),
            i <= n,
            a@.subrange(0, i as int) == b@.subrange(0, i as int),
        decreases n - i,
    {
        if a.get_char(i) != b.get_char(i) {
            assert(a@[i as int] != b@[i as int]);
            return false;
        }
        assert(a@.subrange(0, i + 1) == a@.subrange(0, i as int).push(a@[i as int]));
        assert(b@.subrange(0, i + 1) == b@.subrange(0, i as int).push(b@[i as int]));
        i = i + 1;
    }
    assert(a@ == a@.subrange(0, n as int));
    assert(b@ == b@.subrange(0, n as int));
    true
}

/// Routes a request by its method and path (the path excludes the query
/// string, so the query string never influences the choice).
pub fn route(method: HttpMethod, path: &str) -> (r: Route)
    ensures
        r == route_of(method, path@),
{
    if str_equal(path, GRAPHQL_PATH) && (method == HttpMethod::Get || method == HttpMethod::Post) {
        Route::GraphQL
    } else if str_equal(path, EXPLORER_PATH) && method == HttpMethod::Get {
        Route::Explorer
    } else {
        Route::NotFound
    }
}

} // verus!
