//! The interactive explorer page, pointed at the GraphQL endpoint.

use vstd::prelude::*;

verus! {

/// The explorer page that async-graphql renders for a query endpoint and a
/// subscription endpoint (no title, headers or settings).
pub uninterp spec fn playground_of(endpoint: Seq<char>, subscription_endpoint: Seq<char>) -> Seq<char>;

/// Relies on `async_graphql::http::playground_source`, fed a
/// `GraphQLPlaygroundConfig` built from the two endpoints alone: the page
/// depends on nothing else.
#[verifier::external_body]
fn playground_page(endpoint: &str, subscription_endpoint: &str) -> (r: String)
    ensures
        r@ == playground_of(endpoint@, subscription_endpoint@),
{
    async_graphql::http::playground_source(
        async_graphql::http::GraphQLPlaygroundConfig::new(endpoint).subscription_endpoint(
            subscription_endpoint,
        ),
    )
}

/// The explorer document for a GraphQL route: the route is both where queries
/// are sent and the (unused) subscription target.
pub open spec fn explorer_document_of(graphql_path: Seq<char>) -> Seq<char> {
    playground_of(graphql_path, graphql_path)
}

/// Renders the explorer document for the GraphQL route at `graphql_path`.
pub fn render(graphql_path: &str) -> (r: String)
    ensures
        r@ == explorer_document_of(graphql_path@),
{
    playground_page(graphql_path, graphql_path)
}

} // verus!
