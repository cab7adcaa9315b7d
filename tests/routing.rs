use graphql_gateway::explorer::render;
use graphql_gateway::gateway::{
    announcements, dispatch, endpoint_url, explorer_reply, Dispatch, BIND_HOST, BIND_PORT,
    PUBLIC_ORIGIN, WORKERS,
};
use graphql_gateway::reply::{error_document, graphql_outcome, graphql_reply, html_reply, ContentKind};
use graphql_gateway::routes::{route, str_equal, HttpMethod, Route, EXPLORER_PATH, GRAPHQL_PATH};

#[test]
fn graphql_route_takes_get_and_post() {
    assert_eq!(route(HttpMethod::Get, "/graphql"), Route::GraphQL);
    assert_eq!(route(HttpMethod::Post, "/graphql"), Route::GraphQL);
    assert_eq!(route(HttpMethod::Other, "/graphql"), Route::NotFound);
}

#[test]
fn explorer_route_takes_get_only() {
    assert_eq!(route(HttpMethod::Get, "/playground"), Route::Explorer);
    assert_eq!(route(HttpMethod::Post, "/playground"), Route::NotFound);
    assert_eq!(route(HttpMethod::Other, "/playground"), Route::NotFound);
}

#[test]
fn other_paths_are_not_found() {
    assert_eq!(route(HttpMethod::Get, "/"), Route::NotFound);
    assert_eq!(route(HttpMethod::Get, ""), Route::NotFound);
    assert_eq!(route(HttpMethod::Get, "/graphql/"), Route::NotFound);
    assert_eq!(route(HttpMethod::Post, "/graphq"), Route::NotFound);
    assert_eq!(route(HttpMethod::Get, "/Playground"), Route::NotFound);
}

#[test]
fn str_equal_compares_characters() {
    assert!(str_equal("", ""));
    assert!(str_equal("/graphql", GRAPHQL_PATH));
    assert!(!str_equal("/graphql", "/graphqL"));
    assert!(!str_equal("/graph", "/graphql"));
    assert!(str_equal("héllo", "héllo"));
    assert!(!str_equal("héllo", "hello"));
}

#[test]
fn explorer_page_names_graphql_endpoint() {
    let page = render(GRAPHQL_PATH);
    assert!(page.contains("/graphql"));
    assert!(page.contains("\"endpoint\":\"/graphql\""));
    assert!(page.contains("\"subscriptionEndpoint\":\"/graphql\""));
    assert!(page.contains("<html>"));
}

#[test]
fn explorer_page_follows_its_path() {
    let page = render("/api");
    assert_ne!(page, "/api");
    assert!(page.contains("\"endpoint\":\"/api\""));
    assert!(!page.contains("\"endpoint\":\"/graphql\""));
}

#[test]
fn explorer_reply_is_identical_each_time() {
    let first = explorer_reply();
    let second = explorer_reply();
    assert_eq!(first.status, 200);
    assert_eq!(first.content, ContentKind::Html);
    assert_eq!(first.body, second.body);
    assert_eq!(first.body, render(GRAPHQL_PATH));
}

#[test]
fn dispatch_serves_explorer_and_executes_graphql() {
    match dispatch(HttpMethod::Get, EXPLORER_PATH) {
        Dispatch::Serve(reply) => {
            assert_eq!(reply.status, 200);
            assert_eq!(reply.body, explorer_reply().body);
        }
        other => panic!("unexpected dispatch {:?}", other),
    }
    assert!(matches!(dispatch(HttpMethod::Get, GRAPHQL_PATH), Dispatch::Execute));
    assert!(matches!(dispatch(HttpMethod::Post, GRAPHQL_PATH), Dispatch::Execute));
    assert!(matches!(dispatch(HttpMethod::Post, EXPLORER_PATH), Dispatch::NotFound));
    assert!(matches!(dispatch(HttpMethod::Get, "/missing"), Dispatch::NotFound));
}

#[test]
fn error_document_quotes_the_message() {
    assert_eq!(
        error_document("bad \"query\"\n"),
        "{\"data\":null,\"errors\":[{\"message\":\"bad \\\"query\\\"\\n\"}]}"
    );
    assert_eq!(error_document(""), "{\"data\":null,\"errors\":[{\"message\":\"\"}]}");
}

#[test]
fn outcomes_are_framed_with_status_ok() {
    let ok = graphql_outcome(Ok("{\"data\":{\"a\":1}}".to_string()));
    assert_eq!(ok.status, 200);
    assert_eq!(ok.content, ContentKind::GraphQLJson);
    assert_eq!(ok.body, "{\"data\":{\"a\":1}}");
    let failed = graphql_outcome(Err("invalid request".to_string()));
    assert_eq!(failed.status, 200);
    assert_eq!(failed.content, ContentKind::GraphQLJson);
    assert_eq!(failed.body, "{\"data\":null,\"errors\":[{\"message\":\"invalid request\"}]}");
}

#[test]
fn reply_builders_keep_their_bodies() {
    let g = graphql_reply("{}".to_string());
    assert_eq!((g.status, g.content, g.body.as_str()), (200, ContentKind::GraphQLJson, "{}"));
    let h = html_reply("<p/>".to_string());
    assert_eq!((h.status, h.content, h.body.as_str()), (200, ContentKind::Html, "<p/>"));
    assert_eq!(ContentKind::GraphQLJson.mime(), "application/graphql-response+json");
    assert_eq!(ContentKind::Html.mime(), "text/html; charset=utf-8");
}

#[test]
fn startup_announces_both_endpoints() {
    assert_eq!(endpoint_url(GRAPHQL_PATH), "http://localhost:8080/graphql");
    assert_eq!(endpoint_url(EXPLORER_PATH), "http://localhost:8080/playground");
    let lines = announcements();
    assert_eq!(lines.len(), 2);
    assert_eq!(lines[0], "GraphQL endpoint: http://localhost:8080/graphql");
    assert_eq!(lines[1], "GraphQL explorer: http://localhost:8080/playground");
}

#[test]
fn server_settings() {
    assert_eq!(BIND_HOST, "127.0.0.1");
    assert_eq!(BIND_PORT, 8080);
    assert_eq!(WORKERS, 2);
    assert_eq!(PUBLIC_ORIGIN, "http://localhost:8080");
}
