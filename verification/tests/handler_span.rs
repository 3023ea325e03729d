use modkit_core::handler_span::{handler_route, handler_span_name};

#[test]
fn matched_route_template_is_used() {
    assert_eq!(handler_route(Some("/users/{id}"), Some("/users/42?x=1")), "/users/{id}");
}

#[test]
fn unmatched_path_falls_back_to_raw_path() {
    assert_eq!(handler_route(None, Some("/does-not-exist?q=1")), "/does-not-exist");
    assert_eq!(handler_route(None, Some("?q=1")), "/");
}

#[test]
fn span_name_is_method_and_route() {
    assert_eq!(handler_span_name("GET", "/users/{id}"), "GET /users/{id}");
}
