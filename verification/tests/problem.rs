use modkit_core::mini_chat_error::{problem_from_domain_error, problem_with_trace, DomainError};
use modkit_core::problem::{uri_path, Problem, WithTraceContext};
use modkit_core::user_settings_error::{
    build_not_found_problem, build_validation_problem, domain_error_to_problem, ErrorCode,
    DomainError as SettingsError,
};

#[test]
fn test_with_trace_context() {
    let problem = Problem::new(404, "Not Found", "Resource not found").with_trace_context("/tests/v1/users/123");

    assert_eq!(problem.instance, "/tests/v1/users/123");
    // trace_id may or may not be set depending on tracing context
}

#[test]
fn chat_not_found_problem() {
    let p = problem_from_domain_error(DomainError::ChatNotFound { id: "c1".to_owned() });
    assert_eq!(p.status, 404);
    assert_eq!(p.title, "Chat Not Found");
    assert_eq!(p.detail, "Chat with id c1 was not found");
    assert_eq!(p.code, None);
    assert_eq!(p.trace_id, None);
}

#[test]
fn internal_errors_hide_their_message() {
    let p = problem_from_domain_error(DomainError::Database { message: "secret dsn".to_owned() });
    assert_eq!(p.status, 500);
    assert_eq!(p.detail, "An internal error occurred");
    let q = problem_from_domain_error(DomainError::InternalError { message: "other".to_owned() });
    assert_eq!(q.detail, p.detail);
}

#[test]
fn coded_problems_carry_their_code() {
    let p = problem_from_domain_error(DomainError::UnsupportedFileType { mime: "image/x".to_owned() });
    assert_eq!(p.status, 415);
    assert_eq!(p.detail, "Unsupported file type: image/x");
    assert_eq!(p.code.as_deref(), Some("unsupported_file_type"));
    let p = problem_from_domain_error(DomainError::ProviderError {
        code: "rate_limited".to_owned(),
        sanitized_message: "slow down".to_owned(),
    });
    assert_eq!(p.status, 502);
    assert_eq!(p.title, "rate_limited");
    assert_eq!(p.code.as_deref(), Some("rate_limited"));
}

#[test]
fn generic_not_found_names_entity() {
    let p = problem_from_domain_error(DomainError::NotFound { entity: "Attachment".to_owned(), id: "9".to_owned() });
    assert_eq!(p.title, "Attachment not found");
    assert_eq!(p.detail, "Attachment with id 9 was not found");
}

#[test]
fn trace_id_is_attached_when_known() {
    let p = problem_with_trace(&DomainError::Forbidden, Some("abc".to_owned()));
    assert_eq!(p.status, 403);
    assert_eq!(p.trace_id.as_deref(), Some("abc"));
}

#[test]
fn settings_problems() {
    let p = build_not_found_problem("/settings", None);
    assert_eq!(p.code, ErrorCode::SettingsNotFoundV1);
    assert_eq!(p.detail, "Settings not found");
    let p = build_validation_problem("theme", "unknown value", "/settings", Some("t".to_owned()));
    assert_eq!(p.code, ErrorCode::SettingsValidationV1);
    assert_eq!(p.detail, "Validation error on 'theme': unknown value");
    assert_eq!(p.trace_id.as_deref(), Some("t"));
}

#[test]
fn forbidden_settings_look_not_found() {
    let p = domain_error_to_problem(&SettingsError::Forbidden("tenant scope".to_owned()), "/s");
    assert_eq!(p.code, ErrorCode::SettingsNotFoundV1);
    assert_eq!(p.detail, "Settings not found or not accessible");
    assert_eq!(p.instance, "/s");
    let p = domain_error_to_problem(&SettingsError::Database("db".to_owned()), "/s");
    assert_eq!(p.code, ErrorCode::SettingsInternalDatabaseV1);
    assert_eq!(p.detail, "An internal database error occurred");
}

#[test]
fn test_with_request_context() {
    let uri: http::Uri = "/tests/v1/users/123".parse().unwrap();
    let problem = Problem::new(404, "Not Found", "Resource not found")
        .with_request_uri(uri.path_and_query().map(http::uri::PathAndQuery::as_str));

    assert_eq!(problem.instance, "/tests/v1/users/123");
}

#[test]
fn uri_path_matches_the_uri_path() {
    for text in ["/a/b?x=1", "/?q", "http://h.example/p/q?z", "http://h.example", "h.example:8080", "*", "/"] {
        let uri: http::Uri = text.parse().unwrap();
        assert_eq!(uri_path(uri.path_and_query().map(http::uri::PathAndQuery::as_str)), uri.path(), "{text}");
    }
    assert_eq!(uri_path(Some("/users?id=7")), "/users");
    assert_eq!(uri_path(Some("?id=7")), "/");
    assert_eq!(uri_path(None), "");
}
