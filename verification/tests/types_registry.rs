use modkit_core::types_registry::{DomainError, TypesRegistryError, ValidationError};

#[test]
fn test_error_constructors() {
    let err = DomainError::invalid_gts_id("missing vendor");
    assert!(matches!(err, DomainError::InvalidGtsId(_)));

    let err = DomainError::not_found("gts.acme.core.events.test.v1~");
    assert!(matches!(err, DomainError::NotFound(_)));

    let err = DomainError::already_exists("gts.acme.core.events.test.v1~");
    assert!(matches!(err, DomainError::AlreadyExists(_)));

    let err = DomainError::validation_failed("schema invalid");
    assert!(matches!(err, DomainError::ValidationFailed(_)));
}

#[test]
fn test_domain_to_sdk_error_conversion() {
    let domain_err = DomainError::not_found("gts.x.core.events.test.v1~");
    let sdk_err = TypesRegistryError::from_domain_error(domain_err);
    assert!(sdk_err.is_not_found());

    let domain_err = DomainError::already_exists("gts.x.core.events.test.v1~");
    let sdk_err = TypesRegistryError::from_domain_error(domain_err);
    assert!(sdk_err.is_already_exists());

    let domain_err = DomainError::validation_failed("bad schema");
    let sdk_err = TypesRegistryError::from_domain_error(domain_err);
    assert!(sdk_err.is_validation_failed());

    let domain_err = DomainError::invalid_gts_id("bad format");
    let sdk_err = TypesRegistryError::from_domain_error(domain_err);
    assert!(sdk_err.is_invalid_gts_id());
}

#[test]
fn test_domain_to_sdk_error_not_in_ready_mode() {
    let domain_err = DomainError::NotInReadyMode;
    let sdk_err = TypesRegistryError::from_domain_error(domain_err);
    assert!(matches!(sdk_err, TypesRegistryError::NotInReadyMode));
}

#[test]
fn test_domain_to_sdk_error_ready_commit_failed() {
    let errors = vec![
        ValidationError::new("gts.test1~", "error1"),
        ValidationError::new("gts.test2~", "error2"),
    ];
    let domain_err = DomainError::ReadyCommitFailed(errors);
    let sdk_err = TypesRegistryError::from_domain_error(domain_err);
    assert!(sdk_err.is_validation_failed());
}

#[test]
fn test_domain_to_sdk_error_internal() {
    let domain_err = DomainError::Internal("test error".to_owned());
    let sdk_err = TypesRegistryError::from_domain_error(domain_err);
    assert!(matches!(sdk_err, TypesRegistryError::Internal(_)));
}

#[test]
fn test_error_display() {
    let err = DomainError::InvalidGtsId("bad format".to_owned());
    assert_eq!(err.to_string(), "Invalid GTS ID: bad format");

    let err = DomainError::NotFound("gts.x.core.events.test.v1~".to_owned());
    assert_eq!(err.to_string(), "Entity not found: gts.x.core.events.test.v1~");

    let err = DomainError::AlreadyExists("gts.x.core.events.test.v1~".to_owned());
    assert_eq!(err.to_string(), "Entity already exists: gts.x.core.events.test.v1~");

    let err = DomainError::ValidationFailed("schema invalid".to_owned());
    assert_eq!(err.to_string(), "Validation failed: schema invalid");

    let err = DomainError::NotInReadyMode;
    assert_eq!(err.to_string(), "Not in ready mode");

    let err = DomainError::ReadyCommitFailed(vec![
        ValidationError::new("gts.test1~", "error1"),
        ValidationError::new("gts.test2~", "error2"),
        ValidationError::new("gts.test3~", "error3"),
    ]);
    assert_eq!(err.to_string(), "Ready commit failed with 3 errors");
}

#[test]
fn ready_commit_failed_message_lists_errors() {
    let errors = vec![
        ValidationError::new("gts.test1~", "error1"),
        ValidationError::new("gts.test2~", "error2"),
    ];
    let sdk_err = TypesRegistryError::from_domain_error(DomainError::ReadyCommitFailed(errors));
    match sdk_err {
        TypesRegistryError::ValidationFailed(m) => {
            assert_eq!(m, "Ready commit failed with 2 errors: gts.test1~: error1; gts.test2~: error2")
        }
        other => panic!("expected ValidationFailed, got {other:?}"),
    }
}

#[test]
fn validation_error_from_string_splits_at_first_separator() {
    let e = ValidationError::from_string("gts.a~: bad: very bad");
    assert_eq!(e, ValidationError::new("gts.a~", "bad: very bad"));
    let e = ValidationError::from_string("no separator here");
    assert_eq!(e, ValidationError::new("unknown", "no separator here"));
    let e = ValidationError::from_string("a:b");
    assert_eq!(e, ValidationError::new("unknown", "a:b"));
}

#[test]
fn validation_error_text_round_trip() {
    let e = ValidationError::new("gts.x~", "message: with colon");
    assert_eq!(e.to_string(), "gts.x~: message: with colon");
    assert_eq!(ValidationError::from_string(&e.to_string()), e);
}

#[test]
fn validation_errors_accessor() {
    let errs = vec![ValidationError::new("a", "b")];
    let err = DomainError::ReadyCommitFailed(errs.clone());
    assert_eq!(err.validation_errors(), Some(errs.as_slice()));
    assert_eq!(DomainError::NotInReadyMode.validation_errors(), None);
}
