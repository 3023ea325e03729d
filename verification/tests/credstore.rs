use modkit_core::credstore::CredStoreError;
use modkit_core::credstore_domain::DomainError;

#[test]
fn invalid_ref_constructor_sets_reason() {
    let e = CredStoreError::invalid_ref("must not be empty");
    assert_eq!(e.to_string(), "invalid secret reference: must not be empty");
}

#[test]
fn service_unavailable_constructor_sets_fields() {
    let e = CredStoreError::service_unavailable("gts.x.core.creds.plugin.acme.v1~", "backend down");
    assert!(
        matches!(e, CredStoreError::ServiceUnavailable { ref gts_id, ref reason }
            if gts_id == "gts.x.core.creds.plugin.acme.v1~" && reason == "backend down")
    );
    assert_eq!(
        e.to_string(),
        "credential plugin 'gts.x.core.creds.plugin.acme.v1~' unavailable: backend down"
    );
}

#[test]
fn internal_constructor_sets_message() {
    let e = CredStoreError::internal("unexpected state");
    assert!(matches!(e, CredStoreError::Internal(ref m) if m == "unexpected state"));
    assert_eq!(e.to_string(), "internal error: unexpected state");
}

#[test]
fn not_found_and_no_plugin_messages() {
    assert_eq!(CredStoreError::NotFound.to_string(), "secret not found");
    let e = CredStoreError::NoPluginAvailable { vendor: "acme".to_owned() };
    assert_eq!(e.to_string(), "no credential plugin available for vendor 'acme'");
}

#[test]
fn public_error_round_trips_through_domain() {
    let e = CredStoreError::service_unavailable("gts.p~", "down");
    let d = DomainError::from_cred_store_error(e);
    assert!(matches!(d, DomainError::PluginUnavailable { ref gts_id, ref reason } if gts_id == "gts.p~" && reason == "down"));
    let back = CredStoreError::from_domain_error(d);
    assert!(matches!(back, CredStoreError::ServiceUnavailable { ref gts_id, ref reason } if gts_id == "gts.p~" && reason == "down"));
}

#[test]
fn invalid_secret_ref_becomes_internal() {
    let d = DomainError::from_cred_store_error(CredStoreError::invalid_ref("bad"));
    assert!(matches!(d, DomainError::Internal(ref m) if m == "bad"));
    assert_eq!(d.to_string(), "internal error");
}

#[test]
fn invalid_plugin_instance_reported_as_internal() {
    let d = DomainError::InvalidPluginInstance { gts_id: "g~".to_owned(), reason: "bad json".to_owned() };
    assert_eq!(d.to_string(), "invalid plugin instance content for 'g~': bad json");
    let e = CredStoreError::from_domain_error(d);
    assert!(matches!(e, CredStoreError::Internal(ref m) if m == "invalid plugin instance 'g~': bad json"));
}

#[test]
fn plugin_not_found_reported_as_no_plugin() {
    let d = DomainError::PluginNotFound { vendor: "v".to_owned() };
    assert_eq!(d.to_string(), "no plugin instances found for vendor 'v'");
    let e = CredStoreError::from_domain_error(d);
    assert!(matches!(e, CredStoreError::NoPluginAvailable { ref vendor } if vendor == "v"));
    let d2 = DomainError::TypesRegistryUnavailable("registry down".to_owned());
    let e2 = CredStoreError::from_domain_error(d2);
    assert!(matches!(e2, CredStoreError::Internal(ref m) if m == "registry down"));
}
