use modkit_core::authn_domain::DomainError as AuthNDomainError;
use modkit_core::authn_resolver::AuthNResolverError;
use modkit_core::authz_resolver::AuthZResolverError;
use modkit_core::bin_codec::{decode_bin, encode_bin, SecCtxDecodeError, SECCTX_BIN_VERSION};
use modkit_core::claims_error::{AuthError, ClaimsError};
use modkit_core::http_error::{DurationParts, HttpError, InvalidUriKind, TlsConfigError};
use modkit_core::node_info::NodeInfoError;
use modkit_core::nodes_domain::DomainError as NodesDomainError;
use modkit_core::nodes_registry::NodesRegistryError;
use modkit_core::tenant_domain::DomainError as TenantDomainError;
use modkit_core::tenant_resolver::{TenantId, TenantResolverError};
use modkit_core::tx_error::{InfraError, TxError};

#[test]
fn claims_issuer_expected_list_is_joined() {
    let e = ClaimsError::InvalidIssuer {
        expected: vec!["https://a".to_owned(), "https://b".to_owned()],
        actual: "https://c".to_owned(),
    };
    match AuthError::from_claims_error(e) {
        AuthError::IssuerMismatch { expected, actual } => {
            assert_eq!(expected, "https://a, https://b");
            assert_eq!(actual, "https://c");
        }
        other => panic!("unexpected {other:?}"),
    }
}

#[test]
fn claims_errors_map_to_specific_auth_errors() {
    assert!(matches!(AuthError::from_claims_error(ClaimsError::Expired), AuthError::TokenExpired));
    assert!(matches!(
        AuthError::from_claims_error(ClaimsError::InvalidSignature),
        AuthError::InvalidToken(ref m) if m == "Invalid signature"
    ));
    assert!(matches!(
        AuthError::from_claims_error(ClaimsError::Malformed("x".to_owned())),
        AuthError::InvalidToken(ref m) if m == "malformed: x"
    ));
    assert!(matches!(
        AuthError::from_claims_error(ClaimsError::InvalidClaimFormat { field: "sub".to_owned(), reason: "empty".to_owned() }),
        AuthError::ValidationFailed(ref m) if m == "invalid claim format: sub - empty"
    ));
    assert!(matches!(
        AuthError::from_claims_error(ClaimsError::UnknownKeyId("k1".to_owned())),
        AuthError::ValidationFailed(ref m) if m == "unknown key ID: k1"
    ));
    assert!(matches!(
        AuthError::from_claims_error(ClaimsError::JwksFetchFailed("timeout".to_owned())),
        AuthError::JwksFetchFailed(ref m) if m == "timeout"
    ));
    assert!(matches!(
        AuthError::from_claims_error(ClaimsError::InvalidIssuer { expected: vec![], actual: "z".to_owned() }),
        AuthError::IssuerMismatch { ref expected, .. } if expected.is_empty()
    ));
}

#[test]
fn tx_error_into_domain() {
    let d: TxError<String> = TxError::Domain("domain".to_owned());
    assert_eq!(d.into_domain(|i| i.message()), "domain");
    let i: TxError<String> = TxError::Infra(InfraError::new("db down".to_owned()));
    assert_eq!(i.to_string_with(String::new()), "infrastructure error: db down");
    assert_eq!(i.into_domain(|e| format!("mapped: {}", e.message())), "mapped: db down");
}

#[test]
fn authn_errors_round_trip() {
    let e = AuthNResolverError::Unauthorized("expired".to_owned());
    assert_eq!(e.to_string(), "unauthorized: expired");
    let d = AuthNDomainError::from_resolver_error(e);
    assert!(matches!(d, AuthNDomainError::Unauthorized(ref m) if m == "expired"));
    let back = AuthNResolverError::from_domain_error(d);
    assert!(matches!(back, AuthNResolverError::Unauthorized(ref m) if m == "expired"));
    let e = AuthNResolverError::from_domain_error(AuthNDomainError::InvalidPluginInstance {
        gts_id: "g".to_owned(),
        reason: "r".to_owned(),
    });
    assert!(matches!(e, AuthNResolverError::Internal(ref m) if m == "invalid plugin instance 'g': r"));
}

#[test]
fn authz_error_messages() {
    let e = AuthZResolverError::ServiceUnavailable { gts_id: "g".to_owned(), reason: "starting".to_owned() };
    assert_eq!(e.to_string(), "authz plugin 'g' unavailable: starting");
    let e = AuthZResolverError::NoPluginAvailable { vendor: "v".to_owned() };
    assert_eq!(e.to_string(), "no authz plugin available for vendor 'v'");
}

#[test]
fn tenant_errors_round_trip() {
    let id = 0x0123_4567_89ab_cdef_0123_4567_89ab_cdef_u128;
    let e = TenantResolverError::TenantNotFound { tenant_id: TenantId(id) };
    assert_eq!(e.to_string(), "tenant not found: 01234567-89ab-cdef-0123-456789abcdef");
    let d = TenantDomainError::from_resolver_error(e);
    assert!(matches!(d, TenantDomainError::TenantNotFound { tenant_id } if tenant_id == id));
    let back = TenantResolverError::from_domain_error(d);
    assert!(matches!(back, TenantResolverError::TenantNotFound { tenant_id } if tenant_id == TenantId(id)));
}

#[test]
fn nodes_errors_follow_node_info_errors() {
    let d = NodesDomainError::from_node_info_error(NodeInfoError::HardwareUuidFailed("no dmi".to_owned()));
    assert!(matches!(d, NodesDomainError::Internal(ref m) if m == "Hardware UUID failed: no dmi"));
    let p = NodesRegistryError::from_domain_error(NodesDomainError::InvalidInput("bad".to_owned()));
    assert_eq!(p, NodesRegistryError::Validation("bad".to_owned()));
    assert_eq!(p.to_string(), "Invalid input: bad");
    let p = NodesRegistryError::NodeNotFound(1);
    assert_eq!(p.to_string(), "Node not found with ID: 00000000-0000-0000-0000-000000000001");
    assert_eq!(
        NodeInfoError::SysInfoCollectionFailed("x".to_owned()).to_string(),
        "System information collection failed: x"
    );
}

#[test]
fn envelope_round_trip() {
    let blob = encode_bin(&[7, 8, 9]);
    assert_eq!(blob, vec![SECCTX_BIN_VERSION, 7, 8, 9]);
    assert_eq!(decode_bin(&blob).unwrap(), vec![7, 8, 9]);
}

#[test]
fn envelope_errors() {
    assert!(matches!(decode_bin(&[]), Err(SecCtxDecodeError::Empty)));
    let e = decode_bin(&[42, 1]).unwrap_err();
    assert!(matches!(e, SecCtxDecodeError::UnsupportedVersion(42)));
    assert_eq!(e.to_string(), "unsupported secctx version: 42");
    assert_eq!(SecCtxDecodeError::Empty.to_string(), "empty secctx blob");
}

#[test]
fn claims_error_messages() {
    assert_eq!(ClaimsError::InvalidSignature.to_string(), "Invalid signature or key");
    assert_eq!(ClaimsError::Expired.to_string(), "Token expired");
    assert_eq!(ClaimsError::NotYetValid.to_string(), "Token not yet valid (nbf check failed)");
    assert_eq!(ClaimsError::Malformed("bad".to_owned()).to_string(), "Malformed claims: bad");
    assert_eq!(ClaimsError::Provider("down".to_owned()).to_string(), "Provider error: down");
    assert_eq!(ClaimsError::MissingClaim("sub".to_owned()).to_string(), "Missing required claim: sub");
    assert_eq!(
        ClaimsError::InvalidClaimFormat { field: "exp".to_owned(), reason: "not a number".to_owned() }.to_string(),
        "Invalid claim format: exp - not a number"
    );
    assert_eq!(ClaimsError::UnknownKidAfterRefresh.to_string(), "Unknown key ID after refresh");
    assert_eq!(ClaimsError::DecodeFailed("eof".to_owned()).to_string(), "JWT decode failed: eof");
    assert_eq!(ClaimsError::JwksFetchFailed("timeout".to_owned()).to_string(), "JWKS fetch failed: timeout");
    assert_eq!(ClaimsError::UnknownKeyId("k1".to_owned()).to_string(), "Unknown key ID: k1");
}

#[test]
fn claims_error_messages_show_lists_in_debug_form() {
    let issuer = ClaimsError::InvalidIssuer {
        expected: vec!["https://a".to_owned(), "https://b".to_owned()],
        actual: "https://c".to_owned(),
    };
    assert_eq!(issuer.to_string(), "Invalid issuer: expected one of [\"https://a\", \"https://b\"], got https://c");
    let audience = ClaimsError::InvalidAudience {
        expected: vec!["api".to_owned()],
        actual: vec!["web".to_owned(), "say \"hi\"".to_owned()],
    };
    assert_eq!(
        audience.to_string(),
        "Invalid audience: expected one of [\"api\"], got [\"web\", \"say \\\"hi\\\"\"]"
    );
}

#[test]
fn claims_error_message_with_given_lists() {
    let issuer = ClaimsError::InvalidIssuer { expected: vec![], actual: "x".to_owned() };
    assert_eq!(issuer.message_with("[E]", "[A]"), "Invalid issuer: expected one of [E], got x");
    let audience = ClaimsError::InvalidAudience { expected: vec![], actual: vec![] };
    assert_eq!(audience.message_with("[E]", "[A]"), "Invalid audience: expected one of [E], got [A]");
    assert_eq!(ClaimsError::Expired.message_with("[E]", "[A]"), "Token expired");
}

#[test]
fn tls_config_error_messages() {
    assert_eq!(
        TlsConfigError::NoNativeRoots.to_string(),
        "no native root CA certificates found in OS certificate store"
    );
    assert_eq!(
        TlsConfigError::NoValidNativeRoots { found: 12, parse_failed: 3 }.to_string(),
        "no valid native root CA certificates parsed (12 loaded, 3 failed)"
    );
    assert_eq!(
        TlsConfigError::ProtocolVersions("bad versions".to_owned()).to_string(),
        "failed to configure TLS protocol versions"
    );
}

#[test]
fn http_error_messages() {
    assert_eq!(HttpError::RequestBuild("x".to_owned()).to_string(), "Failed to build request");
    assert_eq!(HttpError::InvalidHeaderName("x".to_owned()).to_string(), "Invalid header name");
    assert_eq!(HttpError::InvalidHeaderValue("x".to_owned()).to_string(), "Invalid header value");
    assert_eq!(HttpError::Transport("reset".to_owned()).to_string(), "HTTP transport failed");
    assert_eq!(HttpError::Tls("bad cert".to_owned()).to_string(), "TLS error");
    assert_eq!(
        HttpError::BodyTooLarge { limit: 1024, actual: 4096 }.to_string(),
        "Response body too large: limit 1024 bytes, got 4096 bytes"
    );
    assert_eq!(HttpError::Json("eof".to_owned()).to_string(), "JSON parsing failed");
    assert_eq!(HttpError::FormEncode("x".to_owned()).to_string(), "Form encoding failed");
    assert_eq!(HttpError::Overloaded.to_string(), "Service overloaded: concurrency limit reached");
    assert_eq!(HttpError::ServiceClosed.to_string(), "Service unavailable: internal failure");
    assert_eq!(
        HttpError::InvalidUri { url: "ht!tp".to_owned(), kind: InvalidUriKind::ParseError, reason: "bad".to_owned() }
            .to_string(),
        "Invalid URL 'ht!tp': bad"
    );
    assert_eq!(
        HttpError::InvalidScheme { scheme: "ftp".to_owned(), reason: "only https".to_owned() }.to_string(),
        "URL scheme 'ftp' not allowed: only https"
    );
}

#[test]
fn http_error_messages_with_durations_and_status() {
    assert_eq!(
        HttpError::Timeout(DurationParts { secs: 1, nanos: 500_000_000 }).to_string(),
        "Request attempt timed out after 1.5s"
    );
    assert_eq!(
        HttpError::DeadlineExceeded(DurationParts { secs: 0, nanos: 250_000_000 }).to_string(),
        "Operation deadline exceeded after 250ms"
    );
    let status = HttpError::HttpStatus {
        status: 404,
        body_preview: "nope".to_owned(),
        content_type: None,
        retry_after: None,
    };
    assert_eq!(status.to_string(), "HTTP 404 Not Found: nope");
    let odd = HttpError::HttpStatus { status: 599, body_preview: String::new(), content_type: None, retry_after: None };
    assert_eq!(odd.to_string(), "HTTP 599 <unknown status code>: ");
    assert_eq!(status.message_with("D", "S"), "HTTP S: nope");
}
