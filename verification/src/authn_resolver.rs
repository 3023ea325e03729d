//! Errors of the `AuthN` resolver API.

use vstd::prelude::*;

use crate::text::{cat, cat3, cat4};

verus! {

/// Errors that can occur when using the `AuthN` resolver API.
#[derive(Debug)]
#[non_exhaustive]
pub enum AuthNResolverError {
    /// The token is invalid, expired, or malformed.
    Unauthorized(String),
    /// No `AuthN` plugin is available to handle the request.
    NoPluginAvailable { vendor: String },
    /// The plugin is not available yet.
    ServiceUnavailable { gts_id: String, reason: String },
    /// Client credentials exchange failed.
    TokenAcquisitionFailed(String),
    /// An internal error occurred.
    Internal(String),
}

/// Mathematical model of an `AuthNResolverError`.
pub enum AuthNResolverErrorModel {
    Unauthorized(Seq<char>),
    NoPluginAvailable { vendor: Seq<char> },
    ServiceUnavailable { gts_id: Seq<char>, reason: Seq<char> },
    TokenAcquisitionFailed(Seq<char>),
    Internal(Seq<char>),
}

impl View for AuthNResolverError {
    type V = AuthNResolverErrorModel;

    open spec fn view(&self) -> AuthNResolverErrorModel {
        match self {
            AuthNResolverError::Unauthorized(m) => AuthNResolverErrorModel::Unauthorized(m@),
            AuthNResolverError::NoPluginAvailable { vendor } => AuthNResolverErrorModel::NoPluginAvailable {
                vendor: vendor@,
            },
            AuthNResolverError::ServiceUnavailable { gts_id, reason } => AuthNResolverErrorModel::ServiceUnavailable {
                gts_id: gts_id@,
                reason: reason@,
            },
            AuthNResolverError::TokenAcquisitionFailed(m) => AuthNResolverErrorModel::TokenAcquisitionFailed(m@),
            AuthNResolverError::Internal(m) => AuthNResolverErrorModel::Internal(m@),
        }
    }
}

/// The message of an `AuthN` resolver error.
pub open spec fn authn_resolver_error_text(e: AuthNResolverErrorModel) -> Seq<char> {
    match e {
        AuthNResolverErrorModel::Unauthorized(m) => "unauthorized: "@ + m,
        AuthNResolverErrorModel::NoPluginAvailable { vendor } => "no authn plugin available for vendor '"@
            + vendor + "'"@,
        AuthNResolverErrorModel::ServiceUnavailable { gts_id, reason } => "authn plugin '"@ + gts_id
            + "' unavailable: "@ + reason,
        AuthNResolverErrorModel::TokenAcquisitionFailed(m) => "token acquisition failed: "@ + m,
        AuthNResolverErrorModel::Internal(m) => "internal error: "@ + m,
    }
}

impl AuthNResolverError {
    /// The message of this error.
    pub fn to_string(&self) -> (r: String)
        ensures
            r@ == authn_resolver_error_text(self@),
    {
        match self {
            AuthNResolverError::Unauthorized(m) => cat("unauthorized: ", m.as_str()),
            AuthNResolverError::NoPluginAvailable { vendor } => cat3(
                "no authn plugin available for vendor '",
                vendor.as_str(),
                "'",
            ),
            AuthNResolverError::ServiceUnavailable { gts_id, reason } => cat4(
                "authn plugin '",
                gts_id.as_str(),
                "' unavailable: ",
                reason.as_str(),
            ),
            AuthNResolverError::TokenAcquisitionFailed(m) => cat("token acquisition failed: ", m.as_str()),
            AuthNResolverError::Internal(m) => cat("internal error: ", m.as_str()),
        }
    }
}

} // verus!
