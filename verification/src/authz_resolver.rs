//! Errors of the `AuthZ` resolver API. They report infrastructure failures
//! only: access denial is a decision, not an error.

use vstd::prelude::*;

use crate::text::{cat, cat3, cat4};

verus! {

/// Errors that can occur when using the `AuthZ` resolver API.
#[derive(Debug)]
#[non_exhaustive]
pub enum AuthZResolverError {
    /// No `AuthZ` plugin is available to handle the request.
    NoPluginAvailable { vendor: String },
    /// The plugin is not available yet.
    ServiceUnavailable { gts_id: String, reason: String },
    /// An internal error occurred.
    Internal(String),
}

/// Mathematical model of an `AuthZResolverError`.
pub enum AuthZResolverErrorModel {
    NoPluginAvailable { vendor: Seq<char> },
    ServiceUnavailable { gts_id: Seq<char>, reason: Seq<char> },
    Internal(Seq<char>),
}

impl View for AuthZResolverError {
    type V = AuthZResolverErrorModel;

    open spec fn view(&self) -> AuthZResolverErrorModel {
        match self {
            AuthZResolverError::NoPluginAvailable { vendor } => AuthZResolverErrorModel::NoPluginAvailable {
                vendor: vendor@,
            },
            AuthZResolverError::ServiceUnavailable { gts_id, reason } => AuthZResolverErrorModel::ServiceUnavailable {
                gts_id: gts_id@,
                reason: reason@,
            },
            AuthZResolverError::Internal(m) => AuthZResolverErrorModel::Internal(m@),
        }
    }
}

/// The message of an `AuthZ` resolver error.
pub open spec fn authz_resolver_error_text(e: AuthZResolverErrorModel) -> Seq<char> {
    match e {
        AuthZResolverErrorModel::NoPluginAvailable { vendor } => "no authz plugin available for vendor '"@
            + vendor + "'"@,
        AuthZResolverErrorModel::ServiceUnavailable { gts_id, reason } => "authz plugin '"@ + gts_id
            + "' unavailable: "@ + reason,
        AuthZResolverErrorModel::Internal(m) => "internal error: "@ + m,
    }
}

impl AuthZResolverError {
    /// The message of this error.
    pub fn to_string(&self) -> (r: String)
        ensures
            r@ == authz_resolver_error_text(self@),
    {
        match self {
            AuthZResolverError::NoPluginAvailable { vendor } => cat3(
                "no authz plugin available for vendor '",
                vendor.as_str(),
                "'",
            ),
            AuthZResolverError::ServiceUnavailable { gts_id, reason } => cat4(
                "authz plugin '",
                gts_id.as_str(),
                "' unavailable: ",
                reason.as_str(),
            ),
            AuthZResolverError::Internal(m) => cat("internal error: ", m.as_str()),
        }
    }
}

} // verus!
