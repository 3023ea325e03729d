//! Errors of the tenant resolver API. A tenant is identified by the 128 bits
//! of its UUID.

use vstd::prelude::*;

use crate::text::{cat, cat3, cat4, owned, uuid_text, uuid_to_string};

verus! {

/// The identifier of a tenant: the 128 bits of its UUID.
#[derive(Debug, Clone, Copy, PartialEq, Eq, Structural)]
pub struct TenantId(pub u128);

/// Errors that can occur when using the tenant resolver API.
#[derive(Debug)]
#[non_exhaustive]
pub enum TenantResolverError {
    /// The requested target tenant was not found.
    TenantNotFound { tenant_id: TenantId },
    /// The request is not authorized.
    Unauthorized,
    /// No plugin is available to handle the request.
    NoPluginAvailable { vendor: String },
    /// The plugin is not available yet.
    ServiceUnavailable { gts_id: String, reason: String },
    /// An internal error occurred.
    Internal(String),
}

/// Mathematical model of a `TenantResolverError`.
pub enum TenantResolverErrorModel {
    TenantNotFound { tenant_id: TenantId },
    Unauthorized,
    NoPluginAvailable { vendor: Seq<char> },
    ServiceUnavailable { gts_id: Seq<char>, reason: Seq<char> },
    Internal(Seq<char>),
}

impl View for TenantResolverError {
    type V = TenantResolverErrorModel;

    open spec fn view(&self) -> TenantResolverErrorModel {
        match self {
            TenantResolverError::TenantNotFound { tenant_id } => TenantResolverErrorModel::TenantNotFound {
                tenant_id: *tenant_id,
            },
            TenantResolverError::Unauthorized => TenantResolverErrorModel::Unauthorized,
            TenantResolverError::NoPluginAvailable { vendor } => TenantResolverErrorModel::NoPluginAvailable {
                vendor: vendor@,
            },
            TenantResolverError::ServiceUnavailable { gts_id, reason } => TenantResolverErrorModel::ServiceUnavailable {
                gts_id: gts_id@,
                reason: reason@,
            },
            TenantResolverError::Internal(m) => TenantResolverErrorModel::Internal(m@),
        }
    }
}

/// The message of a tenant resolver error.
pub open spec fn tenant_resolver_error_text(e: TenantResolverErrorModel) -> Seq<char> {
    match e {
        TenantResolverErrorModel::TenantNotFound { tenant_id } => "tenant not found: "@ + uuid_text(tenant_id.0),
        TenantResolverErrorModel::Unauthorized => "unauthorized"@,
        TenantResolverErrorModel::NoPluginAvailable { vendor } => "no tenant resolver plugin available for vendor '"@
            + vendor + "'"@,
        TenantResolverErrorModel::ServiceUnavailable { gts_id, reason } => "tenant resolver plugin '"@ + gts_id
            + "' unavailable: "@ + reason,
        TenantResolverErrorModel::Internal(m) => "internal error: "@ + m,
    }
}

impl TenantResolverError {
    /// The message of this error.
    pub fn to_string(&self) -> (r: String)
        ensures
            r@ == tenant_resolver_error_text(self@),
    {
        match self {
            TenantResolverError::TenantNotFound { tenant_id } => {
                let id = uuid_to_string(tenant_id.0);
                cat("tenant not found: ", id.as_str())
            },
            TenantResolverError::Unauthorized => owned("unauthorized"),
            TenantResolverError::NoPluginAvailable { vendor } => cat3(
                "no tenant resolver plugin available for vendor '",
                vendor.as_str(),
                "'",
            ),
            TenantResolverError::ServiceUnavailable { gts_id, reason } => cat4(
                "tenant resolver plugin '",
                gts_id.as_str(),
                "' unavailable: ",
                reason.as_str(),
            ),
            TenantResolverError::Internal(m) => cat("internal error: ", m.as_str()),
        }
    }
}

} // verus!
