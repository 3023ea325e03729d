//! Internal domain errors of the tenant resolver, and their mapping to and
//! from the public `TenantResolverError`. An underlying error is kept as its
//! message; a tenant is identified by the 128 bits of its UUID.

use vstd::prelude::*;

use crate::tenant_resolver::{TenantId, TenantResolverError, TenantResolverErrorModel};
use crate::text::{cat, cat3, cat4, owned, uuid_text, uuid_to_string};

verus! {

/// Internal domain errors.
#[derive(Debug)]
#[non_exhaustive]
pub enum DomainError {
    TypesRegistryUnavailable(String),
    PluginNotFound { vendor: String },
    InvalidPluginInstance { gts_id: String, reason: String },
    PluginUnavailable { gts_id: String, reason: String },
    TenantNotFound { tenant_id: u128 },
    /// Reserved for future plugins that implement access control.
    Unauthorized,
    Internal(String),
}

/// Mathematical model of a `DomainError`.
pub enum DomainErrorModel {
    TypesRegistryUnavailable(Seq<char>),
    PluginNotFound { vendor: Seq<char> },
    InvalidPluginInstance { gts_id: Seq<char>, reason: Seq<char> },
    PluginUnavailable { gts_id: Seq<char>, reason: Seq<char> },
    TenantNotFound { tenant_id: u128 },
    Unauthorized,
    Internal(Seq<char>),
}

impl View for DomainError {
    type V = DomainErrorModel;

    open spec fn view(&self) -> DomainErrorModel {
        match self {
            DomainError::TypesRegistryUnavailable(s) => DomainErrorModel::TypesRegistryUnavailable(s@),
            DomainError::PluginNotFound { vendor } => DomainErrorModel::PluginNotFound { vendor: vendor@ },
            DomainError::InvalidPluginInstance { gts_id, reason } => DomainErrorModel::InvalidPluginInstance {
                gts_id: gts_id@,
                reason: reason@,
            },
            DomainError::PluginUnavailable { gts_id, reason } => DomainErrorModel::PluginUnavailable {
                gts_id: gts_id@,
                reason: reason@,
            },
            DomainError::TenantNotFound { tenant_id } => DomainErrorModel::TenantNotFound { tenant_id: *tenant_id },
            DomainError::Unauthorized => DomainErrorModel::Unauthorized,
            DomainError::Internal(s) => DomainErrorModel::Internal(s@),
        }
    }
}

/// The message of a domain error.
pub open spec fn domain_error_text(e: DomainErrorModel) -> Seq<char> {
    match e {
        DomainErrorModel::TypesRegistryUnavailable(_) => "types registry unavailable"@,
        DomainErrorModel::PluginNotFound { vendor } => "no plugin instances found for vendor '"@ + vendor + "'"@,
        DomainErrorModel::InvalidPluginInstance { gts_id, reason } => "invalid plugin instance content for '"@
            + gts_id + "': "@ + reason,
        DomainErrorModel::PluginUnavailable { gts_id, reason } => "plugin not available for '"@ + gts_id
            + "': "@ + reason,
        DomainErrorModel::TenantNotFound { tenant_id } => "tenant not found: "@ + uuid_text(tenant_id),
        DomainErrorModel::Unauthorized => "unauthorized"@,
        DomainErrorModel::Internal(_) => "internal error"@,
    }
}

/// The domain error that a public error stands for.
pub open spec fn domain_from_public(e: TenantResolverErrorModel) -> DomainErrorModel {
    match e {
        TenantResolverErrorModel::TenantNotFound { tenant_id } => DomainErrorModel::TenantNotFound {
            tenant_id: tenant_id.0,
        },
        TenantResolverErrorModel::Unauthorized => DomainErrorModel::Unauthorized,
        TenantResolverErrorModel::NoPluginAvailable { vendor } => DomainErrorModel::PluginNotFound { vendor },
        TenantResolverErrorModel::ServiceUnavailable { gts_id, reason } => DomainErrorModel::PluginUnavailable {
            gts_id,
            reason,
        },
        TenantResolverErrorModel::Internal(m) => DomainErrorModel::Internal(m),
    }
}

/// The public error that a domain error is reported as.
pub open spec fn public_from_domain(e: DomainErrorModel) -> TenantResolverErrorModel {
    match e {
        DomainErrorModel::PluginNotFound { vendor } => TenantResolverErrorModel::NoPluginAvailable { vendor },
        DomainErrorModel::InvalidPluginInstance { gts_id, reason } => TenantResolverErrorModel::Internal(
            "invalid plugin instance '"@ + gts_id + "': "@ + reason,
        ),
        DomainErrorModel::PluginUnavailable { gts_id, reason } => TenantResolverErrorModel::ServiceUnavailable {
            gts_id,
            reason,
        },
        DomainErrorModel::TenantNotFound { tenant_id } => TenantResolverErrorModel::TenantNotFound {
            tenant_id: TenantId(tenant_id),
        },
        DomainErrorModel::Unauthorized => TenantResolverErrorModel::Unauthorized,
        DomainErrorModel::TypesRegistryUnavailable(src) => TenantResolverErrorModel::Internal(src),
        DomainErrorModel::Internal(src) => TenantResolverErrorModel::Internal(src),
    }
}

impl DomainError {
    /// The message of this error.
    pub fn to_string(&self) -> (r: String)
        ensures
            r@ == domain_error_text(self@),
    {
        match self {
            DomainError::TypesRegistryUnavailable(_) => owned("types registry unavailable"),
            DomainError::PluginNotFound { vendor } => cat3(
                "no plugin instances found for vendor '",
                vendor.as_str(),
                "'",
            ),
            DomainError::InvalidPluginInstance { gts_id, reason } => cat4(
                "invalid plugin instance content for '",
                gts_id.as_str(),
                "': ",
                reason.as_str(),
            ),
            DomainError::PluginUnavailable { gts_id, reason } => cat4(
                "plugin not available for '",
                gts_id.as_str(),
                "': ",
                reason.as_str(),
            ),
            DomainError::TenantNotFound { tenant_id } => {
                let id = uuid_to_string(*tenant_id);
                cat("tenant not found: ", id.as_str())
            },
            DomainError::Unauthorized => owned("unauthorized"),
            DomainError::Internal(_) => owned("internal error"),
        }
    }

    /// The domain error for a public tenant resolver error.
    pub fn from_resolver_error(e: TenantResolverError) -> (r: DomainError)
        ensures
            r@ == domain_from_public(e@),
    {
        match e {
            TenantResolverError::TenantNotFound { tenant_id } => DomainError::TenantNotFound { tenant_id: tenant_id.0 },
            TenantResolverError::Unauthorized => DomainError::Unauthorized,
            TenantResolverError::NoPluginAvailable { vendor } => DomainError::PluginNotFound { vendor },
            TenantResolverError::ServiceUnavailable { gts_id, reason } => DomainError::PluginUnavailable {
                gts_id,
                reason,
            },
            TenantResolverError::Internal(msg) => DomainError::Internal(msg),
        }
    }
}

impl TenantResolverError {
    /// The public error for a domain error.
    pub fn from_domain_error(e: DomainError) -> (r: TenantResolverError)
        ensures
            r@ == public_from_domain(e@),
    {
        match e {
            DomainError::PluginNotFound { vendor } => TenantResolverError::NoPluginAvailable { vendor },
            DomainError::InvalidPluginInstance { gts_id, reason } => TenantResolverError::Internal(
                cat4("invalid plugin instance '", gts_id.as_str(), "': ", reason.as_str()),
            ),
            DomainError::PluginUnavailable { gts_id, reason } => TenantResolverError::ServiceUnavailable {
                gts_id,
                reason,
            },
            DomainError::TenantNotFound { tenant_id } => TenantResolverError::TenantNotFound {
                tenant_id: TenantId(tenant_id),
            },
            DomainError::Unauthorized => TenantResolverError::Unauthorized,
            DomainError::TypesRegistryUnavailable(src) => TenantResolverError::Internal(src),
            DomainError::Internal(src) => TenantResolverError::Internal(src),
        }
    }
}

/// Every public error survives the round trip through the domain error unchanged.
pub proof fn lemma_public_round_trip(e: TenantResolverErrorModel)
    ensures
        public_from_domain(domain_from_public(e)) == e,
{
}

/// A domain error other than an invalid plugin instance or an unavailable
/// types registry survives the round trip through the public error unchanged.
pub proof fn lemma_domain_round_trip(e: DomainErrorModel)
    requires
        !(e is InvalidPluginInstance),
        !(e is TypesRegistryUnavailable),
    ensures
        domain_from_public(public_from_domain(e)) == e,
{
}

/// An unavailable types registry is reported exactly as an internal error
/// with the same source: as an internal error carrying that source text.
pub proof fn lemma_registry_outage_is_internal(src: Seq<char>)
    ensures
        public_from_domain(DomainErrorModel::TypesRegistryUnavailable(src)) == public_from_domain(
            DomainErrorModel::Internal(src),
        ),
        public_from_domain(DomainErrorModel::Internal(src)) == TenantResolverErrorModel::Internal(src),
{
}

/// The kind of the public error follows the kind of the domain error: it is
/// internal exactly for failures of the service's own machinery (an
/// unavailable types registry, an invalid plugin instance, an internal
/// error), and each other kind has its own public kind.
pub proof fn lemma_public_kind(e: DomainErrorModel)
    ensures
        (public_from_domain(e) is Internal) <==> (e is TypesRegistryUnavailable || e is InvalidPluginInstance
            || e is Internal),
        (public_from_domain(e) is Unauthorized) <==> (e is Unauthorized),
        (public_from_domain(e) is TenantNotFound) <==> (e is TenantNotFound),
        (public_from_domain(e) is NoPluginAvailable) <==> (e is PluginNotFound),
        (public_from_domain(e) is ServiceUnavailable) <==> (e is PluginUnavailable),
        e matches DomainErrorModel::InvalidPluginInstance { reason, .. } ==> (public_from_domain(
            e,
        ) matches TenantResolverErrorModel::Internal(m) && reason.is_suffix_of(m)),
{
    if let DomainErrorModel::InvalidPluginInstance { gts_id, reason } = e {
        let m = "invalid plugin instance '"@ + gts_id + "': "@ + reason;
        assert(m.subrange(m.len() - reason.len(), m.len() as int) =~= reason);
    }
}

} // verus!
