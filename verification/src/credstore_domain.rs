//! Internal domain errors of the credential store, and their mapping to and
//! from the public `CredStoreError`. An underlying error is kept as its message.

use vstd::prelude::*;

use crate::credstore::{CredStoreError, CredStoreErrorModel};
use crate::text::{cat3, cat4, owned};

verus! {

/// Internal domain errors.
#[derive(Debug)]
#[non_exhaustive]
pub enum DomainError {
    TypesRegistryUnavailable(String),
    PluginNotFound { vendor: String },
    InvalidPluginInstance { gts_id: String, reason: String },
    PluginUnavailable { gts_id: String, reason: String },
    NotFound,
    Internal(String),
}

/// Mathematical model of a `DomainError`.
pub enum DomainErrorModel {
    TypesRegistryUnavailable(Seq<char>),
    PluginNotFound { vendor: Seq<char> },
    InvalidPluginInstance { gts_id: Seq<char>, reason: Seq<char> },
    PluginUnavailable { gts_id: Seq<char>, reason: Seq<char> },
    NotFound,
    Internal(Seq<char>),
}

impl View for DomainError {
    type V = DomainErrorModel;

    open spec fn view(&self) -> DomainErrorModel {
        match self {
            DomainError::TypesRegistryUnavailable(s) => DomainErrorModel::TypesRegistryUnavailable(s@),
            DomainError::PluginNotFound { vendor } => DomainErrorModel::PluginNotFound { vendor: vendor@ },
            DomainError::InvalidPluginInstance { gts_id, reason } => DomainErrorModel::InvalidPluginInstance {
                gts_id: gts_id@,
                reason: reason@,
            },
            DomainError::PluginUnavailable { gts_id, reason } => DomainErrorModel::PluginUnavailable {
                gts_id: gts_id@,
                reason: reason@,
            },
            DomainError::NotFound => DomainErrorModel::NotFound,
            DomainError::Internal(s) => DomainErrorModel::Internal(s@),
        }
    }
}

/// The message of a domain error.
pub open spec fn domain_error_text(e: DomainErrorModel) -> Seq<char> {
    match e {
        DomainErrorModel::TypesRegistryUnavailable(_) => "types registry unavailable"@,
        DomainErrorModel::PluginNotFound { vendor } => "no plugin instances found for vendor '"@ + vendor + "'"@,
        DomainErrorModel::InvalidPluginInstance { gts_id, reason } => "invalid plugin instance content for '"@
            + gts_id + "': "@ + reason,
        DomainErrorModel::PluginUnavailable { gts_id, reason } => "plugin not available for '"@ + gts_id
            + "': "@ + reason,
        DomainErrorModel::NotFound => "secret not found"@,
        DomainErrorModel::Internal(_) => "internal error"@,
    }
}

/// The domain error that a public error stands for.
pub open spec fn domain_from_public(e: CredStoreErrorModel) -> DomainErrorModel {
    match e {
        CredStoreErrorModel::NotFound => DomainErrorModel::NotFound,
        CredStoreErrorModel::NoPluginAvailable { vendor } => DomainErrorModel::PluginNotFound { vendor },
        CredStoreErrorModel::ServiceUnavailable { gts_id, reason } => DomainErrorModel::PluginUnavailable {
            gts_id,
            reason,
        },
        CredStoreErrorModel::InvalidSecretRef { reason } => DomainErrorModel::Internal(reason),
        CredStoreErrorModel::Internal(m) => DomainErrorModel::Internal(m),
    }
}

/// The public error that a domain error is reported as.
pub open spec fn public_from_domain(e: DomainErrorModel) -> CredStoreErrorModel {
    match e {
        DomainErrorModel::PluginNotFound { vendor } => CredStoreErrorModel::NoPluginAvailable { vendor },
        DomainErrorModel::InvalidPluginInstance { gts_id, reason } => CredStoreErrorModel::Internal(
            "invalid plugin instance '"@ + gts_id + "': "@ + reason,
        ),
        DomainErrorModel::PluginUnavailable { gts_id, reason } => CredStoreErrorModel::ServiceUnavailable {
            gts_id,
            reason,
        },
        DomainErrorModel::NotFound => CredStoreErrorModel::NotFound,
        DomainErrorModel::TypesRegistryUnavailable(src) => CredStoreErrorModel::Internal(src),
        DomainErrorModel::Internal(src) => CredStoreErrorModel::Internal(src),
    }
}

impl DomainError {
    /// The message of this error.
    pub fn to_string(&self) -> (r: String)
        ensures
            r@ == domain_error_text(self@),
    {
        match self {
            DomainError::TypesRegistryUnavailable(_) => owned("types registry unavailable"),
            DomainError::PluginNotFound { vendor } => cat3(
                "no plugin instances found for vendor '",
                vendor.as_str(),
                "'",
            ),
            DomainError::InvalidPluginInstance { gts_id, reason } => cat4(
                "invalid plugin instance content for '",
                gts_id.as_str(),
                "': ",
                reason.as_str(),
            ),
            DomainError::PluginUnavailable { gts_id, reason } => cat4(
                "plugin not available for '",
                gts_id.as_str(),
                "': ",
                reason.as_str(),
            ),
            DomainError::NotFound => owned("secret not found"),
            DomainError::Internal(_) => owned("internal error"),
        }
    }

    /// The domain error for a public credential store error.
    pub fn from_cred_store_error(e: CredStoreError) -> (r: DomainError)
        ensures
            r@ == domain_from_public(e@),
    {
        match e {
            CredStoreError::NotFound => DomainError::NotFound,
            CredStoreError::NoPluginAvailable { vendor } => DomainError::PluginNotFound { vendor },
            CredStoreError::ServiceUnavailable { gts_id, reason } => DomainError::PluginUnavailable {
                gts_id,
                reason,
            },
            CredStoreError::InvalidSecretRef { reason } => DomainError::Internal(reason),
            CredStoreError::Internal(msg) => DomainError::Internal(msg),
        }
    }
}

impl CredStoreError {
    /// The public error for a domain error.
    pub fn from_domain_error(e: DomainError) -> (r: CredStoreError)
        ensures
            r@ == public_from_domain(e@),
    {
        match e {
            DomainError::PluginNotFound { vendor } => CredStoreError::NoPluginAvailable { vendor },
            DomainError::InvalidPluginInstance { gts_id, reason } => CredStoreError::Internal(
                cat4("invalid plugin instance '", gts_id.as_str(), "': ", reason.as_str()),
            ),
            DomainError::PluginUnavailable { gts_id, reason } => CredStoreError::ServiceUnavailable {
                gts_id,
                reason,
            },
            DomainError::NotFound => CredStoreError::NotFound,
            DomainError::TypesRegistryUnavailable(src) => CredStoreError::Internal(src),
            DomainError::Internal(src) => CredStoreError::Internal(src),
        }
    }
}

/// A public error other than an invalid secret reference survives the round
/// trip through the domain error unchanged.
pub proof fn lemma_public_round_trip(e: CredStoreErrorModel)
    requires
        !(e is InvalidSecretRef),
    ensures
        public_from_domain(domain_from_public(e)) == e,
{
}

/// A domain error other than an invalid plugin instance or an unavailable
/// types registry survives the round trip through the public error unchanged.
pub proof fn lemma_domain_round_trip(e: DomainErrorModel)
    requires
        !(e is InvalidPluginInstance),
        !(e is TypesRegistryUnavailable),
    ensures
        domain_from_public(public_from_domain(e)) == e,
{
}

/// An unavailable types registry is reported exactly as an internal error
/// with the same source: as an internal error carrying that source text.
pub proof fn lemma_registry_outage_is_internal(src: Seq<char>)
    ensures
        public_from_domain(DomainErrorModel::TypesRegistryUnavailable(src)) == public_from_domain(
            DomainErrorModel::Internal(src),
        ),
        public_from_domain(DomainErrorModel::Internal(src)) == CredStoreErrorModel::Internal(src),
{
}

/// The kind of the public error follows the kind of the domain error: it is
/// internal exactly for failures of the service's own machinery (an
/// unavailable types registry, an invalid plugin instance, an internal
/// error), and each other kind has its own public kind.
pub proof fn lemma_public_kind(e: DomainErrorModel)
    ensures
        (public_from_domain(e) is Internal) <==> (e is TypesRegistryUnavailable || e is InvalidPluginInstance
            || e is Internal),
        (public_from_domain(e) is NotFound) <==> (e is NotFound),
        (public_from_domain(e) is NoPluginAvailable) <==> (e is PluginNotFound),
        (public_from_domain(e) is ServiceUnavailable) <==> (e is PluginUnavailable),
        e matches DomainErrorModel::InvalidPluginInstance { reason, .. } ==> (public_from_domain(
            e,
        ) matches CredStoreErrorModel::Internal(m) && reason.is_suffix_of(m)),
{
    if let DomainErrorModel::InvalidPluginInstance { gts_id, reason } = e {
        let m = "invalid plugin instance '"@ + gts_id + "': "@ + reason;
        assert(m.subrange(m.len() - reason.len(), m.len() as int) =~= reason);
    }
}

} // verus!
