//! Errors of credential store operations.

use vstd::prelude::*;

use crate::text::{cat, cat3, cat4, owned};

verus! {

/// Errors that can occur during credential store operations.
#[derive(Debug)]
#[non_exhaustive]
pub enum CredStoreError {
    InvalidSecretRef { reason: String },
    NotFound,
    NoPluginAvailable { vendor: String },
    ServiceUnavailable { gts_id: String, reason: String },
    Internal(String),
}

/// Mathematical model of a `CredStoreError`.
pub enum CredStoreErrorModel {
    InvalidSecretRef { reason: Seq<char> },
    NotFound,
    NoPluginAvailable { vendor: Seq<char> },
    ServiceUnavailable { gts_id: Seq<char>, reason: Seq<char> },
    Internal(Seq<char>),
}

impl View for CredStoreError {
    type V = CredStoreErrorModel;

    open spec fn view(&self) -> CredStoreErrorModel {
        match self {
            CredStoreError::InvalidSecretRef { reason } => CredStoreErrorModel::InvalidSecretRef {
                reason: reason@,
            },
            CredStoreError::NotFound => CredStoreErrorModel::NotFound,
            CredStoreError::NoPluginAvailable { vendor } => CredStoreErrorModel::NoPluginAvailable {
                vendor: vendor@,
            },
            CredStoreError::ServiceUnavailable { gts_id, reason } => CredStoreErrorModel::ServiceUnavailable {
                gts_id: gts_id@,
                reason: reason@,
            },
            CredStoreError::Internal(m) => CredStoreErrorModel::Internal(m@),
        }
    }
}

/// The message of a credential store error.
pub open spec fn cred_store_error_text(e: CredStoreErrorModel) -> Seq<char> {
    match e {
        CredStoreErrorModel::InvalidSecretRef { reason } => "invalid secret reference: "@ + reason,
        CredStoreErrorModel::NotFound => "secret not found"@,
        CredStoreErrorModel::NoPluginAvailable { vendor } => "no credential plugin available for vendor '"@
            + vendor + "'"@,
        CredStoreErrorModel::ServiceUnavailable { gts_id, reason } => "credential plugin '"@ + gts_id
            + "' unavailable: "@ + reason,
        CredStoreErrorModel::Internal(m) => "internal error: "@ + m,
    }
}

impl CredStoreError {
    /// An invalid secret reference, for the given reason.
    pub fn invalid_ref(reason: &str) -> (r: Self)
        ensures
            r@ == (CredStoreErrorModel::InvalidSecretRef { reason: reason@ }),
    {
        CredStoreError::InvalidSecretRef { reason: owned(reason) }
    }

    /// An unavailable credential plugin, with the reason.
    pub fn service_unavailable(gts_id: &str, reason: &str) -> (r: Self)
        ensures
            r@ == (CredStoreErrorModel::ServiceUnavailable { gts_id: gts_id@, reason: reason@ }),
    {
        CredStoreError::ServiceUnavailable { gts_id: owned(gts_id), reason: owned(reason) }
    }

    /// An internal error with the given message.
    pub fn internal(msg: &str) -> (r: Self)
        ensures
            r@ == CredStoreErrorModel::Internal(msg@),
    {
        CredStoreError::Internal(owned(msg))
    }

    /// The message of this error.
    pub fn to_string(&self) -> (r: String)
        ensures
            r@ == cred_store_error_text(self@),
    {
        match self {
            CredStoreError::InvalidSecretRef { reason } => cat("invalid secret reference: ", reason.as_str()),
            CredStoreError::NotFound => owned("secret not found"),
            CredStoreError::NoPluginAvailable { vendor } => cat3(
                "no credential plugin available for vendor '",
                vendor.as_str(),
                "'",
            ),
            CredStoreError::ServiceUnavailable { gts_id, reason } => cat4(
                "credential plugin '",
                gts_id.as_str(),
                "' unavailable: ",
                reason.as_str(),
            ),
            CredStoreError::Internal(m) => cat("internal error: ", m.as_str()),
        }
    }
}

} // verus!
