//! Transaction errors that keep domain errors apart from infrastructure errors.

use vstd::prelude::*;

use crate::text::cat;

verus! {

/// Infrastructure error representing a database-level failure, kept as the
/// message of the underlying error.
#[derive(Debug)]
pub struct InfraError {
    source: String,
}

impl InfraError {
    /// The message of the underlying error.
    pub closed spec fn source_text(&self) -> Seq<char> {
        self.source@
    }

    /// Creates an infrastructure error from the message of the underlying error.
    pub fn new(source: String) -> (r: Self)
        ensures
            r.source_text() == source@,
    {
        InfraError { source }
    }

    /// The message of the underlying error.
    pub fn message(&self) -> (r: String)
        ensures
            r@ == self.source_text(),
    {
        self.source.clone()
    }

    /// The message of this error: that of the underlying error.
    pub fn to_string(&self) -> (r: String)
        ensures
            r@ == self.source_text(),
    {
        self.source.clone()
    }
}

/// Transaction error that distinguishes domain errors from infrastructure errors.
#[derive(Debug)]
#[non_exhaustive]
pub enum TxError<E> {
    /// A domain error returned from the transaction callback.
    Domain(E),
    /// An infrastructure error from the database layer.
    Infra(InfraError),
}

impl<E> TxError<E> {
    /// Converts this transaction error into a domain error: a domain error is
    /// returned as it is, an infrastructure error is mapped by `map_infra`.
    pub fn into_domain<F: FnOnce(InfraError) -> E>(self, map_infra: F) -> (r: E)
        requires
            self matches TxError::Infra(i) ==> map_infra.requires((i,)),
        ensures
            match self {
                TxError::Domain(e) => r == e,
                TxError::Infra(i) => map_infra.ensures((i,), r),
            },
    {
        match self {
            TxError::Domain(e) => e,
            TxError::Infra(infra) => map_infra(infra),
        }
    }

    /// The message of this error, given the message of the domain error it may hold.
    pub fn to_string_with(&self, domain_text: String) -> (r: String)
        ensures
            match self {
                TxError::Domain(_) => r@ == domain_text@,
                TxError::Infra(i) => r@ == "infrastructure error: "@ + i.source_text(),
            },
    {
        match self {
            TxError::Domain(_) => domain_text,
            TxError::Infra(e) => {
                let m = e.to_string();
                cat("infrastructure error: ", m.as_str())
            },
        }
    }
}

} // verus!
