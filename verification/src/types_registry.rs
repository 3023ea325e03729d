//! Errors of the types registry: structured validation errors, the domain
//! errors of the registry, and the errors of its public API. An underlying
//! internal error is kept as its message.

use vstd::prelude::*;

use crate::text::{cat, chars_of, decimal, owned, string_from_range, usize_to_decimal};

verus! {

/// A structured validation error with typed fields.
#[derive(Debug, Clone, PartialEq, Eq)]
pub struct ValidationError {
    /// The GTS ID of the entity that failed validation.
    pub gts_id: String,
    /// The validation error message.
    pub message: String,
}

/// Mathematical model of a `ValidationError`.
pub struct ValidationErrorModel {
    pub gts_id: Seq<char>,
    pub message: Seq<char>,
}

impl View for ValidationError {
    type V = ValidationErrorModel;

    open spec fn view(&self) -> ValidationErrorModel {
        ValidationErrorModel { gts_id: self.gts_id@, message: self.message@ }
    }
}

/// The text form `gts_id: message` of a validation error.
pub open spec fn validation_error_text(e: ValidationErrorModel) -> Seq<char> {
    e.gts_id + ": "@ + e.message
}

/// The first index at or after `i` where `": "` starts in `s`, or -1.
pub open spec fn find_separator(s: Seq<char>, i: int) -> int
    decreases s.len() - i,
{
    if i < 0 || i + 1 >= s.len() {
        -1
    } else if s[i] == ':' && s[i + 1] == ' ' {
        i
    } else {
        find_separator(s, i + 1)
    }
}

/// The validation error that the text `s` describes: the part before the
/// first `": "` is the GTS ID and the rest the message; without a separator
/// the GTS ID is `unknown` and the message is all of `s`.
pub open spec fn validation_error_from_text(s: Seq<char>) -> ValidationErrorModel {
    let k = find_separator(s, 0);
    if k >= 0 {
        ValidationErrorModel { gts_id: s.subrange(0, k), message: s.subrange(k + 2, s.len() as int) }
    } else {
        ValidationErrorModel { gts_id: "unknown"@, message: s }
    }
}

proof fn lemma_find_separator_range(s: Seq<char>, i: int)
    requires
        0 <= i,
    ensures
        find_separator(s, i) == -1 || (i <= find_separator(s, i) && find_separator(s, i) + 1 < s.len()),
        find_separator(s, i) >= 0 ==> s[find_separator(s, i)] == ':' && s[find_separator(s, i) + 1] == ' ',
    decreases s.len() - i,
{
    if i + 1 < s.len() && !(s[i] == ':' && s[i + 1] == ' ') {
        lemma_find_separator_range(s, i + 1);
    }
}

impl ValidationError {
    /// Creates a new validation error.
    pub fn new(gts_id: &str, message: &str) -> (r: Self)
        ensures
            r@ == (ValidationErrorModel { gts_id: gts_id@, message: message@ }),
    {
        ValidationError { gts_id: owned(gts_id), message: owned(message) }
    }

    /// Parses a validation error from a string in the format "`gts_id`: message".
    pub fn from_string(s: &str) -> (r: Self)
        ensures
            r@ == validation_error_from_text(s@),
    {
        let v = chars_of(s);
        let mut i: usize = 0;
        while v.len() > 1 && i < v.len() - 1
            invariant
                v@ == s@,
                i <= v@.len(),
                find_separator(s@, 0) == find_separator(s@, i as int),
            decreases v.len() - i,
        {
            if v[i] == ':' && v[i + 1] == ' ' {
                proof {
                    lemma_find_separator_range(s@, 0);
                }
                return ValidationError {
                    gts_id: string_from_range(&v, 0, i),
                    message: string_from_range(&v, i + 2, v.len()),
                };
            }
            i += 1;
        }
        ValidationError { gts_id: owned("unknown"), message: owned(s) }
    }

    /// The text form `gts_id: message`.
    pub fn to_string(&self) -> (r: String)
        ensures
            r@ == validation_error_text(self@),
    {
        let mut r = cat(self.gts_id.as_str(), ": ");
        r.append(self.message.as_str());
        r
    }
}

/// Parsing the text form of a validation error gives it back, when its GTS ID
/// holds no `": "`.
pub proof fn lemma_validation_error_text_round_trip(e: ValidationErrorModel)
    requires
        find_separator(e.gts_id, 0) == -1,
    ensures
        validation_error_from_text(validation_error_text(e)) == e,
{
    reveal_strlit(": ");
    let s = validation_error_text(e);
    let n = e.gts_id.len() as int;
    assert(s[n] == ':' && s[n + 1] == ' ');
    lemma_find_separator_prefix(e.gts_id, s, 0);
    assert(s.subrange(0, n) =~= e.gts_id);
    assert(s.subrange(n + 2, s.len() as int) =~= e.message);
}

/// Where a prefix `p` of `s` holds no separator, the first separator of `s`
/// at or after `i` starts no earlier than the last character of `p`; here
/// `s` continues `p` with `": "`, so it starts right after `p`.
proof fn lemma_find_separator_prefix(p: Seq<char>, s: Seq<char>, i: int)
    requires
        0 <= i <= p.len(),
        find_separator(p, i) == -1,
        s.len() >= p.len() + 2,
        forall|k: int| 0 <= k < p.len() ==> s[k] == p[k],
        s[p.len() as int] == ':',
        s[p.len() as int + 1] == ' ',
    ensures
        find_separator(s, i) == p.len(),
    decreases p.len() - i,
{
    if i < p.len() {
        assert(s[i] == p[i]);
        if i + 1 < p.len() {
            assert(s[i + 1] == p[i + 1]);
        } else {
            assert(s[i + 1] == ':');
        }
        lemma_find_separator_prefix(p, s, i + 1);
    }
}

/// Domain-level errors for the types registry.
#[derive(Debug)]
#[non_exhaustive]
pub enum DomainError {
    /// The GTS ID format is invalid.
    InvalidGtsId(String),
    /// The requested entity was not found.
    NotFound(String),
    /// An entity with the same GTS ID already exists.
    AlreadyExists(String),
    /// Validation of the entity content failed.
    ValidationFailed(String),
    /// The operation requires ready mode but the registry is in configuration mode.
    NotInReadyMode,
    /// Several validation errors occurred when switching to ready mode.
    ReadyCommitFailed(Vec<ValidationError>),
    /// An internal error occurred (kept as its message).
    Internal(String),
}

/// Mathematical model of a `DomainError`.
pub enum DomainErrorModel {
    InvalidGtsId(Seq<char>),
    NotFound(Seq<char>),
    AlreadyExists(Seq<char>),
    ValidationFailed(Seq<char>),
    NotInReadyMode,
    ReadyCommitFailed(Seq<ValidationErrorModel>),
    Internal(Seq<char>),
}

/// The models of a sequence of validation errors.
pub open spec fn validation_error_models(s: Seq<ValidationError>) -> Seq<ValidationErrorModel> {
    s.map_values(|e: ValidationError| e@)
}

impl View for DomainError {
    type V = DomainErrorModel;

    open spec fn view(&self) -> DomainErrorModel {
        match self {
            DomainError::InvalidGtsId(s) => DomainErrorModel::InvalidGtsId(s@),
            DomainError::NotFound(s) => DomainErrorModel::NotFound(s@),
            DomainError::AlreadyExists(s) => DomainErrorModel::AlreadyExists(s@),
            DomainError::ValidationFailed(s) => DomainErrorModel::ValidationFailed(s@),
            DomainError::NotInReadyMode => DomainErrorModel::NotInReadyMode,
            DomainError::ReadyCommitFailed(v) => DomainErrorModel::ReadyCommitFailed(validation_error_models(v@)),
            DomainError::Internal(s) => DomainErrorModel::Internal(s@),
        }
    }
}

/// The message of a domain error.
pub open spec fn domain_error_text(e: DomainErrorModel) -> Seq<char> {
    match e {
        DomainErrorModel::InvalidGtsId(s) => "Invalid GTS ID: "@ + s,
        DomainErrorModel::NotFound(s) => "Entity not found: "@ + s,
        DomainErrorModel::AlreadyExists(s) => "Entity already exists: "@ + s,
        DomainErrorModel::ValidationFailed(s) => "Validation failed: "@ + s,
        DomainErrorModel::NotInReadyMode => "Not in ready mode"@,
        DomainErrorModel::ReadyCommitFailed(v) => "Ready commit failed with "@ + decimal(v.len()) + " errors"@,
        DomainErrorModel::Internal(_) => "Internal error"@,
    }
}

impl DomainError {
    /// Creates an `InvalidGtsId` error.
    pub fn invalid_gts_id(message: &str) -> (r: Self)
        ensures
            r@ == DomainErrorModel::InvalidGtsId(message@),
    {
        DomainError::InvalidGtsId(owned(message))
    }

    /// Creates a `NotFound` error.
    pub fn not_found(gts_id: &str) -> (r: Self)
        ensures
            r@ == DomainErrorModel::NotFound(gts_id@),
    {
        DomainError::NotFound(owned(gts_id))
    }

    /// Creates an `AlreadyExists` error.
    pub fn already_exists(gts_id: &str) -> (r: Self)
        ensures
            r@ == DomainErrorModel::AlreadyExists(gts_id@),
    {
        DomainError::AlreadyExists(owned(gts_id))
    }

    /// Creates a `ValidationFailed` error.
    pub fn validation_failed(message: &str) -> (r: Self)
        ensures
            r@ == DomainErrorModel::ValidationFailed(message@),
    {
        DomainError::ValidationFailed(owned(message))
    }

    /// The validation errors of a `ReadyCommitFailed` error.
    pub fn validation_errors(&self) -> (r: Option<&[ValidationError]>)
        ensures
            match self {
                DomainError::ReadyCommitFailed(errors) => r matches Some(s) && s@ == errors@,
                _ => r is None,
            },
    {
        match self {
            DomainError::ReadyCommitFailed(errors) => Some(errors.as_slice()),
            _ => None,
        }
    }

    /// The message of this error.
    pub fn to_string(&self) -> (r: String)
        ensures
            r@ == domain_error_text(self@),
    {
        match self {
            DomainError::InvalidGtsId(s) => cat("Invalid GTS ID: ", s.as_str()),
            DomainError::NotFound(s) => cat("Entity not found: ", s.as_str()),
            DomainError::AlreadyExists(s) => cat("Entity already exists: ", s.as_str()),
            DomainError::ValidationFailed(s) => cat("Validation failed: ", s.as_str()),
            DomainError::NotInReadyMode => owned("Not in ready mode"),
            DomainError::ReadyCommitFailed(v) => {
                let n = usize_to_decimal(v.len());
                let mut r = cat("Ready commit failed with ", n.as_str());
                r.append(" errors");
                r
            },
            DomainError::Internal(_) => owned("Internal error"),
        }
    }
}

/// Errors of the types registry's public API.
#[derive(Debug)]
#[non_exhaustive]
pub enum TypesRegistryError {
    InvalidGtsId(String),
    NotFound(String),
    AlreadyExists(String),
    ValidationFailed(String),
    NotInReadyMode,
    Internal(String),
}

/// Mathematical model of a `TypesRegistryError`.
pub enum TypesRegistryErrorModel {
    InvalidGtsId(Seq<char>),
    NotFound(Seq<char>),
    AlreadyExists(Seq<char>),
    ValidationFailed(Seq<char>),
    NotInReadyMode,
    Internal(Seq<char>),
}

impl View for TypesRegistryError {
    type V = TypesRegistryErrorModel;

    open spec fn view(&self) -> TypesRegistryErrorModel {
        match self {
            TypesRegistryError::InvalidGtsId(s) => TypesRegistryErrorModel::InvalidGtsId(s@),
            TypesRegistryError::NotFound(s) => TypesRegistryErrorModel::NotFound(s@),
            TypesRegistryError::AlreadyExists(s) => TypesRegistryErrorModel::AlreadyExists(s@),
            TypesRegistryError::ValidationFailed(s) => TypesRegistryErrorModel::ValidationFailed(s@),
            TypesRegistryError::NotInReadyMode => TypesRegistryErrorModel::NotInReadyMode,
            TypesRegistryError::Internal(s) => TypesRegistryErrorModel::Internal(s@),
        }
    }
}

impl TypesRegistryError {
    pub fn is_invalid_gts_id(&self) -> (r: bool)
        ensures
            r == (self is InvalidGtsId),
    {
        matches!(self, TypesRegistryError::InvalidGtsId(_))
    }

    pub fn is_not_found(&self) -> (r: bool)
        ensures
            r == (self is NotFound),
    {
        matches!(self, TypesRegistryError::NotFound(_))
    }

    pub fn is_already_exists(&self) -> (r: bool)
        ensures
            r == (self is AlreadyExists),
    {
        matches!(self, TypesRegistryError::AlreadyExists(_))
    }

    pub fn is_validation_failed(&self) -> (r: bool)
        ensures
            r == (self is ValidationFailed),
    {
        matches!(self, TypesRegistryError::ValidationFailed(_))
    }
}

/// The texts of the validation errors joined by `"; "`.
pub open spec fn joined_validation_texts(v: Seq<ValidationErrorModel>) -> Seq<char>
    decreases v.len(),
{
    if v.len() == 0 {
        seq![]
    } else if v.len() == 1 {
        validation_error_text(v[0])
    } else {
        joined_validation_texts(v.drop_last()) + "; "@ + validation_error_text(v.last())
    }
}

/// The public error that a domain error is reported as.
pub open spec fn public_from_domain(e: DomainErrorModel) -> TypesRegistryErrorModel {
    match e {
        DomainErrorModel::InvalidGtsId(m) => TypesRegistryErrorModel::InvalidGtsId(m),
        DomainErrorModel::NotFound(id) => TypesRegistryErrorModel::NotFound(id),
        DomainErrorModel::AlreadyExists(id) => TypesRegistryErrorModel::AlreadyExists(id),
        DomainErrorModel::ValidationFailed(m) => TypesRegistryErrorModel::ValidationFailed(m),
        DomainErrorModel::NotInReadyMode => TypesRegistryErrorModel::NotInReadyMode,
        DomainErrorModel::ReadyCommitFailed(v) => TypesRegistryErrorModel::ValidationFailed(
            "Ready commit failed with "@ + decimal(v.len()) + " errors: "@ + joined_validation_texts(v),
        ),
        DomainErrorModel::Internal(m) => TypesRegistryErrorModel::Internal(m),
    }
}

fn join_validation_texts(v: &Vec<ValidationError>) -> (r: String)
    ensures
        r@ == joined_validation_texts(validation_error_models(v@)),
{
    let ghost ms = validation_error_models(v@);
    let mut r = String::new();
    let mut i: usize = 0;
    while i < v.len()
        invariant
            i <= v@.len(),
            ms == validation_error_models(v@),
            ms.len() == v@.len(),
            r@ == joined_validation_texts(ms.take(i as int)),
        decreases v.len() - i,
    {
        let t = v[i].to_string();
        assert(ms.take(i + 1).drop_last() =~= ms.take(i as int));
        assert(ms[i as int] == v@[i as int]@);
        if i == 0 {
            assert(ms.take(1) =~= seq![ms[0]]);
            assert(r@ =~= Seq::<char>::empty()) by {
                assert(ms.take(0).len() == 0);
            }
            r.append(t.as_str());
            assert(r@ =~= t@);
        } else {
            r.append("; ");
            r.append(t.as_str());
        }
        i += 1;
    }
    assert(ms.take(v@.len() as int) =~= ms);
    r
}

impl TypesRegistryError {
    /// The public error for a domain error.
    pub fn from_domain_error(e: DomainError) -> (r: TypesRegistryError)
        ensures
            r@ == public_from_domain(e@),
    {
        match e {
            DomainError::InvalidGtsId(msg) => TypesRegistryError::InvalidGtsId(msg),
            DomainError::NotFound(id) => TypesRegistryError::NotFound(id),
            DomainError::AlreadyExists(id) => TypesRegistryError::AlreadyExists(id),
            DomainError::ValidationFailed(msg) => TypesRegistryError::ValidationFailed(msg),
            DomainError::NotInReadyMode => TypesRegistryError::NotInReadyMode,
            DomainError::ReadyCommitFailed(errors) => {
                let n = usize_to_decimal(errors.len());
                let joined = join_validation_texts(&errors);
                let mut m = cat("Ready commit failed with ", n.as_str());
                m.append(" errors: ");
                m.append(joined.as_str());
                TypesRegistryError::ValidationFailed(m)
            },
            DomainError::Internal(msg) => TypesRegistryError::Internal(msg),
        }
    }
}

/// A domain error keeps its kind and its text when reported: each kind has
/// the public kind of the same name, carrying the same text, and a failed
/// ready commit is reported as a failed validation that ends with the texts
/// of its validation errors.
pub proof fn lemma_public_keeps_kind(e: DomainErrorModel)
    ensures
        e matches DomainErrorModel::InvalidGtsId(m) ==> public_from_domain(e) == TypesRegistryErrorModel::InvalidGtsId(m),
        e matches DomainErrorModel::NotFound(m) ==> public_from_domain(e) == TypesRegistryErrorModel::NotFound(m),
        e matches DomainErrorModel::AlreadyExists(m) ==> public_from_domain(e) == TypesRegistryErrorModel::AlreadyExists(m),
        e matches DomainErrorModel::ValidationFailed(m) ==> public_from_domain(e) == TypesRegistryErrorModel::ValidationFailed(m),
        e matches DomainErrorModel::Internal(m) ==> public_from_domain(e) == TypesRegistryErrorModel::Internal(m),
        (public_from_domain(e) is NotInReadyMode) <==> (e is NotInReadyMode),
        (public_from_domain(e) is ValidationFailed) <==> (e is ValidationFailed || e is ReadyCommitFailed),
        e matches DomainErrorModel::ReadyCommitFailed(v) ==> (public_from_domain(
            e,
        ) matches TypesRegistryErrorModel::ValidationFailed(m) && joined_validation_texts(v).is_suffix_of(m)),
{
    if let DomainErrorModel::ReadyCommitFailed(v) = e {
        let j = joined_validation_texts(v);
        let m = "Ready commit failed with "@ + decimal(v.len()) + " errors: "@ + j;
        assert(m.subrange(m.len() - j.len(), m.len() as int) =~= j);
    }
}

} // verus!
