//! The catalog problems that the user-settings API answers its domain errors
//! with. Each answer names an entry of the settings error catalog and the
//! context (detail, request path, trace ID) it is rendered with.

use vstd::prelude::*;

use crate::text::{cat4, owned};
use crate::trace_id::current_trace_id;

verus! {

/// Domain errors of the user-settings service.
#[derive(Debug)]
pub enum DomainError {
    NotFound,
    Validation { field: String, message: String },
    Forbidden(String),
    Internal(String),
    Database(String),
}

/// Entries of the settings error catalog.
#[derive(Debug, Clone, Copy, PartialEq, Eq, Structural)]
pub enum ErrorCode {
    /// `settings.simple_user_settings.not_found.v1`
    SettingsNotFoundV1,
    /// `settings.simple_user_settings.validation.v1`
    SettingsValidationV1,
    /// `settings.simple_user_settings.internal_database.v1`
    SettingsInternalDatabaseV1,
}

/// A catalog entry with the context it is rendered with.
#[derive(Debug, Clone)]
pub struct CatalogProblem {
    pub code: ErrorCode,
    pub detail: String,
    pub instance: String,
    pub trace_id: Option<String>,
}

/// Mathematical model of a `CatalogProblem`.
pub struct CatalogProblemModel {
    pub code: ErrorCode,
    pub detail: Seq<char>,
    pub instance: Seq<char>,
    pub trace_id: Option<Seq<char>>,
}

pub open spec fn opt_view(o: Option<String>) -> Option<Seq<char>> {
    match o {
        Some(s) => Some(s@),
        None => None,
    }
}

impl View for CatalogProblem {
    type V = CatalogProblemModel;

    open spec fn view(&self) -> CatalogProblemModel {
        CatalogProblemModel {
            code: self.code,
            detail: self.detail@,
            instance: self.instance@,
            trace_id: opt_view(self.trace_id),
        }
    }
}

impl ErrorCode {
    /// This catalog entry with its context.
    pub fn with_context(self, detail: String, instance: &str, trace_id: Option<String>) -> (r: CatalogProblem)
        ensures
            r@ == (CatalogProblemModel {
                code: self,
                detail: detail@,
                instance: instance@,
                trace_id: opt_view(trace_id),
            }),
    {
        CatalogProblem { code: self, detail, instance: owned(instance), trace_id }
    }
}

/// The catalog entry and detail that answer a domain error. A forbidden
/// access is answered as not found, so as not to reveal what exists; internal
/// and database errors reveal nothing of their message.
pub open spec fn answer_of(e: DomainError) -> (ErrorCode, Seq<char>) {
    match e {
        DomainError::NotFound => (ErrorCode::SettingsNotFoundV1, "Settings not found"@),
        DomainError::Validation { field, message } => (
            ErrorCode::SettingsValidationV1,
            "Validation error on '"@ + field@ + "': "@ + message@,
        ),
        DomainError::Forbidden(_) => (ErrorCode::SettingsNotFoundV1, "Settings not found or not accessible"@),
        DomainError::Internal(_) => (ErrorCode::SettingsInternalDatabaseV1, "An internal error occurred"@),
        DomainError::Database(_) => (ErrorCode::SettingsInternalDatabaseV1, "An internal database error occurred"@),
    }
}

/// The answer to a missing settings record.
pub fn build_not_found_problem(instance: &str, trace_id: Option<String>) -> (r: CatalogProblem)
    ensures
        r@ == (CatalogProblemModel {
            code: ErrorCode::SettingsNotFoundV1,
            detail: "Settings not found"@,
            instance: instance@,
            trace_id: opt_view(trace_id),
        }),
{
    ErrorCode::SettingsNotFoundV1.with_context(owned("Settings not found"), instance, trace_id)
}

/// The answer to an invalid field value.
pub fn build_validation_problem(field: &str, message: &str, instance: &str, trace_id: Option<String>) -> (r:
    CatalogProblem)
    ensures
        r@ == (CatalogProblemModel {
            code: ErrorCode::SettingsValidationV1,
            detail: "Validation error on '"@ + field@ + "': "@ + message@,
            instance: instance@,
            trace_id: opt_view(trace_id),
        }),
{
    let detail = cat4("Validation error on '", field, "': ", message);
    ErrorCode::SettingsValidationV1.with_context(detail, instance, trace_id)
}

/// The answer to a forbidden access: reported as not found.
pub fn build_forbidden_problem(instance: &str, trace_id: Option<String>) -> (r: CatalogProblem)
    ensures
        r@ == (CatalogProblemModel {
            code: ErrorCode::SettingsNotFoundV1,
            detail: "Settings not found or not accessible"@,
            instance: instance@,
            trace_id: opt_view(trace_id),
        }),
{
    ErrorCode::SettingsNotFoundV1.with_context(owned("Settings not found or not accessible"), instance, trace_id)
}

/// The answer to an internal error.
pub fn build_internal_problem(instance: &str, trace_id: Option<String>) -> (r: CatalogProblem)
    ensures
        r@ == (CatalogProblemModel {
            code: ErrorCode::SettingsInternalDatabaseV1,
            detail: "An internal error occurred"@,
            instance: instance@,
            trace_id: opt_view(trace_id),
        }),
{
    ErrorCode::SettingsInternalDatabaseV1.with_context(owned("An internal error occurred"), instance, trace_id)
}

/// The answer to a database error.
pub fn build_database_problem(instance: &str, trace_id: Option<String>) -> (r: CatalogProblem)
    ensures
        r@ == (CatalogProblemModel {
            code: ErrorCode::SettingsInternalDatabaseV1,
            detail: "An internal database error occurred"@,
            instance: instance@,
            trace_id: opt_view(trace_id),
        }),
{
    ErrorCode::SettingsInternalDatabaseV1.with_context(
        owned("An internal database error occurred"),
        instance,
        trace_id,
    )
}

/// The answer to a domain error for the request path `instance`, with the given trace ID.
pub fn domain_error_to_problem_with_trace(e: &DomainError, instance: &str, trace_id: Option<String>) -> (r:
    CatalogProblem)
    ensures
        r@ == (CatalogProblemModel {
            code: answer_of(*e).0,
            detail: answer_of(*e).1,
            instance: instance@,
            trace_id: opt_view(trace_id),
        }),
{
    match e {
        DomainError::NotFound => build_not_found_problem(instance, trace_id),
        DomainError::Validation { field, message } => build_validation_problem(
            field.as_str(),
            message.as_str(),
            instance,
            trace_id,
        ),
        DomainError::Forbidden(_) => build_forbidden_problem(instance, trace_id),
        DomainError::Internal(_) => build_internal_problem(instance, trace_id),
        DomainError::Database(_) => build_database_problem(instance, trace_id),
    }
}

/// The answer to a domain error for the request path `instance`, with the
/// trace ID of the active span when there is one.
pub fn domain_error_to_problem(e: &DomainError, instance: &str) -> (r: CatalogProblem)
    ensures
        r@ == (CatalogProblemModel {
            code: answer_of(*e).0,
            detail: answer_of(*e).1,
            instance: instance@,
            trace_id: None,
        }),
{
    domain_error_to_problem_with_trace(e, instance, current_trace_id())
}

/// The answer to a domain error for the root path, as handlers get it from `?`.
pub fn problem_from_domain_error(e: DomainError) -> (r: CatalogProblem)
    ensures
        r@ == (CatalogProblemModel { code: answer_of(e).0, detail: answer_of(e).1, instance: "/"@, trace_id: None }),
{
    domain_error_to_problem(&e, "/")
}

/// A forbidden access is answered exactly as a missing record, apart from
/// the wording of the detail: both use the not-found catalog entry.
pub proof fn lemma_forbidden_looks_like_not_found(m: String)
    ensures
        answer_of(DomainError::Forbidden(m)).0 == answer_of(DomainError::NotFound).0,
{
}

/// Each kind of domain error has its own catalog entry: the internal
/// database entry answers exactly internal and database errors, the
/// validation entry exactly validation errors, and the not-found entry
/// missing and forbidden records.
pub proof fn lemma_catalog_entry_by_kind(e: DomainError)
    ensures
        (answer_of(e).0 == ErrorCode::SettingsInternalDatabaseV1) <==> (e is Internal || e is Database),
        (answer_of(e).0 == ErrorCode::SettingsValidationV1) <==> (e is Validation),
        (answer_of(e).0 == ErrorCode::SettingsNotFoundV1) <==> (e is NotFound || e is Forbidden),
{
}

/// The detail of a validation answer names the field, in quotes, and ends
/// with the validation message.
pub proof fn lemma_validation_detail_names_field(field: String, message: String)
    ensures
        ({
            let d = answer_of(DomainError::Validation { field, message }).1;
            &&& message@.is_suffix_of(d)
            &&& exists|i: int|
                0 < i && i + field@.len() < d.len() && d[i - 1] == '\'' && d.subrange(i, i + field@.len())
                    == field@ && #[trigger] d[i + field@.len()] == '\''
        }),
{
    let d = answer_of(DomainError::Validation { field, message }).1;
    let head = "Validation error on '"@;
    reveal_strlit("Validation error on '");
    reveal_strlit("': ");
    let i = head.len() as int;
    assert(d[i - 1] == '\'');
    assert(d.subrange(i, i + field@.len()) =~= field@);
    assert(d[i + field@.len()] == '\'');
    assert(d.subrange(d.len() - message@.len(), d.len() as int) =~= message@);
}

/// Internal and database errors reveal nothing of their message: their
/// answers do not depend on it.
pub proof fn lemma_internal_answers_hide_message(a: String, b: String)
    ensures
        answer_of(DomainError::Internal(a)) == answer_of(DomainError::Internal(b)),
        answer_of(DomainError::Database(a)) == answer_of(DomainError::Database(b)),
{
}

} // verus!
