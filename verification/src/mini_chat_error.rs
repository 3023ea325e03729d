//! The RFC 9457 problems that the chat API answers its domain errors with.
//! Identifiers are carried as their text.

use vstd::prelude::*;

use crate::problem::{Problem, ProblemModel};
use crate::text::{cat, cat3, owned};
use crate::trace_id::current_trace_id;

verus! {

/// Domain errors of the chat service.
#[derive(Debug)]
#[non_exhaustive]
pub enum DomainError {
    ChatNotFound { id: String },
    InvalidModel { model: String },
    Validation { message: String },
    Forbidden,
    Conflict { code: String, message: String },
    NotFound { entity: String, id: String },
    MessageNotFound { id: String },
    InvalidReactionTarget { id: String },
    ModelNotFound { model_id: String },
    Database { message: String },
    InternalError { message: String },
    WebSearchDisabled,
    WebSearchCallsExceeded,
    UnsupportedFileType { mime: String },
    FileTooLarge { message: String },
    DocumentLimitExceeded { message: String },
    StorageLimitExceeded { message: String },
    ServiceUnavailable { message: String },
    ProviderError { code: String, sanitized_message: String },
}

/// A problem with status, title and detail and no other field set.
pub open spec fn plain_problem(status: u16, title: Seq<char>, detail: Seq<char>) -> ProblemModel {
    ProblemModel { status, title, detail, instance: seq![], code: None, trace_id: None }
}

/// `p` with the error code `code`.
pub open spec fn coded(p: ProblemModel, code: Seq<char>) -> ProblemModel {
    ProblemModel { code: Some(code), ..p }
}

/// The problem (before any trace ID) that answers a domain error: its status,
/// title, detail and, for some errors, a code. Internal and database errors
/// reveal nothing of their message.
pub open spec fn problem_of(e: DomainError) -> ProblemModel {
    match e {
        DomainError::ChatNotFound { id } => plain_problem(404, "Chat Not Found"@, "Chat with id "@ + id@ + " was not found"@),
        DomainError::InvalidModel { model } => plain_problem(
            400,
            "Invalid Model"@,
            "Model '"@ + model@ + "' is not available in the catalog"@,
        ),
        DomainError::Validation { message } => plain_problem(400, "Validation Error"@, message@),
        DomainError::Forbidden => plain_problem(
            403,
            "Access denied"@,
            "You do not have permission to perform this action"@,
        ),
        DomainError::Conflict { code, message } => coded(plain_problem(409, "Conflict"@, message@), code@),
        DomainError::NotFound { entity, id } => plain_problem(
            404,
            entity@ + " not found"@,
            entity@ + " with id "@ + id@ + " was not found"@,
        ),
        DomainError::MessageNotFound { id } => plain_problem(
            404,
            "Message Not Found"@,
            "Message with id "@ + id@ + " was not found"@,
        ),
        DomainError::InvalidReactionTarget { id } => plain_problem(
            400,
            "Invalid Reaction Target"@,
            "Message "@ + id@ + " is not an assistant message"@,
        ),
        DomainError::ModelNotFound { model_id } => plain_problem(
            404,
            "model_not_found"@,
            "Model '"@ + model_id@ + "' was not found"@,
        ),
        DomainError::Database { .. } => plain_problem(500, "Internal Error"@, "An internal error occurred"@),
        DomainError::InternalError { .. } => plain_problem(500, "Internal Error"@, "An internal error occurred"@),
        DomainError::WebSearchDisabled => plain_problem(
            400,
            "web_search_disabled"@,
            "Web search is currently disabled"@,
        ),
        DomainError::WebSearchCallsExceeded => plain_problem(
            400,
            "web_search_calls_exceeded"@,
            "Web search calls exceeded for this message"@,
        ),
        DomainError::UnsupportedFileType { mime } => coded(
            plain_problem(415, "unsupported_file_type"@, "Unsupported file type: "@ + mime@),
            "unsupported_file_type"@,
        ),
        DomainError::FileTooLarge { message } => coded(
            plain_problem(413, "file_too_large"@, message@),
            "file_too_large"@,
        ),
        DomainError::DocumentLimitExceeded { message } => coded(
            plain_problem(400, "document_limit_exceeded"@, message@),
            "document_limit_exceeded"@,
        ),
        DomainError::StorageLimitExceeded { message } => coded(
            plain_problem(400, "storage_limit_exceeded"@, message@),
            "storage_limit_exceeded"@,
        ),
        DomainError::ServiceUnavailable { message } => coded(
            plain_problem(503, "service_unavailable"@, message@),
            "service_unavailable"@,
        ),
        DomainError::ProviderError { code, sanitized_message } => coded(
            plain_problem(502, code@, sanitized_message@),
            code@,
        ),
    }
}

/// The problem that answers a domain error, with the trace ID when there is one.
pub fn problem_with_trace(e: &DomainError, trace_id: Option<String>) -> (r: Problem)
    ensures
        r@ == (ProblemModel {
            trace_id: match trace_id {
                Some(t) => Some(t@),
                None => None,
            },
            ..problem_of(*e)
        }),
{
    let problem = match e {
        DomainError::ChatNotFound { id } => {
            let d = cat3("Chat with id ", id.as_str(), " was not found");
            Problem::new(404, "Chat Not Found", d.as_str())
        },
        DomainError::InvalidModel { model } => {
            let d = cat3("Model '", model.as_str(), "' is not available in the catalog");
            Problem::new(400, "Invalid Model", d.as_str())
        },
        DomainError::Validation { message } => Problem::new(400, "Validation Error", message.as_str()),
        DomainError::Forbidden => Problem::new(
            403,
            "Access denied",
            "You do not have permission to perform this action",
        ),
        DomainError::Conflict { code, message } => Problem::new(409, "Conflict", message.as_str()).with_code(
            code.clone(),
        ),
        DomainError::NotFound { entity, id } => {
            let t = cat(entity.as_str(), " not found");
            let mut d = cat3(entity.as_str(), " with id ", id.as_str());
            d.append(" was not found");
            Problem::new(404, t.as_str(), d.as_str())
        },
        DomainError::MessageNotFound { id } => {
            let d = cat3("Message with id ", id.as_str(), " was not found");
            Problem::new(404, "Message Not Found", d.as_str())
        },
        DomainError::InvalidReactionTarget { id } => {
            let d = cat3("Message ", id.as_str(), " is not an assistant message");
            Problem::new(400, "Invalid Reaction Target", d.as_str())
        },
        DomainError::ModelNotFound { model_id } => {
            let d = cat3("Model '", model_id.as_str(), "' was not found");
            Problem::new(404, "model_not_found", d.as_str())
        },
        DomainError::Database { .. } | DomainError::InternalError { .. } => Problem::new(
            500,
            "Internal Error",
            "An internal error occurred",
        ),
        DomainError::WebSearchDisabled => Problem::new(
            400,
            "web_search_disabled",
            "Web search is currently disabled",
        ),
        DomainError::WebSearchCallsExceeded => Problem::new(
            400,
            "web_search_calls_exceeded",
            "Web search calls exceeded for this message",
        ),
        DomainError::UnsupportedFileType { mime } => {
            let d = cat("Unsupported file type: ", mime.as_str());
            Problem::new(415, "unsupported_file_type", d.as_str()).with_code(owned("unsupported_file_type"))
        },
        DomainError::FileTooLarge { message } => Problem::new(413, "file_too_large", message.as_str()).with_code(
            owned("file_too_large"),
        ),
        DomainError::DocumentLimitExceeded { message } => Problem::new(
            400,
            "document_limit_exceeded",
            message.as_str(),
        ).with_code(owned("document_limit_exceeded")),
        DomainError::StorageLimitExceeded { message } => Problem::new(
            400,
            "storage_limit_exceeded",
            message.as_str(),
        ).with_code(owned("storage_limit_exceeded")),
        DomainError::ServiceUnavailable { message } => Problem::new(
            503,
            "service_unavailable",
            message.as_str(),
        ).with_code(owned("service_unavailable")),
        DomainError::ProviderError { code, sanitized_message } => Problem::new(
            502,
            code.as_str(),
            sanitized_message.as_str(),
        ).with_code(code.clone()),
    };
    problem.with_optional_trace_id(trace_id)
}

/// The problem that answers a domain error, with the trace ID of the active
/// span when there is one.
pub fn problem_from_domain_error(e: DomainError) -> (r: Problem)
    ensures
        r@ == problem_of(e),
{
    problem_with_trace(&e, current_trace_id())
}

/// Internal and database errors are answered alike, with status 500 and a
/// detail that reveals nothing of the error's own message.
pub proof fn lemma_internal_errors_opaque(a: DomainError, b: DomainError)
    requires
        a is Database || a is InternalError,
        b is Database || b is InternalError,
    ensures
        problem_of(a) == problem_of(b),
        problem_of(a).status == 500,
{
}

/// The status whose standard HTTP reason phrase is `t`, for the phrases of
/// the statuses this API answers with.
pub open spec fn reason_phrase_status(t: Seq<char>) -> Option<u16> {
    if t == "Bad Request"@ {
        Some(400)
    } else if t == "Forbidden"@ {
        Some(403)
    } else if t == "Not Found"@ {
        Some(404)
    } else if t == "Conflict"@ {
        Some(409)
    } else if t == "Payload Too Large"@ {
        Some(413)
    } else if t == "Unsupported Media Type"@ {
        Some(415)
    } else if t == "Internal Server Error"@ {
        Some(500)
    } else if t == "Bad Gateway"@ {
        Some(502)
    } else if t == "Service Unavailable"@ {
        Some(503)
    } else {
        None
    }
}

/// A problem whose title is the standard reason phrase of an HTTP status
/// carries that status: a conflict is answered with 409. Provider errors
/// and generic not-found errors are left out: their titles come from the
/// error itself (a provider's code, an entity's name).
pub proof fn lemma_title_agrees_with_status(e: DomainError)
    requires
        !(e is ProviderError),
        !(e is NotFound),
    ensures
        reason_phrase_status(problem_of(e).title) matches Some(s) ==> problem_of(e).status == s,
{
    reveal_strlit("Bad Request");
    reveal_strlit("Forbidden");
    reveal_strlit("Not Found");
    reveal_strlit("Conflict");
    reveal_strlit("Payload Too Large");
    reveal_strlit("Unsupported Media Type");
    reveal_strlit("Internal Server Error");
    reveal_strlit("Bad Gateway");
    reveal_strlit("Service Unavailable");
    reveal_strlit("Chat Not Found");
    reveal_strlit("Invalid Model");
    reveal_strlit("Validation Error");
    reveal_strlit("Access denied");
    reveal_strlit("Message Not Found");
    reveal_strlit("Invalid Reaction Target");
    reveal_strlit("model_not_found");
    reveal_strlit("Internal Error");
    reveal_strlit("web_search_disabled");
    reveal_strlit("web_search_calls_exceeded");
    reveal_strlit("unsupported_file_type");
    reveal_strlit("file_too_large");
    reveal_strlit("document_limit_exceeded");
    reveal_strlit("storage_limit_exceeded");
    reveal_strlit("service_unavailable");
    assert("Bad Request"@.len() == 11);
    assert("Forbidden"@.len() == 9);
    assert("Not Found"@.len() == 9);
    assert("Conflict"@.len() == 8);
    assert("Payload Too Large"@.len() == 17);
    assert("Unsupported Media Type"@.len() == 22);
    assert("Internal Server Error"@.len() == 21);
    assert("Bad Gateway"@.len() == 11);
    assert("Service Unavailable"@.len() == 19);
    assert("Chat Not Found"@.len() == 14);
    assert("Invalid Model"@.len() == 13);
    assert("Validation Error"@.len() == 16);
    assert("Access denied"@.len() == 13);
    assert("Message Not Found"@.len() == 17);
    assert("Invalid Reaction Target"@.len() == 23);
    assert("model_not_found"@.len() == 15);
    assert("Internal Error"@.len() == 14);
    assert("web_search_disabled"@.len() == 19);
    assert("web_search_calls_exceeded"@.len() == 25);
    assert("unsupported_file_type"@.len() == 21);
    assert("file_too_large"@.len() == 14);
    assert("document_limit_exceeded"@.len() == 23);
    assert("storage_limit_exceeded"@.len() == 22);
    assert("service_unavailable"@.len() == 19);
    assert("Message Not Found"@[0] != "Payload Too Large"@[0]);
    assert("web_search_disabled"@[0] != "Service Unavailable"@[0]);
    assert("unsupported_file_type"@[0] != "Internal Server Error"@[0]);
    assert("storage_limit_exceeded"@[0] != "Unsupported Media Type"@[0]);
    assert("service_unavailable"@[0] != "Service Unavailable"@[0]);
    assert(reason_phrase_status("Chat Not Found"@) is None);
    assert(reason_phrase_status("Invalid Model"@) is None);
    assert(reason_phrase_status("Validation Error"@) is None);
    assert(reason_phrase_status("Access denied"@) is None);
    assert(reason_phrase_status("Message Not Found"@) is None);
    assert(reason_phrase_status("Invalid Reaction Target"@) is None);
    assert(reason_phrase_status("model_not_found"@) is None);
    assert(reason_phrase_status("Internal Error"@) is None);
    assert(reason_phrase_status("web_search_disabled"@) is None);
    assert(reason_phrase_status("web_search_calls_exceeded"@) is None);
    assert(reason_phrase_status("unsupported_file_type"@) is None);
    assert(reason_phrase_status("file_too_large"@) is None);
    assert(reason_phrase_status("document_limit_exceeded"@) is None);
    assert(reason_phrase_status("storage_limit_exceeded"@) is None);
    assert(reason_phrase_status("service_unavailable"@) is None);
    assert(reason_phrase_status("Conflict"@) == Some(409u16));
}

/// Errors caused by the service or what it depends on are answered with a
/// 5xx status, every other error with a 4xx status.
pub proof fn lemma_status_class(e: DomainError)
    ensures
        400 <= problem_of(e).status < 600,
        (problem_of(e).status >= 500) <==> (e is Database || e is InternalError || e is ServiceUnavailable
            || e is ProviderError),
{
}

/// A conflict or provider error is answered with its own code; every other
/// coded answer uses a catalog code that is also its title.
pub proof fn lemma_codes(e: DomainError)
    ensures
        e matches DomainError::Conflict { code, .. } ==> problem_of(e).code == Some(code@),
        e matches DomainError::ProviderError { code, .. } ==> problem_of(e).code == Some(code@),
        !(e is Conflict) ==> (problem_of(e).code matches Some(c) ==> problem_of(e).title == c),
{
}

/// Errors about something that does not exist are answered with 404, and
/// only they are.
pub proof fn lemma_missing_is_404(e: DomainError)
    ensures
        (problem_of(e).status == 404) <==> (e is ChatNotFound || e is NotFound || e is MessageNotFound
            || e is ModelNotFound),
{
}

} // verus!
