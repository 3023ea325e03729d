//! Errors of the HTTP client: its own errors, those of its TLS configuration,
//! and the classification of its URL validation failures.

use vstd::prelude::*;

use crate::text::{cat, cat3, decimal, owned, usize_to_decimal};

verus! {

/// Classification of URL validation failures, for matching on the failure
/// mode without relying on message text.
#[derive(Debug, Clone, Copy, PartialEq, Eq, Structural)]
#[non_exhaustive]
pub enum InvalidUriKind {
    /// URL could not be parsed (malformed syntax)
    ParseError,
    /// URL is missing required host/authority component
    MissingAuthority,
    /// URL is missing required scheme (http/https)
    MissingScheme,
}

/// Errors that can occur when building a TLS client configuration. A
/// rejection by the TLS library is kept as its message.
#[derive(Debug)]
#[non_exhaustive]
pub enum TlsConfigError {
    /// The OS certificate store is empty: no native root CA certificates were found.
    NoNativeRoots,
    /// Certificates were found but none could be parsed.
    NoValidNativeRoots { found: usize, parse_failed: usize },
    /// The TLS library rejected the requested protocol version set.
    ProtocolVersions(String),
}

/// The message of a TLS configuration error.
pub open spec fn tls_config_error_text(e: TlsConfigError) -> Seq<char> {
    match e {
        TlsConfigError::NoNativeRoots => "no native root CA certificates found in OS certificate store"@,
        TlsConfigError::NoValidNativeRoots { found, parse_failed } => "no valid native root CA certificates parsed ("@
            + decimal(found as nat) + " loaded, "@ + decimal(parse_failed as nat) + " failed)"@,
        TlsConfigError::ProtocolVersions(_) => "failed to configure TLS protocol versions"@,
    }
}

impl TlsConfigError {
    /// The message of this error.
    pub fn to_string(&self) -> (r: String)
        ensures
            r@ == tls_config_error_text(*self),
    {
        match self {
            TlsConfigError::NoNativeRoots => owned("no native root CA certificates found in OS certificate store"),
            TlsConfigError::NoValidNativeRoots { found, parse_failed } => {
                let f = usize_to_decimal(*found);
                let p = usize_to_decimal(*parse_failed);
                let mut r = cat("no valid native root CA certificates parsed (", f.as_str());
                r.append(" loaded, ");
                r.append(p.as_str());
                r.append(" failed)");
                r
            },
            TlsConfigError::ProtocolVersions(_) => owned("failed to configure TLS protocol versions"),
        }
    }
}

/// A span of time as whole seconds and the nanoseconds beyond them.
#[derive(Debug, Clone, Copy, PartialEq, Eq, Structural)]
pub struct DurationParts {
    pub secs: u64,
    pub nanos: u32,
}

/// What std's `Debug` writes for the duration of `secs` seconds and `nanos`
/// nanoseconds (such as `1.5s` or `250ms`).
pub uninterp spec fn duration_debug_text(secs: u64, nanos: u32) -> Seq<char>;

/// Formats a duration with std's `Debug` (`{:?}` on `Duration::new(secs, nanos)`).
/// Its unit and rounding rules are std's and are left unstated; the result is named.
#[verifier::external_body]
fn debug_duration(secs: u64, nanos: u32) -> (r: String)
    requires
        nanos < 1_000_000_000,
    ensures
        r@ == duration_debug_text(secs, nanos),
{
    format!("{:?}", core::time::Duration::new(secs, nanos))
}

/// What `http`'s `StatusCode` displays for a code: the number and its
/// canonical reason phrase (such as `404 Not Found`).
pub uninterp spec fn status_code_text(code: u16) -> Seq<char>;

/// Displays a status code as `http::StatusCode` does (`StatusCode::from_u16`,
/// then `Display`): the number, a blank and the canonical reason phrase, or
/// `<unknown status code>`. The reason table is the crate's; the result is named.
#[verifier::external_body]
fn status_display(code: u16) -> (r: String)
    requires
        100 <= code <= 999,
    ensures
        r@ == status_code_text(code),
{
    match http::StatusCode::from_u16(code) {
        Ok(s) => s.to_string(),
        Err(_) => String::new(),
    }
}

/// HTTP client errors. An error of an outside library is kept as its
/// message; durations and status codes as plain values.
#[derive(Debug)]
#[non_exhaustive]
pub enum HttpError {
    /// Request building failed.
    RequestBuild(String),
    /// Invalid header name.
    InvalidHeaderName(String),
    /// Invalid header value.
    InvalidHeaderValue(String),
    /// A single request attempt timed out.
    Timeout(DurationParts),
    /// The total operation deadline was exceeded (including all retries).
    DeadlineExceeded(DurationParts),
    /// Transport error (network, connection, etc.).
    Transport(String),
    /// TLS error.
    Tls(String),
    /// The response body exceeded the size limit.
    BodyTooLarge { limit: usize, actual: usize },
    /// A non-2xx status.
    HttpStatus {
        status: u16,
        body_preview: String,
        content_type: Option<String>,
        retry_after: Option<DurationParts>,
    },
    /// JSON parsing failed.
    Json(String),
    /// Form URL encoding failed.
    FormEncode(String),
    /// The concurrency limit was reached (fail-fast).
    Overloaded,
    /// Internal service failure (buffer worker died, channel closed).
    ServiceClosed,
    /// The URL failed to parse.
    InvalidUri { url: String, kind: InvalidUriKind, reason: String },
    /// The URL scheme is not allowed for the transport security configuration.
    InvalidScheme { scheme: String, reason: String },
}

impl HttpError {
    /// Whether the durations and status code of this error are those of real
    /// `Duration`s and `StatusCode`s: nanoseconds below a second, a code of
    /// three digits.
    pub open spec fn well_formed(&self) -> bool {
        match self {
            HttpError::Timeout(d) => d.nanos < 1_000_000_000,
            HttpError::DeadlineExceeded(d) => d.nanos < 1_000_000_000,
            HttpError::HttpStatus { status, .. } => 100 <= *status <= 999,
            _ => true,
        }
    }
}

/// The message of an HTTP error, given the text of its duration (for the
/// timeout variants) and of its status code (for the status variant).
pub open spec fn http_error_text_given(e: HttpError, duration: Seq<char>, status: Seq<char>) -> Seq<char> {
    match e {
        HttpError::RequestBuild(_) => "Failed to build request"@,
        HttpError::InvalidHeaderName(_) => "Invalid header name"@,
        HttpError::InvalidHeaderValue(_) => "Invalid header value"@,
        HttpError::Timeout(_) => "Request attempt timed out after "@ + duration,
        HttpError::DeadlineExceeded(_) => "Operation deadline exceeded after "@ + duration,
        HttpError::Transport(_) => "HTTP transport failed"@,
        HttpError::Tls(_) => "TLS error"@,
        HttpError::BodyTooLarge { limit, actual } => "Response body too large: limit "@ + decimal(limit as nat)
            + " bytes, got "@ + decimal(actual as nat) + " bytes"@,
        HttpError::HttpStatus { body_preview, .. } => "HTTP "@ + status + ": "@ + body_preview@,
        HttpError::Json(_) => "JSON parsing failed"@,
        HttpError::FormEncode(_) => "Form encoding failed"@,
        HttpError::Overloaded => "Service overloaded: concurrency limit reached"@,
        HttpError::ServiceClosed => "Service unavailable: internal failure"@,
        HttpError::InvalidUri { url, reason, .. } => "Invalid URL '"@ + url@ + "': "@ + reason@,
        HttpError::InvalidScheme { scheme, reason } => "URL scheme '"@ + scheme@ + "' not allowed: "@ + reason@,
    }
}

/// The message of an HTTP error.
pub open spec fn http_error_text(e: HttpError) -> Seq<char> {
    match e {
        HttpError::Timeout(d) => http_error_text_given(e, duration_debug_text(d.secs, d.nanos), seq![]),
        HttpError::DeadlineExceeded(d) => http_error_text_given(e, duration_debug_text(d.secs, d.nanos), seq![]),
        HttpError::HttpStatus { status, .. } => http_error_text_given(e, seq![], status_code_text(status)),
        _ => http_error_text_given(e, seq![], seq![]),
    }
}

impl HttpError {
    /// The message of this error, given the text of its duration and of its
    /// status code.
    pub fn message_with(&self, duration: &str, status: &str) -> (r: String)
        ensures
            r@ == http_error_text_given(*self, duration@, status@),
    {
        match self {
            HttpError::RequestBuild(_) => owned("Failed to build request"),
            HttpError::InvalidHeaderName(_) => owned("Invalid header name"),
            HttpError::InvalidHeaderValue(_) => owned("Invalid header value"),
            HttpError::Timeout(_) => cat("Request attempt timed out after ", duration),
            HttpError::DeadlineExceeded(_) => cat("Operation deadline exceeded after ", duration),
            HttpError::Transport(_) => owned("HTTP transport failed"),
            HttpError::Tls(_) => owned("TLS error"),
            HttpError::BodyTooLarge { limit, actual } => {
                let l = usize_to_decimal(*limit);
                let a = usize_to_decimal(*actual);
                let mut r = cat("Response body too large: limit ", l.as_str());
                r.append(" bytes, got ");
                r.append(a.as_str());
                r.append(" bytes");
                r
            },
            HttpError::HttpStatus { body_preview, .. } => {
                let mut r = cat3("HTTP ", status, ": ");
                r.append(body_preview.as_str());
                r
            },
            HttpError::Json(_) => owned("JSON parsing failed"),
            HttpError::FormEncode(_) => owned("Form encoding failed"),
            HttpError::Overloaded => owned("Service overloaded: concurrency limit reached"),
            HttpError::ServiceClosed => owned("Service unavailable: internal failure"),
            HttpError::InvalidUri { url, reason, .. } => {
                let mut r = cat3("Invalid URL '", url.as_str(), "': ");
                r.append(reason.as_str());
                r
            },
            HttpError::InvalidScheme { scheme, reason } => {
                let mut r = cat3("URL scheme '", scheme.as_str(), "' not allowed: ");
                r.append(reason.as_str());
                r
            },
        }
    }

    /// The message of this error.
    pub fn to_string(&self) -> (r: String)
        requires
            self.well_formed(),
        ensures
            r@ == http_error_text(*self),
    {
        match self {
            HttpError::Timeout(d) => {
                let t = debug_duration(d.secs, d.nanos);
                self.message_with(t.as_str(), "")
            },
            HttpError::DeadlineExceeded(d) => {
                let t = debug_duration(d.secs, d.nanos);
                self.message_with(t.as_str(), "")
            },
            HttpError::HttpStatus { status, .. } => {
                let t = status_display(*status);
                self.message_with("", t.as_str())
            },
            _ => self.message_with("", ""),
        }
    }
}

} // verus!
