//! Errors of JWT claims validation and their report as authentication errors.

use vstd::prelude::*;

use crate::text::{cat, cat3, cat4, owned};

verus! {

/// Errors that can occur during JWT claims validation and processing.
#[derive(Debug)]
#[non_exhaustive]
pub enum ClaimsError {
    InvalidSignature,
    InvalidIssuer { expected: Vec<String>, actual: String },
    InvalidAudience { expected: Vec<String>, actual: Vec<String> },
    Expired,
    NotYetValid,
    Malformed(String),
    Provider(String),
    MissingClaim(String),
    InvalidClaimFormat { field: String, reason: String },
    UnknownKidAfterRefresh,
    DecodeFailed(String),
    JwksFetchFailed(String),
    UnknownKeyId(String),
}

/// The texts of a vector of strings.
pub open spec fn texts(v: Seq<String>) -> Seq<Seq<char>> {
    v.map_values(|s: String| s@)
}

/// Mathematical model of a `ClaimsError`.
pub enum ClaimsErrorModel {
    InvalidSignature,
    InvalidIssuer { expected: Seq<Seq<char>>, actual: Seq<char> },
    InvalidAudience { expected: Seq<Seq<char>>, actual: Seq<Seq<char>> },
    Expired,
    NotYetValid,
    Malformed(Seq<char>),
    Provider(Seq<char>),
    MissingClaim(Seq<char>),
    InvalidClaimFormat { field: Seq<char>, reason: Seq<char> },
    UnknownKidAfterRefresh,
    DecodeFailed(Seq<char>),
    JwksFetchFailed(Seq<char>),
    UnknownKeyId(Seq<char>),
}

impl View for ClaimsError {
    type V = ClaimsErrorModel;

    open spec fn view(&self) -> ClaimsErrorModel {
        match self {
            ClaimsError::InvalidSignature => ClaimsErrorModel::InvalidSignature,
            ClaimsError::InvalidIssuer { expected, actual } => ClaimsErrorModel::InvalidIssuer {
                expected: texts(expected@),
                actual: actual@,
            },
            ClaimsError::InvalidAudience { expected, actual } => ClaimsErrorModel::InvalidAudience {
                expected: texts(expected@),
                actual: texts(actual@),
            },
            ClaimsError::Expired => ClaimsErrorModel::Expired,
            ClaimsError::NotYetValid => ClaimsErrorModel::NotYetValid,
            ClaimsError::Malformed(m) => ClaimsErrorModel::Malformed(m@),
            ClaimsError::Provider(m) => ClaimsErrorModel::Provider(m@),
            ClaimsError::MissingClaim(m) => ClaimsErrorModel::MissingClaim(m@),
            ClaimsError::InvalidClaimFormat { field, reason } => ClaimsErrorModel::InvalidClaimFormat {
                field: field@,
                reason: reason@,
            },
            ClaimsError::UnknownKidAfterRefresh => ClaimsErrorModel::UnknownKidAfterRefresh,
            ClaimsError::DecodeFailed(m) => ClaimsErrorModel::DecodeFailed(m@),
            ClaimsError::JwksFetchFailed(m) => ClaimsErrorModel::JwksFetchFailed(m@),
            ClaimsError::UnknownKeyId(m) => ClaimsErrorModel::UnknownKeyId(m@),
        }
    }
}

/// What std's `Debug` (`{:?}`) writes for a vector of strings.
pub uninterp spec fn debug_strings_text(v: Seq<Seq<char>>) -> Seq<char>;

/// Formats a vector of strings with std's `Debug`, as `{:?}` does: the
/// strings in brackets, each quoted and escaped, separated by `, `. The
/// escaping rules are std's and are left unstated; the result is named.
#[verifier::external_body]
fn debug_strings(v: &Vec<String>) -> (r: String)
    ensures
        r@ == debug_strings_text(v.deep_view()),
{
    format!("{:?}", v)
}

/// The message of a claims error, given the `Debug` texts of its lists of
/// expected and actual values (used by the issuer and audience variants only).
pub open spec fn claims_error_text_given(e: ClaimsErrorModel, expected: Seq<char>, actual: Seq<char>) -> Seq<
    char,
> {
    match e {
        ClaimsErrorModel::InvalidSignature => "Invalid signature or key"@,
        ClaimsErrorModel::InvalidIssuer { actual: got, .. } => "Invalid issuer: expected one of "@ + expected
            + ", got "@ + got,
        ClaimsErrorModel::InvalidAudience { .. } => "Invalid audience: expected one of "@ + expected + ", got "@
            + actual,
        ClaimsErrorModel::Expired => "Token expired"@,
        ClaimsErrorModel::NotYetValid => "Token not yet valid (nbf check failed)"@,
        ClaimsErrorModel::Malformed(m) => "Malformed claims: "@ + m,
        ClaimsErrorModel::Provider(m) => "Provider error: "@ + m,
        ClaimsErrorModel::MissingClaim(m) => "Missing required claim: "@ + m,
        ClaimsErrorModel::InvalidClaimFormat { field, reason } => "Invalid claim format: "@ + field + " - "@
            + reason,
        ClaimsErrorModel::UnknownKidAfterRefresh => "Unknown key ID after refresh"@,
        ClaimsErrorModel::DecodeFailed(m) => "JWT decode failed: "@ + m,
        ClaimsErrorModel::JwksFetchFailed(m) => "JWKS fetch failed: "@ + m,
        ClaimsErrorModel::UnknownKeyId(m) => "Unknown key ID: "@ + m,
    }
}

/// The message of a claims error.
pub open spec fn claims_error_text(e: ClaimsErrorModel) -> Seq<char> {
    match e {
        ClaimsErrorModel::InvalidIssuer { expected, .. } => claims_error_text_given(
            e,
            debug_strings_text(expected),
            seq![],
        ),
        ClaimsErrorModel::InvalidAudience { expected, actual } => claims_error_text_given(
            e,
            debug_strings_text(expected),
            debug_strings_text(actual),
        ),
        _ => claims_error_text_given(e, seq![], seq![]),
    }
}

proof fn lemma_texts_deep(v: &Vec<String>)
    ensures
        texts(v@) == v.deep_view(),
{
    assert(texts(v@) =~= v.deep_view());
}

impl ClaimsError {
    /// The message of this error, given the `Debug` texts of its lists of
    /// expected and actual values.
    pub fn message_with(&self, expected: &str, actual: &str) -> (r: String)
        ensures
            r@ == claims_error_text_given(self@, expected@, actual@),
    {
        match self {
            ClaimsError::InvalidSignature => owned("Invalid signature or key"),
            ClaimsError::InvalidIssuer { actual: got, .. } => {
                let head = cat3("Invalid issuer: expected one of ", expected, ", got ");
                cat(head.as_str(), got.as_str())
            },
            ClaimsError::InvalidAudience { .. } => {
                let head = cat3("Invalid audience: expected one of ", expected, ", got ");
                cat(head.as_str(), actual)
            },
            ClaimsError::Expired => owned("Token expired"),
            ClaimsError::NotYetValid => owned("Token not yet valid (nbf check failed)"),
            ClaimsError::Malformed(m) => cat("Malformed claims: ", m.as_str()),
            ClaimsError::Provider(m) => cat("Provider error: ", m.as_str()),
            ClaimsError::MissingClaim(m) => cat("Missing required claim: ", m.as_str()),
            ClaimsError::InvalidClaimFormat { field, reason } => cat4(
                "Invalid claim format: ",
                field.as_str(),
                " - ",
                reason.as_str(),
            ),
            ClaimsError::UnknownKidAfterRefresh => owned("Unknown key ID after refresh"),
            ClaimsError::DecodeFailed(m) => cat("JWT decode failed: ", m.as_str()),
            ClaimsError::JwksFetchFailed(m) => cat("JWKS fetch failed: ", m.as_str()),
            ClaimsError::UnknownKeyId(m) => cat("Unknown key ID: ", m.as_str()),
        }
    }

    /// The message of this error.
    pub fn to_string(&self) -> (r: String)
        ensures
            r@ == claims_error_text(self@),
    {
        match self {
            ClaimsError::InvalidIssuer { expected, .. } => {
                let e = debug_strings(expected);
                proof {
                    lemma_texts_deep(expected);
                }
                self.message_with(e.as_str(), "")
            },
            ClaimsError::InvalidAudience { expected, actual } => {
                let e = debug_strings(expected);
                let a = debug_strings(actual);
                proof {
                    lemma_texts_deep(expected);
                    lemma_texts_deep(actual);
                }
                self.message_with(e.as_str(), a.as_str())
            },
            _ => self.message_with("", ""),
        }
    }
}

/// Authentication errors, as reported to HTTP clients.
#[derive(Debug)]
#[non_exhaustive]
pub enum AuthError {
    TokenExpired,
    InvalidToken(String),
    IssuerMismatch { expected: String, actual: String },
    AudienceMismatch { expected: Vec<String>, actual: Vec<String> },
    ValidationFailed(String),
    JwksFetchFailed(String),
}

/// Mathematical model of an `AuthError`.
pub enum AuthErrorModel {
    TokenExpired,
    InvalidToken(Seq<char>),
    IssuerMismatch { expected: Seq<char>, actual: Seq<char> },
    AudienceMismatch { expected: Seq<Seq<char>>, actual: Seq<Seq<char>> },
    ValidationFailed(Seq<char>),
    JwksFetchFailed(Seq<char>),
}

impl View for AuthError {
    type V = AuthErrorModel;

    open spec fn view(&self) -> AuthErrorModel {
        match self {
            AuthError::TokenExpired => AuthErrorModel::TokenExpired,
            AuthError::InvalidToken(m) => AuthErrorModel::InvalidToken(m@),
            AuthError::IssuerMismatch { expected, actual } => AuthErrorModel::IssuerMismatch {
                expected: expected@,
                actual: actual@,
            },
            AuthError::AudienceMismatch { expected, actual } => AuthErrorModel::AudienceMismatch {
                expected: texts(expected@),
                actual: texts(actual@),
            },
            AuthError::ValidationFailed(m) => AuthErrorModel::ValidationFailed(m@),
            AuthError::JwksFetchFailed(m) => AuthErrorModel::JwksFetchFailed(m@),
        }
    }
}

/// The texts of `v` joined by `sep`.
pub open spec fn join_texts(v: Seq<Seq<char>>, sep: Seq<char>) -> Seq<char>
    decreases v.len(),
{
    if v.len() == 0 {
        seq![]
    } else if v.len() == 1 {
        v[0]
    } else {
        join_texts(v.drop_last(), sep) + sep + v.last()
    }
}

/// The strings of `v` joined by `sep`.
pub fn join_strings(v: &Vec<String>, sep: &str) -> (r: String)
    ensures
        r@ == join_texts(texts(v@), sep@),
{
    let ghost ts = texts(v@);
    let mut r = String::new();
    let mut i: usize = 0;
    while i < v.len()
        invariant
            i <= v@.len(),
            ts == texts(v@),
            ts.len() == v@.len(),
            r@ == join_texts(ts.take(i as int), sep@),
        decreases v.len() - i,
    {
        assert(ts.take(i + 1).drop_last() =~= ts.take(i as int));
        assert(ts[i as int] == v@[i as int]@);
        if i == 0 {
            assert(ts.take(1) =~= seq![ts[0]]);
            assert(r@ =~= Seq::<char>::empty());
            r.append(v[i].as_str());
            assert(r@ =~= v@[0]@);
        } else {
            r.append(sep);
            r.append(v[i].as_str());
        }
        i += 1;
    }
    assert(ts.take(v@.len() as int) =~= ts);
    r
}

/// The authentication error that a claims error is reported as: every claims
/// error has its own report, most of them as an invalid token or a failed validation.
pub open spec fn auth_error_of(e: ClaimsErrorModel) -> AuthErrorModel {
    match e {
        ClaimsErrorModel::Expired => AuthErrorModel::TokenExpired,
        ClaimsErrorModel::InvalidSignature => AuthErrorModel::InvalidToken("Invalid signature"@),
        ClaimsErrorModel::InvalidIssuer { expected, actual } => AuthErrorModel::IssuerMismatch {
            expected: join_texts(expected, ", "@),
            actual,
        },
        ClaimsErrorModel::InvalidAudience { expected, actual } => AuthErrorModel::AudienceMismatch {
            expected,
            actual,
        },
        ClaimsErrorModel::NotYetValid => AuthErrorModel::ValidationFailed(
            "token not yet valid (nbf check failed)"@,
        ),
        ClaimsErrorModel::Malformed(msg) => AuthErrorModel::InvalidToken("malformed: "@ + msg),
        ClaimsErrorModel::Provider(msg) => AuthErrorModel::ValidationFailed("provider error: "@ + msg),
        ClaimsErrorModel::MissingClaim(name) => AuthErrorModel::ValidationFailed("missing required claim: "@ + name),
        ClaimsErrorModel::InvalidClaimFormat { field, reason } => AuthErrorModel::ValidationFailed(
            "invalid claim format: "@ + field + " - "@ + reason,
        ),
        ClaimsErrorModel::UnknownKidAfterRefresh => AuthErrorModel::ValidationFailed(
            "unknown key ID after refresh"@,
        ),
        ClaimsErrorModel::DecodeFailed(msg) => AuthErrorModel::InvalidToken("decode failed: "@ + msg),
        ClaimsErrorModel::JwksFetchFailed(msg) => AuthErrorModel::JwksFetchFailed(msg),
        ClaimsErrorModel::UnknownKeyId(kid) => AuthErrorModel::ValidationFailed("unknown key ID: "@ + kid),
    }
}

impl AuthError {
    /// The authentication error that a claims error is reported as.
    pub fn from_claims_error(err: ClaimsError) -> (r: AuthError)
        ensures
            r@ == auth_error_of(err@),
    {
        match err {
            ClaimsError::Expired => AuthError::TokenExpired,
            ClaimsError::InvalidSignature => AuthError::InvalidToken(owned("Invalid signature")),
            ClaimsError::InvalidIssuer { expected, actual } => AuthError::IssuerMismatch {
                expected: join_strings(&expected, ", "),
                actual,
            },
            ClaimsError::InvalidAudience { expected, actual } => AuthError::AudienceMismatch { expected, actual },
            ClaimsError::NotYetValid => AuthError::ValidationFailed(owned("token not yet valid (nbf check failed)")),
            ClaimsError::Malformed(msg) => AuthError::InvalidToken(cat("malformed: ", msg.as_str())),
            ClaimsError::Provider(msg) => AuthError::ValidationFailed(cat("provider error: ", msg.as_str())),
            ClaimsError::MissingClaim(name) => AuthError::ValidationFailed(
                cat("missing required claim: ", name.as_str()),
            ),
            ClaimsError::InvalidClaimFormat { field, reason } => AuthError::ValidationFailed(
                cat4("invalid claim format: ", field.as_str(), " - ", reason.as_str()),
            ),
            ClaimsError::UnknownKidAfterRefresh => AuthError::ValidationFailed(owned("unknown key ID after refresh")),
            ClaimsError::DecodeFailed(msg) => AuthError::InvalidToken(cat("decode failed: ", msg.as_str())),
            ClaimsError::JwksFetchFailed(msg) => AuthError::JwksFetchFailed(msg),
            ClaimsError::UnknownKeyId(kid) => AuthError::ValidationFailed(cat("unknown key ID: ", kid.as_str())),
        }
    }
}

/// The report of a claims error keeps what the error holds, each in its
/// role: the expected and actual audiences stay expected and actual, the
/// actual issuer stays actual, a fetch failure keeps its message, and every
/// other message ends the report's message.
pub proof fn lemma_report_keeps_roles(e: ClaimsErrorModel)
    ensures
        e matches ClaimsErrorModel::InvalidAudience { expected, actual } ==> (auth_error_of(
            e,
        ) matches AuthErrorModel::AudienceMismatch { expected: x, actual: y } && x == expected && y == actual),
        e matches ClaimsErrorModel::InvalidIssuer { expected, actual } ==> (auth_error_of(
            e,
        ) matches AuthErrorModel::IssuerMismatch { expected: x, actual: y } && y == actual && x == join_texts(
            expected,
            ", "@,
        )),
        e matches ClaimsErrorModel::JwksFetchFailed(m) ==> auth_error_of(e) == AuthErrorModel::JwksFetchFailed(m),
        e matches ClaimsErrorModel::Malformed(m) ==> m.is_suffix_of(report_message(auth_error_of(e))),
        e matches ClaimsErrorModel::Provider(m) ==> m.is_suffix_of(report_message(auth_error_of(e))),
        e matches ClaimsErrorModel::MissingClaim(m) ==> m.is_suffix_of(report_message(auth_error_of(e))),
        e matches ClaimsErrorModel::DecodeFailed(m) ==> m.is_suffix_of(report_message(auth_error_of(e))),
        e matches ClaimsErrorModel::UnknownKeyId(m) ==> m.is_suffix_of(report_message(auth_error_of(e))),
        e matches ClaimsErrorModel::InvalidClaimFormat { reason, .. } ==> reason.is_suffix_of(
            report_message(auth_error_of(e)),
        ),
        (auth_error_of(e) is TokenExpired) <==> (e is Expired),
{
    match e {
        ClaimsErrorModel::Malformed(m) => {
            assert(("malformed: "@ + m).subrange(("malformed: "@ + m).len() - m.len(), ("malformed: "@ + m).len() as int) =~= m);
        },
        ClaimsErrorModel::Provider(m) => {
            assert(("provider error: "@ + m).subrange(("provider error: "@ + m).len() - m.len(), ("provider error: "@ + m).len() as int) =~= m);
        },
        ClaimsErrorModel::MissingClaim(m) => {
            assert(("missing required claim: "@ + m).subrange(("missing required claim: "@ + m).len() - m.len(), ("missing required claim: "@ + m).len() as int) =~= m);
        },
        ClaimsErrorModel::DecodeFailed(m) => {
            assert(("decode failed: "@ + m).subrange(("decode failed: "@ + m).len() - m.len(), ("decode failed: "@ + m).len() as int) =~= m);
        },
        ClaimsErrorModel::UnknownKeyId(m) => {
            assert(("unknown key ID: "@ + m).subrange(("unknown key ID: "@ + m).len() - m.len(), ("unknown key ID: "@ + m).len() as int) =~= m);
        },
        ClaimsErrorModel::InvalidClaimFormat { field, reason } => {
            let t = "invalid claim format: "@ + field + " - "@ + reason;
            assert(t.subrange(t.len() - reason.len(), t.len() as int) =~= reason);
        },
        _ => {},
    }
}

/// The message of a report, for the reports that carry one.
pub open spec fn report_message(e: AuthErrorModel) -> Seq<char> {
    match e {
        AuthErrorModel::InvalidToken(m) => m,
        AuthErrorModel::ValidationFailed(m) => m,
        AuthErrorModel::JwksFetchFailed(m) => m,
        _ => seq![],
    }
}

} // verus!
