//! Errors the service answers with: their status codes, texts and bodies.

use vstd::prelude::*;
use crate::text::{json_quote, json_quoted};

verus! {

/// An error answered to the client.
#[derive(Clone, Debug, PartialEq, Eq)]
pub enum CustomError {
    /// The request is malformed or breaks a rule (422).
    ValidationError { message: String },
    /// The request lacks valid credentials (401).
    UnauthorizedError { realm: String, message: String },
    /// The service failed (500).
    InternalError { message: String },
}

/// HTTP 422 Unprocessable Entity.
pub const UNPROCESSABLE_ENTITY: u16 = 422;

/// HTTP 400 Bad Request.
pub const BAD_REQUEST: u16 = 400;

/// HTTP 401 Unauthorized.
pub const UNAUTHORIZED: u16 = 401;

/// HTTP 500 Internal Server Error.
pub const INTERNAL_SERVER_ERROR: u16 = 500;

/// The status code of each kind of error.
pub open spec fn spec_status_code(e: CustomError) -> u16 {
    match e {
        CustomError::ValidationError { .. } => UNPROCESSABLE_ENTITY,
        CustomError::UnauthorizedError { .. } => UNAUTHORIZED,
        CustomError::InternalError { .. } => INTERNAL_SERVER_ERROR,
    }
}

/// The text of an error: a prefix for its kind, then its message.
pub open spec fn spec_display(e: CustomError) -> Seq<char> {
    match e {
        CustomError::ValidationError { message } => "Validation error: "@ + message@,
        CustomError::UnauthorizedError { message, .. } => "Unauthorized: "@ + message@,
        CustomError::InternalError { message } => "Internal error: "@ + message@,
    }
}

/// Whether an error is answered with a `WWW-Authenticate` header.
pub open spec fn spec_has_www_authenticate(e: CustomError) -> bool {
    e is UnauthorizedError
}

/// Every error is answered with 401, 422 or 500, and it carries a
/// `WWW-Authenticate` header exactly when it is answered with 401.
pub proof fn lemma_status_and_challenge(e: CustomError)
    ensures
        spec_status_code(e) == UNAUTHORIZED || spec_status_code(e) == UNPROCESSABLE_ENTITY
            || spec_status_code(e) == INTERNAL_SERVER_ERROR,
        spec_has_www_authenticate(e) <==> spec_status_code(e) == UNAUTHORIZED,
{
}

/// The status code depends on the kind of error alone, whatever its message
/// or realm: every validation error is answered with 422 Unprocessable Entity,
/// every unauthorized error with 401 Unauthorized, and every internal error
/// with 500 Internal Server Error; so two errors of one kind share their code.
pub proof fn lemma_status_by_kind(e: CustomError, f: CustomError)
    ensures
        e is ValidationError ==> spec_status_code(e) == 422,
        e is UnauthorizedError ==> spec_status_code(e) == 401,
        e is InternalError ==> spec_status_code(e) == 500,
        (e is ValidationError && f is ValidationError) || (e is UnauthorizedError
            && f is UnauthorizedError) || (e is InternalError && f is InternalError)
            ==> spec_status_code(e) == spec_status_code(f),
{
}

/// The `WWW-Authenticate` header of a 401 answer.
pub open spec fn spec_www_authenticate(realm: Seq<char>, message: Seq<char>) -> Seq<char> {
    "Token realm=\""@ + realm + "\", error=\"Unauthorized\", error_description=\""@ + message
        + "\""@
}

/// `{"error":{"body":["<text>"]}}`.
pub open spec fn spec_error_body(text: Seq<char>) -> Seq<char> {
    "{\"error\":{\"body\":["@ + json_quoted(text) + "]}}"@
}

/// `{"errors":{"body":["<text>"]}}`.
pub open spec fn spec_errors_body(text: Seq<char>) -> Seq<char> {
    "{\"errors\":{\"body\":["@ + json_quoted(text) + "]}}"@
}

impl CustomError {
    /// The HTTP status code answered with this error.
    pub fn status_code(&self) -> (r: u16)
        ensures
            r == spec_status_code(*self),
            self is ValidationError ==> r == 422,
            self is UnauthorizedError ==> r == 401,
            self is InternalError ==> r == 500,
    {
        match self {
            CustomError::ValidationError { .. } => UNPROCESSABLE_ENTITY,
            CustomError::UnauthorizedError { .. } => UNAUTHORIZED,
            CustomError::InternalError { .. } => INTERNAL_SERVER_ERROR,
        }
    }

    /// The error's text, e.g. `Validation error: <message>`.
    pub fn display_text(&self) -> (r: String)
        ensures
            r@ == spec_display(*self),
    {
        match self {
            CustomError::ValidationError { message } => {
                let prefix = String::from_str("Validation error: ");
                prefix.concat(message.as_str())
            },
            CustomError::UnauthorizedError { message, .. } => {
                let prefix = String::from_str("Unauthorized: ");
                prefix.concat(message.as_str())
            },
            CustomError::InternalError { message } => {
                let prefix = String::from_str("Internal error: ");
                prefix.concat(message.as_str())
            },
        }
    }

    /// The `WWW-Authenticate` header answered with this error: present for an
    /// `UnauthorizedError` only.
    pub fn www_authenticate(&self) -> (r: Option<String>)
        ensures
            r is Some <==> spec_has_www_authenticate(*self),
            match *self {
                CustomError::UnauthorizedError { realm, message } => r is Some && r->0@
                    == spec_www_authenticate(realm@, message@),
                _ => r is None,
            },
    {
        match self {
            CustomError::UnauthorizedError { realm, message } => {
                let a = String::from_str("Token realm=\"");
                let b = String::from_str("\", error=\"Unauthorized\", error_description=\"");
                let c = String::from_str("\"");
                let h = a.concat(realm.as_str()).concat(b.as_str()).concat(message.as_str()).concat(
                    c.as_str(),
                );
                Some(h)
            },
            _ => None,
        }
    }

    /// The JSON body answered with this error: `{"error":{"body":["<text>"]}}`.
    pub fn response_body(&self) -> (r: String)
        ensures
            r@ == spec_error_body(spec_display(*self)),
    {
        let text = self.display_text();
        let a = String::from_str("{\"error\":{\"body\":[");
        let b = String::from_str("]}}");
        let q = json_quote(text.as_str());
        a.concat(q.as_str()).concat(b.as_str())
    }
}

/// The JSON body that replaces the framework's own answer to a bad request:
/// `{"errors":{"body":["<message>"]}}`, where a missing message reads
/// `Unknown Error`.
pub fn bad_request_body(error: Option<&str>) -> (r: String)
    ensures
        r@ == spec_errors_body(
            match error {
                Some(m) => m@,
                None => "Unknown Error"@,
            },
        ),
{
    let unknown = String::from_str("Unknown Error");
    let q = match error {
        Some(m) => json_quote(m),
        None => json_quote(unknown.as_str()),
    };
    let a = String::from_str("{\"errors\":{\"body\":[");
    let b = String::from_str("]}}");
    a.concat(q.as_str()).concat(b.as_str())
}

/// The `Content-Type` of every JSON answer.
pub open spec fn spec_json_content_type() -> Seq<char> {
    "application/json; charset=utf-8"@
}

/// How the framework's own answer to a bad request is rewritten.
#[derive(Clone, Debug, PartialEq, Eq)]
pub struct ErrorRewrite {
    /// The new status code.
    pub status: u16,
    /// The new `Content-Type`.
    pub content_type: String,
    /// The new body.
    pub body: String,
}

/// The rewrite of the framework's answer to a bad request: status 422,
/// `Content-Type: application/json; charset=utf-8`, and the body
/// `{"errors":{"body":["<message>"]}}` (`Unknown Error` where there is no
/// message).
pub fn rewrite_bad_request(error: Option<&str>) -> (r: ErrorRewrite)
    ensures
        r.status == UNPROCESSABLE_ENTITY,
        r.content_type@ == spec_json_content_type(),
        r.body@ == spec_errors_body(
            match error {
                Some(m) => m@,
                None => "Unknown Error"@,
            },
        ),
{
    ErrorRewrite {
        status: UNPROCESSABLE_ENTITY,
        content_type: String::from_str("application/json; charset=utf-8"),
        body: bad_request_body(error),
    }
}

} // verus!
