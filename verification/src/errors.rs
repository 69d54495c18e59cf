//! Error taxonomy of the authentication core.
//!
//! Collaborator failures (store, hasher, token codec) are wrapped into this
//! taxonomy at the service boundary; no raw collaborator error escapes.
use vstd::prelude::*;

verus! {

/// What an operation of this crate can report to its caller.
///
/// `BadRequest` carries a caller-facing reason (validation and business-rule
/// violations: duplicate email, expired token, password mismatch).
/// `InternalServerError` covers hashing-backend and signing failures that are
/// not attributable to caller input.
#[derive(Debug, PartialEq, Eq)]
pub enum Error {
    NotFound,
    Unauthorized,
    InternalServerError,
    BadRequest(String),
    Forbidden,
}

/// The HTTP status code each error maps to when it leaves the service
/// boundary.
pub open spec fn spec_status_code(e: Error) -> u16 {
    match e {
        Error::NotFound => 404,
        Error::Unauthorized => 401,
        Error::InternalServerError => 500,
        Error::BadRequest(_) => 400,
        Error::Forbidden => 403,
    }
}

/// The caller-facing text each error maps to: a fixed generic message for
/// every variant but `BadRequest`, which carries its own reason.
pub open spec fn spec_status_message(e: Error) -> Seq<char> {
    match e {
        Error::NotFound => "Resource not found"@,
        Error::Unauthorized => "Unauthorized"@,
        Error::InternalServerError => "Internal server error"@,
        Error::BadRequest(m) => m@,
        Error::Forbidden => "Forbidden"@,
    }
}

impl Error {
    /// The HTTP status code of the reply this error becomes.
    pub fn status_code(&self) -> (r: u16)
        ensures
            r == spec_status_code(*self),
    {
        match self {
            Error::NotFound => 404,
            Error::Unauthorized => 401,
            Error::InternalServerError => 500,
            Error::BadRequest(_) => 400,
            Error::Forbidden => 403,
        }
    }

    /// The body text of the reply this error becomes. Auth failures keep a
    /// generic message, so the text does not reveal which check failed;
    /// business-rule violations carry their reason.
    pub fn status_message(&self) -> (r: String)
        ensures
            r@ == spec_status_message(*self),
    {
        match self {
            Error::NotFound => "Resource not found".to_owned(),
            Error::Unauthorized => "Unauthorized".to_owned(),
            Error::InternalServerError => "Internal server error".to_owned(),
            Error::BadRequest(m) => m.clone(),
            Error::Forbidden => "Forbidden".to_owned(),
        }
    }
}

/// Body of a failed-validation reply: an overall message plus optional
/// field-level detail.
pub struct ValidationResponse {
    pub code: u16,
    pub message: String,
    pub errors: Option<Vec<(String, Vec<String>)>>,
}

/// Generic error reply body.
pub struct ErrorResponse {
    pub status: String,
    pub message: String,
}

} // verus!
