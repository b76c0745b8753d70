//! The service's error taxonomy and how each error reaches a client.
use vstd::prelude::*;
use vstd::string::*;

verus! {

/// Every failure of a store, a decoding step or a request.
#[derive(Clone, Debug)]
pub enum AppError {
    /// The backing store failed to read, write or provision.
    DbError(String),
    /// Reserved: no path produces it.
    ValidationError(String),
    /// The referenced form does not exist.
    NotFound(String),
    /// Stored data could not be decoded, or an invariant broke.
    InternalError(String),
    /// The client's input is malformed.
    BadRequest(String),
}

/// The HTTP status a client receives for `e`.
pub open spec fn status_of(e: AppError) -> u16 {
    match e {
        AppError::BadRequest(_) => 400,
        AppError::NotFound(_) => 404,
        _ => 500,
    }
}

/// The human-readable text of `e`: a prefix naming its kind, then its detail.
pub open spec fn text_of(e: AppError) -> Seq<char> {
    match e {
        AppError::DbError(m) => "Database error: "@ + m@,
        AppError::ValidationError(m) => "Validation error: "@ + m@,
        AppError::NotFound(m) => "Not found: "@ + m@,
        AppError::InternalError(m) => "Internal server error: "@ + m@,
        AppError::BadRequest(m) => "Bad request: "@ + m@,
    }
}

impl AppError {
    /// The HTTP status this error maps to.
    pub fn status_code(&self) -> (r: u16)
        ensures
            r == status_of(*self),
    {
        match self {
            AppError::BadRequest(_) => 400,
            AppError::NotFound(_) => 404,
            _ => 500,
        }
    }

    /// The message sent to the client as the JSON error string.
    pub fn message(&self) -> (r: String)
        ensures
            r@ == text_of(*self),
    {
        match self {
            AppError::DbError(m) => String::from_str("Database error: ").concat(m.as_str()),
            AppError::ValidationError(m) => String::from_str("Validation error: ").concat(m.as_str()),
            AppError::NotFound(m) => String::from_str("Not found: ").concat(m.as_str()),
            AppError::InternalError(m) => String::from_str("Internal server error: ").concat(m.as_str()),
            AppError::BadRequest(m) => String::from_str("Bad request: ").concat(m.as_str()),
        }
    }
}

} // verus!
