//! The service's error taxonomy and the response payload it maps to.
//! Turning the payload into an HTTP response is the embedding program's
//! business; which label and message each error carries is decided here.

use vstd::prelude::*;

verus! {

/// The serializable payload of an error response.
#[derive(Debug)]
pub struct ErrorResponse {
    pub error: String,
    pub message: String,
}

#[derive(Debug)]
pub enum ServiceError {
    BadRequest(String),
    InternalServerError(String),
    NotFound(String),
    Unauthorized(String),
}

impl ServiceError {
    /// The human-readable description, prefixed with the error class.
    pub fn message(&self) -> (r: String)
        ensures
            r@ == (match *self {
                ServiceError::BadRequest(m) => "Bad Request: "@ + m@,
                ServiceError::InternalServerError(m) => "Internal Server Error: "@ + m@,
                ServiceError::NotFound(m) => "Not Found: "@ + m@,
                ServiceError::Unauthorized(m) => "Unauthorized: "@ + m@,
            }),
    {
        match self {
            ServiceError::BadRequest(m) => String::from_str("Bad Request: ").concat(m.as_str()),
            ServiceError::InternalServerError(m) => String::from_str(
                "Internal Server Error: ",
            ).concat(m.as_str()),
            ServiceError::NotFound(m) => String::from_str("Not Found: ").concat(m.as_str()),
            ServiceError::Unauthorized(m) => String::from_str("Unauthorized: ").concat(m.as_str()),
        }
    }

    /// The payload an HTTP layer should serialize for this error: a fixed
    /// machine-readable label and the bare message.
    pub fn to_error_response(&self) -> (r: ErrorResponse)
        ensures
            r.error@ == (match *self {
                ServiceError::BadRequest(m) => "bad_request"@,
                ServiceError::InternalServerError(m) => "internal_server_error"@,
                ServiceError::NotFound(m) => "not_found"@,
                ServiceError::Unauthorized(m) => "unauthorized"@,
            }),
            r.message@ == (match *self {
                ServiceError::BadRequest(m) => m@,
                ServiceError::InternalServerError(m) => m@,
                ServiceError::NotFound(m) => m@,
                ServiceError::Unauthorized(m) => m@,
            }),
    {
        match self {
            ServiceError::BadRequest(m) => ErrorResponse {
                error: String::from_str("bad_request"),
                message: m.clone(),
            },
            ServiceError::InternalServerError(m) => ErrorResponse {
                error: String::from_str("internal_server_error"),
                message: m.clone(),
            },
            ServiceError::NotFound(m) => ErrorResponse {
                error: String::from_str("not_found"),
                message: m.clone(),
            },
            ServiceError::Unauthorized(m) => ErrorResponse {
                error: String::from_str("unauthorized"),
                message: m.clone(),
            },
        }
    }
}

} // verus!
