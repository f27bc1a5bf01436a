//! Errors answered to HTTP clients.
use vstd::prelude::*;
use crate::text::owned;

verus! {

/// An error of a request. Database and other internal failures are
/// reported as `Internal` with a description.
#[derive(Debug, Clone, PartialEq, Eq)]
pub enum AppError {
    BadRequest(String),
    Unauthorized,
    Forbidden,
    NotFound,
    TooManyRequests,
    PayloadTooLarge,
    Conflict(String),
    Internal(String),
}

/// The HTTP status answered for an error.
pub open spec fn spec_status_code(e: AppError) -> u16 {
    match e {
        AppError::BadRequest(_) => 400,
        AppError::Unauthorized => 401,
        AppError::Forbidden => 403,
        AppError::NotFound => 404,
        AppError::TooManyRequests => 429,
        AppError::PayloadTooLarge => 413,
        AppError::Conflict(_) => 409,
        AppError::Internal(_) => 500,
    }
}

/// The message a client sees: the text of a bad request or a conflict,
/// a fixed phrase otherwise (internal details are not shown).
pub open spec fn spec_client_message(e: AppError) -> Seq<char> {
    match e {
        AppError::BadRequest(m) => m@,
        AppError::Unauthorized => "unauthorized"@,
        AppError::Forbidden => "forbidden"@,
        AppError::NotFound => "not found"@,
        AppError::TooManyRequests => "too many requests"@,
        AppError::PayloadTooLarge => "payload too large"@,
        AppError::Conflict(m) => m@,
        AppError::Internal(_) => "internal server error"@,
    }
}

/// Whether an error is a bad request with exactly the message `m`.
pub open spec fn is_bad_request(e: AppError, m: Seq<char>) -> bool {
    e matches AppError::BadRequest(s) && s@ == m
}

impl AppError {
    /// A bad request with the given message.
    pub fn bad_request(msg: &str) -> (r: AppError)
        ensures
            is_bad_request(r, msg@),
    {
        AppError::BadRequest(owned(msg))
    }

    /// An internal error with the given description.
    pub fn internal(msg: &str) -> (r: AppError)
        ensures
            r matches AppError::Internal(s) && s@ == msg@,
    {
        AppError::Internal(owned(msg))
    }

    /// The HTTP status code of the response.
    pub fn status_code(&self) -> (r: u16)
        ensures
            r == spec_status_code(*self),
    {
        match self {
            AppError::BadRequest(_) => 400,
            AppError::Unauthorized => 401,
            AppError::Forbidden => 403,
            AppError::NotFound => 404,
            AppError::TooManyRequests => 429,
            AppError::PayloadTooLarge => 413,
            AppError::Conflict(_) => 409,
            AppError::Internal(_) => 500,
        }
    }

    /// The `error` message of the JSON response body.
    pub fn client_message(&self) -> (r: String)
        ensures
            r@ == spec_client_message(*self),
    {
        match self {
            AppError::BadRequest(m) => m.clone(),
            AppError::Unauthorized => owned("unauthorized"),
            AppError::Forbidden => owned("forbidden"),
            AppError::NotFound => owned("not found"),
            AppError::TooManyRequests => owned("too many requests"),
            AppError::PayloadTooLarge => owned("payload too large"),
            AppError::Conflict(m) => m.clone(),
            AppError::Internal(_) => owned("internal server error"),
        }
    }
}

} // verus!
