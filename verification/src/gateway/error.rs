//! Errors of the REST interface: an HTTP status, a word for machines and words for people.

use vstd::prelude::*;

use crate::status::{Code, Status};

verus! {

/// An error of the REST interface.
#[derive(Debug)]
pub struct ApiError {
    /// The HTTP status.
    pub status: u16,
    /// A stable word for machines.
    pub code: &'static str,
    /// What went wrong, in words.
    pub message: String,
}

/// The HTTP status of a failed call.
pub open spec fn http_status(code: Code) -> u16 {
    match code {
        Code::Unauthenticated => 401,
        Code::PermissionDenied => 403,
        Code::InvalidArgument => 400,
        Code::NotFound => 404,
        Code::Unavailable => 503,
        _ => 500,
    }
}

/// The word for a failed call.
pub open spec fn code_word(code: Code) -> Seq<char> {
    match code {
        Code::Unauthenticated => "unauthenticated"@,
        Code::PermissionDenied => "permission_denied"@,
        Code::InvalidArgument => "invalid_argument"@,
        Code::NotFound => "not_found"@,
        Code::Unavailable => "unavailable"@,
        _ => "internal"@,
    }
}

/// The error says this.
pub open spec fn is_error(e: ApiError, http: u16, code: Seq<char>, message: Seq<char>) -> bool {
    e.status == http && e.code@ == code && e.message@ == message
}

impl ApiError {
    /// An error with the given parts.
    pub fn new(status: u16, code: &'static str, message: &str) -> (out: Self)
        ensures
            is_error(out, status, code@, message@),
    {
        ApiError { status, code, message: message.to_owned() }
    }

    /// The caller is not known.
    pub fn unauthorized(message: &str) -> (out: Self)
        ensures
            is_error(out, 401, "unauthenticated"@, message@),
    {
        ApiError::new(401, "unauthenticated", message)
    }

    /// Something failed inside.
    pub fn internal(message: &str) -> (out: Self)
        ensures
            is_error(out, 500, "internal"@, message@),
    {
        ApiError::new(500, "internal", message)
    }

    /// There is no such thing.
    pub fn not_found(message: &str) -> (out: Self)
        ensures
            is_error(out, 404, "not_found"@, message@),
    {
        ApiError::new(404, "not_found", message)
    }

    /// The error that a failed call to a backend becomes.
    pub fn from(status: Status) -> (out: Self)
        ensures
            is_error(out, http_status(status.code), code_word(status.code), status.message@),
    {
        let (http, code): (u16, &'static str) = match status.code {
            Code::Unauthenticated => (401, "unauthenticated"),
            Code::PermissionDenied => (403, "permission_denied"),
            Code::InvalidArgument => (400, "invalid_argument"),
            Code::NotFound => (404, "not_found"),
            Code::Unavailable => (503, "unavailable"),
            _ => (500, "internal"),
        };
        ApiError { status: http, code, message: status.message }
    }
}

} // verus!
