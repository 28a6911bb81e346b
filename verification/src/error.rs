//! The error answered to an HTTP client: a status code and a message.

use vstd::prelude::*;

verus! {

pub const BAD_REQUEST: u16 = 400;
pub const NOT_FOUND: u16 = 404;
pub const CONFLICT: u16 = 409;
pub const PRECONDITION_FAILED: u16 = 412;
pub const INTERNAL_SERVER_ERROR: u16 = 500;

/// An HTTP error answer.
#[derive(Debug)]
pub struct ApiError {
    pub status: u16,
    pub message: String,
}

impl ApiError {
    /// The status and message of the error.
    pub open spec fn view(&self) -> (u16, Seq<char>) {
        (self.status, self.message@)
    }

    pub fn new(status: u16, message: &str) -> (e: ApiError)
        ensures
            e.status == status,
            e.message@ == message@,
    {
        ApiError { status, message: String::from_str(message) }
    }

    pub fn bad_request(message: &str) -> (e: ApiError)
        ensures
            e.status == BAD_REQUEST,
            e.message@ == message@,
    {
        ApiError::new(BAD_REQUEST, message)
    }

    pub fn not_found(message: &str) -> (e: ApiError)
        ensures
            e.status == NOT_FOUND,
            e.message@ == message@,
    {
        ApiError::new(NOT_FOUND, message)
    }

    pub fn internal(message: &str) -> (e: ApiError)
        ensures
            e.status == INTERNAL_SERVER_ERROR,
            e.message@ == message@,
    {
        ApiError::new(INTERNAL_SERVER_ERROR, message)
    }
}

} // verus!
