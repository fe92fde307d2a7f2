//! How the routes refuse a request: an HTTP status and a message.
use vstd::prelude::*;
use vstd::string::*;

verus! {

pub const NO_CONTENT: u16 = 204;

pub const BAD_REQUEST: u16 = 400;

pub const UNAUTHORIZED: u16 = 401;

pub const INTERNAL_SERVER_ERROR: u16 = 500;

/// A refused request: the HTTP status and the body's text.
#[derive(Debug, PartialEq, Eq)]
pub struct ErrorResponse {
    pub status: u16,
    pub message: String,
}

/// A refusal with the given status and message.
pub fn refuse(status: u16, message: &str) -> (r: ErrorResponse)
    ensures
        r.status == status,
        r.message@ == message@,
{
    ErrorResponse { status, message: String::from_str(message) }
}

/// A refusal whose message is `prefix` followed by `detail`.
pub fn refuse_with_detail(status: u16, prefix: &str, detail: &str) -> (r: ErrorResponse)
    ensures
        r.status == status,
        r.message@ == prefix@ + detail@,
{
    let mut message = String::from_str(prefix);
    message.append(detail);
    ErrorResponse { status, message }
}

} // verus!
