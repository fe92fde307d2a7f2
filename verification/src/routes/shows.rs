//! Looking up one show that a search has offered.
use vstd::prelude::*;
use crate::models::shows::Model;
use crate::routes::refusal::{refuse, ErrorResponse, INTERNAL_SERVER_ERROR};

verus! {

/// The query string of `/api/show`.
#[derive(Debug, PartialEq, Eq)]
pub struct GetShowQuery {
    pub show_id: String,
    pub translation_type: String,
}

/// The message of `/api/show` for a show that is not in the database.
pub const SHOW_NOT_FOUND: &'static str = "show not found";

/// The answer of `/api/show` given the database's answer: the show, or a
/// 500 with the database's error text or with `SHOW_NOT_FOUND`.
pub fn show_response(lookup: Result<Option<Model>, String>) -> (r: Result<Model, ErrorResponse>)
    ensures
        match lookup {
            Err(e) => r matches Err(refusal) && refusal.status == INTERNAL_SERVER_ERROR
                && refusal.message == e,
            Ok(None) => r matches Err(refusal) && refusal.status == INTERNAL_SERVER_ERROR
                && refusal.message@ == SHOW_NOT_FOUND@,
            Ok(Some(show)) => r == Ok::<Model, ErrorResponse>(show),
        },
{
    match lookup {
        Err(e) => Err(ErrorResponse { status: INTERNAL_SERVER_ERROR, message: e }),
        Ok(None) => Err(refuse(INTERNAL_SERVER_ERROR, SHOW_NOT_FOUND)),
        Ok(Some(show)) => Ok(show),
    }
}

} // verus!
