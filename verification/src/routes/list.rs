//! The signed-in user's watch list: listing, adding and removing shows.
use vstd::prelude::*;
use crate::models::shows::Model;
use crate::routes::refusal::{
    refuse, ErrorResponse, BAD_REQUEST, INTERNAL_SERVER_ERROR, NO_CONTENT,
};

verus! {

/// The body of `/list/add` and `/list/delete`.
#[derive(Debug, PartialEq, Eq)]
pub struct ShowData {
    pub show_id: String,
    pub translation_type: String,
}

/// The message of a list request that names a show not in the database.
pub const SHOW_NOT_IN_DATABASE: &'static str = "this show is not in the database";

/// The answer of `/list`, given the user's list entries each with the
/// shows it relates to (or the database's error text): each entry's first
/// related show, in order.
pub fn listed_shows(related: Result<Vec<Vec<Model>>, String>) -> (r: Result<Vec<Model>, ErrorResponse>)
    requires
        related matches Ok(rows) ==> forall|i: int|
            0 <= i < rows@.len() ==> (#[trigger] rows@[i])@.len() > 0,
    ensures
        match related {
            Err(e) => r matches Err(refusal) && refusal.status == INTERNAL_SERVER_ERROR
                && refusal.message == e,
            Ok(rows) => r matches Ok(list) && list@.len() == rows@.len() && forall|i: int|
                0 <= i < rows@.len() ==> #[trigger] list@[i] == rows@[i]@[0],
        },
{
    let rows = match related {
        Err(e) => {
            return Err(ErrorResponse { status: INTERNAL_SERVER_ERROR, message: e });
        },
        Ok(rows) => rows,
    };
    let mut list: Vec<Model> = Vec::new();
    let mut i: usize = 0;
    while i < rows.len()
        invariant
            forall|k: int| 0 <= k < rows@.len() ==> (#[trigger] rows@[k])@.len() > 0,
            i <= rows@.len(),
            list@.len() == i,
            forall|k: int| 0 <= k < i ==> #[trigger] list@[k] == rows@[k]@[0],
        decreases rows@.len() - i,
    {
        assert(rows@[i as int]@.len() > 0);
        list.push(rows[i][0].duplicate());
        i = i + 1;
    }
    Ok(list)
}

/// Resolves the show that `/list/add` or `/list/delete` names, given the
/// database's answer: its error text is a 500, a missing show a 400.
pub fn show_for_list(lookup: Result<Option<Model>, String>) -> (r: Result<Model, ErrorResponse>)
    ensures
        match lookup {
            Err(e) => r matches Err(refusal) && refusal.status == INTERNAL_SERVER_ERROR
                && refusal.message == e,
            Ok(None) => r matches Err(refusal) && refusal.status == BAD_REQUEST
                && refusal.message@ == SHOW_NOT_IN_DATABASE@,
            Ok(Some(show)) => r == Ok::<Model, ErrorResponse>(show),
        },
{
    match lookup {
        Err(e) => Err(ErrorResponse { status: INTERNAL_SERVER_ERROR, message: e }),
        Ok(None) => Err(refuse(BAD_REQUEST, SHOW_NOT_IN_DATABASE)),
        Ok(Some(show)) => Ok(show),
    }
}

/// The answer of `/list/add` once the list entry's insertion has run: the
/// show, whatever the insertion gave (an entry already on the list is no
/// error).
pub fn addition_response(show: Model, _insertion: Result<(), String>) -> (r: Model)
    ensures
        r == show,
{
    show
}

/// The answer of `/list/delete` once the list entry's deletion has run:
/// 204 on success, else a 500 with the database's error text.
pub fn removal_response(deletion: Result<(), String>) -> (r: Result<u16, ErrorResponse>)
    ensures
        match deletion {
            Ok(()) => r == Ok::<u16, ErrorResponse>(NO_CONTENT),
            Err(e) => r matches Err(refusal) && refusal.status == INTERNAL_SERVER_ERROR
                && refusal.message == e,
        },
{
    match deletion {
        Ok(()) => Ok(NO_CONTENT),
        Err(e) => Err(ErrorResponse { status: INTERNAL_SERVER_ERROR, message: e }),
    }
}

} // verus!
