//! A row of the `users` table.
use vstd::prelude::*;

verus! {

/// A user, known by the e-mail address of their Google account.
#[derive(Debug, PartialEq, Eq)]
pub struct Model {
    pub id: i32,
    pub email: String,
}

} // verus!
