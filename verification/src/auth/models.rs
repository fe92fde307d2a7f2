//! What the sign-in flow reads and what it hands to the routes.
use vstd::prelude::*;

verus! {

/// The query string with which Google redirects back after sign-in.
#[derive(Debug, PartialEq, Eq)]
pub struct AuthRequest {
    pub code: String,
}

/// The part of the Google profile that the service keeps.
#[derive(Clone, Debug, PartialEq, Eq)]
pub struct UserProfile {
    pub email: String,
}

/// The signed-in user, attached to each request of the list routes.
#[derive(Clone, Debug, PartialEq, Eq)]
pub struct UserExtension {
    pub id: i32,
    pub email: String,
}

} // verus!
