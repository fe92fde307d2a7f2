//! The Google OAuth settings of the service.
use vstd::prelude::*;

verus! {

/// The OAuth client id, where Google sends the user back to, and where the
/// user lands once signed in.
#[derive(Clone, Debug, PartialEq, Eq)]
pub struct OAuthInfo {
    pub oauth_id: String,
    pub oauth_redirect_uri: String,
    pub oauth_success_url: String,
}

} // verus!
