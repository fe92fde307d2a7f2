//! Starting the Google sign-in.
use vstd::prelude::*;
use vstd::string::*;
use crate::auth::oauth_info::OAuthInfo;

verus! {

/// Google's authorization endpoint with the scopes the service asks for.
pub const GOOGLE_AUTH_URL: &'static str =
    "https://accounts.google.com/o/oauth2/v2/auth?scope=openid%20profile%20email&client_id=";

/// The URL that `/api/auth/signin` redirects to: Google's consent page for
/// this client, answering with a code at the redirect URI.
pub open spec fn signin_url_text(oauth_id: Seq<char>, redirect_uri: Seq<char>) -> Seq<char> {
    GOOGLE_AUTH_URL@ + oauth_id + "&response_type=code&redirect_uri="@ + redirect_uri
}

/// Builds the redirect of `/api/auth/signin`.
pub fn signin_url(oauth_info: &OAuthInfo) -> (url: String)
    ensures
        url@ == signin_url_text(oauth_info.oauth_id@, oauth_info.oauth_redirect_uri@),
{
    let mut url = String::from_str(GOOGLE_AUTH_URL);
    url.append(oauth_info.oauth_id.as_str());
    url.append("&response_type=code&redirect_uri=");
    url.append(oauth_info.oauth_redirect_uri.as_str());
    url
}

} // verus!
