//! Completing the Google sign-in: exchange the code for a token, read the
//! user's profile, make sure the user exists, store the session, and sign
//! the browser in with a session cookie. The outside work (OAuth, HTTP,
//! database, the clock) is the caller's; this module decides, one answer
//! at a time.
use vstd::prelude::*;
use vstd::string::*;
use crate::auth::middleware::SESSION_COOKIE;
use crate::auth::models::{AuthRequest, UserProfile};
use crate::models::users;
use crate::routes::refusal::{refuse, refuse_with_detail, ErrorResponse, INTERNAL_SERVER_ERROR};

verus! {

pub const TOKEN_FAILED: &'static str = "Failed to get oauth token ";

pub const PROFILE_FAILED: &'static str = "Failed to retrieve profile ";

pub const PROFILE_UNREADABLE: &'static str = "Failed to parse profile: ";

pub const USER_CREATION_FAILED: &'static str = "Error creating user: ";

pub const USER_LOOKUP_FAILED: &'static str = "Error finding user: ";

pub const USER_MISSING: &'static str = "This user doesn't exist!";

pub const SESSION_CREATION_FAILED: &'static str = "Error creating session: ";

/// Google's endpoint for the signed-in user's profile.
pub const USERINFO_URL: &'static str = "https://openidconnect.googleapis.com/v1/userinfo";

/// The path of the session cookie.
pub const COOKIE_PATH: &'static str = "/";

/// What an exchanged code yields: the access token (which also serves as
/// the session id) and, if Google gave one, its lifetime in whole seconds.
#[derive(Debug, PartialEq, Eq)]
pub struct TokenGrant {
    pub access_token: String,
    pub expires_in: Option<u64>,
}

/// The `SameSite` policy of a cookie (`Unrestricted` is `SameSite=None`).
#[derive(Debug, Clone, Copy, PartialEq, Eq, Structural)]
pub enum SameSite {
    Strict,
    Lax,
    Unrestricted,
}

/// The cookie that signs a browser in.
#[derive(Debug, PartialEq, Eq)]
pub struct SessionCookie {
    pub name: String,
    pub value: String,
    pub path: String,
    pub same_site: SameSite,
    pub secure: bool,
    pub http_only: bool,
}

/// The session cookie for a session id: named `SESSION_COOKIE`, valid for
/// the whole site, sent with top-level navigations only, over HTTPS only,
/// and hidden from scripts.
pub open spec fn is_session_cookie(cookie: SessionCookie, session_id: String) -> bool {
    &&& cookie.name@ == SESSION_COOKIE@
    &&& cookie.value == session_id
    &&& cookie.path@ == COOKIE_PATH@
    &&& cookie.same_site == SameSite::Lax
    &&& cookie.secure
    &&& cookie.http_only
}

/// Builds the session cookie for a session id.
pub fn session_cookie(session_id: String) -> (cookie: SessionCookie)
    ensures
        is_session_cookie(cookie, session_id),
        cookie.value == session_id,
{
    SessionCookie {
        name: String::from_str(SESSION_COOKIE),
        value: session_id,
        path: String::from_str(COOKIE_PATH),
        same_site: SameSite::Lax,
        secure: true,
        http_only: true,
    }
}

/// Where the sign-in of one browser stands. `success_url` is where the
/// browser lands once signed in; `grant` is what the code was exchanged for.
#[derive(Debug, PartialEq, Eq)]
pub enum CallbackState {
    AwaitToken { success_url: String },
    AwaitProfile { success_url: String, grant: TokenGrant },
    AwaitProfileBody { success_url: String, grant: TokenGrant },
    AwaitUserCreation { success_url: String, grant: TokenGrant, email: String },
    AwaitUser { success_url: String, grant: TokenGrant },
    AwaitSession { success_url: String, grant: TokenGrant },
    Finished,
}

/// An answer that the caller hands back; `Err` carries the error's text.
#[derive(Debug, PartialEq, Eq)]
pub enum CallbackEvent {
    /// What the code was exchanged for.
    TokenExchanged(Result<TokenGrant, String>),
    /// Whether the profile request was answered.
    ProfileFetched(Result<(), String>),
    /// The profile read from the answer.
    ProfileRead(Result<UserProfile, String>),
    /// Whether the user was created (or already existed).
    UserCreated(Result<(), String>),
    /// The user with the profile's e-mail address.
    UserFound(Result<Option<users::Model>, String>),
    /// Whether the session was stored.
    SessionCreated(Result<(), String>),
}

/// What the caller is to do next.
#[derive(Debug, PartialEq, Eq)]
pub enum CallbackAction {
    /// Exchange this authorization code for a token.
    ExchangeCode(String),
    /// Ask `url` for the profile, authorized by the bearer token `bearer`.
    FetchProfile { url: String, bearer: String },
    /// Read the profile from the answer.
    ReadProfile,
    /// Create the user with this e-mail address, unless it exists.
    CreateUser(String),
    /// Look up the user with this e-mail address.
    FindUser(String),
    /// Store the session `session_id` of this user (replacing the user's
    /// earlier session id), expiring `lifetime_secs` seconds after the
    /// current local time.
    CreateSession { user_id: i32, session_id: String, lifetime_secs: i64 },
    /// Set `cookie` and redirect to `redirect_to`.
    SignIn { cookie: SessionCookie, redirect_to: String },
    /// Answer with this refusal.
    Refuse(ErrorResponse),
}

/// The first step: exchange the code of the query.
pub fn callback_start(query: AuthRequest, success_url: String) -> (r: (CallbackState, CallbackAction))
    ensures
        r.0 == (CallbackState::AwaitToken { success_url }),
        r.1 == CallbackAction::ExchangeCode(query.code),
{
    (CallbackState::AwaitToken { success_url }, CallbackAction::ExchangeCode(query.code))
}

/// A token lifetime that a session can be stored with: known, and at most
/// `i64::MAX` seconds.
pub open spec fn lifetime_fits(grant: TokenGrant) -> bool {
    grant.expires_in matches Some(secs) && secs <= i64::MAX
}

/// The answer that each state waits for; a found user can only be given a
/// session when the token's lifetime fits.
pub open spec fn callback_expects(state: CallbackState, event: CallbackEvent) -> bool {
    match (state, event) {
        (CallbackState::AwaitToken { .. }, CallbackEvent::TokenExchanged(_)) => true,
        (CallbackState::AwaitProfile { .. }, CallbackEvent::ProfileFetched(_)) => true,
        (CallbackState::AwaitProfileBody { .. }, CallbackEvent::ProfileRead(_)) => true,
        (CallbackState::AwaitUserCreation { .. }, CallbackEvent::UserCreated(_)) => true,
        (CallbackState::AwaitUser { grant, .. }, CallbackEvent::UserFound(r)) => r matches Ok(
            Some(_),
        ) ==> lifetime_fits(grant),
        (CallbackState::AwaitSession { .. }, CallbackEvent::SessionCreated(_)) => true,
        _ => false,
    }
}

/// Whether `callback_step` accepts this event in this state.
pub fn callback_accepts(state: &CallbackState, event: &CallbackEvent) -> (r: bool)
    ensures
        r == callback_expects(*state, *event),
{
    match (state, event) {
        (CallbackState::AwaitToken { .. }, CallbackEvent::TokenExchanged(_)) => true,
        (CallbackState::AwaitProfile { .. }, CallbackEvent::ProfileFetched(_)) => true,
        (CallbackState::AwaitProfileBody { .. }, CallbackEvent::ProfileRead(_)) => true,
        (CallbackState::AwaitUserCreation { .. }, CallbackEvent::UserCreated(_)) => true,
        (CallbackState::AwaitUser { grant, .. }, CallbackEvent::UserFound(r)) => match r {
            Ok(Some(_)) => match grant.expires_in {
                Some(secs) => secs <= 0x7fff_ffff_ffff_ffff,
                None => false,
            },
            _ => true,
        },
        (CallbackState::AwaitSession { .. }, CallbackEvent::SessionCreated(_)) => true,
        _ => false,
    }
}

/// The action refuses with status 500 and this message.
pub open spec fn fails_with(action: CallbackAction, message: Seq<char>) -> bool {
    action matches CallbackAction::Refuse(e) && e.status == INTERNAL_SERVER_ERROR && e.message@
        == message
}

/// One step of the sign-in: from `state`, on `event`, the next state and
/// the action.
pub open spec fn callback_transition(
    state: CallbackState,
    event: CallbackEvent,
    next: CallbackState,
    action: CallbackAction,
) -> bool {
    match (state, event) {
        (CallbackState::AwaitToken { success_url }, CallbackEvent::TokenExchanged(r)) => match r {
            Ok(grant) => {
                &&& next == (CallbackState::AwaitProfile { success_url, grant })
                &&& action matches CallbackAction::FetchProfile { url, bearer }
                &&& url@ == USERINFO_URL@
                &&& bearer == grant.access_token
            },
            Err(e) => next == CallbackState::Finished && fails_with(action, TOKEN_FAILED@ + e@),
        },
        (CallbackState::AwaitProfile { success_url, grant }, CallbackEvent::ProfileFetched(r)) => match r {
            Ok(()) => next == (CallbackState::AwaitProfileBody { success_url, grant }) && action
                == CallbackAction::ReadProfile,
            Err(e) => next == CallbackState::Finished && fails_with(action, PROFILE_FAILED@ + e@),
        },
        (CallbackState::AwaitProfileBody { success_url, grant }, CallbackEvent::ProfileRead(r)) => match r {
            Ok(profile) => next == (CallbackState::AwaitUserCreation {
                success_url,
                grant,
                email: profile.email,
            }) && action == CallbackAction::CreateUser(profile.email),
            Err(e) => next == CallbackState::Finished && fails_with(action, PROFILE_UNREADABLE@ + e@),
        },
        (
            CallbackState::AwaitUserCreation { success_url, grant, email },
            CallbackEvent::UserCreated(r),
        ) => match r {
            Ok(()) => next == (CallbackState::AwaitUser { success_url, grant }) && action
                == CallbackAction::FindUser(email),
            Err(e) => next == CallbackState::Finished && fails_with(
                action,
                USER_CREATION_FAILED@ + e@,
            ),
        },
        (CallbackState::AwaitUser { success_url, grant }, CallbackEvent::UserFound(r)) => match r {
            Ok(Some(user)) => next == (CallbackState::AwaitSession { success_url, grant }) && action
                == (CallbackAction::CreateSession {
                user_id: user.id,
                session_id: grant.access_token,
                lifetime_secs: grant.expires_in->0 as i64,
            }),
            Ok(None) => next == CallbackState::Finished && fails_with(action, USER_MISSING@),
            Err(e) => next == CallbackState::Finished && fails_with(
                action,
                USER_LOOKUP_FAILED@ + e@,
            ),
        },
        (CallbackState::AwaitSession { success_url, grant }, CallbackEvent::SessionCreated(r)) => match r {
            Ok(()) => {
                &&& next == CallbackState::Finished
                &&& action matches CallbackAction::SignIn { cookie, redirect_to }
                &&& is_session_cookie(cookie, grant.access_token)
                &&& redirect_to == success_url
            },
            Err(e) => next == CallbackState::Finished && fails_with(
                action,
                SESSION_CREATION_FAILED@ + e@,
            ),
        },
        _ => false,
    }
}

/// Decides the next step of a sign-in.
pub fn callback_step(state: CallbackState, event: CallbackEvent) -> (r: (CallbackState, CallbackAction))
    requires
        callback_expects(state, event),
    ensures
        callback_transition(state, event, r.0, r.1),
{
    match (state, event) {
        (CallbackState::AwaitToken { success_url }, CallbackEvent::TokenExchanged(r)) => match r {
            Ok(grant) => {
                let bearer = grant.access_token.clone();
                (
                    CallbackState::AwaitProfile { success_url, grant },
                    CallbackAction::FetchProfile { url: String::from_str(USERINFO_URL), bearer },
                )
            },
            Err(e) => (
                CallbackState::Finished,
                CallbackAction::Refuse(refuse_with_detail(INTERNAL_SERVER_ERROR, TOKEN_FAILED, e.as_str())),
            ),
        },
        (CallbackState::AwaitProfile { success_url, grant }, CallbackEvent::ProfileFetched(r)) => match r {
            Ok(()) => (CallbackState::AwaitProfileBody { success_url, grant }, CallbackAction::ReadProfile),
            Err(e) => (
                CallbackState::Finished,
                CallbackAction::Refuse(refuse_with_detail(INTERNAL_SERVER_ERROR, PROFILE_FAILED, e.as_str())),
            ),
        },
        (CallbackState::AwaitProfileBody { success_url, grant }, CallbackEvent::ProfileRead(r)) => match r {
            Ok(profile) => {
                let email = profile.email.clone();
                (
                    CallbackState::AwaitUserCreation { success_url, grant, email: profile.email },
                    CallbackAction::CreateUser(email),
                )
            },
            Err(e) => (
                CallbackState::Finished,
                CallbackAction::Refuse(
                    refuse_with_detail(INTERNAL_SERVER_ERROR, PROFILE_UNREADABLE, e.as_str()),
                ),
            ),
        },
        (
            CallbackState::AwaitUserCreation { success_url, grant, email },
            CallbackEvent::UserCreated(r),
        ) => match r {
            Ok(()) => (CallbackState::AwaitUser { success_url, grant }, CallbackAction::FindUser(email)),
            Err(e) => (
                CallbackState::Finished,
                CallbackAction::Refuse(
                    refuse_with_detail(INTERNAL_SERVER_ERROR, USER_CREATION_FAILED, e.as_str()),
                ),
            ),
        },
        (CallbackState::AwaitUser { success_url, grant }, CallbackEvent::UserFound(r)) => match r {
            Ok(Some(user)) => {
                let session_id = grant.access_token.clone();
                let lifetime_secs: i64 = match grant.expires_in {
                    Some(secs) => secs as i64,
                    None => 0,
                };
                (
                    CallbackState::AwaitSession { success_url, grant },
                    CallbackAction::CreateSession { user_id: user.id, session_id, lifetime_secs },
                )
            },
            Ok(None) => (
                CallbackState::Finished,
                CallbackAction::Refuse(refuse(INTERNAL_SERVER_ERROR, USER_MISSING)),
            ),
            Err(e) => (
                CallbackState::Finished,
                CallbackAction::Refuse(
                    refuse_with_detail(INTERNAL_SERVER_ERROR, USER_LOOKUP_FAILED, e.as_str()),
                ),
            ),
        },
        (CallbackState::AwaitSession { success_url, grant }, CallbackEvent::SessionCreated(r)) => match r {
            Ok(()) => (
                CallbackState::Finished,
                CallbackAction::SignIn {
                    cookie: session_cookie(grant.access_token),
                    redirect_to: success_url,
                },
            ),
            Err(e) => (
                CallbackState::Finished,
                CallbackAction::Refuse(
                    refuse_with_detail(INTERNAL_SERVER_ERROR, SESSION_CREATION_FAILED, e.as_str()),
                ),
            ),
        },
        _ => (CallbackState::Finished, CallbackAction::ReadProfile),
    }
}

/// Every refusal of the sign-in is a 500, and only the sixth step signs in.
pub proof fn lemma_failures_are_server_errors(
    state: CallbackState,
    event: CallbackEvent,
    next: CallbackState,
    action: CallbackAction,
)
    requires
        callback_transition(state, event, next, action),
    ensures
        action matches CallbackAction::Refuse(e) ==> e.status == INTERNAL_SERVER_ERROR,
        action is SignIn ==> state is AwaitSession,
{
}

/// The session cookie carries the whole session id it is built for,
/// whatever its length: its value is that id, character for character.
pub proof fn lemma_cookie_carries_whole_session_id(cookie: SessionCookie, session_id: String)
    requires
        is_session_cookie(cookie, session_id),
    ensures
        cookie.value == session_id,
        cookie.value@.len() == session_id@.len(),
        forall|i: int| 0 <= i < session_id@.len() ==> cookie.value@[i] == session_id@[i],
{
}

/// A sign-in that completes went through all six steps, each one
/// succeeding: the session stored and the cookie set are the access token
/// that the code was exchanged for, the session lives as long as the token
/// and belongs to the user found under the profile's e-mail address (the
/// address the user was created with), the cookie is the secure, HTTP-only,
/// `SameSite=Lax` session cookie, and the browser lands on the success URL.
pub proof fn lemma_sign_in_uses_token_and_user(
    success_url: String,
    e1: CallbackEvent,
    e2: CallbackEvent,
    e3: CallbackEvent,
    e4: CallbackEvent,
    e5: CallbackEvent,
    e6: CallbackEvent,
    s1: CallbackState,
    s2: CallbackState,
    s3: CallbackState,
    s4: CallbackState,
    s5: CallbackState,
    s6: CallbackState,
    a1: CallbackAction,
    a2: CallbackAction,
    a3: CallbackAction,
    a4: CallbackAction,
    a5: CallbackAction,
    a6: CallbackAction,
)
    requires
        callback_transition(CallbackState::AwaitToken { success_url }, e1, s1, a1),
        callback_transition(s1, e2, s2, a2),
        callback_transition(s2, e3, s3, a3),
        callback_transition(s3, e4, s4, a4),
        callback_transition(s4, e5, s5, a5),
        callback_transition(s5, e6, s6, a6),
        a6 is SignIn,
    ensures
        ({
            &&& e1 matches CallbackEvent::TokenExchanged(Ok(grant))
            &&& a1 matches CallbackAction::FetchProfile { url, bearer }
            &&& url@ == USERINFO_URL@
            &&& bearer == grant.access_token
            &&& a6 matches CallbackAction::SignIn { cookie, redirect_to }
            &&& is_session_cookie(cookie, grant.access_token)
            &&& redirect_to == success_url
            &&& e5 matches CallbackEvent::UserFound(Ok(Some(user)))
            &&& a5 == (CallbackAction::CreateSession {
                user_id: user.id,
                session_id: grant.access_token,
                lifetime_secs: grant.expires_in->0 as i64,
            })
        }),
        ({
            &&& a5 matches CallbackAction::CreateSession { session_id, .. }
            &&& a6 matches CallbackAction::SignIn { cookie, .. }
            &&& cookie.value == session_id
        }),
        e2 matches CallbackEvent::ProfileFetched(Ok(_)),
        ({
            &&& e3 matches CallbackEvent::ProfileRead(Ok(profile))
            &&& a3 == CallbackAction::CreateUser(profile.email)
            &&& a4 == CallbackAction::FindUser(profile.email)
        }),
        e4 matches CallbackEvent::UserCreated(Ok(_)),
        e6 matches CallbackEvent::SessionCreated(Ok(_)),
{
}

} // verus!
