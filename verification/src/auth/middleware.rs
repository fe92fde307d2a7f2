//! Admitting a request to the list routes: the `sid` cookie must name a
//! session, and the session must belong to a user. The lookups themselves
//! are made by the caller; this module decides, one answer at a time.
use vstd::prelude::*;
use crate::auth::models::UserExtension;
use crate::models::users;
use crate::routes::refusal::{refuse, ErrorResponse, UNAUTHORIZED};

verus! {

/// The cookie that carries the session id.
pub const SESSION_COOKIE: &'static str = "sid";

pub const NO_COOKIE: &'static str = "No cookie found!";

pub const SESSION_LOOKUP_FAILED: &'static str = "Failed to get session!";

pub const NO_SESSION: &'static str = "Failed to get session";

pub const NO_USER: &'static str = "Failed to get user";

/// Where the admission of one request stands.
#[derive(Debug, PartialEq, Eq)]
pub enum AuthorizeState {
    /// Waiting for the value of the session cookie.
    AwaitCookie,
    /// Waiting for the lookup of the session that the cookie names.
    AwaitSession,
    /// Waiting for the lookup of the session's user.
    AwaitUser,
    /// The request was admitted or refused.
    Finished,
}

/// An answer that the caller hands back.
#[derive(Debug, PartialEq, Eq)]
pub enum AuthorizeEvent {
    /// The value of the `sid` cookie, if the request carries one.
    Cookie(Option<String>),
    /// Whether a session with that id exists; `Err` if the lookup failed.
    SessionFound(Result<bool, ()>),
    /// The session's user, if any; `Err` if the lookup failed.
    UserFound(Result<Option<users::Model>, ()>),
}

/// What the caller is to do next.
#[derive(Debug, PartialEq, Eq)]
pub enum AuthorizeAction {
    /// Look up the session with this id.
    FindSession(String),
    /// Look up the user of the session just found.
    FindUser,
    /// Attach this user to the request and pass it on.
    Admit(UserExtension),
    /// Answer the request with this refusal.
    Refuse(ErrorResponse),
}

/// The answer that each state waits for.
pub open spec fn authorize_expects(state: AuthorizeState, event: AuthorizeEvent) -> bool {
    match (state, event) {
        (AuthorizeState::AwaitCookie, AuthorizeEvent::Cookie(_)) => true,
        (AuthorizeState::AwaitSession, AuthorizeEvent::SessionFound(_)) => true,
        (AuthorizeState::AwaitUser, AuthorizeEvent::UserFound(_)) => true,
        _ => false,
    }
}

/// The action refuses with this status and message.
pub open spec fn refuses_with(action: AuthorizeAction, status: u16, message: Seq<char>) -> bool {
    action matches AuthorizeAction::Refuse(e) && e.status == status && e.message@ == message
}

/// One step of the admission: from `state`, on `event`, the next state and
/// the action.
pub open spec fn authorize_transition(
    state: AuthorizeState,
    event: AuthorizeEvent,
    next: AuthorizeState,
    action: AuthorizeAction,
) -> bool {
    match (state, event) {
        (AuthorizeState::AwaitCookie, AuthorizeEvent::Cookie(cookie)) => match cookie {
            Some(id) => next == AuthorizeState::AwaitSession && action
                == AuthorizeAction::FindSession(id),
            None => next == AuthorizeState::Finished && refuses_with(
                action,
                UNAUTHORIZED,
                NO_COOKIE@,
            ),
        },
        (AuthorizeState::AwaitSession, AuthorizeEvent::SessionFound(found)) => match found {
            Ok(true) => next == AuthorizeState::AwaitUser && action == AuthorizeAction::FindUser,
            Ok(false) => next == AuthorizeState::Finished && refuses_with(
                action,
                UNAUTHORIZED,
                NO_SESSION@,
            ),
            Err(()) => next == AuthorizeState::Finished && refuses_with(
                action,
                UNAUTHORIZED,
                SESSION_LOOKUP_FAILED@,
            ),
        },
        (AuthorizeState::AwaitUser, AuthorizeEvent::UserFound(found)) => match found {
            Ok(Some(user)) => next == AuthorizeState::Finished && action == AuthorizeAction::Admit(
                UserExtension { id: user.id, email: user.email },
            ),
            _ => next == AuthorizeState::Finished && refuses_with(action, UNAUTHORIZED, NO_USER@),
        },
        _ => false,
    }
}

/// Decides the next step of a request's admission.
pub fn authorize_step(state: AuthorizeState, event: AuthorizeEvent) -> (r: (
    AuthorizeState,
    AuthorizeAction,
))
    requires
        authorize_expects(state, event),
    ensures
        authorize_transition(state, event, r.0, r.1),
{
    match event {
        AuthorizeEvent::Cookie(cookie) => match cookie {
            Some(id) => (AuthorizeState::AwaitSession, AuthorizeAction::FindSession(id)),
            None => (AuthorizeState::Finished, AuthorizeAction::Refuse(refuse(UNAUTHORIZED, NO_COOKIE))),
        },
        AuthorizeEvent::SessionFound(found) => match found {
            Ok(true) => (AuthorizeState::AwaitUser, AuthorizeAction::FindUser),
            Ok(false) => (
                AuthorizeState::Finished,
                AuthorizeAction::Refuse(refuse(UNAUTHORIZED, NO_SESSION)),
            ),
            Err(()) => (
                AuthorizeState::Finished,
                AuthorizeAction::Refuse(refuse(UNAUTHORIZED, SESSION_LOOKUP_FAILED)),
            ),
        },
        AuthorizeEvent::UserFound(found) => match found {
            Ok(Some(user)) => (
                AuthorizeState::Finished,
                AuthorizeAction::Admit(UserExtension { id: user.id, email: user.email }),
            ),
            _ => (AuthorizeState::Finished, AuthorizeAction::Refuse(refuse(UNAUTHORIZED, NO_USER))),
        },
    }
}

/// Every refusal of the admission is a 401.
pub proof fn lemma_refusals_are_unauthorized(
    state: AuthorizeState,
    event: AuthorizeEvent,
    next: AuthorizeState,
    action: AuthorizeAction,
)
    requires
        authorize_transition(state, event, next, action),
    ensures
        action matches AuthorizeAction::Refuse(e) ==> e.status == UNAUTHORIZED,
{
}

/// A request is admitted only at the third step, once its cookie named a
/// session that exists and that session's user was found; it is admitted
/// as exactly that user.
pub proof fn lemma_admits_only_found_users(
    e1: AuthorizeEvent,
    e2: AuthorizeEvent,
    e3: AuthorizeEvent,
    s1: AuthorizeState,
    s2: AuthorizeState,
    s3: AuthorizeState,
    a1: AuthorizeAction,
    a2: AuthorizeAction,
    a3: AuthorizeAction,
    admitted: UserExtension,
)
    requires
        authorize_transition(AuthorizeState::AwaitCookie, e1, s1, a1),
        authorize_transition(s1, e2, s2, a2),
        authorize_transition(s2, e3, s3, a3),
        a3 == AuthorizeAction::Admit(admitted),
    ensures
        e1 matches AuthorizeEvent::Cookie(Some(id)) ==> a1 == AuthorizeAction::FindSession(id),
        e1 matches AuthorizeEvent::Cookie(Some(_)),
        e2 == AuthorizeEvent::SessionFound(Ok(true)),
        ({
            &&& e3 matches AuthorizeEvent::UserFound(Ok(Some(user)))
            &&& admitted.id == user.id
            &&& admitted.email == user.email
        }),
{
}

/// Only the third step can admit: a transition that admits starts from
/// `AwaitUser`, which is entered only from `AwaitSession` on a found
/// session, which is entered only from `AwaitCookie` on a cookie.
pub proof fn lemma_admission_order(
    state: AuthorizeState,
    event: AuthorizeEvent,
    next: AuthorizeState,
    action: AuthorizeAction,
)
    requires
        authorize_transition(state, event, next, action),
    ensures
        action is Admit ==> state == AuthorizeState::AwaitUser,
        next == AuthorizeState::AwaitUser ==> state == AuthorizeState::AwaitSession && event
            == AuthorizeEvent::SessionFound(Ok(true)),
        next == AuthorizeState::AwaitSession ==> state == AuthorizeState::AwaitCookie
            && event matches AuthorizeEvent::Cookie(Some(_)),
{
}

/// A request that carries a session cookie is never refused at the cookie
/// step, whatever the cookie holds: the session it names is looked up.
/// Only a request without one is refused there.
pub proof fn lemma_cookie_is_always_looked_up(
    cookie: Option<String>,
    next: AuthorizeState,
    action: AuthorizeAction,
)
    requires
        authorize_transition(AuthorizeState::AwaitCookie, AuthorizeEvent::Cookie(cookie), next, action),
    ensures
        cookie matches Some(id) ==> next == AuthorizeState::AwaitSession && action
            == AuthorizeAction::FindSession(id),
        action is Refuse ==> cookie is None,
{
}

} // verus!
