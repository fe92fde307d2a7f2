use animewatch::auth::callback::{
    callback_accepts, callback_start, callback_step, session_cookie, CallbackAction, CallbackEvent,
    CallbackState, SameSite, SessionCookie, TokenGrant,
};
use animewatch::auth::login::signin_url;
use animewatch::auth::middleware::{
    authorize_step, AuthorizeAction, AuthorizeEvent, AuthorizeState, SESSION_COOKIE,
};
use animewatch::auth::models::{AuthRequest, UserExtension, UserProfile};
use animewatch::auth::oauth_info::OAuthInfo;
use animewatch::models::users;
use animewatch::routes::refusal::ErrorResponse;

fn refusal(status: u16, message: &str) -> ErrorResponse {
    ErrorResponse { status, message: message.to_string() }
}

#[test]
fn signin_url_matches_format() {
    let info = OAuthInfo {
        oauth_id: "client-1".to_string(),
        oauth_redirect_uri: "https://svc/api/auth/google_callback".to_string(),
        oauth_success_url: "https://svc/".to_string(),
    };
    assert_eq!(
        signin_url(&info),
        "https://accounts.google.com/o/oauth2/v2/auth?scope=openid%20profile%20email&client_id=client-1&response_type=code&redirect_uri=https://svc/api/auth/google_callback"
    );
}

#[test]
fn middleware_admits_found_user() {
    assert_eq!(SESSION_COOKIE, "sid");
    let (s, a) = authorize_step(AuthorizeState::AwaitCookie, AuthorizeEvent::Cookie(Some("tok".to_string())));
    assert_eq!(s, AuthorizeState::AwaitSession);
    assert_eq!(a, AuthorizeAction::FindSession("tok".to_string()));
    let (s, a) = authorize_step(s, AuthorizeEvent::SessionFound(Ok(true)));
    assert_eq!(s, AuthorizeState::AwaitUser);
    assert_eq!(a, AuthorizeAction::FindUser);
    let user = users::Model { id: 7, email: "a@b.c".to_string() };
    let (s, a) = authorize_step(s, AuthorizeEvent::UserFound(Ok(Some(user))));
    assert_eq!(s, AuthorizeState::Finished);
    assert_eq!(a, AuthorizeAction::Admit(UserExtension { id: 7, email: "a@b.c".to_string() }));
}

#[test]
fn middleware_refusals_are_unauthorized() {
    let (_, a) = authorize_step(AuthorizeState::AwaitCookie, AuthorizeEvent::Cookie(None));
    assert_eq!(a, AuthorizeAction::Refuse(refusal(401, "No cookie found!")));
    let (_, a) = authorize_step(AuthorizeState::AwaitSession, AuthorizeEvent::SessionFound(Err(())));
    assert_eq!(a, AuthorizeAction::Refuse(refusal(401, "Failed to get session!")));
    let (_, a) = authorize_step(AuthorizeState::AwaitSession, AuthorizeEvent::SessionFound(Ok(false)));
    assert_eq!(a, AuthorizeAction::Refuse(refusal(401, "Failed to get session")));
    let (_, a) = authorize_step(AuthorizeState::AwaitUser, AuthorizeEvent::UserFound(Err(())));
    assert_eq!(a, AuthorizeAction::Refuse(refusal(401, "Failed to get user")));
    let (_, a) = authorize_step(AuthorizeState::AwaitUser, AuthorizeEvent::UserFound(Ok(None)));
    assert_eq!(a, AuthorizeAction::Refuse(refusal(401, "Failed to get user")));
}

#[test]
fn callback_signs_in_with_token() {
    let (s, a) = callback_start(AuthRequest { code: "4/0Ab".to_string() }, "https://svc/".to_string());
    assert_eq!(a, CallbackAction::ExchangeCode("4/0Ab".to_string()));
    let grant = TokenGrant { access_token: "ya29.tok".to_string(), expires_in: Some(3599) };
    let (s, a) = callback_step(s, CallbackEvent::TokenExchanged(Ok(grant)));
    assert_eq!(
        a,
        CallbackAction::FetchProfile {
            url: "https://openidconnect.googleapis.com/v1/userinfo".to_string(),
            bearer: "ya29.tok".to_string()
        }
    );
    let (s, a) = callback_step(s, CallbackEvent::ProfileFetched(Ok(())));
    assert_eq!(a, CallbackAction::ReadProfile);
    let (s, a) = callback_step(
        s,
        CallbackEvent::ProfileRead(Ok(UserProfile { email: "a@b.c".to_string() })),
    );
    assert_eq!(a, CallbackAction::CreateUser("a@b.c".to_string()));
    let (s, a) = callback_step(s, CallbackEvent::UserCreated(Ok(())));
    assert_eq!(a, CallbackAction::FindUser("a@b.c".to_string()));
    let user = users::Model { id: 11, email: "a@b.c".to_string() };
    let found = CallbackEvent::UserFound(Ok(Some(user)));
    assert!(callback_accepts(&s, &found));
    let (s, a) = callback_step(s, found);
    assert_eq!(
        a,
        CallbackAction::CreateSession {
            user_id: 11,
            session_id: "ya29.tok".to_string(),
            lifetime_secs: 3599
        }
    );
    let (s, a) = callback_step(s, CallbackEvent::SessionCreated(Ok(())));
    assert_eq!(s, CallbackState::Finished);
    assert_eq!(
        a,
        CallbackAction::SignIn {
            cookie: SessionCookie {
                name: "sid".to_string(),
                value: "ya29.tok".to_string(),
                path: "/".to_string(),
                same_site: SameSite::Lax,
                secure: true,
                http_only: true,
            },
            redirect_to: "https://svc/".to_string()
        }
    );
}

#[test]
fn callback_failures_are_server_errors() {
    let url = || "https://svc/".to_string();
    let tok = || TokenGrant { access_token: "t".to_string(), expires_in: Some(60) };
    let (_, a) = callback_step(
        CallbackState::AwaitToken { success_url: url() },
        CallbackEvent::TokenExchanged(Err("invalid_grant".to_string())),
    );
    assert_eq!(a, CallbackAction::Refuse(refusal(500, "Failed to get oauth token invalid_grant")));
    let (_, a) = callback_step(
        CallbackState::AwaitProfile { success_url: url(), grant: tok() },
        CallbackEvent::ProfileFetched(Err("dns".to_string())),
    );
    assert_eq!(a, CallbackAction::Refuse(refusal(500, "Failed to retrieve profile dns")));
    let (_, a) = callback_step(
        CallbackState::AwaitProfileBody { success_url: url(), grant: tok() },
        CallbackEvent::ProfileRead(Err("missing field `email`".to_string())),
    );
    assert_eq!(
        a,
        CallbackAction::Refuse(refusal(500, "Failed to parse profile: missing field `email`"))
    );
    let (_, a) = callback_step(
        CallbackState::AwaitUserCreation { success_url: url(), grant: tok(), email: "e".to_string() },
        CallbackEvent::UserCreated(Err("x".to_string())),
    );
    assert_eq!(a, CallbackAction::Refuse(refusal(500, "Error creating user: x")));
    let (_, a) = callback_step(
        CallbackState::AwaitUser { success_url: url(), grant: tok() },
        CallbackEvent::UserFound(Err("y".to_string())),
    );
    assert_eq!(a, CallbackAction::Refuse(refusal(500, "Error finding user: y")));
    let (_, a) = callback_step(
        CallbackState::AwaitUser { success_url: url(), grant: tok() },
        CallbackEvent::UserFound(Ok(None)),
    );
    assert_eq!(a, CallbackAction::Refuse(refusal(500, "This user doesn't exist!")));
    let (s, a) = callback_step(
        CallbackState::AwaitSession { success_url: url(), grant: tok() },
        CallbackEvent::SessionCreated(Err("z".to_string())),
    );
    assert_eq!(s, CallbackState::Finished);
    assert_eq!(a, CallbackAction::Refuse(refusal(500, "Error creating session: z")));
}

#[test]
fn callback_needs_a_fitting_lifetime_for_a_session() {
    let user = || users::Model { id: 1, email: "e".to_string() };
    let stage = |expires_in| CallbackState::AwaitUser {
        success_url: "https://svc/".to_string(),
        grant: TokenGrant { access_token: "t".to_string(), expires_in },
    };
    assert!(!callback_accepts(&stage(None), &CallbackEvent::UserFound(Ok(Some(user())))));
    assert!(!callback_accepts(&stage(Some(u64::MAX)), &CallbackEvent::UserFound(Ok(Some(user())))));
    assert!(callback_accepts(&stage(Some(i64::MAX as u64)), &CallbackEvent::UserFound(Ok(Some(user())))));
    assert!(callback_accepts(&stage(None), &CallbackEvent::UserFound(Ok(None))));
    assert!(!callback_accepts(&stage(Some(5)), &CallbackEvent::SessionCreated(Ok(()))));
}

#[test]
fn session_cookie_is_secure_http_only_lax() {
    let cookie = session_cookie("abc".to_string());
    assert_eq!(cookie.name, "sid");
    assert_eq!(cookie.value, "abc");
    assert_eq!(cookie.path, "/");
    assert_eq!(cookie.same_site, SameSite::Lax);
    assert!(cookie.secure && cookie.http_only);
}
