use jostrid::api::auth::{
    access_token_cookie, callback, logout, AuthzResp, LoginAction, LoginConfig, LoginEvent,
    LoginSession, LoginState, Reply, ResponseMode, SameSite, ACCESS_TOKEN_KEY, CSRF_STATE_KEY,
    PKCE_CODE_VERIFIER,
};
use jostrid::api::util::StatusCode;
use jostrid::db::user::User;
use jostrid::service::auth_service::TokenResponse;
use jostrid::service::error::{AuthError, ErrorKind, VarError};

fn config(mode: ResponseMode) -> LoginConfig {
    LoginConfig { mode, frontend_url: "https://app.example/".to_string() }
}

fn query(code: &str, state: &str) -> AuthzResp {
    AuthzResp { code: code.to_string(), state: state.to_string() }
}

fn session(csrf: Option<&str>, pkce: Option<&str>) -> LoginSession {
    LoginSession {
        csrf_state: csrf.map(|s| s.to_string()),
        pkce_code_verifier: pkce.map(|s| s.to_string()),
    }
}

fn token(expires_in: Option<u64>) -> TokenResponse {
    TokenResponse {
        access_token: "the-access-token".to_string(),
        token_type: "bearer".to_string(),
        expires_in,
        refresh_token: Some("the-refresh-token".to_string()),
    }
}

fn user() -> User {
    User {
        id: 7,
        name: "Ada".to_string(),
        email: "ada@example.com".to_string(),
        phone_number: None,
    }
}

fn arrive(q: AuthzResp, s: LoginSession) -> (LoginState, LoginAction) {
    callback(
        &config(ResponseMode::Redirect),
        LoginState::AwaitingCallback,
        LoginEvent::CallbackReceived { query: q, session: s },
    )
    .expect("a callback is what the state waits for")
}

fn assert_rejected(next: (LoginState, LoginAction), kind: ErrorKind, status: u16, body: &str) {
    assert!(matches!(next.0, LoginState::Rejected));
    match next.1 {
        LoginAction::Respond { reply } => {
            assert_eq!(reply.status().as_u16(), status);
            match reply {
                Reply::Failure { kind: found, message } => {
                    assert_eq!(found, kind);
                    assert_eq!(message, body);
                }
                other => panic!("not a failure: {:?}", other),
            }
        }
        other => panic!("not an answer: {:?}", other),
    }
}

#[test]
fn session_keys_and_cookie_name() {
    assert_eq!(CSRF_STATE_KEY, "oauth.csrf-state");
    assert_eq!(PKCE_CODE_VERIFIER, "pkce.code-verifier");
    assert_eq!(ACCESS_TOKEN_KEY, "access_token");
}

#[test]
fn matching_state_proceeds_to_exchange() {
    let (state, action) =
        arrive(query("validcode", "abc123"), session(Some("abc123"), Some("the-verifier")));
    assert!(matches!(state, LoginState::ExchangingCode));
    match action {
        LoginAction::ExchangeCode { credentials, scope } => {
            assert_eq!(credentials.code, "validcode");
            assert_eq!(credentials.pkce_code_verifier, "the-verifier");
            assert_eq!(scope, "api://jostrid-api/Jostrid.Access");
        }
        other => panic!("no exchange: {:?}", other),
    }
}

#[test]
fn differing_state_is_a_bad_request() {
    let next = arrive(query("validcode", "xyz999"), session(Some("abc123"), Some("the-verifier")));
    assert_rejected(next, ErrorKind::CsrfMismatch, 400, "");
}

#[test]
fn state_differing_in_case_is_a_bad_request() {
    let next = arrive(query("validcode", "ABC123"), session(Some("abc123"), Some("the-verifier")));
    assert_rejected(next, ErrorKind::CsrfMismatch, 400, "");
}

#[test]
fn state_with_a_stored_prefix_is_a_bad_request() {
    let next = arrive(query("validcode", "abc1234"), session(Some("abc123"), Some("v")));
    assert_rejected(next, ErrorKind::CsrfMismatch, 400, "");
}

#[test]
fn missing_csrf_token_is_a_bad_request() {
    let next = arrive(query("validcode", "abc123"), session(None, Some("the-verifier")));
    assert_rejected(next, ErrorKind::Session, 400, "");
}

#[test]
fn missing_verifier_is_a_bad_request() {
    let next = arrive(query("validcode", "abc123"), session(Some("abc123"), None));
    assert_rejected(next, ErrorKind::Session, 400, "");
}

#[test]
fn empty_session_is_a_bad_request() {
    let next = arrive(query("validcode", ""), session(None, None));
    assert_rejected(next, ErrorKind::Session, 400, "");
}

#[test]
fn issued_token_is_authenticated() {
    let (state, action) = callback(
        &config(ResponseMode::Redirect),
        LoginState::ExchangingCode,
        LoginEvent::CodeExchanged { exchange: Ok(token(Some(60))) },
    )
    .unwrap();
    match state {
        LoginState::Authenticating { token } => {
            assert_eq!(token.access_token, "the-access-token");
            assert_eq!(token.expires_in, Some(60));
        }
        other => panic!("not authenticating: {:?}", other),
    }
    match action {
        LoginAction::Authenticate { access_token } => assert_eq!(access_token, "the-access-token"),
        other => panic!("no authentication: {:?}", other),
    }
}

#[test]
fn failed_exchange_is_a_server_error_with_the_upstream_message() {
    let next = callback(
        &config(ResponseMode::Redirect),
        LoginState::ExchangingCode,
        LoginEvent::CodeExchanged {
            exchange: Err(AuthError::OAuth2("Server returned error response".to_string())),
        },
    )
    .unwrap();
    assert_rejected(
        next,
        ErrorKind::UpstreamAuth,
        500,
        "Failed to acquire token: Server returned error response",
    );
}

#[test]
fn authenticated_user_gets_the_cookie() {
    let (state, action) = callback(
        &config(ResponseMode::Redirect),
        LoginState::Authenticating { token: token(Some(1800)) },
        LoginEvent::UserAuthenticated { outcome: Ok(user()), now: 1_700_000_000 },
    )
    .unwrap();
    match state {
        LoginState::Authenticated { token, user } => {
            assert_eq!(token.access_token, "the-access-token");
            assert_eq!(user.id, 7);
            assert_eq!(user.name, "Ada");
        }
        other => panic!("not authenticated: {:?}", other),
    }
    match action {
        LoginAction::SetCookie { cookie } => {
            assert_eq!(cookie.name, "access_token");
            assert_eq!(cookie.value, "the-access-token");
            assert_eq!(cookie.path, "/");
            assert!(cookie.http_only);
            assert!(!cookie.secure);
            assert_eq!(cookie.same_site, SameSite::Lax);
            assert_eq!(cookie.expires, 1_700_001_800);
        }
        other => panic!("no cookie: {:?}", other),
    }
}

#[test]
fn cookie_expires_with_the_token() {
    let cookie = access_token_cookie(&token(Some(7200)), 1_000);
    assert_eq!(cookie.expires, 8_200);
}

#[test]
fn cookie_expiry_defaults_to_one_hour() {
    let cookie = access_token_cookie(&token(None), 1_700_000_000);
    assert_eq!(cookie.expires, 1_700_003_600);
}

#[test]
fn cookie_expiry_at_the_limits_of_the_clock() {
    let late = access_token_cookie(&token(Some(u64::MAX)), i64::MAX);
    assert_eq!(late.expires, i64::MAX as i128 + u64::MAX as i128);
    let early = access_token_cookie(&token(Some(0)), i64::MIN);
    assert_eq!(early.expires, i64::MIN as i128);
}

#[test]
fn forbidden_email_is_answered_with_403() {
    let next = callback(
        &config(ResponseMode::Redirect),
        LoginState::Authenticating { token: token(None) },
        LoginEvent::UserAuthenticated {
            outcome: Err(AuthError::ForbiddenEmail("eve@example.com".to_string())),
            now: 0,
        },
    )
    .unwrap();
    assert_rejected(
        next,
        ErrorKind::ForbiddenEmail,
        403,
        "Failed to get user info: The given email 'eve@example.com' is not allowed to sign in",
    );
}

#[test]
fn other_authentication_failures_are_answered_with_500() {
    let failures = vec![
        (AuthError::Var(VarError::NotPresent), ErrorKind::Configuration, "environment variable not found"),
        (AuthError::Reqwest("connection refused".to_string()), ErrorKind::UpstreamAuth, "connection refused"),
        (AuthError::OAuth2("invalid_grant".to_string()), ErrorKind::UpstreamAuth, "invalid_grant"),
        (AuthError::Sqlx("pool timed out".to_string()), ErrorKind::Persistence, "pool timed out"),
    ];
    for (error, kind, text) in failures {
        let next = callback(
            &config(ResponseMode::Redirect),
            LoginState::Authenticating { token: token(None) },
            LoginEvent::UserAuthenticated { outcome: Err(error), now: 0 },
        )
        .unwrap();
        assert_rejected(next, kind, 500, &format!("Failed to get user info: {}", text));
    }
}

#[test]
fn stored_cookie_ends_with_a_redirect_to_the_frontend() {
    let (state, action) = callback(
        &config(ResponseMode::Redirect),
        LoginState::Authenticated { token: token(None), user: user() },
        LoginEvent::CookieStored,
    )
    .unwrap();
    assert!(matches!(state, LoginState::Done));
    match action {
        LoginAction::Respond { reply } => {
            assert_eq!(reply.status(), StatusCode::Found);
            assert_eq!(reply.status().as_u16(), 302);
            match reply {
                Reply::Redirect { location } => assert_eq!(location, "https://app.example/"),
                other => panic!("no redirect: {:?}", other),
            }
        }
        other => panic!("no answer: {:?}", other),
    }
}

#[test]
fn stored_cookie_ends_with_the_payload_in_payload_mode() {
    let (state, action) = callback(
        &config(ResponseMode::Payload),
        LoginState::Authenticated { token: token(Some(5)), user: user() },
        LoginEvent::CookieStored,
    )
    .unwrap();
    assert!(matches!(state, LoginState::Done));
    match action {
        LoginAction::Respond { reply } => {
            assert_eq!(reply.status().as_u16(), 200);
            match reply {
                Reply::Payload { user, token } => {
                    assert_eq!(user.email, "ada@example.com");
                    assert_eq!(token.refresh_token.as_deref(), Some("the-refresh-token"));
                    assert_eq!(token.expires_in, Some(5));
                }
                other => panic!("no payload: {:?}", other),
            }
        }
        other => panic!("no answer: {:?}", other),
    }
}

#[test]
fn events_out_of_turn_change_nothing() {
    let cfg = config(ResponseMode::Redirect);
    assert!(callback(&cfg, LoginState::Start, LoginEvent::CookieStored).is_none());
    assert!(callback(
        &cfg,
        LoginState::Start,
        LoginEvent::CallbackReceived {
            query: query("c", "s"),
            session: session(Some("s"), Some("v")),
        }
    )
    .is_none());
    assert!(callback(&cfg, LoginState::AwaitingCallback, LoginEvent::CookieStored).is_none());
    assert!(callback(
        &cfg,
        LoginState::AwaitingCallback,
        LoginEvent::CodeExchanged { exchange: Ok(token(None)) }
    )
    .is_none());
    assert!(callback(
        &cfg,
        LoginState::ExchangingCode,
        LoginEvent::UserAuthenticated { outcome: Ok(user()), now: 0 }
    )
    .is_none());
    assert!(callback(
        &cfg,
        LoginState::Authenticating { token: token(None) },
        LoginEvent::CookieStored
    )
    .is_none());
}

#[test]
fn finished_attempts_stay_finished() {
    let cfg = config(ResponseMode::Redirect);
    assert!(callback(&cfg, LoginState::Done, LoginEvent::CookieStored).is_none());
    assert!(callback(
        &cfg,
        LoginState::Rejected,
        LoginEvent::CallbackReceived {
            query: query("validcode", "abc123"),
            session: session(Some("abc123"), Some("v")),
        }
    )
    .is_none());
    assert!(callback(
        &cfg,
        LoginState::Done,
        LoginEvent::CodeExchanged { exchange: Ok(token(None)) }
    )
    .is_none());
}

#[test]
fn whole_login_from_callback_to_redirect() {
    let cfg = config(ResponseMode::Redirect);
    let (state, action) =
        arrive(query("validcode", "abc123"), session(Some("abc123"), Some("the-verifier")));
    assert!(matches!(action, LoginAction::ExchangeCode { .. }));
    let (state, action) =
        callback(&cfg, state, LoginEvent::CodeExchanged { exchange: Ok(token(None)) }).unwrap();
    assert!(matches!(action, LoginAction::Authenticate { .. }));
    let (state, action) = callback(
        &cfg,
        state,
        LoginEvent::UserAuthenticated { outcome: Ok(user()), now: 100 },
    )
    .unwrap();
    match action {
        LoginAction::SetCookie { cookie } => assert_eq!(cookie.expires, 3_700),
        other => panic!("no cookie: {:?}", other),
    }
    let (state, action) = callback(&cfg, state, LoginEvent::CookieStored).unwrap();
    assert!(matches!(state, LoginState::Done));
    assert!(matches!(action, LoginAction::Respond { reply: Reply::Redirect { .. } }));
}

#[test]
fn logout_without_a_prior_login_is_ok() {
    let (status, removed) = logout();
    assert_eq!(status, StatusCode::Success);
    assert_eq!(status.as_u16(), 200);
    assert_eq!(removed.name, "access_token");
    assert_eq!(removed.path, "/");
}

#[test]
fn logout_is_the_same_every_time() {
    let first = logout();
    let second = logout();
    assert_eq!(first.0, second.0);
    assert_eq!(first.1.name, second.1.name);
    assert_eq!(first.1.path, second.1.path);
}

#[test]
fn values_of_the_flow_can_be_copied() {
    let q = query("validcode", "abc123").clone();
    assert_eq!((q.code.as_str(), q.state.as_str()), ("validcode", "abc123"));
    let s = session(Some("abc123"), None).clone();
    assert_eq!(s.csrf_state.as_deref(), Some("abc123"));
    assert_eq!(s.pkce_code_verifier, None);
    let c = access_token_cookie(&token(Some(10)), 5).clone();
    assert_eq!((c.name.as_str(), c.value.as_str(), c.expires), ("access_token", "the-access-token", 15));
    let cfg = config(ResponseMode::Payload).clone();
    assert_eq!(cfg.mode, ResponseMode::Payload);
    assert_eq!(cfg.frontend_url, "https://app.example/");
    let t = token(None).clone();
    assert_eq!(t.expires_in, None);
    assert_eq!(t.token_type, "bearer");
    let u = user().clone();
    assert_eq!((u.id, u.name.as_str()), (7, "Ada"));
}
