use jostrid::db::user::User;
use jostrid::service::allow_list::is_allowed;
use jostrid::service::auth_service::{
    user_info_request, AuthAction, AuthEvent, AuthService, AuthState, Credentials,
    OnBehalfOfResponse, UserInfo, ACCESS_SCOPE, JWT_BEARER_GRANT, OFFLINE_ACCESS_SCOPE,
    USER_INFO_URL, USER_READ_SCOPE,
};
use jostrid::service::error::{AuthError, ErrorKind, VarError};
use jostrid::service::identity_provider::{Method, OAuthClient};
use jostrid::text::chars_of;

const TOKEN_URL: &str = "https://login.microsoftonline.com/consumers/oauth2/v2.0/token";

fn service_with(secret: Option<&str>) -> AuthService {
    let client = OAuthClient::new(
        "my-client".to_string(),
        secret.map(|s| s.to_string()),
        "https://login.microsoftonline.com/consumers/oauth2/v2.0/authorize".to_string(),
        TOKEN_URL.to_string(),
        "http://localhost:5173/oauth/callback".to_string(),
    )
    .expect("the URLs parse");
    AuthService::new(client)
}

fn service() -> AuthService {
    service_with(Some("my-secret"))
}

fn pair(name: &str, value: &str) -> (String, String) {
    (name.to_string(), value.to_string())
}

fn obo(access_token: &str) -> OnBehalfOfResponse {
    OnBehalfOfResponse {
        token_type: "Bearer".to_string(),
        scope: "User.Read".to_string(),
        expires_in: 3599,
        ext_expires_in: 3599,
        access_token: access_token.to_string(),
    }
}

fn info(id: &str, name: &str, mail: &str) -> UserInfo {
    UserInfo { id: id.to_string(), display_name: name.to_string(), mail: mail.to_string() }
}

fn begin(list: Result<String, VarError>) -> (AuthState, AuthAction) {
    service()
        .authenticate(
            AuthState::Idle,
            AuthEvent::Begun { allowed_emails: list, access_token: "user-token".to_string() },
        )
        .expect("a beginning is what the idle state waits for")
}

fn assert_failed(next: (AuthState, AuthAction)) -> AuthError {
    assert!(matches!(next.0, AuthState::Finished));
    match next.1 {
        AuthAction::Finish { outcome: Err(error) } => error,
        other => panic!("no failure: {:?}", other),
    }
}

#[test]
fn scope_names() {
    assert_eq!(USER_READ_SCOPE, "User.Read");
    assert_eq!(OFFLINE_ACCESS_SCOPE, "offline_access");
    assert_eq!(ACCESS_SCOPE, "api://jostrid-api/Jostrid.Access");
    assert_eq!(JWT_BEARER_GRANT, "urn:ietf:params:oauth:grant-type:jwt-bearer");
    assert_eq!(USER_INFO_URL, "https://graph.microsoft.com/v1.0/me");
}

#[test]
fn allow_list_matches_whole_entries_only() {
    let list = "ada@example.com,bob@example.com,carol@example.com";
    assert!(is_allowed(list, "ada@example.com"));
    assert!(is_allowed(list, "bob@example.com"));
    assert!(is_allowed(list, "carol@example.com"));
    assert!(!is_allowed(list, "eve@example.com"));
    assert!(!is_allowed(list, "ada@example.co"));
    assert!(!is_allowed(list, "da@example.com"));
    assert!(!is_allowed(list, "example.com"));
    assert!(!is_allowed(list, "ada@example.com,bob@example.com"));
    assert!(!is_allowed(list, list));
}

#[test]
fn allow_list_is_case_sensitive_and_keeps_blanks() {
    assert!(!is_allowed("ada@example.com", "Ada@example.com"));
    assert!(!is_allowed("ada@example.com", "ADA@EXAMPLE.COM"));
    assert!(!is_allowed("ada@example.com, bob@example.com", "bob@example.com"));
    assert!(is_allowed("ada@example.com, bob@example.com", " bob@example.com"));
    assert!(!is_allowed("ada@example.com ", "ada@example.com"));
}

#[test]
fn allow_list_edges() {
    assert!(is_allowed("", ""));
    assert!(!is_allowed("", "ada@example.com"));
    assert!(is_allowed("ada@example.com", "ada@example.com"));
    assert!(!is_allowed("ada@example.com", ""));
    assert!(is_allowed("ada@example.com,", ""));
    assert!(is_allowed(",ada@example.com", ""));
    assert!(is_allowed("a,,b", ""));
    assert!(is_allowed(",", ""));
    assert!(!is_allowed(",", ","));
    assert!(is_allowed("a,b", "b"));
    assert!(is_allowed("a,b", "a"));
    assert!(!is_allowed("a,b", "a,b"));
    assert!(!is_allowed("ab", "a"));
    assert!(!is_allowed("ab", "b"));
}

#[test]
fn allow_list_with_letters_beyond_ascii() {
    assert!(is_allowed("zoë@example.com,ada@example.com", "zoë@example.com"));
    assert!(is_allowed("zoë@example.com,ada@example.com", "ada@example.com"));
    assert!(!is_allowed("zoë@example.com", "zoe@example.com"));
}

#[test]
fn chars_of_gives_the_letters() {
    assert_eq!(chars_of(""), Vec::<char>::new());
    assert_eq!(chars_of("a,b"), vec!['a', ',', 'b']);
    assert_eq!(chars_of("zoë"), vec!['z', 'o', 'ë']);
}

#[test]
fn acquire_token_builds_the_on_behalf_of_form() {
    let request = service().acquire_token("user-token", "User.Read").unwrap();
    assert_eq!(request.method, Method::Post);
    assert_eq!(request.url, TOKEN_URL);
    assert!(request.headers.is_empty());
    assert_eq!(
        request.form,
        vec![
            pair("grant_type", "urn:ietf:params:oauth:grant-type:jwt-bearer"),
            pair("client_id", "my-client"),
            pair("client_secret", "my-secret"),
            pair("assertion", "user-token"),
            pair("scope", "User.Read"),
            pair("requested_token_use", "on_behalf_of"),
        ]
    );
}

#[test]
fn acquire_token_without_a_secret_is_a_configuration_error() {
    let error = service_with(None).acquire_token("user-token", "User.Read").unwrap_err();
    assert!(matches!(error, AuthError::Var(VarError::NotPresent)));
    assert_eq!(error.kind(), ErrorKind::Configuration);
}

#[test]
fn user_info_request_bears_the_token() {
    let request = user_info_request(&obo("graph-token"));
    assert_eq!(request.method, Method::Get);
    assert_eq!(request.url, "https://graph.microsoft.com/v1.0/me");
    assert_eq!(
        request.headers,
        vec![pair("user-agent", "axum-login"), pair("authorization", "Bearer graph-token")]
    );
    assert!(request.form.is_empty());
}

#[test]
fn exchange_code_hands_on_code_verifier_and_scope() {
    let creds = Credentials { code: "validcode".to_string(), pkce_code_verifier: "v".to_string() };
    let copy = creds.clone();
    assert_eq!(copy.code, "validcode");
    assert_eq!(copy.pkce_code_verifier, "v");
    let grant = service().exchange_code(creds, ACCESS_SCOPE.to_string());
    assert_eq!(grant.code, "validcode");
    assert_eq!(grant.pkce_code_verifier, "v");
    assert_eq!(grant.extra_params, vec![pair("scope", "api://jostrid-api/Jostrid.Access")]);
}

#[test]
fn exchange_refresh_token_asks_for_one_scope() {
    let grant = service().exchange_refresh_token(&"refresh-me".to_string(), "User.Read".to_string());
    assert_eq!(grant.refresh_token, "refresh-me");
    assert_eq!(grant.scopes, vec!["User.Read".to_string()]);
}

#[test]
fn on_behalf_of_response_default_is_empty() {
    let empty = OnBehalfOfResponse::default();
    assert_eq!(empty.token_type, "");
    assert_eq!(empty.scope, "");
    assert_eq!(empty.expires_in, 0);
    assert_eq!(empty.ext_expires_in, 0);
    assert_eq!(empty.access_token, "");
    let copy = obo("t").clone();
    assert_eq!(copy.access_token, "t");
    assert_eq!(copy.expires_in, 3599);
}

#[test]
fn authentication_begins_with_the_on_behalf_of_exchange() {
    let (state, action) = begin(Ok("ada@example.com".to_string()));
    match state {
        AuthState::AcquiringToken { allowed_emails } => assert_eq!(allowed_emails, "ada@example.com"),
        other => panic!("not acquiring: {:?}", other),
    }
    match action {
        AuthAction::AcquireToken { request } => {
            assert_eq!(request.url, TOKEN_URL);
            assert_eq!(request.form[3], pair("assertion", "user-token"));
            assert_eq!(request.form[4], pair("scope", "User.Read"));
        }
        other => panic!("no exchange: {:?}", other),
    }
}

#[test]
fn missing_allow_list_is_a_configuration_error() {
    let error = assert_failed(begin(Err(VarError::NotPresent)));
    assert!(matches!(error, AuthError::Var(VarError::NotPresent)));
    assert_eq!(error.status().as_u16(), 500);
}

#[test]
fn unreadable_allow_list_is_a_configuration_error() {
    let error = assert_failed(begin(Err(VarError::NotUnicode("\"\\xFF\"".to_string()))));
    match error {
        AuthError::Var(VarError::NotUnicode(found)) => assert_eq!(found, "\"\\xFF\""),
        other => panic!("wrong error: {:?}", other),
    }
}

#[test]
fn missing_secret_ends_the_authentication_before_any_call() {
    let next = service_with(None)
        .authenticate(
            AuthState::Idle,
            AuthEvent::Begun {
                allowed_emails: Ok("ada@example.com".to_string()),
                access_token: "user-token".to_string(),
            },
        )
        .unwrap();
    let error = assert_failed(next);
    assert_eq!(error.kind(), ErrorKind::Configuration);
}

#[test]
fn failed_on_behalf_of_exchange_is_an_upstream_error() {
    let next = service()
        .authenticate(
            AuthState::AcquiringToken { allowed_emails: "ada@example.com".to_string() },
            AuthEvent::TokenAcquired { token: Err("error sending request".to_string()) },
        )
        .unwrap();
    let error = assert_failed(next);
    assert_eq!(error.kind(), ErrorKind::UpstreamAuth);
    match error {
        AuthError::Reqwest(message) => assert_eq!(message, "error sending request"),
        other => panic!("wrong error: {:?}", other),
    }
}

#[test]
fn acquired_token_is_used_to_ask_who_the_user_is() {
    let (state, action) = service()
        .authenticate(
            AuthState::AcquiringToken { allowed_emails: "ada@example.com".to_string() },
            AuthEvent::TokenAcquired { token: Ok(obo("graph-token")) },
        )
        .unwrap();
    match state {
        AuthState::FetchingUserInfo { allowed_emails } => assert_eq!(allowed_emails, "ada@example.com"),
        other => panic!("not fetching: {:?}", other),
    }
    match action {
        AuthAction::FetchUserInfo { info_request } => {
            assert_eq!(info_request.url, USER_INFO_URL);
            assert_eq!(info_request.headers[1], pair("authorization", "Bearer graph-token"));
        }
        other => panic!("no request: {:?}", other),
    }
}

#[test]
fn failed_user_info_is_an_upstream_error() {
    let next = service()
        .authenticate(
            AuthState::FetchingUserInfo { allowed_emails: "ada@example.com".to_string() },
            AuthEvent::UserInfoFetched { user_info: Err("error decoding response body".to_string()) },
        )
        .unwrap();
    let error = assert_failed(next);
    match error {
        AuthError::Reqwest(message) => assert_eq!(message, "error decoding response body"),
        other => panic!("wrong error: {:?}", other),
    }
}

#[test]
fn allowed_email_is_written() {
    let (state, action) = service()
        .authenticate(
            AuthState::FetchingUserInfo {
                allowed_emails: "bob@example.com,ada@example.com".to_string(),
            },
            AuthEvent::UserInfoFetched {
                user_info: Ok(info("ms-1", "Ada Lovelace", "ada@example.com")),
            },
        )
        .unwrap();
    assert!(matches!(state, AuthState::UpsertingUser));
    match action {
        AuthAction::UpsertUser { record } => {
            assert_eq!(record.microsoft_id, "ms-1");
            assert_eq!(record.name, "Ada Lovelace");
            assert_eq!(record.email, "ada@example.com");
        }
        other => panic!("no write: {:?}", other),
    }
}

#[test]
fn unlisted_email_is_forbidden_and_nothing_is_written() {
    let next = service()
        .authenticate(
            AuthState::FetchingUserInfo { allowed_emails: "ada@example.com".to_string() },
            AuthEvent::UserInfoFetched { user_info: Ok(info("ms-2", "Eve", "eve@example.com")) },
        )
        .unwrap();
    let error = assert_failed(next);
    assert_eq!(error.kind(), ErrorKind::ForbiddenEmail);
    assert_eq!(error.status().as_u16(), 403);
    match error {
        AuthError::ForbiddenEmail(email) => assert_eq!(email, "eve@example.com"),
        other => panic!("wrong error: {:?}", other),
    }
}

#[test]
fn email_differing_in_case_is_forbidden() {
    let next = service()
        .authenticate(
            AuthState::FetchingUserInfo { allowed_emails: "ada@example.com".to_string() },
            AuthEvent::UserInfoFetched { user_info: Ok(info("ms-1", "Ada", "Ada@Example.com")) },
        )
        .unwrap();
    assert!(matches!(assert_failed(next), AuthError::ForbiddenEmail(_)));
}

#[test]
fn written_user_is_the_result() {
    let user = User {
        id: 3,
        name: "Ada Lovelace".to_string(),
        email: "ada@example.com".to_string(),
        phone_number: Some("+46 70 000 00 00".to_string()),
    };
    let (state, action) = service()
        .authenticate(AuthState::UpsertingUser, AuthEvent::UserUpserted { user: Ok(user) })
        .unwrap();
    assert!(matches!(state, AuthState::Finished));
    match action {
        AuthAction::Finish { outcome: Ok(user) } => {
            assert_eq!(user.id, 3);
            assert_eq!(user.phone_number.as_deref(), Some("+46 70 000 00 00"));
        }
        other => panic!("no user: {:?}", other),
    }
}

#[test]
fn failed_write_is_a_persistence_error() {
    let next = service()
        .authenticate(
            AuthState::UpsertingUser,
            AuthEvent::UserUpserted { user: Err("connection reset".to_string()) },
        )
        .unwrap();
    let error = assert_failed(next);
    assert_eq!(error.kind(), ErrorKind::Persistence);
    match error {
        AuthError::Sqlx(message) => assert_eq!(message, "connection reset"),
        other => panic!("wrong error: {:?}", other),
    }
}

#[test]
fn authentication_events_out_of_turn_change_nothing() {
    let s = service();
    assert!(s
        .authenticate(AuthState::Idle, AuthEvent::TokenAcquired { token: Ok(obo("t")) })
        .is_none());
    assert!(s
        .authenticate(
            AuthState::Idle,
            AuthEvent::UserInfoFetched { user_info: Ok(info("ms-1", "Ada", "ada@example.com")) }
        )
        .is_none());
    assert!(s
        .authenticate(
            AuthState::AcquiringToken { allowed_emails: "ada@example.com".to_string() },
            AuthEvent::UserInfoFetched { user_info: Ok(info("ms-1", "Ada", "ada@example.com")) }
        )
        .is_none());
    assert!(s
        .authenticate(
            AuthState::UpsertingUser,
            AuthEvent::TokenAcquired { token: Ok(obo("t")) }
        )
        .is_none());
    assert!(s
        .authenticate(
            AuthState::Finished,
            AuthEvent::Begun {
                allowed_emails: Ok("ada@example.com".to_string()),
                access_token: "t".to_string()
            }
        )
        .is_none());
}
