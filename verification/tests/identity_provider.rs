use jostrid::api::auth::{login, redirect, redirect_with};
use jostrid::api::util::StatusCode;
use jostrid::service::auth_service::AuthService;
use jostrid::service::identity_provider::{check_pkce_code_verifier, Endpoint, OAuthClient};

const AUTH_URL: &str = "https://login.microsoftonline.com/consumers/oauth2/v2.0/authorize";
const TOKEN_URL: &str = "https://login.microsoftonline.com/consumers/oauth2/v2.0/token";
const REDIRECT_URL: &str = "http://localhost:5173/oauth/callback";
const CHALLENGE_OF_43_AS: &str = "ZtNPunH49FD35FWYhT5Tv8I7vRKQJ8uxMaL0_9eHjNA";

fn client() -> OAuthClient {
    OAuthClient::new(
        "my-client".to_string(),
        Some("my-secret".to_string()),
        AUTH_URL.to_string(),
        TOKEN_URL.to_string(),
        REDIRECT_URL.to_string(),
    )
    .expect("the URLs parse")
}

fn service() -> AuthService {
    AuthService::new(client())
}

fn is_base64url(text: &str) -> bool {
    text.chars().all(|c| c.is_ascii_alphanumeric() || c == '-' || c == '_')
}

fn expected_url(challenge: &str, state: &str) -> String {
    format!(
        "{}?response_type=code&client_id=my-client&state={}&code_challenge={}&code_challenge_method=S256&redirect_uri=http%3A%2F%2Flocalhost%3A5173%2Foauth%2Fcallback&scope=User.Read+offline_access+api%3A%2F%2Fjostrid-api%2FJostrid.Access",
        AUTH_URL, state, challenge
    )
}

#[test]
fn client_keeps_what_it_was_given() {
    let client = client();
    assert_eq!(client.client_id(), "my-client");
    assert_eq!(client.client_secret().as_deref(), Some("my-secret"));
    assert_eq!(client.token_url(), TOKEN_URL);
}

#[test]
fn client_refuses_an_authorization_url_that_does_not_parse() {
    let refused = OAuthClient::new(
        "my-client".to_string(),
        None,
        "not a url".to_string(),
        TOKEN_URL.to_string(),
        REDIRECT_URL.to_string(),
    );
    assert_eq!(refused.unwrap_err(), Endpoint::Authorization);
}

#[test]
fn client_refuses_a_token_url_that_does_not_parse() {
    let refused = OAuthClient::new(
        "my-client".to_string(),
        None,
        AUTH_URL.to_string(),
        "/relative/path".to_string(),
        REDIRECT_URL.to_string(),
    );
    assert_eq!(refused.unwrap_err(), Endpoint::Token);
}

#[test]
fn client_refuses_a_redirect_url_that_does_not_parse() {
    let refused = OAuthClient::new(
        "my-client".to_string(),
        None,
        AUTH_URL.to_string(),
        TOKEN_URL.to_string(),
        String::new(),
    );
    assert_eq!(refused.unwrap_err(), Endpoint::Redirect);
}

#[test]
fn client_names_the_first_url_that_does_not_parse() {
    let refused = OAuthClient::new(
        "my-client".to_string(),
        None,
        "nope".to_string(),
        "nope".to_string(),
        "nope".to_string(),
    );
    assert_eq!(refused.unwrap_err(), Endpoint::Authorization);
}

#[test]
fn authorization_url_for_given_secrets() {
    let verifier = "a".repeat(43);
    let url = service().authorize_url_with(&verifier, "abc123");
    assert_eq!(url, expected_url(CHALLENGE_OF_43_AS, "abc123"));
}

#[test]
fn authorization_url_of_the_client_for_other_scopes() {
    let verifier = "a".repeat(43);
    let url = client().authorization_url(&vec!["openid".to_string()], &verifier, "s t");
    assert_eq!(
        url,
        format!(
            "{}?response_type=code&client_id=my-client&state=s+t&code_challenge={}&code_challenge_method=S256&redirect_uri=http%3A%2F%2Flocalhost%3A5173%2Foauth%2Fcallback&scope=openid",
            AUTH_URL, CHALLENGE_OF_43_AS
        )
    );
}

#[test]
fn authorize_url_draws_a_token_and_puts_it_in_the_url() {
    let verifier = "a".repeat(43);
    let (url, csrf) = service().authorize_url(&verifier);
    assert_eq!(csrf.chars().count(), 22);
    assert!(is_base64url(&csrf));
    assert_eq!(url, expected_url(CHALLENGE_OF_43_AS, &csrf));
}

#[test]
fn authorize_url_draws_a_new_token_each_time() {
    let verifier = "a".repeat(43);
    let (_, first) = service().authorize_url(&verifier);
    let (_, second) = service().authorize_url(&verifier);
    assert_ne!(first, second);
}

#[test]
fn redirect_with_keeps_both_secrets_in_the_session() {
    let verifier = "a".repeat(43);
    let (session, url) = redirect_with(&service(), verifier.clone(), "abc123".to_string());
    assert_eq!(session.csrf_state.as_deref(), Some("abc123"));
    assert_eq!(session.pkce_code_verifier.as_deref(), Some(verifier.as_str()));
    assert_eq!(url, expected_url(CHALLENGE_OF_43_AS, "abc123"));
}

#[test]
fn redirect_draws_both_secrets() {
    let (session, url) = redirect(&service());
    let csrf = session.csrf_state.expect("a CSRF token");
    let verifier = session.pkce_code_verifier.expect("a PKCE verifier");
    assert_eq!(csrf.chars().count(), 22);
    assert!(is_base64url(&csrf));
    assert_eq!(verifier.chars().count(), 43);
    assert!(is_base64url(&verifier));
    assert_eq!(url, service().authorize_url_with(&verifier, &csrf));
    assert!(url.starts_with(AUTH_URL));
    assert!(url.contains(&format!("state={}", csrf)));
    assert!(!url.contains(&verifier));
}

#[test]
fn redirect_draws_new_secrets_each_time() {
    let (first, _) = redirect(&service());
    let (second, _) = redirect(&service());
    assert_ne!(first.csrf_state, second.csrf_state);
    assert_ne!(first.pkce_code_verifier, second.pkce_code_verifier);
}

#[test]
fn login_sends_the_browser_to_the_authorization_url() {
    let (session, redirection) = login(&service());
    assert_eq!(redirection.status, StatusCode::SeeOther);
    assert_eq!(redirection.status.as_u16(), 303);
    let csrf = session.csrf_state.unwrap();
    let verifier = session.pkce_code_verifier.unwrap();
    assert_eq!(redirection.location, service().authorize_url_with(&verifier, &csrf));
}

#[test]
fn verifier_length_is_checked() {
    assert!(!check_pkce_code_verifier(""));
    assert!(!check_pkce_code_verifier(&"a".repeat(42)));
    assert!(check_pkce_code_verifier(&"a".repeat(43)));
    assert!(check_pkce_code_verifier(&"a".repeat(128)));
    assert!(!check_pkce_code_verifier(&"a".repeat(129)));
}

#[test]
fn verifier_alphabet_is_checked() {
    let filler = "a".repeat(40);
    assert!(check_pkce_code_verifier(&format!("{}AZ09", filler)));
    assert!(check_pkce_code_verifier(&format!("{}-._~", filler)));
    assert!(!check_pkce_code_verifier(&format!("{}abc+", filler)));
    assert!(!check_pkce_code_verifier(&format!("{}abc/", filler)));
    assert!(!check_pkce_code_verifier(&format!("{}abc=", filler)));
    assert!(!check_pkce_code_verifier(&format!("{}ab c", filler)));
    assert!(!check_pkce_code_verifier(&format!("{}abcé", filler)));
}

#[test]
fn drawn_verifier_passes_the_check() {
    let (session, _) = redirect(&service());
    assert!(check_pkce_code_verifier(&session.pkce_code_verifier.unwrap()));
}
