use vstd::prelude::*;
use vstd::string::*;
use crate::api::util::StatusCode;
use crate::db::user::{User, UserView};
use crate::service::auth_service::{
    login_scopes, AuthService, Credentials, CredentialsView, TokenResponse, TokenResponseView,
    ACCESS_SCOPE,
};
use crate::service::error::{AuthError, AuthErrorView, ErrorKind};
use crate::service::identity_provider::{
    authorization_url_text, is_base64url_token, is_pkce_code_verifier,
    random_pkce_code_verifier,
};

verus! {

/// Session key under which the CSRF token of a login attempt is kept.
pub const CSRF_STATE_KEY: &'static str = "oauth.csrf-state";

/// Session key under which the PKCE verifier of a login attempt is kept.
pub const PKCE_CODE_VERIFIER: &'static str = "pkce.code-verifier";

/// Name of the cookie that carries the access token.
pub const ACCESS_TOKEN_KEY: &'static str = "access_token";

/// Lifetime, in seconds, of a token whose issuer named none.
pub const DEFAULT_TOKEN_LIFETIME_SECS: u64 = 3600;

/// The query of a callback from the identity provider.
#[derive(Debug)]
pub struct AuthzResp {
    pub code: String,
    pub state: String,
}

/// Mathematical value of an [`AuthzResp`].
pub struct AuthzRespView {
    pub code: Seq<char>,
    pub state: Seq<char>,
}

impl View for AuthzResp {
    type V = AuthzRespView;

    open spec fn view(&self) -> AuthzRespView {
        AuthzRespView { code: self.code@, state: self.state@ }
    }
}

impl Clone for AuthzResp {
    fn clone(&self) -> (copy: Self)
        ensures
            copy@ == self@,
    {
        AuthzResp { code: self.code.clone(), state: self.state.clone() }
    }
}

/// What the session of one browser holds of a login attempt. A value that is
/// missing, or that the session store could not read back, is `None`.
#[derive(Debug)]
pub struct LoginSession {
    /// Stored under [`CSRF_STATE_KEY`].
    pub csrf_state: Option<String>,
    /// Stored under [`PKCE_CODE_VERIFIER`].
    pub pkce_code_verifier: Option<String>,
}

/// Mathematical value of a [`LoginSession`].
pub struct LoginSessionView {
    pub csrf_state: Option<Seq<char>>,
    pub pkce_code_verifier: Option<Seq<char>>,
}

impl View for LoginSession {
    type V = LoginSessionView;

    open spec fn view(&self) -> LoginSessionView {
        LoginSessionView {
            csrf_state: self.csrf_state.deep_view(),
            pkce_code_verifier: self.pkce_code_verifier.deep_view(),
        }
    }
}

impl Clone for LoginSession {
    fn clone(&self) -> (copy: Self)
        ensures
            copy@ == self@,
    {
        LoginSession {
            csrf_state: self.csrf_state.clone(),
            pkce_code_verifier: self.pkce_code_verifier.clone(),
        }
    }
}

/// How far a browser may send a cookie along with cross-site requests.
#[derive(Debug, Clone, Copy, PartialEq, Eq, Structural)]
pub enum SameSite {
    Strict,
    Lax,
    Unrestricted,
}

/// A cookie to set, as plain values. `expires` is in seconds since the epoch;
/// it is wide enough for any instant plus any lifetime.
#[derive(Debug)]
pub struct Cookie {
    pub name: String,
    pub value: String,
    pub path: String,
    pub http_only: bool,
    pub secure: bool,
    pub same_site: SameSite,
    pub expires: i128,
}

/// Mathematical value of a [`Cookie`].
pub struct CookieView {
    pub name: Seq<char>,
    pub value: Seq<char>,
    pub path: Seq<char>,
    pub http_only: bool,
    pub secure: bool,
    pub same_site: SameSite,
    pub expires: int,
}

impl View for Cookie {
    type V = CookieView;

    open spec fn view(&self) -> CookieView {
        CookieView {
            name: self.name@,
            value: self.value@,
            path: self.path@,
            http_only: self.http_only,
            secure: self.secure,
            same_site: self.same_site,
            expires: self.expires as int,
        }
    }
}

impl Clone for Cookie {
    fn clone(&self) -> (copy: Self)
        ensures
            copy@ == self@,
    {
        Cookie {
            name: self.name.clone(),
            value: self.value.clone(),
            path: self.path.clone(),
            http_only: self.http_only,
            secure: self.secure,
            same_site: self.same_site,
            expires: self.expires,
        }
    }
}

/// Seconds for which a token is good: what its issuer said, else one hour.
pub open spec fn token_lifetime(expires_in: Option<nat>) -> nat {
    match expires_in {
        Some(secs) => secs,
        None => 3600,
    }
}

/// The cookie that caches `token` for the browser, issued at `now`.
pub open spec fn access_token_cookie_view(token: TokenResponseView, now: int) -> CookieView {
    CookieView {
        name: ACCESS_TOKEN_KEY@,
        value: token.access_token,
        path: "/"@,
        http_only: true,
        secure: false,
        same_site: SameSite::Lax,
        expires: now + token_lifetime(token.expires_in),
    }
}

/// Builds the access-token cookie: HTTP-only, for the whole site, and gone
/// when the token is (`now` and the result are seconds since the epoch).
pub fn access_token_cookie(token: &TokenResponse, now: i64) -> (cookie: Cookie)
    ensures
        cookie@ == access_token_cookie_view(token@, now as int),
        cookie.expires == now + token_lifetime(token@.expires_in),
        token.expires_in is None ==> cookie.expires == now + 3600,
{
    let lifetime: u64 = match token.expires_in {
        Some(secs) => secs,
        None => DEFAULT_TOKEN_LIFETIME_SECS,
    };
    Cookie {
        name: ACCESS_TOKEN_KEY.to_string(),
        value: token.access_token.clone(),
        path: "/".to_string(),
        http_only: true,
        secure: false,
        same_site: SameSite::Lax,
        expires: now as i128 + lifetime as i128,
    }
}

/// How a finished login is answered.
#[derive(Debug, Clone, Copy, PartialEq, Eq, Structural)]
pub enum ResponseMode {
    /// Send the browser on to the application.
    Redirect,
    /// Hand user and token to the caller as the response body.
    Payload,
}

/// The deployment's choices for the end of a login.
#[derive(Debug)]
pub struct LoginConfig {
    pub mode: ResponseMode,
    /// Where a browser goes after a login in [`ResponseMode::Redirect`].
    pub frontend_url: String,
}

/// Mathematical value of a [`LoginConfig`].
pub struct LoginConfigView {
    pub mode: ResponseMode,
    pub frontend_url: Seq<char>,
}

impl View for LoginConfig {
    type V = LoginConfigView;

    open spec fn view(&self) -> LoginConfigView {
        LoginConfigView { mode: self.mode, frontend_url: self.frontend_url@ }
    }
}

impl Clone for LoginConfig {
    fn clone(&self) -> (copy: Self)
        ensures
            copy@ == self@,
    {
        LoginConfig { mode: self.mode, frontend_url: self.frontend_url.clone() }
    }
}

/// The answer that ends a login attempt.
#[derive(Debug)]
pub enum Reply {
    /// 302, with `location` as the target.
    Redirect { location: String },
    /// 200, with the user and the token as the body.
    Payload { user: User, token: TokenResponse },
    /// The status that belongs to `kind`, with `message` as the body.
    Failure { kind: ErrorKind, message: String },
}

/// Mathematical value of a [`Reply`].
pub enum ReplyView {
    Redirect { location: Seq<char> },
    Payload { user: UserView, token: TokenResponseView },
    Failure { kind: ErrorKind, message: Seq<char> },
}

impl View for Reply {
    type V = ReplyView;

    open spec fn view(&self) -> ReplyView {
        match self {
            Reply::Redirect { location } => ReplyView::Redirect { location: location@ },
            Reply::Payload { user, token } => ReplyView::Payload { user: user@, token: token@ },
            Reply::Failure { kind, message } => ReplyView::Failure {
                kind: *kind,
                message: message@,
            },
        }
    }
}

impl ReplyView {
    pub open spec fn status(self) -> StatusCode {
        match self {
            ReplyView::Redirect { .. } => StatusCode::Found,
            ReplyView::Payload { .. } => StatusCode::Success,
            ReplyView::Failure { kind, .. } => kind.spec_status(),
        }
    }
}

impl Reply {
    pub fn status(&self) -> (status: StatusCode)
        ensures
            status == self@.status(),
    {
        match self {
            Reply::Redirect { .. } => StatusCode::Found,
            Reply::Payload { .. } => StatusCode::Success,
            Reply::Failure { kind, .. } => kind.status(),
        }
    }
}

/// Where a login attempt stands.
#[derive(Debug)]
pub enum LoginState {
    /// Nothing has happened yet.
    Start,
    /// The browser was sent to the identity provider; the session holds the
    /// CSRF token and the PKCE verifier.
    AwaitingCallback,
    /// The callback was genuine; the code is being exchanged for a token.
    ExchangingCode,
    /// A token was issued; its bearer is being authenticated.
    Authenticating { token: TokenResponse },
    /// The bearer is an allow-listed user; the cookie is being set.
    Authenticated { token: TokenResponse, user: User },
    /// The login succeeded and was answered.
    Done,
    /// The login failed and was answered. A new attempt starts over.
    Rejected,
}

/// Mathematical value of a [`LoginState`].
pub enum LoginStateView {
    Start,
    AwaitingCallback,
    ExchangingCode,
    Authenticating { token: TokenResponseView },
    Authenticated { token: TokenResponseView, user: UserView },
    Done,
    Rejected,
}

impl View for LoginState {
    type V = LoginStateView;

    open spec fn view(&self) -> LoginStateView {
        match self {
            LoginState::Start => LoginStateView::Start,
            LoginState::AwaitingCallback => LoginStateView::AwaitingCallback,
            LoginState::ExchangingCode => LoginStateView::ExchangingCode,
            LoginState::Authenticating { token } => LoginStateView::Authenticating {
                token: token@,
            },
            LoginState::Authenticated { token, user } => LoginStateView::Authenticated {
                token: token@,
                user: user@,
            },
            LoginState::Done => LoginStateView::Done,
            LoginState::Rejected => LoginStateView::Rejected,
        }
    }
}

impl LoginStateView {
    /// No event moves a login out of a terminal state.
    pub open spec fn is_terminal(self) -> bool {
        self is Done || self is Rejected
    }
}

/// What happened outside, told to the login attempt.
#[derive(Debug)]
pub enum LoginEvent {
    /// The identity provider sent the browser back. `session` is what the
    /// browser's session held at that moment.
    CallbackReceived { query: AuthzResp, session: LoginSession },
    /// The code exchange ended.
    CodeExchanged { exchange: Result<TokenResponse, AuthError> },
    /// The authentication of the token's bearer ended, at instant `now`
    /// (seconds since the epoch).
    UserAuthenticated { outcome: Result<User, AuthError>, now: i64 },
    /// The cookie was handed to the cookie jar.
    CookieStored,
}

/// Mathematical value of a [`LoginEvent`].
pub enum LoginEventView {
    CallbackReceived { query: AuthzRespView, session: LoginSessionView },
    CodeExchanged { exchange: Result<TokenResponseView, AuthErrorView> },
    UserAuthenticated { outcome: Result<UserView, AuthErrorView>, now: int },
    CookieStored,
}

impl View for LoginEvent {
    type V = LoginEventView;

    open spec fn view(&self) -> LoginEventView {
        match self {
            LoginEvent::CallbackReceived { query, session } => LoginEventView::CallbackReceived {
                query: query@,
                session: session@,
            },
            LoginEvent::CodeExchanged { exchange } => LoginEventView::CodeExchanged {
                exchange: match exchange {
                    Ok(token) => Ok(token@),
                    Err(e) => Err(e@),
                },
            },
            LoginEvent::UserAuthenticated { outcome, now } => LoginEventView::UserAuthenticated {
                outcome: match outcome {
                    Ok(user) => Ok(user@),
                    Err(e) => Err(e@),
                },
                now: *now as int,
            },
            LoginEvent::CookieStored => LoginEventView::CookieStored,
        }
    }
}

/// What the handler is to do next.
#[derive(Debug)]
pub enum LoginAction {
    /// Exchange the code at the identity provider's token endpoint.
    ExchangeCode { credentials: Credentials, scope: String },
    /// Authenticate the bearer of this access token.
    Authenticate { access_token: String },
    /// Put this cookie into the cookie jar.
    SetCookie { cookie: Cookie },
    /// Answer the request. The attempt is over.
    Respond { reply: Reply },
}

/// Mathematical value of a [`LoginAction`].
pub enum LoginActionView {
    ExchangeCode { credentials: CredentialsView, scope: Seq<char> },
    Authenticate { access_token: Seq<char> },
    SetCookie { cookie: CookieView },
    Respond { reply: ReplyView },
}

impl View for LoginAction {
    type V = LoginActionView;

    open spec fn view(&self) -> LoginActionView {
        match self {
            LoginAction::ExchangeCode { credentials, scope } => LoginActionView::ExchangeCode {
                credentials: credentials@,
                scope: scope@,
            },
            LoginAction::Authenticate { access_token } => LoginActionView::Authenticate {
                access_token: access_token@,
            },
            LoginAction::SetCookie { cookie } => LoginActionView::SetCookie { cookie: cookie@ },
            LoginAction::Respond { reply } => LoginActionView::Respond { reply: reply@ },
        }
    }
}

impl LoginActionView {
    /// The action reaches out to the identity provider.
    pub open spec fn calls_identity_provider(self) -> bool {
        self is ExchangeCode || self is Authenticate
    }
}

/// A callback is genuine when its `state` is, letter for letter, the CSRF
/// token that the session holds, and the session holds a PKCE verifier too.
pub open spec fn callback_is_genuine(query: AuthzRespView, session: LoginSessionView) -> bool {
    &&& session.csrf_state == Some(query.state)
    &&& session.pkce_code_verifier is Some
}

/// Why a callback that is not genuine is turned away: a stored token that
/// differs from `state` is a mismatch; a missing token or verifier is a fault
/// of the session.
pub open spec fn callback_fault(query: AuthzRespView, session: LoginSessionView) -> ErrorKind
    recommends
        !callback_is_genuine(query, session),
{
    if session.csrf_state is Some && session.csrf_state != Some(query.state) {
        ErrorKind::CsrfMismatch
    } else {
        ErrorKind::Session
    }
}

/// The end of an attempt that failed.
pub open spec fn rejection(kind: ErrorKind, message: Seq<char>) -> (
    LoginStateView,
    LoginActionView,
) {
    (
        LoginStateView::Rejected,
        LoginActionView::Respond { reply: ReplyView::Failure { kind, message } },
    )
}

/// The answer to a login that succeeded.
pub open spec fn success_reply(
    config: LoginConfigView,
    user: UserView,
    token: TokenResponseView,
) -> ReplyView {
    match config.mode {
        ResponseMode::Redirect => ReplyView::Redirect { location: config.frontend_url },
        ResponseMode::Payload => ReplyView::Payload { user, token },
    }
}

/// The login flow from the callback on: the state and the action that follow
/// from `state` and `event`, or `None` where `event` is not one that `state`
/// waits for.
pub open spec fn login_transition(
    config: LoginConfigView,
    state: LoginStateView,
    event: LoginEventView,
) -> Option<(LoginStateView, LoginActionView)> {
    match (state, event) {
        (
            LoginStateView::AwaitingCallback,
            LoginEventView::CallbackReceived { query, session },
        ) => Some(
            if callback_is_genuine(query, session) {
                (
                    LoginStateView::ExchangingCode,
                    LoginActionView::ExchangeCode {
                        credentials: CredentialsView {
                            code: query.code,
                            pkce_code_verifier: session.pkce_code_verifier->0,
                        },
                        scope: ACCESS_SCOPE@,
                    },
                )
            } else {
                rejection(callback_fault(query, session), Seq::empty())
            },
        ),
        (LoginStateView::ExchangingCode, LoginEventView::CodeExchanged { exchange }) => Some(
            match exchange {
                Ok(token) => (
                    LoginStateView::Authenticating { token },
                    LoginActionView::Authenticate { access_token: token.access_token },
                ),
                Err(e) => rejection(
                    ErrorKind::UpstreamAuth,
                    "Failed to acquire token: "@ + e.message(),
                ),
            },
        ),
        (
            LoginStateView::Authenticating { token },
            LoginEventView::UserAuthenticated { outcome, now },
        ) => Some(
            match outcome {
                Ok(user) => (
                    LoginStateView::Authenticated { token, user },
                    LoginActionView::SetCookie { cookie: access_token_cookie_view(token, now) },
                ),
                Err(e) => rejection(e.kind(), "Failed to get user info: "@ + e.message()),
            },
        ),
        (LoginStateView::Authenticated { token, user }, LoginEventView::CookieStored) => Some(
            (
                LoginStateView::Done,
                LoginActionView::Respond { reply: success_reply(config, user, token) },
            ),
        ),
        _ => None,
    }
}

/// Mathematical value of what [`callback`] returns.
pub open spec fn step_view(next: Option<(LoginState, LoginAction)>) -> Option<
    (LoginStateView, LoginActionView),
> {
    match next {
        Some((state, action)) => Some((state@, action@)),
        None => None,
    }
}

fn reject(kind: ErrorKind, message: String) -> (next: (LoginState, LoginAction))
    ensures
        (next.0@, next.1@) == rejection(kind, message@),
{
    (LoginState::Rejected, LoginAction::Respond { reply: Reply::Failure { kind, message } })
}

fn prefixed(prefix: &str, error: &AuthError) -> (text: String)
    ensures
        text@ == prefix@ + error@.message(),
{
    let mut text = prefix.to_owned();
    let message = error.message();
    text.append(message.as_str());
    text
}

/// Completes a login: one step of the flow that begins when the identity
/// provider sends the browser back.
///
/// The handler calls this with each thing that happens, does what the action
/// says, and comes back with the outcome, until the action is
/// [`LoginAction::Respond`]. Nothing is retried: a failure ends the attempt.
/// An event that the state does not wait for changes nothing and yields
/// `None`.
pub fn callback(config: &LoginConfig, state: LoginState, event: LoginEvent) -> (next: Option<
    (LoginState, LoginAction),
>)
    ensures
        step_view(next) == login_transition(config@, state@, event@),
{
    match state {
        LoginState::AwaitingCallback => match event {
            LoginEvent::CallbackReceived { query, session } => {
                let AuthzResp { code, state: new_state } = query;
                let LoginSession { csrf_state, pkce_code_verifier } = session;
                let old_state = match csrf_state {
                    Some(old_state) => old_state,
                    None => {
                        return Some(reject(ErrorKind::Session, String::new()));
                    },
                };
                if old_state != new_state {
                    return Some(reject(ErrorKind::CsrfMismatch, String::new()));
                }
                let pkce_code_verifier = match pkce_code_verifier {
                    Some(verifier) => verifier,
                    None => {
                        return Some(reject(ErrorKind::Session, String::new()));
                    },
                };
                let credentials = Credentials { code, pkce_code_verifier };
                Some(
                    (
                        LoginState::ExchangingCode,
                        LoginAction::ExchangeCode { credentials, scope: ACCESS_SCOPE.to_string() },
                    ),
                )
            },
            _ => None,
        },
        LoginState::ExchangingCode => match event {
            LoginEvent::CodeExchanged { exchange } => match exchange {
                Ok(token) => {
                    let access_token = token.access_token.clone();
                    Some((LoginState::Authenticating { token }, LoginAction::Authenticate { access_token }))
                },
                Err(e) => Some(
                    reject(ErrorKind::UpstreamAuth, prefixed("Failed to acquire token: ", &e)),
                ),
            },
            _ => None,
        },
        LoginState::Authenticating { token } => match event {
            LoginEvent::UserAuthenticated { outcome, now } => match outcome {
                Ok(user) => {
                    let cookie = access_token_cookie(&token, now);
                    Some((LoginState::Authenticated { token, user }, LoginAction::SetCookie { cookie }))
                },
                Err(e) => Some(reject(e.kind(), prefixed("Failed to get user info: ", &e))),
            },
            _ => None,
        },
        LoginState::Authenticated { token, user } => match event {
            LoginEvent::CookieStored => {
                let reply = match config.mode {
                    ResponseMode::Redirect => Reply::Redirect {
                        location: config.frontend_url.clone(),
                    },
                    ResponseMode::Payload => Reply::Payload { user, token },
                };
                Some((LoginState::Done, LoginAction::Respond { reply }))
            },
            _ => None,
        },
        _ => None,
    }
}

/// What the session holds once a login has been started with these two
/// secrets.
pub open spec fn session_of(csrf_state: Seq<char>, pkce_code_verifier: Seq<char>) -> LoginSessionView {
    LoginSessionView {
        csrf_state: Some(csrf_state),
        pkce_code_verifier: Some(pkce_code_verifier),
    }
}

/// Starts a login with the two secrets given: what to keep in the session,
/// and the authorization URL to send the browser to. The URL asks for
/// [`login_scopes`], carries the CSRF token as `state`, and the challenge
/// that only the holder of the verifier can meet.
pub fn redirect_with(auth_service: &AuthService, pkce_code_verifier: String, csrf_state: String) -> (started: (
    LoginSession,
    String,
))
    requires
        is_pkce_code_verifier(pkce_code_verifier@),
    ensures
        started.0@ == session_of(csrf_state@, pkce_code_verifier@),
        started.1@ == authorization_url_text(
            auth_service@.client_id,
            auth_service@.auth_url,
            auth_service@.redirect_url,
            login_scopes(),
            pkce_code_verifier@,
            csrf_state@,
        ),
{
    let auth_url = auth_service.authorize_url_with(
        pkce_code_verifier.as_str(),
        csrf_state.as_str(),
    );
    let session = LoginSession {
        csrf_state: Some(csrf_state),
        pkce_code_verifier: Some(pkce_code_verifier),
    };
    (session, auth_url)
}

/// Starts a login: draws a PKCE verifier and a CSRF token, and returns what
/// to keep in the session and the authorization URL to hand to the browser.
/// Whatever was drawn, the session holds both secrets, and the URL is the
/// one that belongs to them.
pub fn redirect(auth_service: &AuthService) -> (started: (LoginSession, String))
    ensures
        started.0@.csrf_state is Some,
        started.0@.pkce_code_verifier is Some,
        is_base64url_token(started.0@.csrf_state->0, 22),
        is_base64url_token(started.0@.pkce_code_verifier->0, 43),
        started.1@ == authorization_url_text(
            auth_service@.client_id,
            auth_service@.auth_url,
            auth_service@.redirect_url,
            login_scopes(),
            started.0@.pkce_code_verifier->0,
            started.0@.csrf_state->0,
        ),
{
    let pkce_code_verifier = random_pkce_code_verifier();
    let (auth_url, csrf_state) = auth_service.authorize_url(pkce_code_verifier.as_str());
    let session = LoginSession {
        csrf_state: Some(csrf_state),
        pkce_code_verifier: Some(pkce_code_verifier),
    };
    (session, auth_url)
}

/// An answer that sends the browser elsewhere.
#[derive(Debug)]
pub struct Redirection {
    pub status: StatusCode,
    pub location: String,
}

/// Starts a login as [`redirect`] does, and sends the browser to the
/// authorization URL itself, with status 303.
pub fn login(auth_service: &AuthService) -> (started: (LoginSession, Redirection))
    ensures
        started.0@.csrf_state is Some,
        started.0@.pkce_code_verifier is Some,
        is_base64url_token(started.0@.csrf_state->0, 22),
        is_base64url_token(started.0@.pkce_code_verifier->0, 43),
        started.1.status == StatusCode::SeeOther,
        started.1.location@ == authorization_url_text(
            auth_service@.client_id,
            auth_service@.auth_url,
            auth_service@.redirect_url,
            login_scopes(),
            started.0@.pkce_code_verifier->0,
            started.0@.csrf_state->0,
        ),
{
    let (session, location) = redirect(auth_service);
    (session, Redirection { status: StatusCode::SeeOther, location })
}

/// A cookie to take out of the browser's jar.
#[derive(Debug)]
pub struct RemovedCookie {
    pub name: String,
    pub path: String,
}

/// Logs out: the access-token cookie goes, whether or not there is one, and
/// the answer is 200. The identity provider is not told.
pub fn logout() -> (reply: (StatusCode, RemovedCookie))
    ensures
        reply.0 == StatusCode::Success,
        reply.1.name@ == ACCESS_TOKEN_KEY@,
        reply.1.path@ == "/"@,
{
    (StatusCode::Success, RemovedCookie { name: ACCESS_TOKEN_KEY.to_string(), path: "/".to_string() })
}

/// A callback whose `state` is the CSRF token of the session, with a PKCE
/// verifier in the session, goes on to the code exchange: with the code of
/// the query, the verifier of the session, and the application's scope.
pub proof fn law_genuine_callback_is_exchanged(
    config: LoginConfigView,
    query: AuthzRespView,
    session: LoginSessionView,
)
    requires
        session.csrf_state == Some(query.state),
        session.pkce_code_verifier is Some,
    ensures
        login_transition(
            config,
            LoginStateView::AwaitingCallback,
            LoginEventView::CallbackReceived { query, session },
        ) == Some(
            (
                LoginStateView::ExchangingCode,
                LoginActionView::ExchangeCode {
                    credentials: CredentialsView {
                        code: query.code,
                        pkce_code_verifier: session.pkce_code_verifier->0,
                    },
                    scope: ACCESS_SCOPE@,
                },
            ),
        ),
{
}

/// A callback whose `state` is not the CSRF token of the session is answered
/// with 400, ends the attempt, and reaches the identity provider with
/// nothing.
pub proof fn law_forged_callback_is_refused(
    config: LoginConfigView,
    query: AuthzRespView,
    session: LoginSessionView,
)
    requires
        session.csrf_state != Some(query.state),
    ensures
        login_transition(
            config,
            LoginStateView::AwaitingCallback,
            LoginEventView::CallbackReceived { query, session },
        ) matches Some((next, action)) && {
            &&& next is Rejected
            &&& action is Respond
            &&& action->reply.status() == StatusCode::BadRequest
            &&& action->reply.status().is_client_error()
            &&& !action.calls_identity_provider()
        },
{
}

/// A callback that finds no PKCE verifier in the session is answered with
/// 400 and ends the attempt before any code is exchanged.
pub proof fn law_callback_without_verifier_is_refused(
    config: LoginConfigView,
    query: AuthzRespView,
    session: LoginSessionView,
)
    requires
        session.pkce_code_verifier is None,
    ensures
        login_transition(
            config,
            LoginStateView::AwaitingCallback,
            LoginEventView::CallbackReceived { query, session },
        ) matches Some((next, action)) && {
            &&& next is Rejected
            &&& action is Respond
            &&& action->reply.status() == StatusCode::BadRequest
            &&& action->reply.status().is_client_error()
            &&& !action.calls_identity_provider()
        },
{
}

/// In every state and on every event: a code is exchanged only in answer to
/// a genuine callback, and then with that callback's code and the session's
/// verifier.
pub proof fn law_code_is_exchanged_only_after_genuine_callback(
    config: LoginConfigView,
    state: LoginStateView,
    event: LoginEventView,
)
    requires
        login_transition(config, state, event) matches Some((_, action)) && action is ExchangeCode,
    ensures
        state is AwaitingCallback,
        event matches LoginEventView::CallbackReceived { query, session } && {
            &&& callback_is_genuine(query, session)
            &&& login_transition(config, state, event) == Some(
                (
                    LoginStateView::ExchangingCode,
                    LoginActionView::ExchangeCode {
                        credentials: CredentialsView {
                            code: query.code,
                            pkce_code_verifier: session.pkce_code_verifier->0,
                        },
                        scope: ACCESS_SCOPE@,
                    },
                ),
            )
        },
{
}

/// The session that a started login leaves behind makes a callback genuine
/// exactly when the callback's `state` is the CSRF token that the login drew.
pub proof fn law_redirect_then_callback(
    csrf_state: Seq<char>,
    pkce_code_verifier: Seq<char>,
    query: AuthzRespView,
)
    ensures
        callback_is_genuine(query, session_of(csrf_state, pkce_code_verifier)) <==> query.state
            == csrf_state,
{
}

/// In every state and on every event: a cookie is set only for a bearer who
/// was authenticated, it is the access-token cookie of the token at hand, and
/// it expires when the token does: at `now` plus the lifetime the issuer
/// named, or plus 3600 seconds where it named none.
pub proof fn law_cookie_is_set_only_after_authentication(
    config: LoginConfigView,
    state: LoginStateView,
    event: LoginEventView,
)
    requires
        login_transition(config, state, event) matches Some((_, action)) && action is SetCookie,
    ensures
        state is Authenticating,
        event matches LoginEventView::UserAuthenticated { outcome, now } && {
            let token = state->Authenticating_token;
            let cookie = access_token_cookie_view(token, now);
            &&& outcome matches Ok(user)
            &&& login_transition(config, state, event) == Some(
                (
                    LoginStateView::Authenticated { token, user },
                    LoginActionView::SetCookie { cookie },
                ),
            )
            &&& cookie.expires == now + token_lifetime(token.expires_in)
            &&& token.expires_in is None ==> cookie.expires == now + 3600
        },
{
}

/// A failed code exchange ends the attempt with 500, a server error, and
/// with the upstream failure's message in the body.
pub proof fn law_failed_exchange_is_a_server_error(config: LoginConfigView, error: AuthErrorView)
    ensures
        login_transition(
            config,
            LoginStateView::ExchangingCode,
            LoginEventView::CodeExchanged { exchange: Err(error) },
        ) matches Some((next, action)) && {
            &&& next is Rejected
            &&& action == LoginActionView::Respond {
                reply: ReplyView::Failure {
                    kind: ErrorKind::UpstreamAuth,
                    message: "Failed to acquire token: "@ + error.message(),
                },
            }
            &&& action->reply.status() == StatusCode::InternalServerError
            &&& action->reply.status().is_server_error()
        },
{
}

/// A failed authentication ends the attempt: with 403 where the email is not
/// on the allow-list, with 500 otherwise.
pub proof fn law_failed_authentication_status(
    config: LoginConfigView,
    token: TokenResponseView,
    error: AuthErrorView,
    now: int,
)
    ensures
        login_transition(
            config,
            LoginStateView::Authenticating { token },
            LoginEventView::UserAuthenticated { outcome: Err(error), now },
        ) matches Some((next, action)) && {
            &&& next is Rejected
            &&& action is Respond
            &&& action->reply.status() == if error is ForbiddenEmail {
                StatusCode::Forbidden
            } else {
                StatusCode::InternalServerError
            }
        },
{
}

/// A finished attempt stays finished: no event moves it, and no action
/// follows.
pub proof fn law_terminal_states_are_final(
    config: LoginConfigView,
    state: LoginStateView,
    event: LoginEventView,
)
    requires
        state.is_terminal(),
    ensures
        login_transition(config, state, event) is None,
{
}

/// The actions that a login takes when `events` arrive in this order, each
/// told to the state that the one before it left. An event that the state
/// does not wait for is passed over.
pub open spec fn actions_taken(
    config: LoginConfigView,
    state: LoginStateView,
    events: Seq<LoginEventView>,
) -> Seq<LoginActionView>
    decreases events.len(),
{
    if events.len() == 0 {
        Seq::empty()
    } else {
        match login_transition(config, state, events[0]) {
            Some((next, action)) => seq![action] + actions_taken(
                config,
                next,
                events.drop_first(),
            ),
            None => actions_taken(config, state, events.drop_first()),
        }
    }
}

/// One of `actions` reaches out to the identity provider.
pub open spec fn reaches_identity_provider(actions: Seq<LoginActionView>) -> bool {
    exists|i: int| 0 <= i < actions.len() && (#[trigger] actions[i]).calls_identity_provider()
}

/// One of `events` is a genuine callback.
pub open spec fn holds_genuine_callback(events: Seq<LoginEventView>) -> bool {
    exists|j: int|
        0 <= j < events.len() && (#[trigger] events[j] matches LoginEventView::CallbackReceived {
            query,
            session,
        } && callback_is_genuine(query, session))
}

proof fn lemma_identity_provider_is_reached_only_if_vouched(
    config: LoginConfigView,
    state: LoginStateView,
    events: Seq<LoginEventView>,
)
    requires
        reaches_identity_provider(actions_taken(config, state, events)),
    ensures
        state is ExchangingCode || state is Authenticating || (state is AwaitingCallback
            && holds_genuine_callback(events)),
    decreases events.len(),
{
    let actions = actions_taken(config, state, events);
    let i = choose|i: int| 0 <= i < actions.len() && (#[trigger] actions[i]).calls_identity_provider();
    assert(events.len() > 0);
    let rest = events.drop_first();
    match login_transition(config, state, events[0]) {
        None => {
            lemma_identity_provider_is_reached_only_if_vouched(config, state, rest);
            if state is AwaitingCallback {
                let j = choose|j: int|
                    0 <= j < rest.len() && (#[trigger] rest[j] matches LoginEventView::CallbackReceived {
                        query,
                        session,
                    } && callback_is_genuine(query, session));
                assert(events[j + 1] == rest[j]);
            }
        },
        Some((next, action)) => {
            let later = actions_taken(config, next, rest);
            assert(actions == seq![action] + later);
            if i == 0 {
                assert(actions[0] == action);
                if state is AwaitingCallback {
                    assert(events[0] is CallbackReceived);
                }
            } else {
                assert(later[i - 1] == actions[i]);
                lemma_identity_provider_is_reached_only_if_vouched(config, next, rest);
                if state is AwaitingCallback {
                    assert(events[0] is CallbackReceived);
                }
            }
        },
    }
}

/// Whatever happens to a login that waits for its callback, and in whatever
/// order: the identity provider is reached only if a genuine callback is
/// among the events.
pub proof fn law_identity_provider_is_reached_only_after_genuine_callback(
    config: LoginConfigView,
    events: Seq<LoginEventView>,
)
    requires
        reaches_identity_provider(
            actions_taken(config, LoginStateView::AwaitingCallback, events),
        ),
    ensures
        holds_genuine_callback(events),
{
    lemma_identity_provider_is_reached_only_if_vouched(
        config,
        LoginStateView::AwaitingCallback,
        events,
    );
}

/// A finished login takes no action, whatever happens to it.
pub proof fn law_finished_login_takes_no_action(
    config: LoginConfigView,
    state: LoginStateView,
    events: Seq<LoginEventView>,
)
    requires
        state.is_terminal(),
    ensures
        actions_taken(config, state, events) == Seq::<LoginActionView>::empty(),
    decreases events.len(),
{
    if events.len() > 0 {
        law_finished_login_takes_no_action(config, state, events.drop_first());
    }
}

/// A callback that is not genuine is answered with 400, and that is all
/// that the login ever does: whatever follows, no code is exchanged and no
/// bearer authenticated.
pub proof fn law_refused_callback_ends_the_login(
    config: LoginConfigView,
    query: AuthzRespView,
    session: LoginSessionView,
    later: Seq<LoginEventView>,
)
    requires
        !callback_is_genuine(query, session),
    ensures
        ({
            let events = seq![LoginEventView::CallbackReceived { query, session }] + later;
            let actions = actions_taken(config, LoginStateView::AwaitingCallback, events);
            &&& actions == seq![
                LoginActionView::Respond {
                    reply: ReplyView::Failure {
                        kind: callback_fault(query, session),
                        message: Seq::empty(),
                    },
                },
            ]
            &&& actions[0]->reply.status() == StatusCode::BadRequest
            &&& !reaches_identity_provider(actions)
        }),
{
    let events = seq![LoginEventView::CallbackReceived { query, session }] + later;
    assert(events.drop_first() =~= later);
    law_finished_login_takes_no_action(config, LoginStateView::Rejected, later);
    let actions = actions_taken(config, LoginStateView::AwaitingCallback, events);
    assert(actions =~= seq![
        LoginActionView::Respond {
            reply: ReplyView::Failure {
                kind: callback_fault(query, session),
                message: Seq::empty(),
            },
        },
    ]);
}

} // verus!
