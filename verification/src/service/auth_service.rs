use vstd::prelude::*;
use vstd::string::*;
use crate::db::user::{
    lemma_upserted_knows, lemma_upserted_wf,
    law_upsert_twice_leaves_one_row, UpsertUser, UpsertUserView, User, UserTableView, UserView,
};
use crate::service::allow_list::{email_is_allowed, is_allowed};
use crate::service::error::{AuthError, AuthErrorView, ErrorKind, VarError, VarErrorView};
use crate::text::clone_strings;
use crate::service::identity_provider::{
    authorization_url_text, is_base64url_token, is_pkce_code_verifier, random_csrf_token,
    HttpRequest, HttpRequestView, Method, OAuthClient, OAuthClientView,
};

verus! {

/// The scope the backend asks for when it calls the user-info endpoint.
pub const USER_READ_SCOPE: &'static str = "User.Read";

/// The scope that lets a client obtain refresh tokens.
pub const OFFLINE_ACCESS_SCOPE: &'static str = "offline_access";

/// The scope that stands for access to this application.
pub const ACCESS_SCOPE: &'static str = "api://jostrid-api/Jostrid.Access";

/// One audience, or several: the two shapes of the `aud` claim.
#[derive(Debug)]
pub enum OneOrArray {
    One(String),
    Array(Vec<String>),
}

impl OneOrArray {
    /// The audiences named, in order.
    pub open spec fn audiences(&self) -> Seq<Seq<char>> {
        match self {
            OneOrArray::One(a) => seq![a@],
            OneOrArray::Array(all) => all.deep_view(),
        }
    }
}

impl Clone for OneOrArray {
    fn clone(&self) -> (copy: Self)
        ensures
            copy.audiences() == self.audiences(),
    {
        match self {
            OneOrArray::One(audience) => OneOrArray::One(audience.clone()),
            OneOrArray::Array(all) => OneOrArray::Array(clone_strings(all)),
        }
    }
}

/// The claims of an access token that this backend reads.
#[derive(Debug)]
pub struct MicrosoftClaims {
    pub scp: Option<String>,
    pub iss: Option<String>,
    pub aud: Option<OneOrArray>,
    pub preferred_username: String,
}

/// Mathematical value of [`MicrosoftClaims`].
pub struct MicrosoftClaimsView {
    pub scp: Option<Seq<char>>,
    pub iss: Option<Seq<char>>,
    /// The audiences named, in order; `None` where the claim is absent.
    pub aud: Option<Seq<Seq<char>>>,
    pub preferred_username: Seq<char>,
}

impl View for MicrosoftClaims {
    type V = MicrosoftClaimsView;

    open spec fn view(&self) -> MicrosoftClaimsView {
        MicrosoftClaimsView {
            scp: self.scp.deep_view(),
            iss: self.iss.deep_view(),
            aud: match self.aud {
                Some(aud) => Some(aud.audiences()),
                None => None,
            },
            preferred_username: self.preferred_username@,
        }
    }
}

impl Clone for MicrosoftClaims {
    fn clone(&self) -> (copy: Self)
        ensures
            copy@ == self@,
    {
        MicrosoftClaims {
            scp: self.scp.clone(),
            iss: self.iss.clone(),
            aud: match &self.aud {
                Some(aud) => Some(aud.clone()),
                None => None,
            },
            preferred_username: self.preferred_username.clone(),
        }
    }
}

/// What a callback hands to the code exchange.
#[derive(Debug)]
pub struct Credentials {
    pub code: String,
    pub pkce_code_verifier: String,
}

/// Mathematical value of [`Credentials`].
pub struct CredentialsView {
    pub code: Seq<char>,
    pub pkce_code_verifier: Seq<char>,
}

impl View for Credentials {
    type V = CredentialsView;

    open spec fn view(&self) -> CredentialsView {
        CredentialsView { code: self.code@, pkce_code_verifier: self.pkce_code_verifier@ }
    }
}

impl Clone for Credentials {
    fn clone(&self) -> (copy: Self)
        ensures
            copy@ == self@,
    {
        Self { code: self.code.clone(), pkce_code_verifier: self.pkce_code_verifier.clone() }
    }
}

/// What the identity provider's user-info endpoint says of the signed-in person.
#[derive(Debug)]
pub struct UserInfo {
    pub id: String,
    pub display_name: String,
    pub mail: String,
}

/// Mathematical value of a [`UserInfo`].
pub struct UserInfoView {
    pub id: Seq<char>,
    pub display_name: Seq<char>,
    pub mail: Seq<char>,
}

impl View for UserInfo {
    type V = UserInfoView;

    open spec fn view(&self) -> UserInfoView {
        UserInfoView { id: self.id@, display_name: self.display_name@, mail: self.mail@ }
    }
}

impl Clone for UserInfo {
    fn clone(&self) -> (copy: Self)
        ensures
            copy@ == self@,
    {
        UserInfo {
            id: self.id.clone(),
            display_name: self.display_name.clone(),
            mail: self.mail.clone(),
        }
    }
}

/// The token endpoint's answer to an on-behalf-of exchange.
#[derive(Debug)]
pub struct OnBehalfOfResponse {
    pub token_type: String,
    pub scope: String,
    pub expires_in: i64,
    pub ext_expires_in: i64,
    pub access_token: String,
}

/// Mathematical value of an [`OnBehalfOfResponse`].
pub struct OnBehalfOfResponseView {
    pub token_type: Seq<char>,
    pub scope: Seq<char>,
    pub expires_in: int,
    pub ext_expires_in: int,
    pub access_token: Seq<char>,
}

impl View for OnBehalfOfResponse {
    type V = OnBehalfOfResponseView;

    open spec fn view(&self) -> OnBehalfOfResponseView {
        OnBehalfOfResponseView {
            token_type: self.token_type@,
            scope: self.scope@,
            expires_in: self.expires_in as int,
            ext_expires_in: self.ext_expires_in as int,
            access_token: self.access_token@,
        }
    }
}

impl Default for OnBehalfOfResponse {
    fn default() -> (empty: Self)
        ensures
            empty@ == (OnBehalfOfResponseView {
                token_type: Seq::empty(),
                scope: Seq::empty(),
                expires_in: 0,
                ext_expires_in: 0,
                access_token: Seq::empty(),
            }),
    {
        OnBehalfOfResponse {
            token_type: String::new(),
            scope: String::new(),
            expires_in: 0,
            ext_expires_in: 0,
            access_token: String::new(),
        }
    }
}

impl Clone for OnBehalfOfResponse {
    fn clone(&self) -> (copy: Self)
        ensures
            copy@ == self@,
    {
        OnBehalfOfResponse {
            token_type: self.token_type.clone(),
            scope: self.scope.clone(),
            expires_in: self.expires_in,
            ext_expires_in: self.ext_expires_in,
            access_token: self.access_token.clone(),
        }
    }
}

/// The token endpoint's answer to an authorization-code or refresh-token grant.
#[derive(Debug)]
pub struct TokenResponse {
    pub access_token: String,
    pub token_type: String,
    /// Lifetime in seconds, where the issuer named one.
    pub expires_in: Option<u64>,
    pub refresh_token: Option<String>,
}

/// Mathematical value of a [`TokenResponse`].
pub struct TokenResponseView {
    pub access_token: Seq<char>,
    pub token_type: Seq<char>,
    pub expires_in: Option<nat>,
    pub refresh_token: Option<Seq<char>>,
}

impl View for TokenResponse {
    type V = TokenResponseView;

    open spec fn view(&self) -> TokenResponseView {
        TokenResponseView {
            access_token: self.access_token@,
            token_type: self.token_type@,
            expires_in: match self.expires_in {
                Some(secs) => Some(secs as nat),
                None => None,
            },
            refresh_token: self.refresh_token.deep_view(),
        }
    }
}

impl Clone for TokenResponse {
    fn clone(&self) -> (copy: Self)
        ensures
            copy@ == self@,
    {
        TokenResponse {
            access_token: self.access_token.clone(),
            token_type: self.token_type.clone(),
            expires_in: self.expires_in,
            refresh_token: self.refresh_token.clone(),
        }
    }
}

/// The grant type of an on-behalf-of exchange.
pub const JWT_BEARER_GRANT: &'static str = "urn:ietf:params:oauth:grant-type:jwt-bearer";

/// The identity provider's user-info endpoint.
pub const USER_INFO_URL: &'static str = "https://graph.microsoft.com/v1.0/me";

/// The scopes a login asks for, in the order they are asked for.
pub open spec fn login_scopes() -> Seq<Seq<char>> {
    seq![USER_READ_SCOPE@, OFFLINE_ACCESS_SCOPE@, ACCESS_SCOPE@]
}

/// An authorization-code grant, ready for the token endpoint.
#[derive(Debug)]
pub struct CodeGrant {
    pub code: String,
    pub pkce_code_verifier: String,
    /// Parameters added to the standard ones, in order.
    pub extra_params: Vec<(String, String)>,
}

/// Mathematical value of a [`CodeGrant`].
pub struct CodeGrantView {
    pub code: Seq<char>,
    pub pkce_code_verifier: Seq<char>,
    pub extra_params: Seq<(Seq<char>, Seq<char>)>,
}

impl View for CodeGrant {
    type V = CodeGrantView;

    open spec fn view(&self) -> CodeGrantView {
        CodeGrantView {
            code: self.code@,
            pkce_code_verifier: self.pkce_code_verifier@,
            extra_params: self.extra_params.deep_view(),
        }
    }
}

/// A refresh-token grant, ready for the token endpoint.
#[derive(Debug)]
pub struct RefreshGrant {
    pub refresh_token: String,
    pub scopes: Vec<String>,
}

/// Mathematical value of a [`RefreshGrant`].
pub struct RefreshGrantView {
    pub refresh_token: Seq<char>,
    pub scopes: Seq<Seq<char>>,
}

impl View for RefreshGrant {
    type V = RefreshGrantView;

    open spec fn view(&self) -> RefreshGrantView {
        RefreshGrantView { refresh_token: self.refresh_token@, scopes: self.scopes.deep_view() }
    }
}

/// The form of an on-behalf-of exchange: the backend trades the token that
/// the user delegated (`assertion`) for one of scope `scope`.
pub open spec fn on_behalf_of_form(
    client_id: Seq<char>,
    client_secret: Seq<char>,
    assertion: Seq<char>,
    scope: Seq<char>,
) -> Seq<(Seq<char>, Seq<char>)> {
    seq![
        ("grant_type"@, JWT_BEARER_GRANT@),
        ("client_id"@, client_id),
        ("client_secret"@, client_secret),
        ("assertion"@, assertion),
        ("scope"@, scope),
        ("requested_token_use"@, "on_behalf_of"@),
    ]
}

/// The request that asks the user-info endpoint who bears `access_token`.
pub open spec fn user_info_request_view(access_token: Seq<char>) -> HttpRequestView {
    HttpRequestView {
        method: Method::Get,
        url: USER_INFO_URL@,
        headers: seq![
            ("user-agent"@, "axum-login"@),
            ("authorization"@, "Bearer "@ + access_token),
        ],
        form: Seq::empty(),
    }
}

/// Builds the request to the user-info endpoint, authorized by the token of
/// an on-behalf-of exchange.
pub fn user_info_request(token: &OnBehalfOfResponse) -> (request: HttpRequest)
    ensures
        request@ == user_info_request_view(token@.access_token),
{
    let mut bearer = "Bearer ".to_string();
    bearer.append(token.access_token.as_str());
    let mut headers: Vec<(String, String)> = Vec::new();
    headers.push(("user-agent".to_string(), "axum-login".to_string()));
    headers.push(("authorization".to_string(), bearer));
    let request = HttpRequest {
        method: Method::Get,
        url: USER_INFO_URL.to_string(),
        headers,
        form: Vec::new(),
    };
    assert(request.headers.deep_view() =~= user_info_request_view(token@.access_token).headers);
    assert(request.form.deep_view() =~= Seq::<(Seq<char>, Seq<char>)>::empty());
    request
}

/// The user record that an identity gives rise to.
pub open spec fn upsert_of(info: UserInfoView) -> UpsertUserView {
    UpsertUserView { microsoft_id: info.id, name: info.display_name, email: info.mail }
}

/// Where an authentication stands.
#[derive(Debug)]
pub enum AuthState {
    /// Nothing has happened yet.
    Idle,
    /// The on-behalf-of exchange is under way.
    AcquiringToken { allowed_emails: String },
    /// The user-info endpoint has been asked.
    FetchingUserInfo { allowed_emails: String },
    /// The user record is being written.
    UpsertingUser,
    /// The authentication is over, one way or the other.
    Finished,
}

/// Mathematical value of an [`AuthState`].
pub enum AuthStateView {
    Idle,
    AcquiringToken { allowed_emails: Seq<char> },
    FetchingUserInfo { allowed_emails: Seq<char> },
    UpsertingUser,
    Finished,
}

impl View for AuthState {
    type V = AuthStateView;

    open spec fn view(&self) -> AuthStateView {
        match self {
            AuthState::Idle => AuthStateView::Idle,
            AuthState::AcquiringToken { allowed_emails } => AuthStateView::AcquiringToken {
                allowed_emails: allowed_emails@,
            },
            AuthState::FetchingUserInfo { allowed_emails } => AuthStateView::FetchingUserInfo {
                allowed_emails: allowed_emails@,
            },
            AuthState::UpsertingUser => AuthStateView::UpsertingUser,
            AuthState::Finished => AuthStateView::Finished,
        }
    }
}

/// What happened outside, told to the authentication. A failure of a
/// collaborator comes with the collaborator's message.
#[derive(Debug)]
pub enum AuthEvent {
    /// An access token is to be authenticated; `allowed_emails` is the
    /// configured allow-list, or why there is none.
    Begun { allowed_emails: Result<String, VarError>, access_token: String },
    /// The on-behalf-of exchange ended.
    TokenAcquired { token: Result<OnBehalfOfResponse, String> },
    /// The user-info endpoint answered, or failed to.
    UserInfoFetched { user_info: Result<UserInfo, String> },
    /// The user store answered, or failed to.
    UserUpserted { user: Result<User, String> },
}

/// Mathematical value of an [`AuthEvent`].
pub enum AuthEventView {
    Begun { allowed_emails: Result<Seq<char>, VarErrorView>, access_token: Seq<char> },
    TokenAcquired { token: Result<OnBehalfOfResponseView, Seq<char>> },
    UserInfoFetched { user_info: Result<UserInfoView, Seq<char>> },
    UserUpserted { user: Result<UserView, Seq<char>> },
}

impl View for AuthEvent {
    type V = AuthEventView;

    open spec fn view(&self) -> AuthEventView {
        match self {
            AuthEvent::Begun { allowed_emails, access_token } => AuthEventView::Begun {
                allowed_emails: match allowed_emails {
                    Ok(list) => Ok(list@),
                    Err(e) => Err(e@),
                },
                access_token: access_token@,
            },
            AuthEvent::TokenAcquired { token } => AuthEventView::TokenAcquired {
                token: match token {
                    Ok(token) => Ok(token@),
                    Err(message) => Err(message@),
                },
            },
            AuthEvent::UserInfoFetched { user_info } => AuthEventView::UserInfoFetched {
                user_info: match user_info {
                    Ok(info) => Ok(info@),
                    Err(message) => Err(message@),
                },
            },
            AuthEvent::UserUpserted { user } => AuthEventView::UserUpserted {
                user: match user {
                    Ok(user) => Ok(user@),
                    Err(message) => Err(message@),
                },
            },
        }
    }
}

/// What the caller is to do next.
#[derive(Debug)]
pub enum AuthAction {
    /// Send this on-behalf-of exchange to the token endpoint.
    AcquireToken { request: HttpRequest },
    /// Send this request to the user-info endpoint.
    FetchUserInfo { info_request: HttpRequest },
    /// Write this record to the user store.
    UpsertUser { record: UpsertUser },
    /// Stop: this is the result.
    Finish { outcome: Result<User, AuthError> },
}

/// Mathematical value of an [`AuthAction`].
pub enum AuthActionView {
    AcquireToken { request: HttpRequestView },
    FetchUserInfo { info_request: HttpRequestView },
    UpsertUser { record: UpsertUserView },
    Finish { outcome: Result<UserView, AuthErrorView> },
}

impl View for AuthAction {
    type V = AuthActionView;

    open spec fn view(&self) -> AuthActionView {
        match self {
            AuthAction::AcquireToken { request } => AuthActionView::AcquireToken {
                request: request@,
            },
            AuthAction::FetchUserInfo { info_request } => AuthActionView::FetchUserInfo {
                info_request: info_request@,
            },
            AuthAction::UpsertUser { record } => AuthActionView::UpsertUser { record: record@ },
            AuthAction::Finish { outcome } => AuthActionView::Finish {
                outcome: match outcome {
                    Ok(user) => Ok(user@),
                    Err(e) => Err(e@),
                },
            },
        }
    }
}

/// The end of an authentication that failed.
pub open spec fn failed(error: AuthErrorView) -> (AuthStateView, AuthActionView) {
    (AuthStateView::Finished, AuthActionView::Finish { outcome: Err(error) })
}

/// The on-behalf-of exchange of `client`: the request to its token endpoint,
/// or the configuration error where the client has no secret.
pub open spec fn acquire_token_view(
    client: OAuthClientView,
    access_token: Seq<char>,
    scope: Seq<char>,
) -> Result<HttpRequestView, AuthErrorView> {
    match client.client_secret {
        Some(secret) => Ok(
            HttpRequestView {
                method: Method::Post,
                url: client.token_url,
                headers: Seq::empty(),
                form: on_behalf_of_form(client.client_id, secret, access_token, scope),
            },
        ),
        None => Err(AuthErrorView::Var(VarErrorView::NotPresent)),
    }
}

/// An authentication, step by step: the state and the action that follow
/// from `state` and `event`, or `None` where `event` is not one that `state`
/// waits for.
pub open spec fn authenticate_transition(
    client: OAuthClientView,
    state: AuthStateView,
    event: AuthEventView,
) -> Option<(AuthStateView, AuthActionView)> {
    match (state, event) {
        (AuthStateView::Idle, AuthEventView::Begun { allowed_emails, access_token }) => Some(
            match allowed_emails {
                Err(e) => failed(AuthErrorView::Var(e)),
                Ok(list) => match acquire_token_view(client, access_token, USER_READ_SCOPE@) {
                    Err(e) => failed(e),
                    Ok(request) => (
                        AuthStateView::AcquiringToken { allowed_emails: list },
                        AuthActionView::AcquireToken { request },
                    ),
                },
            },
        ),
        (
            AuthStateView::AcquiringToken { allowed_emails },
            AuthEventView::TokenAcquired { token },
        ) => Some(
            match token {
                Err(message) => failed(AuthErrorView::Reqwest(message)),
                Ok(token) => (
                    AuthStateView::FetchingUserInfo { allowed_emails },
                    AuthActionView::FetchUserInfo {
                        info_request: user_info_request_view(token.access_token),
                    },
                ),
            },
        ),
        (
            AuthStateView::FetchingUserInfo { allowed_emails },
            AuthEventView::UserInfoFetched { user_info },
        ) => Some(
            match user_info {
                Err(message) => failed(AuthErrorView::Reqwest(message)),
                Ok(info) => if email_is_allowed(allowed_emails, info.mail) {
                    (
                        AuthStateView::UpsertingUser,
                        AuthActionView::UpsertUser { record: upsert_of(info) },
                    )
                } else {
                    failed(AuthErrorView::ForbiddenEmail(info.mail))
                },
            },
        ),
        (AuthStateView::UpsertingUser, AuthEventView::UserUpserted { user }) => Some(
            match user {
                Err(message) => failed(AuthErrorView::Sqlx(message)),
                Ok(user) => (
                    AuthStateView::Finished,
                    AuthActionView::Finish { outcome: Ok(user) },
                ),
            },
        ),
        _ => None,
    }
}

/// Mathematical value of what [`AuthService::authenticate`] returns.
pub open spec fn auth_step_view(next: Option<(AuthState, AuthAction)>) -> Option<
    (AuthStateView, AuthActionView),
> {
    match next {
        Some((state, action)) => Some((state@, action@)),
        None => None,
    }
}

fn fail(error: AuthError) -> (next: (AuthState, AuthAction))
    ensures
        (next.0@, next.1@) == failed(error@),
{
    (AuthState::Finished, AuthAction::Finish { outcome: Err(error) })
}

/// Orchestrates the exchanges with the identity provider and decides who may
/// sign in. It sends nothing itself: it says what is to be sent, and judges
/// what came back.
#[derive(Debug)]
pub struct AuthService {
    client: OAuthClient,
}

impl View for AuthService {
    type V = OAuthClientView;

    closed spec fn view(&self) -> OAuthClientView {
        self.client@
    }
}

impl AuthService {
    pub fn new(client: OAuthClient) -> (service: Self)
        ensures
            service@ == client@,
    {
        Self { client }
    }

    /// The registration that this service acts for.
    pub fn client(&self) -> (client: &OAuthClient)
        ensures
            client@ == self@,
    {
        &self.client
    }

    /// Builds the authorization URL for a new login attempt, which asks for
    /// [`login_scopes`] and is bound to the holder of `pkce_code_verifier`,
    /// and draws the CSRF token that the URL carries as `state`: 22 letters
    /// that nobody can foretell.
    pub fn authorize_url(&self, pkce_code_verifier: &str) -> (issued: (String, String))
        requires
            is_pkce_code_verifier(pkce_code_verifier@),
        ensures
            is_base64url_token(issued.1@, 22),
            issued.0@ == authorization_url_text(
                self@.client_id,
                self@.auth_url,
                self@.redirect_url,
                login_scopes(),
                pkce_code_verifier@,
                issued.1@,
            ),
    {
        let csrf_token = random_csrf_token();
        let url = self.authorize_url_with(pkce_code_verifier, csrf_token.as_str());
        (url, csrf_token)
    }

    /// Builds the authorization URL for a login attempt whose CSRF token is
    /// `csrf_token`.
    pub fn authorize_url_with(&self, pkce_code_verifier: &str, csrf_token: &str) -> (url: String)
        requires
            is_pkce_code_verifier(pkce_code_verifier@),
        ensures
            url@ == authorization_url_text(
                self@.client_id,
                self@.auth_url,
                self@.redirect_url,
                login_scopes(),
                pkce_code_verifier@,
                csrf_token@,
            ),
    {
        let mut scopes: Vec<String> = Vec::new();
        scopes.push(USER_READ_SCOPE.to_string());
        scopes.push(OFFLINE_ACCESS_SCOPE.to_string());
        scopes.push(ACCESS_SCOPE.to_string());
        assert(scopes.deep_view() =~= login_scopes());
        self.client.authorization_url(&scopes, pkce_code_verifier, csrf_token)
    }

    /// Prepares the authorization-code grant: the code and the verifier of
    /// `creds`, with `scope` as an added parameter.
    pub fn exchange_code(&self, creds: Credentials, scope: String) -> (grant: CodeGrant)
        ensures
            grant@ == (CodeGrantView {
                code: creds@.code,
                pkce_code_verifier: creds@.pkce_code_verifier,
                extra_params: seq![("scope"@, scope@)],
            }),
    {
        let Credentials { code, pkce_code_verifier } = creds;
        let mut extra_params: Vec<(String, String)> = Vec::new();
        extra_params.push(("scope".to_string(), scope));
        assert(extra_params.deep_view() =~= seq![("scope"@, scope@)]);
        CodeGrant { code, pkce_code_verifier, extra_params }
    }

    /// Prepares the refresh-token grant, for the one scope `scope`.
    pub fn exchange_refresh_token(&self, refresh_token: &String, scope: String) -> (grant:
        RefreshGrant)
        ensures
            grant@ == (RefreshGrantView { refresh_token: refresh_token@, scopes: seq![scope@] }),
    {
        let mut scopes: Vec<String> = Vec::new();
        scopes.push(scope);
        assert(scopes.deep_view() =~= seq![scope@]);
        RefreshGrant { refresh_token: refresh_token.clone(), scopes }
    }

    /// Prepares the on-behalf-of exchange that trades `access_token` for a
    /// token of scope `scope`. It needs the client secret: without one, the
    /// outcome is a configuration error.
    pub fn acquire_token(&self, access_token: &str, scope: &str) -> (request: Result<
        HttpRequest,
        AuthError,
    >)
        ensures
            match request {
                Ok(request) => Ok(request@),
                Err(e) => Err(e@),
            } == acquire_token_view(self@, access_token@, scope@),
    {
        let client_secret = match self.client.client_secret() {
            Some(secret) => secret,
            None => {
                return Err(AuthError::Var(VarError::NotPresent));
            },
        };
        let mut form: Vec<(String, String)> = Vec::new();
        form.push(("grant_type".to_string(), JWT_BEARER_GRANT.to_string()));
        form.push(("client_id".to_string(), self.client.client_id().clone()));
        form.push(("client_secret".to_string(), client_secret.clone()));
        form.push(("assertion".to_string(), access_token.to_owned()));
        form.push(("scope".to_string(), scope.to_owned()));
        form.push(("requested_token_use".to_string(), "on_behalf_of".to_string()));
        let request = HttpRequest {
            method: Method::Post,
            url: self.client.token_url().clone(),
            headers: Vec::new(),
            form,
        };
        assert(request.form.deep_view() =~= on_behalf_of_form(
            self@.client_id,
            client_secret@,
            access_token@,
            scope@,
        ));
        assert(request.headers.deep_view() =~= Seq::<(Seq<char>, Seq<char>)>::empty());
        Ok(request)
    }

    /// Authenticates the bearer of an access token: one step of it.
    ///
    /// The caller begins with [`AuthState::Idle`] and [`AuthEvent::Begun`],
    /// does what each action says, and comes back with the outcome, until the
    /// action is [`AuthAction::Finish`]. Nothing is retried. An event that the
    /// state does not wait for changes nothing and yields `None`.
    pub fn authenticate(&self, state: AuthState, event: AuthEvent) -> (next: Option<
        (AuthState, AuthAction),
    >)
        ensures
            auth_step_view(next) == authenticate_transition(self@, state@, event@),
    {
        match state {
            AuthState::Idle => match event {
                AuthEvent::Begun { allowed_emails, access_token } => {
                    let allowed_emails = match allowed_emails {
                        Ok(list) => list,
                        Err(e) => {
                            return Some(fail(AuthError::Var(e)));
                        },
                    };
                    match self.acquire_token(access_token.as_str(), USER_READ_SCOPE) {
                        Ok(request) => Some(
                            (
                                AuthState::AcquiringToken { allowed_emails },
                                AuthAction::AcquireToken { request },
                            ),
                        ),
                        Err(e) => Some(fail(e)),
                    }
                },
                _ => None,
            },
            AuthState::AcquiringToken { allowed_emails } => match event {
                AuthEvent::TokenAcquired { token } => match token {
                    Ok(token) => Some(
                        (
                            AuthState::FetchingUserInfo { allowed_emails },
                            AuthAction::FetchUserInfo { info_request: user_info_request(&token) },
                        ),
                    ),
                    Err(message) => Some(fail(AuthError::Reqwest(message))),
                },
                _ => None,
            },
            AuthState::FetchingUserInfo { allowed_emails } => match event {
                AuthEvent::UserInfoFetched { user_info } => match user_info {
                    Ok(info) => {
                        if !is_allowed(allowed_emails.as_str(), info.mail.as_str()) {
                            return Some(fail(AuthError::ForbiddenEmail(info.mail)));
                        }
                        let record = UpsertUser {
                            microsoft_id: info.id,
                            name: info.display_name,
                            email: info.mail,
                        };
                        Some((AuthState::UpsertingUser, AuthAction::UpsertUser { record }))
                    },
                    Err(message) => Some(fail(AuthError::Reqwest(message))),
                },
                _ => None,
            },
            AuthState::UpsertingUser => match event {
                AuthEvent::UserUpserted { user } => match user {
                    Ok(user) => Some(
                        (AuthState::Finished, AuthAction::Finish { outcome: Ok(user) }),
                    ),
                    Err(message) => Some(fail(AuthError::Sqlx(message))),
                },
                _ => None,
            },
            _ => None,
        }
    }
}

impl AuthActionView {
    /// The action writes to the user store.
    pub open spec fn writes_user(self) -> bool {
        self is UpsertUser
    }

    /// The action sends something to the identity provider.
    pub open spec fn calls_identity_provider(self) -> bool {
        self is AcquireToken || self is FetchUserInfo
    }
}

/// An identity whose email is not on the allow-list is refused as forbidden,
/// by name, and the authentication ends there: nothing is written.
pub proof fn law_unlisted_email_is_forbidden(
    client: OAuthClientView,
    allowed_emails: Seq<char>,
    info: UserInfoView,
)
    requires
        !email_is_allowed(allowed_emails, info.mail),
    ensures
        authenticate_transition(
            client,
            AuthStateView::FetchingUserInfo { allowed_emails },
            AuthEventView::UserInfoFetched { user_info: Ok(info) },
        ) == Some(failed(AuthErrorView::ForbiddenEmail(info.mail))),
        !failed(AuthErrorView::ForbiddenEmail(info.mail)).1.writes_user(),
        AuthErrorView::ForbiddenEmail(info.mail).kind() == ErrorKind::ForbiddenEmail,
{
}

/// In every state and on every event: a user record is written only when the
/// user-info endpoint has just named an identity whose email is on the
/// allow-list, and the record is that identity's.
pub proof fn law_user_is_written_only_if_allowed(
    client: OAuthClientView,
    state: AuthStateView,
    event: AuthEventView,
)
    requires
        authenticate_transition(client, state, event) matches Some((_, action))
            && action.writes_user(),
    ensures
        state matches AuthStateView::FetchingUserInfo { allowed_emails }
            && event matches AuthEventView::UserInfoFetched { user_info: Ok(info) } && {
            &&& email_is_allowed(allowed_emails, info.mail)
            &&& authenticate_transition(client, state, event) == Some(
                (
                    AuthStateView::UpsertingUser,
                    AuthActionView::UpsertUser { record: upsert_of(info) },
                ),
            )
        },
{
}

/// A failed on-behalf-of exchange ends the authentication with an upstream
/// error that carries the failure's message: the user-info endpoint is not
/// asked, and nothing is written.
pub proof fn law_failed_token_exchange_is_upstream_error(
    client: OAuthClientView,
    allowed_emails: Seq<char>,
    message: Seq<char>,
)
    ensures
        authenticate_transition(
            client,
            AuthStateView::AcquiringToken { allowed_emails },
            AuthEventView::TokenAcquired { token: Err(message) },
        ) == Some(failed(AuthErrorView::Reqwest(message))),
        AuthErrorView::Reqwest(message).kind() == ErrorKind::UpstreamAuth,
        !failed(AuthErrorView::Reqwest(message)).1.writes_user(),
        !failed(AuthErrorView::Reqwest(message)).1.calls_identity_provider(),
{
}

/// Without an allow-list, or without a client secret, an authentication ends
/// with a configuration error before anything is sent.
pub proof fn law_missing_configuration_ends_before_any_call(
    client: OAuthClientView,
    allowed_emails: Result<Seq<char>, VarErrorView>,
    access_token: Seq<char>,
)
    requires
        allowed_emails is Err || client.client_secret is None,
    ensures
        authenticate_transition(
            client,
            AuthStateView::Idle,
            AuthEventView::Begun { allowed_emails, access_token },
        ) matches Some((next, action)) && {
            &&& next is Finished
            &&& action matches AuthActionView::Finish { outcome: Err(error) }
            &&& error.kind() == ErrorKind::Configuration
        },
{
}

/// A finished authentication stays finished: no event moves it, and no
/// action follows.
pub proof fn law_finished_is_final(client: OAuthClientView, event: AuthEventView)
    ensures
        authenticate_transition(client, AuthStateView::Finished, event) is None,
{
}

/// The actions that an authentication takes when `events` arrive in this
/// order, each told to the state that the one before it left. An event that
/// the state does not wait for is passed over.
pub open spec fn actions_taken(
    client: OAuthClientView,
    state: AuthStateView,
    events: Seq<AuthEventView>,
) -> Seq<AuthActionView>
    decreases events.len(),
{
    if events.len() == 0 {
        Seq::empty()
    } else {
        match authenticate_transition(client, state, events[0]) {
            Some((next, action)) => seq![action] + actions_taken(
                client,
                next,
                events.drop_first(),
            ),
            None => actions_taken(client, state, events.drop_first()),
        }
    }
}

/// Among `events`, the user-info endpoint names an identity whose email is
/// on the allow-list `allowed_emails` and whose record is `record`.
pub open spec fn names_allowed_identity(
    events: Seq<AuthEventView>,
    allowed_emails: Seq<char>,
    record: UpsertUserView,
) -> bool {
    exists|j: int|
        0 <= j < events.len() && (#[trigger] events[j] matches AuthEventView::UserInfoFetched {
            user_info: Ok(info),
        } && email_is_allowed(allowed_emails, info.mail) && record == upsert_of(info))
}

/// Among `events`, an authentication is begun with the allow-list
/// `allowed_emails`.
pub open spec fn begins_with_allow_list(events: Seq<AuthEventView>, allowed_emails: Seq<char>) -> bool {
    exists|k: int|
        0 <= k < events.len() && (#[trigger] events[k] matches AuthEventView::Begun {
            allowed_emails: Ok(list),
            ..
        } && list == allowed_emails)
}

/// The allow-list that `state` carries, if it carries one.
pub open spec fn allow_list_of(state: AuthStateView) -> Option<Seq<char>> {
    match state {
        AuthStateView::AcquiringToken { allowed_emails } => Some(allowed_emails),
        AuthStateView::FetchingUserInfo { allowed_emails } => Some(allowed_emails),
        _ => None,
    }
}

proof fn lemma_shift_allowed_identity(
    events: Seq<AuthEventView>,
    allowed_emails: Seq<char>,
    record: UpsertUserView,
)
    requires
        events.len() > 0,
        names_allowed_identity(events.drop_first(), allowed_emails, record),
    ensures
        names_allowed_identity(events, allowed_emails, record),
{
    let rest = events.drop_first();
    let j = choose|j: int|
        0 <= j < rest.len() && (#[trigger] rest[j] matches AuthEventView::UserInfoFetched {
            user_info: Ok(info),
        } && email_is_allowed(allowed_emails, info.mail) && record == upsert_of(info));
    assert(events[j + 1] == rest[j]);
}

proof fn lemma_shift_begin(events: Seq<AuthEventView>, allowed_emails: Seq<char>)
    requires
        events.len() > 0,
        begins_with_allow_list(events.drop_first(), allowed_emails),
    ensures
        begins_with_allow_list(events, allowed_emails),
{
    let rest = events.drop_first();
    let k = choose|k: int|
        0 <= k < rest.len() && (#[trigger] rest[k] matches AuthEventView::Begun {
            allowed_emails: Ok(list),
            ..
        } && list == allowed_emails);
    assert(events[k + 1] == rest[k]);
}

proof fn lemma_user_is_written_only_if_named(
    client: OAuthClientView,
    state: AuthStateView,
    events: Seq<AuthEventView>,
    i: int,
)
    requires
        0 <= i < actions_taken(client, state, events).len(),
        actions_taken(client, state, events)[i] is UpsertUser,
    ensures
        ({
            let record = actions_taken(client, state, events)[i]->record;
            match allow_list_of(state) {
                Some(list) => names_allowed_identity(events, list, record),
                None => state is Idle && exists|list: Seq<char>|
                    #[trigger] begins_with_allow_list(events, list) && names_allowed_identity(
                        events,
                        list,
                        record,
                    ),
            }
        }),
    decreases events.len(),
{
    let actions = actions_taken(client, state, events);
    let record = actions[i]->record;
    let rest = events.drop_first();
    match authenticate_transition(client, state, events[0]) {
        None => {
            lemma_user_is_written_only_if_named(client, state, rest, i);
            match allow_list_of(state) {
                Some(list) => {
                    lemma_shift_allowed_identity(events, list, record);
                },
                None => {
                    let list = choose|list: Seq<char>|
                        #[trigger] begins_with_allow_list(rest, list) && names_allowed_identity(
                            rest,
                            list,
                            record,
                        );
                    lemma_shift_begin(events, list);
                    lemma_shift_allowed_identity(events, list, record);
                },
            }
        },
        Some((next, action)) => {
            let later = actions_taken(client, next, rest);
            assert(actions == seq![action] + later);
            if i == 0 {
                assert(actions[0] == action);
                let list = allow_list_of(state)->0;
                assert(events[0] is UserInfoFetched);
                assert(names_allowed_identity(events, list, record));
            } else {
                assert(later[i - 1] == actions[i]);
                lemma_user_is_written_only_if_named(client, next, rest, i - 1);
                match allow_list_of(next) {
                    Some(list) => {
                        lemma_shift_allowed_identity(events, list, record);
                        if state is Idle {
                            assert(events[0] is Begun);
                            assert(begins_with_allow_list(events, list));
                        }
                    },
                    None => {},
                }
            }
        },
    }
}

/// Whatever happens to an authentication, and in whatever order: a user
/// record is written only if the authentication was begun with an allow-list
/// and the user-info endpoint named an identity whose email is on that list;
/// and the record is that identity's.
pub proof fn law_user_is_written_only_for_an_allowed_identity(
    client: OAuthClientView,
    events: Seq<AuthEventView>,
    i: int,
)
    requires
        0 <= i < actions_taken(client, AuthStateView::Idle, events).len(),
        actions_taken(client, AuthStateView::Idle, events)[i] is UpsertUser,
    ensures
        exists|list: Seq<char>|
            #[trigger] begins_with_allow_list(events, list) && names_allowed_identity(
                events,
                list,
                actions_taken(client, AuthStateView::Idle, events)[i]->record,
            ),
{
    lemma_user_is_written_only_if_named(client, AuthStateView::Idle, events, i);
}

/// The user table once `action` has been carried out on `table`: only the
/// writing of a user record changes it.
pub open spec fn table_after(table: UserTableView, action: AuthActionView) -> UserTableView {
    match action {
        AuthActionView::UpsertUser { record } => table.upserted(record),
        _ => table,
    }
}

/// An identity whose email is not on the allow-list leaves the user table as
/// it was: no row is added, and none is changed.
pub proof fn law_forbidden_identity_leaves_the_table(
    client: OAuthClientView,
    table: UserTableView,
    allowed_emails: Seq<char>,
    info: UserInfoView,
)
    requires
        !email_is_allowed(allowed_emails, info.mail),
    ensures
        authenticate_transition(
            client,
            AuthStateView::FetchingUserInfo { allowed_emails },
            AuthEventView::UserInfoFetched { user_info: Ok(info) },
        ) matches Some((_, action)) && table_after(table, action) == table,
{
}

/// An identity that authenticates twice, under whatever display names, has
/// one row in the user table afterwards: the second authentication adds
/// none, the row carries the name and email of the second, and its id is the
/// one that the first left.
pub proof fn law_authenticating_twice_leaves_one_row(
    client: OAuthClientView,
    table: UserTableView,
    allowed_emails: Seq<char>,
    first: UserInfoView,
    second: UserInfoView,
)
    requires
        table.wf(),
        first.id == second.id,
        email_is_allowed(allowed_emails, first.mail),
        email_is_allowed(allowed_emails, second.mail),
    ensures
        ({
            let state = AuthStateView::FetchingUserInfo { allowed_emails };
            let once = table_after(
                table,
                authenticate_transition(
                    client,
                    state,
                    AuthEventView::UserInfoFetched { user_info: Ok(first) },
                ).unwrap().1,
            );
            let twice = table_after(
                once,
                authenticate_transition(
                    client,
                    state,
                    AuthEventView::UserInfoFetched { user_info: Ok(second) },
                ).unwrap().1,
            );
            &&& twice.wf()
            &&& twice.count(first.id) == 1
            &&& twice.rows.len() == once.rows.len()
            &&& twice.rows[twice.index_of(first.id)].user.name == second.display_name
            &&& twice.rows[twice.index_of(first.id)].user.email == second.mail
            &&& twice.rows[twice.index_of(first.id)].user.id == once.rows[once.index_of(
                first.id,
            )].user.id
        }),
{
    let once = table.upserted(upsert_of(first));
    let twice = once.upserted(upsert_of(second));
    law_upsert_twice_leaves_one_row(table, upsert_of(first), upsert_of(second));
    lemma_upserted_wf(table, upsert_of(first));
    lemma_upserted_knows(table, upsert_of(first));
    lemma_upserted_knows(once, upsert_of(second));
    let at = once.index_of(first.id);
    assert(twice.index_of(first.id) == at);
    assert(twice.rows[at].user.name == second.display_name);
}

} // verus!
