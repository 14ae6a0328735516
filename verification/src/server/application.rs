use vstd::prelude::*;
use vstd::string::*;
use crate::api::auth::{LoginConfig, LoginConfigView, ResponseMode, SameSite, ACCESS_TOKEN_KEY};
use crate::api::util::StatusCode;
use crate::service::auth_service::{MicrosoftClaims, MicrosoftClaimsView, OneOrArray};
use crate::service::identity_provider::{Endpoint, OAuthClient, OAuthClientView};

verus! {

/// The identity provider's authorization endpoint.
pub const AUTH_URL: &'static str =
    "https://login.microsoftonline.com/consumers/oauth2/v2.0/authorize";

/// The identity provider's token endpoint.
pub const TOKEN_URL: &'static str = "https://login.microsoftonline.com/consumers/oauth2/v2.0/token";

/// Where the identity provider sends the browser back to.
pub const REDIRECT_URL: &'static str = "http://localhost:5173/oauth/callback";

/// The issuer whose published keys sign the access tokens.
pub const ISSUER_URL: &'static str =
    "https://login.microsoftonline.com/9188040d-6c67-4c5b-b112-36a304b66dad/v2.0";

/// The application id that access tokens must be issued for.
pub const APPLICATION_ID: &'static str = "5e7b7aaf-2267-4f88-bc37-29b4d1ff4d0e";

/// The `scp` claim that access tokens must carry.
pub const REQUIRED_SCOPE: &'static str = "Jostrid.Access";

/// Where a browser goes after a login, unless the deployment says otherwise:
/// the root of the application.
pub const DEFAULT_FRONTEND_URL: &'static str = "/";

/// The address the server listens on.
pub const LISTEN_ADDRESS: &'static str = "0.0.0.0:3000";

/// One day, in seconds.
pub const ONE_DAY_SECS: i64 = 86400;

/// How sessions are kept.
#[derive(Debug, Clone, Copy, PartialEq, Eq, Structural)]
pub struct SessionPolicy {
    /// Whether the session cookie is sent over TLS only.
    pub secure: bool,
    pub same_site: SameSite,
    /// A session that nobody has touched for so many seconds is dropped.
    pub inactivity_expiry_secs: i64,
}

/// Where a request carries its access token.
#[derive(Debug)]
pub enum TokenSource {
    /// In the `Authorization` header, as a bearer token.
    AuthorizationHeader,
    /// In the cookie of this name.
    Cookie { name: String },
}

/// Mathematical value of a [`TokenSource`].
pub enum TokenSourceView {
    AuthorizationHeader,
    Cookie { name: Seq<char> },
}

impl View for TokenSource {
    type V = TokenSourceView;

    open spec fn view(&self) -> TokenSourceView {
        match self {
            TokenSource::AuthorizationHeader => TokenSourceView::AuthorizationHeader,
            TokenSource::Cookie { name } => TokenSourceView::Cookie { name: name@ },
        }
    }
}

/// What a request must show to reach a protected route.
#[derive(Debug)]
pub struct AccessPolicy {
    /// The issuer whose keys the token must be signed with.
    pub issuer: String,
    /// The audience the token must name.
    pub audience: String,
    /// The scope the token must carry.
    pub scope: String,
    /// Where the token is read from.
    pub source: TokenSource,
}

/// Mathematical value of an [`AccessPolicy`].
pub struct AccessPolicyView {
    pub issuer: Seq<char>,
    pub audience: Seq<char>,
    pub scope: Seq<char>,
    pub source: TokenSourceView,
}

impl View for AccessPolicy {
    type V = AccessPolicyView;

    open spec fn view(&self) -> AccessPolicyView {
        AccessPolicyView {
            issuer: self.issuer@,
            audience: self.audience@,
            scope: self.scope@,
            source: self.source@,
        }
    }
}

impl AccessPolicyView {
    /// The claims name this policy's audience, and their scope is this
    /// policy's scope.
    pub open spec fn permits(self, claims: MicrosoftClaimsView) -> bool {
        &&& claims.aud matches Some(audiences) && audiences.contains(self.audience)
        &&& claims.scp == Some(self.scope)
    }
}

/// What was found where a request should carry its access token.
#[derive(Debug)]
pub enum Credential {
    /// Nothing.
    Missing,
    /// Something that is no token of the issuer: unreadable, or not signed
    /// with the issuer's keys.
    Malformed,
    /// A token of the issuer whose time is over.
    Expired,
    /// A token of the issuer, in date, with these claims.
    Verified { claims: MicrosoftClaims },
}

impl AccessPolicy {
    /// Whether `claims` name the audience of this policy.
    #[verifier::loop_isolation(false)]
    fn names_audience(&self, claims: &MicrosoftClaims) -> (named: bool)
        ensures
            named == (claims@.aud matches Some(audiences) && audiences.contains(self@.audience)),
    {
        match &claims.aud {
            None => false,
            Some(OneOrArray::One(audience)) => {
                let named = *audience == self.audience;
                assert(seq![audience@][0] == audience@);
                named
            },
            Some(OneOrArray::Array(audiences)) => {
                let mut i: usize = 0;
                while i < audiences.len()
                    invariant
                        i <= audiences.len(),
                        forall|k: int| 0 <= k < i ==> audiences.deep_view()[k] != self@.audience,
                    decreases audiences.len() - i,
                {
                    if audiences[i] == self.audience {
                        assert(audiences.deep_view()[i as int] == self@.audience);
                        return true;
                    }
                    i += 1;
                }
                false
            },
        }
    }

    /// Tells whether `claims` meet this policy: two comparisons, letter for
    /// letter.
    pub fn permits(&self, claims: &MicrosoftClaims) -> (permitted: bool)
        ensures
            permitted == self@.permits(claims@),
    {
        let scoped = match &claims.scp {
            Some(scp) => *scp == self.scope,
            None => false,
        };
        scoped && self.names_audience(claims)
    }

    /// Admits a request to a protected route, or turns it away with 401.
    /// Admitted are the verified tokens whose claims meet this policy; their
    /// claims are handed on to the route.
    pub fn authorize(&self, credential: Credential) -> (admitted: Result<MicrosoftClaims, StatusCode>)
        ensures
            match admitted {
                Ok(claims) => credential matches Credential::Verified { claims: shown }
                    && shown == claims && self@.permits(claims@),
                Err(status) => {
                    &&& status == StatusCode::Unauthorized
                    &&& credential matches Credential::Verified { claims } ==> !self@.permits(
                        claims@,
                    )
                },
            },
    {
        match credential {
            Credential::Verified { claims } => {
                if self.permits(&claims) {
                    Ok(claims)
                } else {
                    Err(StatusCode::Unauthorized)
                }
            },
            _ => Err(StatusCode::Unauthorized),
        }
    }
}

/// What the server is to be set up with.
#[derive(Debug)]
pub struct ServerPlan {
    pub listen_address: String,
    pub session: SessionPolicy,
    pub access: AccessPolicy,
}

/// The application: its registration with the identity provider, and how it
/// ends a login.
#[derive(Debug)]
pub struct App {
    pub oauth_client: OAuthClient,
    pub login: LoginConfig,
}

/// The client that [`App::new`] registers for these credentials.
pub open spec fn app_client(client_id: Seq<char>, client_secret: Seq<char>) -> OAuthClientView {
    OAuthClientView {
        client_id,
        client_secret: Some(client_secret),
        auth_url: AUTH_URL@,
        token_url: TOKEN_URL@,
        redirect_url: REDIRECT_URL@,
    }
}

/// Where a browser goes after a login: where the deployment says, else to
/// the root of the application.
pub open spec fn frontend_url_or_default(configured: Option<Seq<char>>) -> Seq<char> {
    match configured {
        Some(url) => url,
        None => DEFAULT_FRONTEND_URL@,
    }
}

impl App {
    /// Sets the application up with its client credentials and, where the
    /// deployment names one, the frontend URL. Fails where one of the identity
    /// provider's URLs does not parse, and names the first that does not.
    pub fn new(client_id: String, client_secret: String, frontend_url: Option<String>) -> (app:
        Result<App, Endpoint>)
        ensures
            match app {
                Ok(app) => {
                    &&& app.oauth_client@ == app_client(client_id@, client_secret@)
                    &&& app.oauth_client@.urls_are_valid()
                    &&& app.login@ == (LoginConfigView {
                        mode: ResponseMode::Redirect,
                        frontend_url: frontend_url_or_default(frontend_url.deep_view()),
                    })
                },
                Err(endpoint) => app_client(client_id@, client_secret@).first_invalid_url() == Some(
                    endpoint,
                ),
            },
    {
        let oauth_client = match OAuthClient::new(
            client_id,
            Some(client_secret),
            AUTH_URL.to_string(),
            TOKEN_URL.to_string(),
            REDIRECT_URL.to_string(),
        ) {
            Ok(client) => client,
            Err(endpoint) => {
                return Err(endpoint);
            },
        };
        let frontend_url = match frontend_url {
            Some(url) => url,
            None => DEFAULT_FRONTEND_URL.to_string(),
        };
        Ok(App { oauth_client, login: LoginConfig { mode: ResponseMode::Redirect, frontend_url } })
    }

    /// How the server is to be set up: where it listens, how it keeps
    /// sessions (for a day without use, in a cookie that follows top-level
    /// navigation from other sites, as the return from the identity provider
    /// is one), and what it asks of a request to a protected route.
    pub fn serve(&self) -> (plan: ServerPlan)
        ensures
            plan.listen_address@ == LISTEN_ADDRESS@,
            plan.session == (SessionPolicy {
                secure: false,
                same_site: SameSite::Lax,
                inactivity_expiry_secs: 86400,
            }),
            plan.access@ == (AccessPolicyView {
                issuer: ISSUER_URL@,
                audience: APPLICATION_ID@,
                scope: REQUIRED_SCOPE@,
                source: TokenSourceView::Cookie { name: ACCESS_TOKEN_KEY@ },
            }),
    {
        ServerPlan {
            listen_address: LISTEN_ADDRESS.to_string(),
            session: SessionPolicy {
                secure: false,
                same_site: SameSite::Lax,
                inactivity_expiry_secs: ONE_DAY_SECS,
            },
            access: AccessPolicy {
                issuer: ISSUER_URL.to_string(),
                audience: APPLICATION_ID.to_string(),
                scope: REQUIRED_SCOPE.to_string(),
                source: TokenSource::Cookie { name: ACCESS_TOKEN_KEY.to_string() },
            },
        }
    }
}

} // verus!
