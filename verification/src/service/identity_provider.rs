use vstd::prelude::*;
use vstd::string::*;
use crate::text::chars_of;
use oauth2::basic::BasicClient;
use oauth2::url::Url;
use oauth2::{
    AuthUrl, ClientId, CsrfToken, PkceCodeChallenge, PkceCodeVerifier, RedirectUrl, Scope,
};

verus! {

/// How a request is sent.
#[derive(Debug, Clone, Copy, PartialEq, Eq, Structural)]
pub enum Method {
    Get,
    Post,
}

/// A request for the identity provider, as plain values: the handler sends
/// it. `form` is the URL-encoded body of a POST.
#[derive(Debug)]
pub struct HttpRequest {
    pub method: Method,
    pub url: String,
    pub headers: Vec<(String, String)>,
    pub form: Vec<(String, String)>,
}

/// Mathematical value of an [`HttpRequest`].
pub struct HttpRequestView {
    pub method: Method,
    pub url: Seq<char>,
    pub headers: Seq<(Seq<char>, Seq<char>)>,
    pub form: Seq<(Seq<char>, Seq<char>)>,
}

impl View for HttpRequest {
    type V = HttpRequestView;

    open spec fn view(&self) -> HttpRequestView {
        HttpRequestView {
            method: self.method,
            url: self.url@,
            headers: self.headers.deep_view(),
            form: self.form.deep_view(),
        }
    }
}

/// Which of a client's URLs is meant.
#[derive(Debug, Clone, Copy, PartialEq, Eq, Structural)]
pub enum Endpoint {
    Authorization,
    Token,
    Redirect,
}

/// The registration of this backend with the identity provider. Its three
/// URLs parse: [`OAuthClient::new`] sees to that.
#[derive(Debug)]
pub struct OAuthClient {
    client_id: String,
    client_secret: Option<String>,
    auth_url: String,
    token_url: String,
    redirect_url: String,
}

/// Mathematical value of an [`OAuthClient`].
pub struct OAuthClientView {
    pub client_id: Seq<char>,
    pub client_secret: Option<Seq<char>>,
    pub auth_url: Seq<char>,
    pub token_url: Seq<char>,
    pub redirect_url: Seq<char>,
}

impl OAuthClientView {
    pub open spec fn urls_are_valid(self) -> bool {
        &&& url_is_valid(self.auth_url)
        &&& url_is_valid(self.token_url)
        &&& url_is_valid(self.redirect_url)
    }

    /// The first of the three URLs that does not parse.
    pub open spec fn first_invalid_url(self) -> Option<Endpoint> {
        if !url_is_valid(self.auth_url) {
            Some(Endpoint::Authorization)
        } else if !url_is_valid(self.token_url) {
            Some(Endpoint::Token)
        } else if !url_is_valid(self.redirect_url) {
            Some(Endpoint::Redirect)
        } else {
            None
        }
    }
}

impl View for OAuthClient {
    type V = OAuthClientView;

    closed spec fn view(&self) -> OAuthClientView {
        OAuthClientView {
            client_id: self.client_id@,
            client_secret: self.client_secret.deep_view(),
            auth_url: self.auth_url@,
            token_url: self.token_url@,
            redirect_url: self.redirect_url@,
        }
    }
}

impl OAuthClient {
    #[verifier::type_invariant]
    spec fn well_formed(self) -> bool {
        self@.urls_are_valid()
    }

    /// Registers a client, unless one of the URLs does not parse: then the
    /// error names the first that does not.
    pub fn new(
        client_id: String,
        client_secret: Option<String>,
        auth_url: String,
        token_url: String,
        redirect_url: String,
    ) -> (client: Result<OAuthClient, Endpoint>)
        ensures
            match client {
                Ok(client) => {
                    &&& client@ == (OAuthClientView {
                        client_id: client_id@,
                        client_secret: client_secret.deep_view(),
                        auth_url: auth_url@,
                        token_url: token_url@,
                        redirect_url: redirect_url@,
                    })
                    &&& client@.urls_are_valid()
                },
                Err(endpoint) => (OAuthClientView {
                    client_id: client_id@,
                    client_secret: client_secret.deep_view(),
                    auth_url: auth_url@,
                    token_url: token_url@,
                    redirect_url: redirect_url@,
                }).first_invalid_url() == Some(endpoint),
            },
    {
        if !parses_as_url(auth_url.as_str()) {
            return Err(Endpoint::Authorization);
        }
        if !parses_as_url(token_url.as_str()) {
            return Err(Endpoint::Token);
        }
        if !parses_as_url(redirect_url.as_str()) {
            return Err(Endpoint::Redirect);
        }
        Ok(OAuthClient { client_id, client_secret, auth_url, token_url, redirect_url })
    }

    pub fn client_id(&self) -> (id: &String)
        ensures
            id@ == self@.client_id,
    {
        &self.client_id
    }

    pub fn client_secret(&self) -> (secret: &Option<String>)
        ensures
            secret.deep_view() == self@.client_secret,
    {
        &self.client_secret
    }

    pub fn auth_url(&self) -> (url: &String)
        ensures
            url@ == self@.auth_url,
            url_is_valid(url@),
    {
        proof {
            use_type_invariant(self);
        }
        &self.auth_url
    }

    pub fn redirect_url(&self) -> (url: &String)
        ensures
            url@ == self@.redirect_url,
            url_is_valid(url@),
    {
        proof {
            use_type_invariant(self);
        }
        &self.redirect_url
    }

    pub fn token_url(&self) -> (url: &String)
        ensures
            url@ == self@.token_url,
            url_is_valid(url@),
    {
        proof {
            use_type_invariant(self);
        }
        &self.token_url
    }

    /// The authorization URL for one login attempt: it asks for `scopes`,
    /// carries `state`, and binds the attempt to the holder of
    /// `pkce_code_verifier`.
    pub fn authorization_url(&self, scopes: &Vec<String>, pkce_code_verifier: &str, state: &str) -> (url: String)
        requires
            is_pkce_code_verifier(pkce_code_verifier@),
        ensures
            url@ == authorization_url_text(
                self@.client_id,
                self@.auth_url,
                self@.redirect_url,
                scopes.deep_view(),
                pkce_code_verifier@,
                state@,
            ),
    {
        proof {
            use_type_invariant(self);
        }
        build_authorization_url(
            self.client_id.as_str(),
            self.auth_url.as_str(),
            self.redirect_url.as_str(),
            scopes,
            pkce_code_verifier,
            state,
        )
    }
}

/// Whether `text` parses as an absolute URL. Stands for the verdict of
/// `url::Url::parse`, which is a matter of the text alone.
pub uninterp spec fn url_is_valid(text: Seq<char>) -> bool;

/// The text of the authorization URL that the OAuth2 client builds for a
/// client id, the two endpoint URLs, the scopes asked for, the PKCE verifier
/// (whose SHA-256 challenge goes into the URL) and the `state`. Stands for
/// what `oauth2::AuthorizationRequest::url` returns.
pub uninterp spec fn authorization_url_text(
    client_id: Seq<char>,
    auth_url: Seq<char>,
    redirect_url: Seq<char>,
    scopes: Seq<Seq<char>>,
    pkce_code_verifier: Seq<char>,
    state: Seq<char>,
) -> Seq<char>;

/// A letter of the URL-safe base64 alphabet.
pub open spec fn is_base64url_char(c: char) -> bool {
    ||| 'A' <= c <= 'Z'
    ||| 'a' <= c <= 'z'
    ||| '0' <= c <= '9'
    ||| c == '-'
    ||| c == '_'
}

/// `text` is `len` letters of the URL-safe base64 alphabet.
pub open spec fn is_base64url_token(text: Seq<char>, len: nat) -> bool {
    &&& text.len() == len
    &&& forall|i: int| 0 <= i < text.len() ==> is_base64url_char(#[trigger] text[i])
}

/// A letter that a PKCE verifier may hold: an ASCII letter or digit, or one
/// of `-`, `.`, `_` and `~`.
pub open spec fn is_verifier_char(c: char) -> bool {
    is_base64url_char(c) || c == '.' || c == '~'
}

/// A PKCE verifier as the OAuth2 client takes it: 43 to 128 letters, each an
/// ASCII letter or digit or one of `-`, `.`, `_` and `~`.
pub open spec fn is_pkce_code_verifier(text: Seq<char>) -> bool {
    &&& 43 <= text.len() <= 128
    &&& forall|i: int| 0 <= i < text.len() ==> is_verifier_char(#[trigger] text[i])
}

/// Tells whether `text` can serve as a PKCE verifier.
pub fn check_pkce_code_verifier(text: &str) -> (fit: bool)
    ensures
        fit == is_pkce_code_verifier(text@),
{
    let letters = chars_of(text);
    if letters.len() < 43 || letters.len() > 128 {
        return false;
    }
    let mut i: usize = 0;
    while i < letters.len()
        invariant
            i <= letters.len(),
            letters@ == text@,
            forall|k: int| 0 <= k < i ==> is_verifier_char(#[trigger] letters@[k]),
        decreases letters.len() - i,
    {
        let c = letters[i];
        let fit = ('A' <= c && c <= 'Z') || ('a' <= c && c <= 'z') || ('0' <= c && c <= '9')
            || c == '-' || c == '_' || c == '.' || c == '~';
        if !fit {
            assert(!is_verifier_char(text@[i as int]));
            return false;
        }
        i += 1;
    }
    true
}

/// Calls `url::Url::parse` and tells whether it succeeded. The OAuth2
/// client's `AuthUrl::new`, `TokenUrl::new` and `RedirectUrl::new` succeed on
/// exactly the same texts: each is that parse, with the text kept beside it.
#[verifier::external_body]
pub(crate) fn parses_as_url(text: &str) -> (ok: bool)
    ensures
        ok == url_is_valid(text@),
{
    Url::parse(text).is_ok()
}

/// Calls `oauth2::PkceCodeChallenge::new_random_sha256` and keeps the
/// verifier: 32 random bytes in URL-safe base64 without padding, hence 43
/// letters. Which letters, nobody can say.
#[verifier::external_body]
pub(crate) fn random_pkce_code_verifier() -> (verifier: String)
    ensures
        is_base64url_token(verifier@, 43),
{
    let (_, verifier) = PkceCodeChallenge::new_random_sha256();
    verifier.secret().clone()
}

/// Calls `oauth2::CsrfToken::new_random`: 16 random bytes in URL-safe base64
/// without padding, hence 22 letters. Which letters, nobody can say.
#[verifier::external_body]
pub(crate) fn random_csrf_token() -> (token: String)
    ensures
        is_base64url_token(token@, 22),
{
    CsrfToken::new_random().secret().clone()
}

/// Has the OAuth2 client build its authorization URL: `authorize_url` with
/// `state` as the CSRF token, `add_scopes`, `set_pkce_challenge` with the
/// SHA-256 challenge of the verifier, then `url`. The client is made of the
/// client id, the authorization endpoint and the redirect URL; the two URLs
/// must parse, and the verifier must be of a length that
/// `PkceCodeChallenge::from_code_verifier_sha256` takes.
#[verifier::external_body]
pub(crate) fn build_authorization_url(
    client_id: &str,
    auth_url: &str,
    redirect_url: &str,
    scopes: &Vec<String>,
    pkce_code_verifier: &str,
    state: &str,
) -> (url: String)
    requires
        url_is_valid(auth_url@),
        url_is_valid(redirect_url@),
        is_pkce_code_verifier(pkce_code_verifier@),
    ensures
        url@ == authorization_url_text(
            client_id@,
            auth_url@,
            redirect_url@,
            scopes.deep_view(),
            pkce_code_verifier@,
            state@,
        ),
{
    let auth_url = AuthUrl::new(auth_url.to_string()).unwrap();
    let redirect_url = RedirectUrl::new(redirect_url.to_string()).unwrap();
    let client = BasicClient::new(ClientId::new(client_id.to_string()), None, auth_url, None)
        .set_redirect_uri(redirect_url);
    let verifier = PkceCodeVerifier::new(pkce_code_verifier.to_string());
    let state = CsrfToken::new(state.to_string());
    let (url, _) = client
        .authorize_url(move || state)
        .add_scopes(scopes.iter().map(|scope| Scope::new(scope.clone())))
        .set_pkce_challenge(PkceCodeChallenge::from_code_verifier_sha256(&verifier))
        .url();
    url.to_string()
}

} // verus!
