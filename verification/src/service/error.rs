use vstd::prelude::*;
use vstd::string::*;
use crate::api::util::StatusCode;

verus! {

/// The classes of failure on the login path.
#[derive(Debug, Clone, Copy, PartialEq, Eq, Structural)]
pub enum ErrorKind {
    /// A required configuration value is missing.
    Configuration,
    /// A session value is missing or unreadable.
    Session,
    /// The `state` of a callback is not the one the session holds.
    CsrfMismatch,
    /// Talking to the identity provider failed.
    UpstreamAuth,
    /// The identity is genuine, but its email is not on the allow-list.
    ForbiddenEmail,
    /// The user store failed.
    Persistence,
}

impl ErrorKind {
    /// The status each class of failure is answered with.
    pub open spec fn spec_status(self) -> StatusCode {
        match self {
            ErrorKind::Configuration => StatusCode::InternalServerError,
            ErrorKind::Session => StatusCode::BadRequest,
            ErrorKind::CsrfMismatch => StatusCode::BadRequest,
            ErrorKind::UpstreamAuth => StatusCode::InternalServerError,
            ErrorKind::ForbiddenEmail => StatusCode::Forbidden,
            ErrorKind::Persistence => StatusCode::InternalServerError,
        }
    }

    #[verifier::when_used_as_spec(spec_status)]
    pub fn status(self) -> (status: StatusCode)
        ensures
            status == self.spec_status(),
    {
        match self {
            ErrorKind::Configuration => StatusCode::InternalServerError,
            ErrorKind::Session => StatusCode::BadRequest,
            ErrorKind::CsrfMismatch => StatusCode::BadRequest,
            ErrorKind::UpstreamAuth => StatusCode::InternalServerError,
            ErrorKind::ForbiddenEmail => StatusCode::Forbidden,
            ErrorKind::Persistence => StatusCode::InternalServerError,
        }
    }
}

/// Why a configuration value could not be had.
#[derive(Debug)]
pub enum VarError {
    /// The variable is not set.
    NotPresent,
    /// The variable is set to something that is not Unicode; the field
    /// renders what was found.
    NotUnicode(String),
}

/// Mathematical value of a [`VarError`].
pub enum VarErrorView {
    NotPresent,
    NotUnicode(Seq<char>),
}

impl View for VarError {
    type V = VarErrorView;

    open spec fn view(&self) -> VarErrorView {
        match self {
            VarError::NotPresent => VarErrorView::NotPresent,
            VarError::NotUnicode(found) => VarErrorView::NotUnicode(found@),
        }
    }
}

impl Clone for VarError {
    fn clone(&self) -> (copy: Self)
        ensures
            copy@ == self@,
    {
        match self {
            VarError::NotPresent => VarError::NotPresent,
            VarError::NotUnicode(found) => VarError::NotUnicode(found.clone()),
        }
    }
}

impl VarErrorView {
    pub open spec fn message(self) -> Seq<char> {
        match self {
            VarErrorView::NotPresent => "environment variable not found"@,
            VarErrorView::NotUnicode(found) => "environment variable was not valid unicode: "@
                + found,
        }
    }
}

impl VarError {
    pub fn message(&self) -> (text: String)
        ensures
            text@ == self@.message(),
    {
        match self {
            VarError::NotPresent => "environment variable not found".to_string(),
            VarError::NotUnicode(found) => {
                let mut text = "environment variable was not valid unicode: ".to_string();
                text.append(found.as_str());
                text
            },
        }
    }
}

/// A failed authentication. The variants that stand for a collaborator's
/// failure carry that collaborator's message.
#[derive(Debug)]
pub enum AuthError {
    Var(VarError),
    Sqlx(String),
    Reqwest(String),
    OAuth2(String),
    ForbiddenEmail(String),
}

/// Mathematical value of an [`AuthError`].
pub enum AuthErrorView {
    Var(VarErrorView),
    Sqlx(Seq<char>),
    Reqwest(Seq<char>),
    OAuth2(Seq<char>),
    ForbiddenEmail(Seq<char>),
}

impl View for AuthError {
    type V = AuthErrorView;

    open spec fn view(&self) -> AuthErrorView {
        match self {
            AuthError::Var(e) => AuthErrorView::Var(e@),
            AuthError::Sqlx(m) => AuthErrorView::Sqlx(m@),
            AuthError::Reqwest(m) => AuthErrorView::Reqwest(m@),
            AuthError::OAuth2(m) => AuthErrorView::OAuth2(m@),
            AuthError::ForbiddenEmail(email) => AuthErrorView::ForbiddenEmail(email@),
        }
    }
}

impl Clone for AuthError {
    fn clone(&self) -> (copy: Self)
        ensures
            copy@ == self@,
    {
        match self {
            AuthError::Var(e) => AuthError::Var(e.clone()),
            AuthError::Sqlx(m) => AuthError::Sqlx(m.clone()),
            AuthError::Reqwest(m) => AuthError::Reqwest(m.clone()),
            AuthError::OAuth2(m) => AuthError::OAuth2(m.clone()),
            AuthError::ForbiddenEmail(email) => AuthError::ForbiddenEmail(email.clone()),
        }
    }
}

impl AuthErrorView {
    pub open spec fn kind(self) -> ErrorKind {
        match self {
            AuthErrorView::Var(_) => ErrorKind::Configuration,
            AuthErrorView::Sqlx(_) => ErrorKind::Persistence,
            AuthErrorView::Reqwest(_) => ErrorKind::UpstreamAuth,
            AuthErrorView::OAuth2(_) => ErrorKind::UpstreamAuth,
            AuthErrorView::ForbiddenEmail(_) => ErrorKind::ForbiddenEmail,
        }
    }

    /// The text a person reads.
    pub open spec fn message(self) -> Seq<char> {
        match self {
            AuthErrorView::Var(e) => e.message(),
            AuthErrorView::Sqlx(m) => m,
            AuthErrorView::Reqwest(m) => m,
            AuthErrorView::OAuth2(m) => m,
            AuthErrorView::ForbiddenEmail(email) => "The given email '"@ + email
                + "' is not allowed to sign in"@,
        }
    }
}

impl AuthError {
    pub fn kind(&self) -> (kind: ErrorKind)
        ensures
            kind == self@.kind(),
    {
        match self {
            AuthError::Var(_) => ErrorKind::Configuration,
            AuthError::Sqlx(_) => ErrorKind::Persistence,
            AuthError::Reqwest(_) => ErrorKind::UpstreamAuth,
            AuthError::OAuth2(_) => ErrorKind::UpstreamAuth,
            AuthError::ForbiddenEmail(_) => ErrorKind::ForbiddenEmail,
        }
    }

    /// The status a handler answers this failure with.
    pub fn status(&self) -> (status: StatusCode)
        ensures
            status == self@.kind().spec_status(),
            status == StatusCode::Forbidden <==> self is ForbiddenEmail,
            !(self is ForbiddenEmail) ==> status == StatusCode::InternalServerError,
    {
        self.kind().status()
    }

    pub fn message(&self) -> (text: String)
        ensures
            text@ == self@.message(),
    {
        match self {
            AuthError::Var(e) => e.message(),
            AuthError::Sqlx(m) => m.clone(),
            AuthError::Reqwest(m) => m.clone(),
            AuthError::OAuth2(m) => m.clone(),
            AuthError::ForbiddenEmail(email) => {
                let mut text = "The given email '".to_string();
                text.append(email.as_str());
                text.append("' is not allowed to sign in");
                text
            },
        }
    }
}

} // verus!
