use vstd::prelude::*;

verus! {

/// The HTTP statuses a handler of this backend answers with.
#[derive(Debug, Clone, Copy, PartialEq, Eq, Structural)]
pub enum StatusCode {
    Success,
    Found,
    SeeOther,
    BadRequest,
    Unauthorized,
    Forbidden,
    NotFound,
    InternalServerError,
}

impl StatusCode {
    /// The three-digit code on the wire.
    pub open spec fn code(self) -> int {
        match self {
            StatusCode::Success => 200,
            StatusCode::Found => 302,
            StatusCode::SeeOther => 303,
            StatusCode::BadRequest => 400,
            StatusCode::Unauthorized => 401,
            StatusCode::Forbidden => 403,
            StatusCode::NotFound => 404,
            StatusCode::InternalServerError => 500,
        }
    }

    pub fn as_u16(self) -> (code: u16)
        ensures
            code == self.code(),
    {
        match self {
            StatusCode::Success => 200,
            StatusCode::Found => 302,
            StatusCode::SeeOther => 303,
            StatusCode::BadRequest => 400,
            StatusCode::Unauthorized => 401,
            StatusCode::Forbidden => 403,
            StatusCode::NotFound => 404,
            StatusCode::InternalServerError => 500,
        }
    }

    /// 4xx: the request was at fault, and the same request will fail again.
    pub open spec fn is_client_error(self) -> bool {
        400 <= self.code() < 500
    }

    /// 5xx: the server, or something it depends on, was at fault.
    pub open spec fn is_server_error(self) -> bool {
        500 <= self.code() < 600
    }
}

/// Answer for a failure of the store or of another collaborator: status 500,
/// with the collaborator's own words as the body.
pub fn internal_error(message: String) -> (reply: (StatusCode, String))
    ensures
        reply.0 == StatusCode::InternalServerError,
        reply.1@ == message@,
{
    (StatusCode::InternalServerError, message)
}

} // verus!
