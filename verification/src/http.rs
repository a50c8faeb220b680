//! The answers that the application gives over HTTP.

use vstd::prelude::*;

verus! {

/// An answer of the application: a status and, for some, one header.
#[derive(Clone, Copy, Debug, PartialEq, Eq, Structural)]
pub enum Response {
    /// 200.
    Success,
    /// 303, with the location `/`.
    SeeOther,
    /// 400.
    BadRequest,
    /// 401.
    Unauthorized,
    /// 401, with the challenge `WWW-Authenticate: Basic realm="delivery"`.
    Challenge,
    /// 409.
    Conflict,
    /// 500.
    InternalServerError,
}

/// The status code of an answer.
pub open spec fn status_of(response: Response) -> u16 {
    match response {
        Response::Success => 200,
        Response::SeeOther => 303,
        Response::BadRequest => 400,
        Response::Unauthorized => 401,
        Response::Challenge => 401,
        Response::Conflict => 409,
        Response::InternalServerError => 500,
    }
}

/// The challenge that asks for Basic credentials for the realm `delivery`.
pub open spec fn delivery_challenge() -> Seq<char> {
    "Basic realm=\"delivery\""@
}

impl Response {
    /// The status code.
    pub fn status_code(&self) -> (code: u16)
        ensures
            code == status_of(*self),
    {
        match self {
            Response::Success => 200,
            Response::SeeOther => 303,
            Response::BadRequest => 400,
            Response::Unauthorized => 401,
            Response::Challenge => 401,
            Response::Conflict => 409,
            Response::InternalServerError => 500,
        }
    }

    /// The value of the `WWW-Authenticate` header, where the answer has one.
    pub fn www_authenticate(&self) -> (challenge: Option<&'static str>)
        ensures
            challenge is Some <==> *self == Response::Challenge,
            challenge is Some ==> challenge->Some_0@ == delivery_challenge(),
    {
        match self {
            Response::Challenge => Some("Basic realm=\"delivery\""),
            _ => None,
        }
    }

    /// The value of the `Location` header, where the answer has one.
    pub fn location(&self) -> (location: Option<&'static str>)
        ensures
            location is Some <==> *self == Response::SeeOther,
            location is Some ==> location->Some_0@ == "/"@,
    {
        match self {
            Response::SeeOther => Some("/"),
            _ => None,
        }
    }
}

} // verus!
