//! Logging in: the credentials of a form are checked, and the caller is sent
//! back to the start page whatever the check said.

use crate::auth::{AuthError, Credentials, CredentialsView};
use crate::http::Response;
use vstd::prelude::*;
use vstd::string::*;

verus! {

/// The form that asks to log in.
pub struct FormData {
    pub username: String,
    pub password: String,
}

impl View for FormData {
    type V = CredentialsView;

    open spec fn view(&self) -> CredentialsView {
        CredentialsView { username: self.username@, password: self.password@ }
    }
}

/// The credentials that a form presents.
pub fn credentials_of(form: FormData) -> (credentials: Credentials)
    ensures
        credentials@ == form@,
{
    Credentials { username: form.username, password: form.password }
}

/// The answer to a login: a redirection to `/`, whether or not the
/// credentials were accepted.
pub fn login_response(validated: Result<u128, AuthError>) -> (response: Response)
    ensures
        response == Response::SeeOther,
{
    match validated {
        Ok(_) => Response::SeeOther,
        Err(_) => Response::SeeOther,
    }
}

} // verus!
