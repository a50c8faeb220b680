//! Basic authentication: reading the credentials out of an `Authorization`
//! header and checking a password against a stored Argon2 hash.

use crate::text::{split_at_first, split_once, string_from_utf8};
use argon2::{Argon2, PasswordHash, PasswordVerifier};
use base64::{engine::general_purpose, Engine};
use vstd::prelude::*;
use vstd::slice::slice_subrange;
use vstd::string::*;
use vstd::utf8::{decode_utf8, encode_utf8, valid_utf8};

verus! {

/// A user name and a password, as a caller presented them.
pub struct Credentials {
    pub username: String,
    pub password: String,
}

/// Credentials as two texts.
pub struct CredentialsView {
    pub username: Seq<char>,
    pub password: Seq<char>,
}

impl View for Credentials {
    type V = CredentialsView;

    open spec fn view(&self) -> CredentialsView {
        CredentialsView { username: self.username@, password: self.password@ }
    }
}

/// Why a caller was not authenticated.
#[derive(Clone, Copy, Debug, PartialEq, Eq, Structural)]
pub enum AuthError {
    /// The request carried no `Authorization` header.
    MissingCredentials,
    /// The header is not `Basic ` followed by the base64 of `username:password`.
    MalformedCredentials,
    /// No such user, or the password is not the user's.
    InvalidCredentials,
}

/// What the store holds of a user: the identity and the password hash, a PHC
/// string.
pub struct StoredCredential {
    pub id: u128,
    pub password_hash: String,
}

/// A stored credential with its hash as text.
pub struct StoredCredentialView {
    pub id: u128,
    pub password_hash: Seq<char>,
}

impl View for StoredCredential {
    type V = StoredCredentialView;

    open spec fn view(&self) -> StoredCredentialView {
        StoredCredentialView { id: self.id, password_hash: self.password_hash@ }
    }
}

/// The error of `base64`: why an input is no encoding. Nothing is read of it.
#[verifier::external_type_specification]
#[verifier::external_body]
pub struct ExDecodeError(base64::DecodeError);

/// The bytes that `input` stands for in base64 with the standard alphabet and
/// canonical padding; `None` where `input` is no such encoding.
pub uninterp spec fn base64_standard_decoding(input: Seq<u8>) -> Option<Seq<u8>>;

/// Whether `stored_hash` is a PHC string and Argon2, with the parameters and
/// the salt that the string names, hashes `password` to the output it holds.
pub uninterp spec fn argon2_accepts(password: Seq<u8>, stored_hash: Seq<char>) -> bool;

/// The scheme prefix of a Basic `Authorization` header: the bytes of `Basic `.
pub open spec fn basic_prefix() -> Seq<u8> {
    seq![0x42u8, 0x61u8, 0x73u8, 0x69u8, 0x63u8, 0x20u8]
}

/// Whether a header byte is visible ASCII: a space, a printable character or
/// a tab.
pub open spec fn is_visible_ascii(b: u8) -> bool {
    32 <= b < 127 || b == 9
}

/// Whether every byte of `header` is visible ASCII.
pub open spec fn all_visible_ascii(header: Seq<u8>) -> bool {
    forall|i: int| 0 <= i < header.len() ==> is_visible_ascii(#[trigger] header[i])
}

/// The credentials in the decoded payload of a header: the payload is UTF-8
/// text; what stands before its first colon is the user name, what follows the
/// password.
pub open spec fn credentials_in(decoded: Seq<u8>) -> Result<CredentialsView, AuthError> {
    if !valid_utf8(decoded) {
        Err(AuthError::MalformedCredentials)
    } else {
        match split_at_first(decode_utf8(decoded), ':') {
            Some((username, password)) => Ok(CredentialsView { username, password }),
            None => Err(AuthError::MalformedCredentials),
        }
    }
}

/// The credentials that an `Authorization` header carries.
pub open spec fn basic_credentials(authorization: Option<Seq<u8>>) -> Result<
    CredentialsView,
    AuthError,
> {
    match authorization {
        None => Err(AuthError::MissingCredentials),
        Some(header) => {
            if !all_visible_ascii(header) || !basic_prefix().is_prefix_of(header) {
                Err(AuthError::MalformedCredentials)
            } else {
                match base64_standard_decoding(header.skip(6)) {
                    Some(decoded) => credentials_in(decoded),
                    None => Err(AuthError::MalformedCredentials),
                }
            }
        },
    }
}

/// The verdict on a user whose stored record was found and whose password
/// was, or was not, accepted.
pub open spec fn verdict_of(user_id: u128, password_accepted: bool) -> Result<u128, AuthError> {
    if password_accepted {
        Ok(user_id)
    } else {
        Err(AuthError::InvalidCredentials)
    }
}

/// The identity that `credentials` prove, given what the store holds under
/// their user name: an unknown user and a wrong password are not told apart.
pub open spec fn credentials_check(
    credentials: CredentialsView,
    stored: Option<StoredCredentialView>,
) -> Result<u128, AuthError> {
    match stored {
        None => Err(AuthError::InvalidCredentials),
        Some(record) => verdict_of(
            record.id,
            argon2_accepts(encode_utf8(credentials.password), record.password_hash),
        ),
    }
}

/// `Engine::decode` of `base64::engine::general_purpose::STANDARD`: the bytes
/// that `input` encodes, or the error where it encodes none.
#[verifier::external_body]
fn base64_decode(input: &[u8]) -> (r: Result<Vec<u8>, base64::DecodeError>)
    ensures
        match r {
            Ok(decoded) => base64_standard_decoding(input@) == Some(decoded@),
            Err(_) => base64_standard_decoding(input@) is None,
        },
{
    general_purpose::STANDARD.decode(input)
}

/// `PasswordHash::new` and `Argon2::default().verify_password`: whether the
/// stored text parses as a PHC string and the password verifies against it.
#[verifier::external_body]
fn argon2_verify(password: &[u8], stored_hash: &str) -> (accepted: bool)
    ensures
        accepted == argon2_accepts(password@, stored_hash@),
{
    match PasswordHash::new(stored_hash) {
        Ok(hash) => Argon2::default().verify_password(password, &hash).is_ok(),
        Err(_) => false,
    }
}

/// Whether every byte of `header` is visible ASCII.
pub fn only_visible_ascii(header: &[u8]) -> (r: bool)
    ensures
        r == all_visible_ascii(header@),
{
    let mut i: usize = 0;
    while i < header.len()
        invariant
            i <= header.len(),
            forall|j: int| 0 <= j < i ==> is_visible_ascii(#[trigger] header@[j]),
        decreases header.len() - i,
    {
        let b = header[i];
        if !(b >= 32 && b < 127 || b == 9) {
            return false;
        }
        i = i + 1;
    }
    true
}

/// Whether `header` starts with the bytes of `Basic `.
pub fn has_basic_prefix(header: &[u8]) -> (r: bool)
    ensures
        r == basic_prefix().is_prefix_of(header@),
{
    if header.len() < 6 {
        return false;
    }
    let r = header[0] == 0x42 && header[1] == 0x61 && header[2] == 0x73 && header[3] == 0x69
        && header[4] == 0x63 && header[5] == 0x20;
    proof {
        let p = basic_prefix();
        if r {
            assert(header@.subrange(0, 6) =~= p);
        } else if p.is_prefix_of(header@) {
            assert(header@.subrange(0, 6) == p);
            assert(header@[0] == p[0] && header@[1] == p[1] && header@[2] == p[2]);
            assert(header@[3] == p[3] && header@[4] == p[4] && header@[5] == p[5]);
        }
    }
    r
}

/// Reads the credentials out of the decoded payload of a header.
pub fn credentials_from_decoded(decoded: Vec<u8>) -> (r: Result<Credentials, AuthError>)
    ensures
        match r {
            Ok(credentials) => credentials_in(decoded@) == Ok::<CredentialsView, AuthError>(
                credentials@,
            ),
            Err(e) => credentials_in(decoded@) == Err::<CredentialsView, AuthError>(e),
        },
{
    let decoded_credentials = match string_from_utf8(decoded) {
        Some(v) => v,
        None => return Err(AuthError::MalformedCredentials),
    };
    match split_once(decoded_credentials.as_str(), ':') {
        Some((username, password)) => Ok(Credentials { username, password }),
        None => Err(AuthError::MalformedCredentials),
    }
}

/// Reads the credentials out of the value of the `Authorization` header,
/// `None` where the request has no such header.
pub fn basic_auth(authorization: Option<&[u8]>) -> (r: Result<Credentials, AuthError>)
    ensures
        match r {
            Ok(credentials) => basic_credentials(header_view(authorization)) == Ok::<
                CredentialsView,
                AuthError,
            >(credentials@),
            Err(e) => basic_credentials(header_view(authorization)) == Err::<
                CredentialsView,
                AuthError,
            >(e),
        },
{
    let auth_header = match authorization {
        Some(v) => v,
        None => return Err(AuthError::MissingCredentials),
    };
    if !only_visible_ascii(auth_header) {
        return Err(AuthError::MalformedCredentials);
    }
    if !has_basic_prefix(auth_header) {
        return Err(AuthError::MalformedCredentials);
    }
    let base64encoded = slice_subrange(auth_header, 6, auth_header.len());
    match base64_decode(base64encoded) {
        Ok(decoded) => credentials_from_decoded(decoded),
        Err(_) => Err(AuthError::MalformedCredentials),
    }
}

/// A header value as a sequence of bytes.
pub open spec fn header_view(authorization: Option<&[u8]>) -> Option<Seq<u8>> {
    match authorization {
        Some(header) => Some(header@),
        None => None,
    }
}

/// The verdict on a user whose stored record was found, given whether the
/// password was accepted.
pub fn verdict(user_id: u128, password_accepted: bool) -> (r: Result<u128, AuthError>)
    ensures
        r == verdict_of(user_id, password_accepted),
{
    if password_accepted {
        Ok(user_id)
    } else {
        Err(AuthError::InvalidCredentials)
    }
}

/// Checks `credentials` against what the store holds under their user name
/// (`None` where it holds nothing) and returns the user's identity.
pub fn validate_credentials(credentials: &Credentials, stored: Option<&StoredCredential>) -> (r:
    Result<u128, AuthError>)
    ensures
        r == credentials_check(credentials@, stored_view(stored)),
{
    let record = match stored {
        Some(v) => v,
        None => return Err(AuthError::InvalidCredentials),
    };
    let accepted = argon2_verify(
        credentials.password.as_str().as_bytes(),
        record.password_hash.as_str(),
    );
    verdict(record.id, accepted)
}

/// A stored credential, where there is one, with its hash as text.
pub open spec fn stored_view(stored: Option<&StoredCredential>) -> Option<StoredCredentialView> {
    match stored {
        Some(record) => Some(record@),
        None => None,
    }
}

} // verus!
