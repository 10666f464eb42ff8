//! Reading a login credential from an HTTP `Authorization` header.
use vstd::prelude::*;
use vstd::utf8::{valid_utf8, decode_utf8};
use vstd::slice::slice_subrange;
use vstd::string::StringSliceAdditionalSpecFns;

verus! {

/// What the standard base64 alphabet (with padding) decodes a text to, if it
/// is valid base64.
pub uninterp spec fn base64_decoded(b: Seq<u8>) -> Option<Seq<u8>>;

/// Relies on `base64::decode_config` with the `STANDARD` configuration: it
/// depends on the input bytes alone, and it panics only where the input's
/// length plus seven overflows.
#[verifier::external_body]
fn decode_base64(b: &[u8]) -> (r: Option<Vec<u8>>)
    requires
        b@.len() + 7 <= usize::MAX,
    ensures
        match r {
            Some(v) => base64_decoded(b@) == Some(v@),
            None => base64_decoded(b@) is None,
        },
{
    base64::decode_config(b, base64::STANDARD).ok()
}

/// Relies on `String::from_utf8`: it succeeds exactly on valid UTF-8, and the
/// string then holds the decoded characters.
#[verifier::external_body]
fn utf8_string(b: Vec<u8>) -> (r: Option<String>)
    ensures
        match r {
            Some(s) => valid_utf8(b@) && s@ == decode_utf8(b@),
            None => !valid_utf8(b@),
        },
{
    String::from_utf8(b).ok()
}

/// A credential as a client presents it: a user name and, where the client
/// gave one, a password.
#[derive(Clone, Debug)]
pub struct LoginRequest {
    pub username: String,
    pub password: Option<String>,
}

/// Why no credential could be read from a request.
#[derive(Clone, Copy, Debug, PartialEq, Eq, Structural)]
pub enum CredentialError {
    /// The request has no authorization header: it is unauthenticated.
    Missing,
    /// The header does not use the `Basic` scheme.
    NotBasic,
    /// The header has nothing after the scheme.
    Empty,
    /// The payload is not valid base64.
    NotBase64,
    /// The decoded payload is not valid UTF-8.
    NotUtf8,
}

/// The bytes of `"Basic "`.
pub open spec fn basic_prefix() -> Seq<u8> {
    seq![66u8, 97u8, 115u8, 105u8, 99u8, 32u8]
}

/// The index of the first colon at or after `i`.
pub open spec fn first_colon_from(t: Seq<char>, i: int) -> Option<int>
    decreases t.len() - i,
{
    if i < 0 || i >= t.len() {
        None
    } else if t[i] == ':' {
        Some(i)
    } else {
        first_colon_from(t, i + 1)
    }
}

/// A decoded credential text split at its first colon into user name and
/// password; without a colon the whole text is the user name.
pub open spec fn split_credential(t: Seq<char>) -> (Seq<char>, Option<Seq<char>>) {
    match first_colon_from(t, 0) {
        Some(i) => (t.subrange(0, i), Some(t.subrange(i + 1, t.len() as int))),
        None => (t, None),
    }
}

/// The credential that an authorization header (as bytes) carries, or why it
/// carries none.
pub open spec fn credential_of(h: Seq<u8>) -> Result<(Seq<char>, Option<Seq<char>>), CredentialError> {
    if h.len() < 6 || h.subrange(0, 6) != basic_prefix() {
        Err(CredentialError::NotBasic)
    } else if h.len() == 6 {
        Err(CredentialError::Empty)
    } else if h.len() >= usize::MAX {
        Err(CredentialError::NotBase64)
    } else {
        match base64_decoded(h.subrange(6, h.len() as int)) {
            None => Err(CredentialError::NotBase64),
            Some(d) => if valid_utf8(d) {
                Ok(split_credential(decode_utf8(d)))
            } else {
                Err(CredentialError::NotUtf8)
            },
        }
    }
}

fn has_basic_prefix(h: &[u8]) -> (r: bool)
    ensures
        r == (h@.len() >= 6 && h@.subrange(0, 6) == basic_prefix()),
{
    if h.len() < 6 {
        return false;
    }
    let r = h[0] == 66u8 && h[1] == 97u8 && h[2] == 115u8 && h[3] == 105u8 && h[4] == 99u8
        && h[5] == 32u8;
    assert(r ==> h@.subrange(0, 6) =~= basic_prefix());
    assert(h@.subrange(0, 6) == basic_prefix() ==> h@.subrange(0, 6)[5] == 32u8);
    r
}

/// Splits a credential text at its first colon.
pub fn split_at_colon(t: &str) -> (r: (String, Option<String>))
    ensures
        r.0@ == split_credential(t@).0,
        match r.1 {
            Some(p) => split_credential(t@).1 == Some(p@),
            None => split_credential(t@).1 is None,
        },
{
    let n = t.unicode_len();
    let mut i: usize = 0;
    while i < n
        invariant
            n == t@.len(),
            i <= n,
            first_colon_from(t@, 0) == first_colon_from(t@, i as int),
        decreases n - i,
    {
        if t.get_char(i) == ':' {
            let u = t.substring_char(0, i);
            let p = t.substring_char(i + 1, n);
            return (String::from_str(u), Some(String::from_str(p)));
        }
        i = i + 1;
    }
    (String::from_str(t), None)
}

impl LoginRequest {
    /// Reads the credential of a request from its `Authorization` header, if
    /// it has one. Only the `Basic` scheme is recognised.
    pub fn from_authorization(header: Option<&str>) -> (r: Result<LoginRequest, CredentialError>)
        ensures
            header is None ==> r == Err::<LoginRequest, CredentialError>(CredentialError::Missing),
            header matches Some(h) ==> match r {
                Ok(c) => credential_of(h.spec_bytes()) == Ok::<(Seq<char>, Option<Seq<char>>), CredentialError>(
                    (c.username@, match c.password { Some(p) => Some(p@), None => None })),
                Err(e) => credential_of(h.spec_bytes()) == Err::<(Seq<char>, Option<Seq<char>>), CredentialError>(e),
            },
    {
        let h = match header {
            None => return Err(CredentialError::Missing),
            Some(h) => h.as_bytes(),
        };
        if !has_basic_prefix(h) {
            return Err(CredentialError::NotBasic);
        }
        if h.len() == 6 {
            return Err(CredentialError::Empty);
        }
        if h.len() == usize::MAX {
            return Err(CredentialError::NotBase64);
        }
        let payload = slice_subrange(h, 6, h.len());
        let decoded = match decode_base64(payload) {
            None => return Err(CredentialError::NotBase64),
            Some(d) => d,
        };
        let text = match utf8_string(decoded) {
            None => return Err(CredentialError::NotUtf8),
            Some(t) => t,
        };
        let (username, password) = split_at_colon(text.as_str());
        Ok(LoginRequest { username, password })
    }
}

} // verus!
