use vstd::prelude::*;
use crate::models::{Claims, ClaimsModel};
use crate::service::AuthService;
use crate::token::verify_outcome;

verus! {

/// Why a request to a protected route is refused.
#[derive(Clone, Copy, Debug, PartialEq, Eq, Structural)]
pub enum AuthError {
    /// No Authorization header.
    MissingToken,
    /// Not a bearer token, or a token that does not verify.
    InvalidToken,
}

impl AuthError {
    /// HTTP status: unauthorized, whatever the cause.
    pub fn status_code(&self) -> (r: u16)
        ensures
            r == 401,
    {
        401
    }

    /// Fixed message shown to the caller.
    pub fn message(&self) -> (r: &'static str)
        ensures
            r@ == match *self {
                AuthError::MissingToken => "Missing authorization token"@,
                AuthError::InvalidToken => "Invalid authorization token"@,
            },
    {
        match self {
            AuthError::MissingToken => "Missing authorization token",
            AuthError::InvalidToken => "Invalid authorization token",
        }
    }
}

/// The scheme prefix of a bearer credential.
pub open spec fn bearer_prefix() -> Seq<char> {
    seq!['B', 'e', 'a', 'r', 'e', 'r', ' ']
}

/// The token of an Authorization header value, if it uses the bearer scheme.
pub open spec fn bearer_token(header: Seq<char>) -> Option<Seq<char>> {
    if header.len() >= 7 && header.take(7) == bearer_prefix() {
        Some(header.skip(7))
    } else {
        None
    }
}

/// The outcome of gating a request with the given Authorization header.
pub open spec fn gate_outcome(header: Option<Seq<char>>, key: Seq<u8>, now: int) -> Result<ClaimsModel, AuthError> {
    match header {
        None => Err(AuthError::MissingToken),
        Some(h) => match bearer_token(h) {
            None => Err(AuthError::InvalidToken),
            Some(t) => match verify_outcome(t, key, now) {
                Ok(c) => Ok(c),
                Err(_) => Err(AuthError::InvalidToken),
            },
        },
    }
}

/// An optional header value as plain characters.
pub open spec fn header_view(header: Option<&str>) -> Option<Seq<char>> {
    match header {
        Some(h) => Some(h@),
        None => None,
    }
}

/// Strips the required `Bearer ` prefix from an Authorization header value.
pub fn strip_bearer(header: &str) -> (r: Option<&str>)
    ensures
        match bearer_token(header@) {
            Some(t) => r matches Some(s) && s@ == t,
            None => r is None,
        },
{
    let prefix = "Bearer ";
    proof {
        reveal_strlit("Bearer ");
    }
    assert(prefix@ == bearer_prefix());
    let n = header.unicode_len();
    if n < 7 {
        return None;
    }
    let mut i: usize = 0;
    while i < 7
        invariant
            0 <= i <= 7,
            n == header@.len(),
            n >= 7,
            prefix@ == bearer_prefix(),
            forall|j: int| 0 <= j < i ==> header@[j] == bearer_prefix()[j],
        decreases 7 - i,
    {
        if header.get_char(i) != prefix.get_char(i) {
            assert(header@.take(7)[i as int] != bearer_prefix()[i as int]);
            return None;
        }
        i = i + 1;
    }
    assert(header@.take(7) =~= bearer_prefix());
    Some(header.substring_char(7, n))
}

/// Decides whether a request to a protected route may pass: the header must
/// be present, use the bearer scheme, and carry a token that verifies under
/// the service's key at `now`. Every refusal after a present header is
/// `InvalidToken`.
pub fn authorize(service: &AuthService, header: Option<&str>, now: i64) -> (r: Result<Claims, AuthError>)
    ensures
        match r {
            Ok(c) => gate_outcome(header_view(header), service.key(), now as int) == Ok::<
                ClaimsModel,
                AuthError,
            >(c@),
            Err(e) => gate_outcome(header_view(header), service.key(), now as int) == Err::<
                ClaimsModel,
                AuthError,
            >(e),
        },
{
    match header {
        None => Err(AuthError::MissingToken),
        Some(h) => match strip_bearer(h) {
            None => Err(AuthError::InvalidToken),
            Some(token) => match service.verify_token(token, now) {
                Ok(c) => Ok(c),
                Err(_) => Err(AuthError::InvalidToken),
            },
        },
    }
}

} // verus!
