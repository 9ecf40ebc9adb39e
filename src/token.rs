use vstd::prelude::*;
use crate::models::{Claims, ClaimsModel};
use jsonwebtoken::errors::ErrorKind;
use jsonwebtoken::{DecodingKey, Validation};

verus! {

/// Why a token is refused, or could not be made.
#[derive(Clone, Copy, Debug, PartialEq, Eq, Structural)]
pub enum TokenError {
    /// The token's structure or claims cannot be parsed.
    Malformed,
    /// The signature does not verify under the key.
    SignatureInvalid,
    /// The current time is at or past the expiry.
    Expired,
    /// No token could be made: the expiry does not fit, or signing failed.
    SigningFailed,
}

/// Seconds in one hour.
pub const SECONDS_PER_HOUR: i64 = 3600;

/// The HS256 token that jsonwebtoken makes for `claims` under `key`, if any.
pub uninterp spec fn hs256_token(claims: ClaimsModel, key: Seq<u8>) -> Option<Seq<char>>;

/// What jsonwebtoken's HS256 decoding (signature checked, expiry not) reads
/// from `token` under `key`.
pub uninterp spec fn hs256_decoded(token: Seq<char>, key: Seq<u8>) -> Result<ClaimsModel, TokenError>;

/// Relies on `jsonwebtoken::encode` with the default (HS256) header and
/// `EncodingKey::from_secret`: the claims go in as a JSON object with the
/// fields `sub`, `email`, `exp`, `iat`, and `jsonwebtoken::decode` under the
/// same key gives them back.
#[verifier::external_body]
fn hs256_sign(claims: &Claims, key: &[u8]) -> (r: Option<String>)
    requires
        key@.len() > 0,
    ensures
        match r {
            Some(t) => hs256_token(claims@, key@) == Some(t@) && hs256_decoded(t@, key@) == Ok::<
                ClaimsModel,
                TokenError,
            >(claims@),
            None => hs256_token(claims@, key@) is None,
        },
{
    let mut payload = serde_json::Map::new();
    payload.insert("sub".to_string(), serde_json::Value::from(claims.sub.clone()));
    payload.insert("email".to_string(), serde_json::Value::from(claims.email.clone()));
    payload.insert("exp".to_string(), serde_json::Value::from(claims.exp));
    payload.insert("iat".to_string(), serde_json::Value::from(claims.iat));
    let key = jsonwebtoken::EncodingKey::from_secret(key);
    jsonwebtoken::encode(&jsonwebtoken::Header::default(), &payload, &key).ok()
}

/// Relies on `jsonwebtoken::decode` with `DecodingKey::from_secret` and the
/// default (HS256) `Validation`, its expiry check and required claims off:
/// a bad signature is `InvalidSignature`; any other failure, or claims
/// without the four fields, is malformed. The outcome depends on the token and the key alone.
#[verifier::external_body]
fn hs256_decode(token: &str, key: &[u8]) -> (r: Result<Claims, TokenError>)
    ensures
        match r {
            Ok(c) => hs256_decoded(token@, key@) == Ok::<ClaimsModel, TokenError>(c@),
            Err(e) => hs256_decoded(token@, key@) == Err::<ClaimsModel, TokenError>(e),
        },
{
    let mut v = Validation::default();
    v.validate_exp = false;
    v.required_spec_claims.clear();
    match jsonwebtoken::decode::<serde_json::Value>(token, &DecodingKey::from_secret(key), &v) {
        Ok(d) => match (d.claims["sub"].as_str(), d.claims["email"].as_str(), d.claims["exp"].as_i64(), d.claims["iat"].as_i64()) {
            (Some(s), Some(e), Some(x), Some(i)) => Ok(Claims { sub: s.into(), email: e.into(), exp: x, iat: i }),
            _ => Err(TokenError::Malformed),
        },
        Err(e) if matches!(e.kind(), ErrorKind::InvalidSignature) => Err(TokenError::SignatureInvalid),
        Err(_) => Err(TokenError::Malformed),
    }
}

/// Whether an expiry `lifetime_hours` after `now` fits in the claims.
pub open spec fn expiry_fits(now: int, lifetime_hours: int) -> bool {
    lifetime_hours * 3600 <= i64::MAX && now + lifetime_hours * 3600 <= i64::MAX
}

/// The claims issued at `now` for a lifetime of `lifetime_hours`.
pub open spec fn claims_for(
    subject_id: Seq<char>,
    identifier: Seq<char>,
    now: int,
    lifetime_hours: int,
) -> ClaimsModel {
    (subject_id, identifier, now + lifetime_hours * 3600, now)
}

/// The outcome of verifying `token` under `key` at time `now`: the decoded
/// claims if the signature holds and `now` is before the expiry.
pub open spec fn verify_outcome(token: Seq<char>, key: Seq<u8>, now: int) -> Result<ClaimsModel, TokenError> {
    match hs256_decoded(token, key) {
        Ok(c) => if now >= c.2 {
            Err(TokenError::Expired)
        } else {
            Ok(c)
        },
        Err(e) => Err(e),
    }
}

/// Issues a signed token for `subject_id` and `identifier`, issued at `now`
/// and expiring `lifetime_hours` later (seconds since the epoch).
pub fn issue(
    subject_id: &str,
    identifier: &str,
    now: i64,
    lifetime_hours: i64,
    secret_key: &[u8],
) -> (r: Result<String, TokenError>)
    requires
        lifetime_hours >= 1,
        secret_key@.len() > 0,
    ensures
        match r {
            Ok(t) => {
                &&& expiry_fits(now as int, lifetime_hours as int)
                &&& hs256_token(
                    claims_for(subject_id@, identifier@, now as int, lifetime_hours as int),
                    secret_key@,
                ) == Some(t@)
                &&& hs256_decoded(t@, secret_key@) == Ok::<ClaimsModel, TokenError>(
                    claims_for(subject_id@, identifier@, now as int, lifetime_hours as int),
                )
            },
            Err(e) => {
                &&& e == TokenError::SigningFailed
                &&& (!expiry_fits(now as int, lifetime_hours as int) || hs256_token(
                    claims_for(subject_id@, identifier@, now as int, lifetime_hours as int),
                    secret_key@,
                ) is None)
            },
        },
{
    if lifetime_hours > i64::MAX / SECONDS_PER_HOUR {
        assert(lifetime_hours * 3600 > i64::MAX) by (nonlinear_arith)
            requires
                lifetime_hours > i64::MAX / 3600,
        ;
        return Err(TokenError::SigningFailed);
    }
    assert(lifetime_hours * 3600 <= i64::MAX) by (nonlinear_arith)
        requires
            lifetime_hours <= i64::MAX / 3600,
    ;
    let lifetime = lifetime_hours * SECONDS_PER_HOUR;
    if now > i64::MAX - lifetime {
        return Err(TokenError::SigningFailed);
    }
    let claims = Claims {
        sub: subject_id.to_string(),
        email: identifier.to_string(),
        exp: now + lifetime,
        iat: now,
    };
    match hs256_sign(&claims, secret_key) {
        Some(t) => Ok(t),
        None => Err(TokenError::SigningFailed),
    }
}

/// Applies the expiry check to claims whose signature has been checked:
/// refused as expired when `now` is at or past the expiry, errors passed on.
pub fn check_expiry(decoded: Result<Claims, TokenError>, now: i64) -> (r: Result<Claims, TokenError>)
    ensures
        match decoded {
            Ok(c) => if now >= c.exp {
                r == Err::<Claims, TokenError>(TokenError::Expired)
            } else {
                r == Ok::<Claims, TokenError>(c)
            },
            Err(e) => r == Err::<Claims, TokenError>(e),
        },
{
    match decoded {
        Ok(c) => if now >= c.exp {
            Err(TokenError::Expired)
        } else {
            Ok(c)
        },
        Err(e) => Err(e),
    }
}

/// Verifies `token` under `secret_key` at `now`: the signature first, then the
/// strict expiry check `now < exp`.
pub fn verify(token: &str, secret_key: &[u8], now: i64) -> (r: Result<Claims, TokenError>)
    ensures
        match r {
            Ok(c) => verify_outcome(token@, secret_key@, now as int) == Ok::<ClaimsModel, TokenError>(c@),
            Err(e) => verify_outcome(token@, secret_key@, now as int) == Err::<ClaimsModel, TokenError>(e),
        },
{
    check_expiry(hs256_decode(token, secret_key), now)
}

/// A token issued under a key verifies under the same key, at any time before
/// its expiry, to exactly the claims it was issued with.
pub proof fn lemma_issue_then_verify(
    subject_id: Seq<char>,
    identifier: Seq<char>,
    issued_at: int,
    lifetime_hours: int,
    key: Seq<u8>,
    token: Seq<char>,
    now: int,
)
    requires
        hs256_decoded(token, key) == Ok::<ClaimsModel, TokenError>(
            claims_for(subject_id, identifier, issued_at, lifetime_hours),
        ),
        now < issued_at + lifetime_hours * 3600,
    ensures
        verify_outcome(token, key, now) == Ok::<ClaimsModel, TokenError>(
            claims_for(subject_id, identifier, issued_at, lifetime_hours),
        ),
{
}

/// A token whose signature verifies is refused as expired once the time
/// reaches its expiry.
pub proof fn lemma_expired_refused(token: Seq<char>, key: Seq<u8>, now: int)
    requires
        hs256_decoded(token, key) is Ok,
        now >= hs256_decoded(token, key)->Ok_0.2,
    ensures
        verify_outcome(token, key, now) == Err::<ClaimsModel, TokenError>(TokenError::Expired),
{
}

} // verus!
