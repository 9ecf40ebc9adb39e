use vstd::prelude::*;

verus! {

/// Whether Argon2 verification accepts `secret` against the encoded hash
/// `encoded`.
pub uninterp spec fn argon2_accepts(secret: Seq<char>, encoded: Seq<char>) -> bool;

/// Relies on argon2's `PasswordHash::new` and `Argon2::verify_password`:
/// the encoded hash is parsed, the digest re-derived with the parameters and
/// salt it carries, and compared. The outcome depends on the two strings
/// alone; a string that does not parse is refused.
#[verifier::external_body]
fn argon2_verify(secret: &str, encoded: &str) -> (r: bool)
    ensures
        r == argon2_accepts(secret@, encoded@),
{
    match argon2::PasswordHash::new(encoded) {
        Ok(parsed) => argon2::PasswordVerifier::verify_password(
            &argon2::Argon2::default(),
            secret.as_bytes(),
            &parsed,
        ).is_ok(),
        Err(_) => false,
    }
}

/// Relies on argon2's `SaltString::generate` (a random salt from `OsRng`) and
/// `Argon2::hash_password` with default parameters, encoded as a PHC string.
/// The salt is random, so nothing is known of the string but that
/// `Argon2::verify_password` accepts the same secret against it.
#[verifier::external_body]
fn argon2_hash(secret: &str) -> (r: Option<String>)
    ensures
        r matches Some(h) ==> argon2_accepts(secret@, h@),
{
    let salt = argon2::password_hash::SaltString::generate(
        &mut argon2::password_hash::rand_core::OsRng,
    );
    argon2::PasswordHasher::hash_password(&argon2::Argon2::default(), secret.as_bytes(), &salt)
        .ok().map(|h| h.to_string())
}

/// Failure to produce a password hash (randomness or encoding).
#[derive(Clone, Copy, Debug, PartialEq, Eq, Structural)]
pub struct HashingError;

/// Hashes `secret` with a fresh random salt into a self-describing encoded
/// string, which `verify_password` accepts for the same secret.
pub fn hash_password(secret: &str) -> (r: Result<String, HashingError>)
    ensures
        r matches Ok(h) ==> argon2_accepts(secret@, h@),
{
    match argon2_hash(secret) {
        Some(h) => Ok(h),
        None => Err(HashingError),
    }
}

/// Whether `secret` matches the encoded hash; `false` for any mismatch,
/// including an encoded hash that does not parse.
pub fn verify_password(secret: &str, encoded: &str) -> (r: bool)
    ensures
        r == argon2_accepts(secret@, encoded@),
{
    argon2_verify(secret, encoded)
}

} // verus!
