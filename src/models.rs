use vstd::prelude::*;

verus! {

/// What a token asserts: subject id, identifier (email), expiry and
/// issue time, both in seconds since the epoch.
#[derive(Clone, Debug)]
pub struct Claims {
    pub sub: String,
    pub email: String,
    pub exp: i64,
    pub iat: i64,
}

/// Claims as plain values: (subject id, identifier, expiry, issued-at).
pub type ClaimsModel = (Seq<char>, Seq<char>, int, int);

impl View for Claims {
    type V = ClaimsModel;

    open spec fn view(&self) -> ClaimsModel {
        (self.sub@, self.email@, self.exp as int, self.iat as int)
    }
}

/// The 128-bit value that uuid's parser reads from `s`, if it is a UUID.
pub uninterp spec fn uuid_value(s: Seq<char>) -> Option<u128>;

/// Relies on `uuid::Uuid::parse_str` (and `Uuid::as_u128`): whether `s` is a
/// UUID in one of its accepted text forms, and its value, depend on `s` alone.
#[verifier::external_body]
fn parse_uuid(s: &str) -> (r: Option<u128>)
    ensures
        r == uuid_value(s@),
{
    uuid::Uuid::parse_str(s).ok().map(|u| u.as_u128())
}

/// The subject of a set of claims is not a UUID.
#[derive(Clone, Copy, Debug, PartialEq, Eq, Structural)]
pub struct InvalidUserId;

impl Claims {
    /// The subject id read as a UUID (its 128-bit value).
    pub fn user_id(&self) -> (r: Result<u128, InvalidUserId>)
        ensures
            match uuid_value(self.sub@) {
                Some(v) => r == Ok::<u128, InvalidUserId>(v),
                None => r == Err::<u128, InvalidUserId>(InvalidUserId),
            },
    {
        match parse_uuid(self.sub.as_str()) {
            Some(v) => Ok(v),
            None => Err(InvalidUserId),
        }
    }
}

/// An identity record as the credential store holds it.
#[derive(Clone, Debug)]
pub struct User {
    pub id: String,
    pub email: String,
    pub password_hash: String,
    pub created_at: i64,
    pub updated_at: i64,
}

/// The public-safe summary of an identity: everything but the hash.
#[derive(Clone, Debug)]
pub struct UserResponse {
    pub id: String,
    pub email: String,
    pub created_at: i64,
    pub updated_at: i64,
}

impl UserResponse {
    /// The summary of `user`.
    pub fn from_user(user: &User) -> (r: UserResponse)
        ensures
            r.id@ == user.id@,
            r.email@ == user.email@,
            r.created_at == user.created_at,
            r.updated_at == user.updated_at,
    {
        UserResponse {
            id: user.id.clone(),
            email: user.email.clone(),
            created_at: user.created_at,
            updated_at: user.updated_at,
        }
    }
}

/// Credentials offered to create an identity.
#[derive(Clone, Debug)]
pub struct RegisterRequest {
    pub email: String,
    pub password: String,
}

/// Credentials offered to log in.
#[derive(Clone, Debug)]
pub struct LoginRequest {
    pub email: String,
    pub password: String,
}

/// A session token and the summary of the identity it was issued for.
#[derive(Clone, Debug)]
pub struct LoginResponse {
    pub token: String,
    pub user: UserResponse,
}

} // verus!
