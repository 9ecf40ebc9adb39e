use vstd::prelude::*;
use vstd::utf8::encode_utf8;
use crate::models::{Claims, ClaimsModel, LoginRequest, LoginResponse, RegisterRequest, User, UserResponse};
use crate::password::{argon2_accepts, hash_password, verify_password};
use crate::token::{claims_for, expiry_fits, hs256_decoded, hs256_token, issue, verify, verify_outcome, TokenError};

verus! {

/// Failure reported by the credential store.
#[derive(Clone, Copy, Debug, PartialEq, Eq, Structural)]
pub enum StoreError {
    /// A record with the same identifier already exists.
    UniqueViolation,
    /// Any other store failure.
    Unavailable,
}

/// Errors of registration and login.
#[derive(Clone, Copy, Debug, PartialEq, Eq, Structural)]
pub enum AuthError {
    /// Unknown identifier or wrong secret, deliberately alike.
    InvalidCredentials,
    UserAlreadyExists,
    DatabaseError,
    PasswordHashError,
    JwtError,
}

impl AuthError {
    /// HTTP status class: conflict, unauthorized or internal failure.
    pub fn status_code(&self) -> (r: u16)
        ensures
            r == match *self {
                AuthError::InvalidCredentials => 401u16,
                AuthError::UserAlreadyExists => 409u16,
                _ => 500u16,
            },
    {
        match self {
            AuthError::InvalidCredentials => 401,
            AuthError::UserAlreadyExists => 409,
            AuthError::DatabaseError => 500,
            AuthError::PasswordHashError => 500,
            AuthError::JwtError => 500,
        }
    }

    /// Fixed message that never carries internal detail.
    pub fn message(&self) -> (r: &'static str)
        ensures
            r@ == match *self {
                AuthError::InvalidCredentials => "Invalid credentials"@,
                AuthError::UserAlreadyExists => "User already exists"@,
                AuthError::DatabaseError => "Database error"@,
                AuthError::PasswordHashError => "Password hashing error"@,
                AuthError::JwtError => "JWT error"@,
            },
    {
        match self {
            AuthError::InvalidCredentials => "Invalid credentials",
            AuthError::UserAlreadyExists => "User already exists",
            AuthError::DatabaseError => "Database error",
            AuthError::PasswordHashError => "Password hashing error",
            AuthError::JwtError => "JWT error",
        }
    }
}

/// An `AuthError` as handed to the HTTP layer.
#[derive(Clone, Copy, Debug, PartialEq, Eq, Structural)]
pub struct AuthHandlerError(pub AuthError);

impl From<AuthError> for AuthHandlerError {
    fn from(error: AuthError) -> AuthHandlerError {
        AuthHandlerError(error)
    }
}

impl vstd::std_specs::convert::FromSpecImpl<AuthError> for AuthHandlerError {
    open spec fn obeys_from_spec() -> bool {
        true
    }

    open spec fn from_spec(v: AuthError) -> AuthHandlerError {
        AuthHandlerError(v)
    }
}

impl AuthHandlerError {
    /// HTTP status of the wrapped error.
    pub fn status_code(&self) -> (r: u16)
        ensures
            r == match self.0 {
                AuthError::InvalidCredentials => 401u16,
                AuthError::UserAlreadyExists => 409u16,
                _ => 500u16,
            },
    {
        self.0.status_code()
    }

    /// Message of the wrapped error.
    pub fn message(&self) -> (r: &'static str)
        ensures
            r@ == match self.0 {
                AuthError::InvalidCredentials => "Invalid credentials"@,
                AuthError::UserAlreadyExists => "User already exists"@,
                AuthError::DatabaseError => "Database error"@,
                AuthError::PasswordHashError => "Password hashing error"@,
                AuthError::JwtError => "JWT error"@,
            },
    {
        self.0.message()
    }
}

/// Registration and login over a credential store that the caller drives:
/// each step takes what the store answered and says what to do next.
#[derive(Clone, Debug)]
pub struct AuthService {
    pub jwt_secret: String,
    pub jwt_expiration_hours: i64,
}

impl AuthService {
    /// The signing key: the secret's bytes.
    pub open spec fn key(self) -> Seq<u8> {
        encode_utf8(self.jwt_secret@)
    }

    pub open spec fn wf(self) -> bool {
        &&& self.key().len() > 0
        &&& self.jwt_expiration_hours >= 1
    }

    /// What a successful session for `user` at `now` consists of, or why
    /// none could be issued.
    pub open spec fn session(self, user: User, now: int, r: Result<LoginResponse, AuthError>) -> bool {
        let claims = claims_for(user.id@, user.email@, now, self.jwt_expiration_hours as int);
        match r {
            Ok(resp) => {
                &&& resp.user.id@ == user.id@
                &&& resp.user.email@ == user.email@
                &&& resp.user.created_at == user.created_at
                &&& resp.user.updated_at == user.updated_at
                &&& hs256_token(claims, self.key()) == Some(resp.token@)
                &&& hs256_decoded(resp.token@, self.key()) == Ok::<ClaimsModel, TokenError>(claims)
            },
            Err(e) => {
                &&& e == AuthError::JwtError
                &&& (!expiry_fits(now, self.jwt_expiration_hours as int) || hs256_token(
                    claims,
                    self.key(),
                ) is None)
            },
        }
    }

    /// The error registration stops with after the store lookup, if any.
    pub open spec fn register_refusal(lookup: Result<Option<User>, StoreError>) -> Option<AuthError> {
        match lookup {
            Err(_) => Some(AuthError::DatabaseError),
            Ok(Some(_)) => Some(AuthError::UserAlreadyExists),
            Ok(None) => None,
        }
    }

    /// The error login stops with after the store lookup and the password
    /// check, if any.
    pub open spec fn login_refusal(
        lookup: Result<Option<User>, StoreError>,
        password: Seq<char>,
    ) -> Option<AuthError> {
        match lookup {
            Err(_) => Some(AuthError::DatabaseError),
            Ok(None) => Some(AuthError::InvalidCredentials),
            Ok(Some(user)) => if argon2_accepts(password, user.password_hash@) {
                None
            } else {
                Some(AuthError::InvalidCredentials)
            },
        }
    }

    /// A service signing with `jwt_secret` and issuing tokens that live
    /// `jwt_expiration_hours` hours.
    pub fn new(jwt_secret: String, jwt_expiration_hours: i64) -> (r: AuthService)
        requires
            encode_utf8(jwt_secret@).len() > 0,
            jwt_expiration_hours >= 1,
        ensures
            r.wf(),
            r.jwt_secret@ == jwt_secret@,
            r.jwt_expiration_hours == jwt_expiration_hours,
    {
        AuthService { jwt_secret, jwt_expiration_hours }
    }

    /// Issues a session for `user` at `now`.
    fn generate_token(&self, user: &User, now: i64) -> (r: Result<LoginResponse, AuthError>)
        requires
            self.wf(),
        ensures
            self.session(*user, now as int, r),
    {
        let key = self.jwt_secret.as_str().as_bytes();
        match issue(user.id.as_str(), user.email.as_str(), now, self.jwt_expiration_hours, key) {
            Ok(token) => Ok(LoginResponse { token, user: UserResponse::from_user(user) }),
            Err(_) => Err(AuthError::JwtError),
        }
    }

    /// Registration, after the store was asked for `request.email`: refused if
    /// the lookup failed or found a record; otherwise the encoded hash of the
    /// secret, which the caller stores with the identifier.
    pub fn register_after_lookup(
        &self,
        lookup: Result<Option<User>, StoreError>,
        request: &RegisterRequest,
    ) -> (r: Result<String, AuthError>)
        ensures
            match Self::register_refusal(lookup) {
                Some(e) => r == Err::<String, AuthError>(e),
                None => match r {
                    Ok(h) => argon2_accepts(request.password@, h@),
                    Err(e) => e == AuthError::PasswordHashError,
                },
            },
    {
        match lookup {
            Err(_) => Err(AuthError::DatabaseError),
            Ok(Some(_)) => Err(AuthError::UserAlreadyExists),
            Ok(None) => match hash_password(request.password.as_str()) {
                Ok(h) => Ok(h),
                Err(_) => Err(AuthError::PasswordHashError),
            },
        }
    }

    /// Registration, after the store was asked to create the record: a
    /// uniqueness violation (a concurrent registration) is `UserAlreadyExists`,
    /// other store failures `DatabaseError`; a created record gets a session.
    pub fn register_after_create(&self, created: Result<User, StoreError>, now: i64) -> (r: Result<
        LoginResponse,
        AuthError,
    >)
        requires
            self.wf(),
        ensures
            match created {
                Err(StoreError::UniqueViolation) => r == Err::<LoginResponse, AuthError>(
                    AuthError::UserAlreadyExists,
                ),
                Err(StoreError::Unavailable) => r == Err::<LoginResponse, AuthError>(
                    AuthError::DatabaseError,
                ),
                Ok(user) => self.session(user, now as int, r),
            },
    {
        match created {
            Err(StoreError::UniqueViolation) => Err(AuthError::UserAlreadyExists),
            Err(StoreError::Unavailable) => Err(AuthError::DatabaseError),
            Ok(user) => self.generate_token(&user, now),
        }
    }

    /// Login, after the store was asked for `request.email`: an unknown
    /// identifier and a wrong secret are both `InvalidCredentials`; otherwise
    /// a session for the record found.
    pub fn login_after_lookup(
        &self,
        lookup: Result<Option<User>, StoreError>,
        request: &LoginRequest,
        now: i64,
    ) -> (r: Result<LoginResponse, AuthError>)
        requires
            self.wf(),
        ensures
            match Self::login_refusal(lookup, request.password@) {
                Some(e) => r == Err::<LoginResponse, AuthError>(e),
                None => self.session(lookup->Ok_0->Some_0, now as int, r),
            },
    {
        match lookup {
            Err(_) => Err(AuthError::DatabaseError),
            Ok(None) => Err(AuthError::InvalidCredentials),
            Ok(Some(user)) => {
                if !verify_password(request.password.as_str(), user.password_hash.as_str()) {
                    return Err(AuthError::InvalidCredentials);
                }
                self.generate_token(&user, now)
            },
        }
    }

    /// Verifies a token under this service's key at `now`.
    pub fn verify_token(&self, token: &str, now: i64) -> (r: Result<Claims, TokenError>)
        ensures
            match r {
                Ok(c) => verify_outcome(token@, self.key(), now as int) == Ok::<ClaimsModel, TokenError>(c@),
                Err(e) => verify_outcome(token@, self.key(), now as int) == Err::<ClaimsModel, TokenError>(e),
            },
    {
        verify(token, self.jwt_secret.as_str().as_bytes(), now)
    }

    /// The token of a session verifies under the service's key, at any time
    /// before its expiry, to claims whose subject is the record's id.
    pub proof fn lemma_session_token_verifies(
        self,
        user: User,
        now: int,
        resp: LoginResponse,
        later: int,
    )
        requires
            self.session(user, now, Ok(resp)),
            later < now + self.jwt_expiration_hours * 3600,
        ensures
            verify_outcome(resp.token@, self.key(), later) matches Ok(c) && c.0 == user.id@
                && c.1 == user.email@,
    {
    }

    /// Registering an identifier that the store already holds stops with
    /// `UserAlreadyExists` before any hash is made, so nothing is written.
    pub proof fn lemma_registered_identifier_refused(existing: User)
        ensures
            Self::register_refusal(Ok(Some(existing))) == Some(AuthError::UserAlreadyExists),
    {
    }

    /// Login cannot tell an unknown identifier from a known one with a wrong
    /// secret: both stop with the same error.
    pub proof fn lemma_login_refusals_alike(user: User, password: Seq<char>)
        requires
            !argon2_accepts(password, user.password_hash@),
        ensures
            Self::login_refusal(Ok(Some(user)), password) == Self::login_refusal(Ok(None), password),
            Self::login_refusal(Ok(None), password) == Some(AuthError::InvalidCredentials),
    {
    }
}

} // verus!
