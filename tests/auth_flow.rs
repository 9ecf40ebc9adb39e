use auth_core::config::{Config, Environment};
use auth_core::gate::{authorize, strip_bearer, AuthError as GateError};
use auth_core::models::{LoginRequest, LoginResponse, RegisterRequest, User};
use auth_core::service::{AuthError, AuthHandlerError, AuthService, StoreError};
use auth_core::token::{issue, verify};

const NOW: i64 = 1_700_000_000;

struct Store {
    users: Vec<User>,
    lookups: usize,
    writes: usize,
}

impl Store {
    fn new() -> Store {
        Store { users: Vec::new(), lookups: 0, writes: 0 }
    }

    fn find(&mut self, email: &str) -> Result<Option<User>, StoreError> {
        self.lookups += 1;
        Ok(self.users.iter().find(|u| u.email == email).cloned())
    }

    fn create(&mut self, email: &str, hash: &str) -> Result<User, StoreError> {
        self.writes += 1;
        if self.users.iter().any(|u| u.email == email) {
            return Err(StoreError::UniqueViolation);
        }
        let user = User {
            id: format!("00000000-0000-4000-8000-{:012}", self.users.len() + 1),
            email: email.to_string(),
            password_hash: hash.to_string(),
            created_at: NOW,
            updated_at: NOW,
        };
        self.users.push(user.clone());
        Ok(user)
    }
}

fn service() -> AuthService {
    AuthService::new("test-secret".to_string(), 24)
}

fn register(s: &AuthService, store: &mut Store, email: &str, pw: &str) -> Result<LoginResponse, AuthError> {
    let req = RegisterRequest { email: email.to_string(), password: pw.to_string() };
    let found = store.find(&req.email);
    let hash = s.register_after_lookup(found, &req)?;
    let created = store.create(&req.email, &hash);
    s.register_after_create(created, NOW)
}

fn login(s: &AuthService, store: &mut Store, email: &str, pw: &str) -> Result<LoginResponse, AuthError> {
    let req = LoginRequest { email: email.to_string(), password: pw.to_string() };
    let found = store.find(&req.email);
    s.login_after_lookup(found, &req, NOW)
}

#[test]
fn end_to_end_register_login() {
    let s = service();
    let mut store = Store::new();
    let reg = register(&s, &mut store, "a@x.com", "pw123").unwrap();
    let claims = s.verify_token(&reg.token, NOW + 1).unwrap();
    assert_eq!(claims.sub, reg.user.id);
    assert_eq!(claims.sub, store.users[0].id);
    assert_eq!(claims.email, "a@x.com");
    let ok = login(&s, &mut store, "a@x.com", "pw123").unwrap();
    assert_eq!(ok.user.id, reg.user.id);
    assert_eq!(login(&s, &mut store, "a@x.com", "wrong").unwrap_err(), AuthError::InvalidCredentials);
    assert_eq!(register(&s, &mut store, "a@x.com", "pw2").unwrap_err(), AuthError::UserAlreadyExists);
    assert_eq!(store.users.len(), 1);
}

#[test]
fn second_registration_is_refused_without_a_write() {
    let s = service();
    let mut store = Store::new();
    register(&s, &mut store, "b@x.com", "pw").unwrap();
    assert_eq!((store.lookups, store.writes), (1, 1));
    assert_eq!(register(&s, &mut store, "b@x.com", "pw").unwrap_err(), AuthError::UserAlreadyExists);
    assert_eq!((store.lookups, store.writes), (2, 1));
    assert_eq!(store.users.len(), 1);
}

#[test]
fn login_token_carries_record_id() {
    let s = service();
    let mut store = Store::new();
    register(&s, &mut store, "c@x.com", "secret").unwrap();
    let writes = store.writes;
    let r = login(&s, &mut store, "c@x.com", "secret").unwrap();
    assert_eq!(store.writes, writes);
    let c = verify(&r.token, b"test-secret", NOW + 3600).unwrap();
    assert_eq!(c.sub, store.users[0].id);
    assert_eq!(c.iat, NOW);
    assert_eq!(c.exp, NOW + 24 * 3600);
}

#[test]
fn unknown_identifier_and_wrong_secret_look_alike() {
    let s = service();
    let mut store = Store::new();
    register(&s, &mut store, "d@x.com", "right").unwrap();
    let unknown = login(&s, &mut store, "nobody@x.com", "right").unwrap_err();
    let wrong = login(&s, &mut store, "d@x.com", "wrong").unwrap_err();
    assert_eq!(unknown, AuthError::InvalidCredentials);
    assert_eq!(unknown, wrong);
    assert_eq!(unknown.message(), wrong.message());
}

#[test]
fn store_failures_map_to_database_error() {
    let s = service();
    let req = RegisterRequest { email: "e@x.com".to_string(), password: "pw".to_string() };
    assert_eq!(s.register_after_lookup(Err(StoreError::Unavailable), &req).unwrap_err(), AuthError::DatabaseError);
    assert_eq!(s.register_after_create(Err(StoreError::Unavailable), NOW).unwrap_err(), AuthError::DatabaseError);
    let lreq = LoginRequest { email: "e@x.com".to_string(), password: "pw".to_string() };
    assert_eq!(s.login_after_lookup(Err(StoreError::Unavailable), &lreq, NOW).unwrap_err(), AuthError::DatabaseError);
}

#[test]
fn concurrent_duplicate_create_is_already_exists() {
    let s = service();
    assert_eq!(s.register_after_create(Err(StoreError::UniqueViolation), NOW).unwrap_err(), AuthError::UserAlreadyExists);
}

#[test]
fn stored_hash_that_does_not_parse_is_invalid_credentials() {
    let s = service();
    let user = User {
        id: "x".to_string(),
        email: "f@x.com".to_string(),
        password_hash: "garbage".to_string(),
        created_at: 0,
        updated_at: 0,
    };
    let req = LoginRequest { email: "f@x.com".to_string(), password: "pw".to_string() };
    assert_eq!(s.login_after_lookup(Ok(Some(user)), &req, NOW).unwrap_err(), AuthError::InvalidCredentials);
}

#[test]
fn error_status_table() {
    assert_eq!(AuthError::InvalidCredentials.status_code(), 401);
    assert_eq!(AuthError::UserAlreadyExists.status_code(), 409);
    assert_eq!(AuthError::DatabaseError.status_code(), 500);
    assert_eq!(AuthError::PasswordHashError.status_code(), 500);
    assert_eq!(AuthError::JwtError.status_code(), 500);
    assert_eq!(AuthError::DatabaseError.message(), "Database error");
    let h = AuthHandlerError::from(AuthError::UserAlreadyExists);
    assert_eq!(h.status_code(), 409);
    assert_eq!(h.message(), "User already exists");
}

#[test]
fn gate_missing_header() {
    let s = service();
    assert_eq!(authorize(&s, None, NOW).unwrap_err(), GateError::MissingToken);
    assert_eq!(GateError::MissingToken.status_code(), 401);
}

#[test]
fn gate_wrong_scheme() {
    let s = service();
    let t = issue("id", "g@x.com", NOW, 1, b"test-secret").unwrap();
    assert_eq!(authorize(&s, Some(&format!("Basic {}", t)), NOW).unwrap_err(), GateError::InvalidToken);
    assert_eq!(authorize(&s, Some(&t), NOW).unwrap_err(), GateError::InvalidToken);
    assert_eq!(authorize(&s, Some("bearer x"), NOW).unwrap_err(), GateError::InvalidToken);
}

#[test]
fn gate_valid_and_expired() {
    let s = service();
    let t = issue("id-9", "g@x.com", NOW, 1, b"test-secret").unwrap();
    let header = format!("Bearer {}", t);
    assert_eq!(authorize(&s, Some(&header), NOW + 10).unwrap().sub, "id-9");
    assert_eq!(authorize(&s, Some(&header), NOW + 3600).unwrap_err(), GateError::InvalidToken);
    let foreign = issue("id-9", "g@x.com", NOW, 1, b"other").unwrap();
    assert_eq!(authorize(&s, Some(&format!("Bearer {}", foreign)), NOW).unwrap_err(), GateError::InvalidToken);
}

#[test]
fn strip_bearer_prefix() {
    assert_eq!(strip_bearer("Bearer abc"), Some("abc"));
    assert_eq!(strip_bearer("Bearer "), Some(""));
    assert_eq!(strip_bearer("Bearer"), None);
    assert_eq!(strip_bearer("Token abc"), None);
    assert_eq!(strip_bearer("Bearér abc"), None);
}

#[test]
fn production_environment() {
    let mut c = Config {
        server_port: 8080,
        server_host: "0.0.0.0".to_string(),
        database_url: "postgres://localhost/db".to_string(),
        jwt_secret: "s".to_string(),
        jwt_expiration_hours: 24,
        rate_limit_rps: 10,
        rate_limit_burst: 20,
        environment: Environment::Development,
        allowed_origins: vec!["http://localhost:3000".to_string()],
    };
    assert!(!c.is_production());
    assert!(c.is_valid());
    c.environment = Environment::Production;
    assert!(c.is_production());
    c.jwt_secret = String::new();
    assert!(!c.is_valid());
    c.jwt_secret = "s".to_string();
    c.rate_limit_burst = 0;
    assert!(!c.is_valid());
}
