use vstd::prelude::*;
use vstd::utf8::encode_utf8;

verus! {

/// Deployment environment of the service.
#[derive(Clone, Copy, Debug, PartialEq, Eq, Structural)]
pub enum Environment {
    Development,
    Production,
}

/// Settings the service is started with.
#[derive(Clone, Debug)]
pub struct Config {
    pub server_port: u16,
    pub server_host: String,
    pub database_url: String,
    pub jwt_secret: String,
    pub jwt_expiration_hours: i64,
    pub rate_limit_rps: u32,
    pub rate_limit_burst: u32,
    pub environment: Environment,
    pub allowed_origins: Vec<String>,
}

impl Config {
    /// Whether the settings the core relies on hold: a non-empty signing
    /// secret, a positive token lifetime, and a positive refill rate and
    /// burst capacity.
    pub fn is_valid(&self) -> (r: bool)
        ensures
            r == (encode_utf8(self.jwt_secret@).len() > 0 && self.jwt_expiration_hours >= 1
                && self.rate_limit_rps >= 1 && self.rate_limit_burst >= 1),
    {
        self.jwt_secret.as_str().as_bytes().len() > 0 && self.jwt_expiration_hours >= 1
            && self.rate_limit_rps >= 1 && self.rate_limit_burst >= 1
    }

    /// Whether the service runs in production.
    pub fn is_production(&self) -> (r: bool)
        ensures
            r == (self.environment == Environment::Production),
    {
        self.environment == Environment::Production
    }
}

} // verus!
