//! Settings and roles that every service shares: server, database, cache and
//! token settings, each read from the environment with its fallbacks.
use vstd::prelude::*;
use crate::env::{EnvVars, setting_text, setting_num, setting_nonempty, setting_list};

verus! {

pub struct ServerConfig {
    pub host: String,
    pub port: u16,
    pub cors_origins: Vec<String>,
}

pub struct DatabaseConfig {
    pub host: String,
    pub port: u16,
    pub username: String,
    pub password: String,
    pub database: String,
    pub max_connections: u32,
}

pub struct RedisConfig {
    pub host: String,
    pub port: u16,
    pub password: Option<String>,
    pub database: u8,
}

pub struct JwtConfig {
    pub secret: String,
    pub expiration_hours: u64,
    pub issuer: String,
}

/// The roles a user of the platform can hold.
#[derive(PartialEq, Eq, Structural, Clone, Copy, Debug)]
pub enum UserRole {
    Mentor,
    Mentee,
    Admin,
}

/// The errors the services answer with, each with its message.
#[derive(Clone, Debug, PartialEq, Eq)]
pub enum AppError {
    BadRequest(String),
    Unauthorized(String),
    Forbidden(String),
    NotFound(String),
    TooManyRequests(String),
    Internal(String),
    Database(String),
}

/// A role's name as `{:?}` prints it.
pub open spec fn role_name(r: UserRole) -> Seq<char> {
    match r {
        UserRole::Mentor => "Mentor"@,
        UserRole::Mentee => "Mentee"@,
        UserRole::Admin => "Admin"@,
    }
}

impl UserRole {
    /// The role's name as `{:?}` prints it.
    pub fn name(&self) -> (s: &'static str)
        ensures
            s@ == role_name(*self),
    {
        match self {
            UserRole::Mentor => "Mentor",
            UserRole::Mentee => "Mentee",
            UserRole::Admin => "Admin",
        }
    }
}

/// The server settings read from `host_var` and `port_var`, with the shared
/// `CORS_ORIGINS` list.
pub open spec fn server_config_matches(c: ServerConfig, vars: Seq<(String, String)>, host_var: Seq<char>, port_var: Seq<char>, default_port: u16) -> bool {
    &&& c.host@ == setting_text(vars, host_var, "0.0.0.0"@)
    &&& c.port as nat == setting_num(vars, port_var, u16::MAX as nat, default_port as nat)
    &&& c.cors_origins@.len() == setting_list(vars, "CORS_ORIGINS"@, "http://localhost:3000"@).len()
    &&& forall|i: int| 0 <= i < c.cors_origins@.len() ==> #[trigger] c.cors_origins@[i]@ == setting_list(vars, "CORS_ORIGINS"@, "http://localhost:3000"@)[i]
}

pub open spec fn database_config_matches(c: DatabaseConfig, vars: Seq<(String, String)>) -> bool {
    &&& c.host@ == setting_text(vars, "DATABASE_HOST"@, "localhost"@)
    &&& c.port as nat == setting_num(vars, "DATABASE_PORT"@, u16::MAX as nat, 5432)
    &&& c.username@ == setting_text(vars, "DATABASE_USERNAME"@, "linkwithmentor_user"@)
    &&& c.password@ == setting_text(vars, "DATABASE_PASSWORD"@, "linkwithmentor_password"@)
    &&& c.database@ == setting_text(vars, "DATABASE_NAME"@, "linkwithmentor"@)
    &&& c.max_connections as nat == setting_num(vars, "DATABASE_MAX_CONNECTIONS"@, u32::MAX as nat, 10)
}

pub open spec fn redis_config_matches(c: RedisConfig, vars: Seq<(String, String)>, default_db: u8) -> bool {
    &&& c.host@ == setting_text(vars, "REDIS_HOST"@, "localhost"@)
    &&& c.port as nat == setting_num(vars, "REDIS_PORT"@, u16::MAX as nat, 6379)
    &&& match setting_nonempty(vars, "REDIS_PASSWORD"@) {
        Some(p) => c.password is Some && c.password->0@ == p,
        None => c.password is None,
    }
    &&& c.database as nat == setting_num(vars, "REDIS_DATABASE"@, u8::MAX as nat, default_db as nat)
}

pub open spec fn jwt_config_matches(c: JwtConfig, vars: Seq<(String, String)>) -> bool {
    &&& c.secret@ == setting_text(vars, "JWT_SECRET"@, "dev-secret-key-change-in-production"@)
    &&& c.expiration_hours as nat == setting_num(vars, "JWT_EXPIRATION_HOURS"@, u64::MAX as nat, 24)
    &&& c.issuer@ == setting_text(vars, "JWT_ISSUER"@, "linkwithmentor"@)
}

impl ServerConfig {
    /// Host from `host_var` (default `0.0.0.0`), port from `port_var`, and the
    /// comma-separated `CORS_ORIGINS` (default `http://localhost:3000`).
    pub fn from_env(env: &EnvVars, host_var: &str, port_var: &str, default_port: u16) -> (c: Self)
        ensures
            server_config_matches(c, env.vars@, host_var@, port_var@, default_port),
    {
        ServerConfig {
            host: env.text_or(host_var, "0.0.0.0"),
            port: env.u16_or(port_var, default_port),
            cors_origins: env.list_or("CORS_ORIGINS", "http://localhost:3000"),
        }
    }
}

impl DatabaseConfig {
    pub fn from_env(env: &EnvVars) -> (c: Self)
        ensures
            database_config_matches(c, env.vars@),
    {
        DatabaseConfig {
            host: env.text_or("DATABASE_HOST", "localhost"),
            port: env.u16_or("DATABASE_PORT", 5432),
            username: env.text_or("DATABASE_USERNAME", "linkwithmentor_user"),
            password: env.text_or("DATABASE_PASSWORD", "linkwithmentor_password"),
            database: env.text_or("DATABASE_NAME", "linkwithmentor"),
            max_connections: env.u32_or("DATABASE_MAX_CONNECTIONS", 10),
        }
    }
}

impl RedisConfig {
    /// Redis settings; `default_db` is the service's own database number.
    pub fn from_env(env: &EnvVars, default_db: u8) -> (c: Self)
        ensures
            redis_config_matches(c, env.vars@, default_db),
    {
        RedisConfig {
            host: env.text_or("REDIS_HOST", "localhost"),
            port: env.u16_or("REDIS_PORT", 6379),
            password: env.nonempty("REDIS_PASSWORD"),
            database: env.u8_or("REDIS_DATABASE", default_db),
        }
    }
}

impl JwtConfig {
    pub fn from_env(env: &EnvVars) -> (c: Self)
        ensures
            jwt_config_matches(c, env.vars@),
    {
        JwtConfig {
            secret: env.text_or("JWT_SECRET", "dev-secret-key-change-in-production"),
            expiration_hours: env.u64_or("JWT_EXPIRATION_HOURS", 24),
            issuer: env.text_or("JWT_ISSUER", "linkwithmentor"),
        }
    }
}

} // verus!
