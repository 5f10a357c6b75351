//! Service configuration and its validation.

use vstd::prelude::*;
use crate::error::KrownError;

verus! {

#[derive(Clone, Debug)]
pub struct Config {
    pub server: ServerConfig,
    pub database: DatabaseConfig,
    pub ssh: SshConfig,
    pub auth: AuthConfig,
    pub logging: LoggingConfig,
    /// The file the configuration was read from.
    pub config_path: String,
}

#[derive(Clone, Debug)]
pub struct ServerConfig {
    pub host: String,
    pub port: u16,
    pub cors_origins: Vec<String>,
}

#[derive(Clone, Debug)]
pub struct DatabaseConfig {
    pub url: String,
    pub max_connections: u32,
}

#[derive(Clone, Copy, Debug)]
pub struct SshConfig {
    pub connect_timeout_secs: u64,
    pub command_timeout_secs: u64,
    pub keepalive_interval_secs: u64,
    pub max_sessions_per_user: usize,
}

#[derive(Clone, Debug)]
pub struct AuthConfig {
    pub jwt_secret: String,
    pub jwt_expiration_hours: u64,
    pub password_min_length: usize,
    pub session_timeout_minutes: u64,
}

#[derive(Clone, Debug)]
pub struct LoggingConfig {
    pub level: String,
    pub file_path: Option<String>,
}

/// The shortest minimum password length a configuration may ask for.
pub const MIN_PASSWORD_LENGTH: usize = 8;

impl Config {
    /// Accepts a configuration with a non-empty token secret and a minimum
    /// password length of at least 8; the first check that fails names the error.
    pub fn validate(&self) -> (r: Result<(), KrownError>)
        ensures
            self.auth.jwt_secret@.len() == 0 ==> (r matches Err(KrownError::Config(m)) && m@
                == "JWT secret cannot be empty"@),
            self.auth.jwt_secret@.len() > 0 && self.auth.password_min_length < 8 ==> (r matches Err(
                KrownError::Config(m),
            ) && m@ == "Password minimum length must be at least 8"@),
            r is Ok <==> self.auth.jwt_secret@.len() > 0 && self.auth.password_min_length >= 8,
    {
        if self.auth.jwt_secret.as_str().is_empty() {
            return Err(KrownError::Config(String::from_str("JWT secret cannot be empty")));
        }
        if self.auth.password_min_length < MIN_PASSWORD_LENGTH {
            return Err(KrownError::Config(String::from_str("Password minimum length must be at least 8")));
        }
        Ok(())
    }

    /// The built-in configuration. The token secret is the one given (read
    /// from the environment by the caller), else a placeholder to be changed.
    pub fn default(jwt_secret: Option<String>) -> (r: Config)
        ensures
            r.server.host@ == "0.0.0.0"@,
            r.server.port == 8080,
            r.server.cors_origins@.len() == 1,
            r.server.cors_origins@[0]@ == "http://localhost:3000"@,
            r.database.url@ == "sqlite:krown.db"@,
            r.database.max_connections == 10,
            r.ssh == (SshConfig {
                connect_timeout_secs: 30,
                command_timeout_secs: 60,
                keepalive_interval_secs: 30,
                max_sessions_per_user: 10,
            }),
            r.auth.jwt_secret@ == match jwt_secret {
                Some(s) => s@,
                None => "CHANGE_THIS_SECRET_IN_PRODUCTION"@,
            },
            r.auth.jwt_expiration_hours == 24,
            r.auth.password_min_length == 8,
            r.auth.session_timeout_minutes == 60,
            r.logging.level@ == "info"@,
            r.logging.file_path matches Some(p) && p@ == "krown.log"@,
            r.config_path@ == "config.toml"@,
    {
        Config {
            server: ServerConfig {
                host: String::from_str("0.0.0.0"),
                port: 8080,
                cors_origins: vec![String::from_str("http://localhost:3000")],
            },
            database: DatabaseConfig { url: String::from_str("sqlite:krown.db"), max_connections: 10 },
            ssh: SshConfig {
                connect_timeout_secs: 30,
                command_timeout_secs: 60,
                keepalive_interval_secs: 30,
                max_sessions_per_user: 10,
            },
            auth: AuthConfig {
                jwt_secret: match jwt_secret {
                    Some(s) => s,
                    None => String::from_str("CHANGE_THIS_SECRET_IN_PRODUCTION"),
                },
                jwt_expiration_hours: 24,
                password_min_length: 8,
                session_timeout_minutes: 60,
            },
            logging: LoggingConfig {
                level: String::from_str("info"),
                file_path: Some(String::from_str("krown.log")),
            },
            config_path: String::from_str("config.toml"),
        }
    }
}

} // verus!
