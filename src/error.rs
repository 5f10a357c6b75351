//! Error classification.

use vstd::prelude::*;
use crate::text::joined;
use crate::ids::{id_text, hyphenated};
use crate::registry::RegistryError;

verus! {

/// Why a connection could not be established.
#[derive(Debug)]
pub enum ConnectError {
    /// The socket could not be opened.
    Network(String),
    /// The protocol negotiation failed.
    Handshake(String),
    /// The credentials were rejected.
    Auth(String),
    /// The deadline passed before the connection was ready.
    Timeout,
}

/// Why a command could not be run.
#[derive(Debug)]
pub enum ExecError {
    /// The session is unknown, not yet connected, or already terminal.
    NotFound,
    /// The deadline passed; the session has been invalidated.
    Timeout,
    /// The transport failed in mid-stream; the session has been invalidated.
    Protocol(String),
}

/// Why a session could not be opened.
#[derive(Debug)]
pub enum OpenError {
    Connect(ConnectError),
    /// The registry refused the request: a logic error, not a remote failure.
    Registry(RegistryError),
}

/// The service-level error reported to clients.
#[derive(Debug)]
pub enum KrownError {
    Database(String),
    Ssh(String),
    Auth(String),
    SessionNotFound { id: String },
    UserNotFound { username: String },
    PermissionDenied,
    InvalidInput(String),
    Config(String),
    WebSocket(String),
    Internal(String),
}

impl ConnectError {
    /// The text reported for a failed connection attempt.
    pub open spec fn report(self) -> Seq<char> {
        match self {
            ConnectError::Network(m) => "Connection failed: TCP connection failed: "@ + m@,
            ConnectError::Handshake(m) => "Connection failed: SSH handshake failed: "@ + m@,
            ConnectError::Auth(m) => "Connection failed: Authentication failed: "@ + m@,
            ConnectError::Timeout => "Connection timeout"@,
        }
    }

    /// The client-facing error for a failed connection attempt.
    pub fn into_krown(self) -> (r: KrownError)
        ensures
            r is Ssh && r->Ssh_0@ == self.report(),
    {
        match self {
            ConnectError::Network(m) => KrownError::Ssh(
                joined("Connection failed: TCP connection failed: ", m.as_str()),
            ),
            ConnectError::Handshake(m) => KrownError::Ssh(
                joined("Connection failed: SSH handshake failed: ", m.as_str()),
            ),
            ConnectError::Auth(m) => KrownError::Ssh(
                joined("Connection failed: Authentication failed: ", m.as_str()),
            ),
            ConnectError::Timeout => KrownError::Ssh(String::from_str("Connection timeout")),
        }
    }
}

impl ExecError {
    /// The client-facing error for a failed command on session `id`.
    pub fn into_krown(self, id: u128) -> (r: KrownError)
        ensures
            match self {
                ExecError::NotFound => r matches KrownError::SessionNotFound { id: t } && t@ == hyphenated(id),
                ExecError::Timeout => r matches KrownError::Ssh(m) && m@ == "Command execution timeout"@,
                ExecError::Protocol(why) => r == KrownError::Ssh(why),
            },
    {
        match self {
            ExecError::NotFound => KrownError::SessionNotFound { id: id_text(id) },
            ExecError::Timeout => KrownError::Ssh(String::from_str("Command execution timeout")),
            ExecError::Protocol(why) => KrownError::Ssh(why),
        }
    }
}

impl OpenError {
    /// The client-facing error for a failed attempt to open a session.
    pub fn into_krown(self) -> (r: KrownError)
        ensures
            match self {
                OpenError::Connect(e) => r is Ssh && r->Ssh_0@ == e.report(),
                OpenError::Registry(_) => r matches KrownError::Internal(m) && m@ == "Session registry conflict"@,
            },
    {
        match self {
            OpenError::Connect(e) => e.into_krown(),
            OpenError::Registry(_) => KrownError::Internal(String::from_str("Session registry conflict")),
        }
    }
}

impl KrownError {
    /// The human-readable message, prefixed with the error's class.
    pub fn message(&self) -> (r: String)
        ensures
            r@ == match self {
                KrownError::Database(m) => "Database error: "@ + m@,
                KrownError::Ssh(m) => "SSH connection error: "@ + m@,
                KrownError::Auth(m) => "Authentication error: "@ + m@,
                KrownError::SessionNotFound { id } => "Session not found: "@ + id@,
                KrownError::UserNotFound { username } => "User not found: "@ + username@,
                KrownError::PermissionDenied => "Permission denied"@,
                KrownError::InvalidInput(m) => "Invalid input: "@ + m@,
                KrownError::Config(m) => "Configuration error: "@ + m@,
                KrownError::WebSocket(m) => "WebSocket error: "@ + m@,
                KrownError::Internal(m) => "Internal error: "@ + m@,
            },
    {
        match self {
            KrownError::Database(m) => joined("Database error: ", m.as_str()),
            KrownError::Ssh(m) => joined("SSH connection error: ", m.as_str()),
            KrownError::Auth(m) => joined("Authentication error: ", m.as_str()),
            KrownError::SessionNotFound { id } => joined("Session not found: ", id.as_str()),
            KrownError::UserNotFound { username } => joined("User not found: ", username.as_str()),
            KrownError::PermissionDenied => String::from_str("Permission denied"),
            KrownError::InvalidInput(m) => joined("Invalid input: ", m.as_str()),
            KrownError::Config(m) => joined("Configuration error: ", m.as_str()),
            KrownError::WebSocket(m) => joined("WebSocket error: ", m.as_str()),
            KrownError::Internal(m) => joined("Internal error: ", m.as_str()),
        }
    }

    /// The HTTP status under which the error is reported.
    pub fn status_code(&self) -> (r: u16)
        ensures
            r == match self {
                KrownError::SessionNotFound { .. } | KrownError::UserNotFound { .. } => 404u16,
                KrownError::Auth(_) | KrownError::PermissionDenied => 401u16,
                KrownError::InvalidInput(_) => 400u16,
                _ => 500u16,
            },
    {
        match self {
            KrownError::SessionNotFound { .. } | KrownError::UserNotFound { .. } => 404,
            KrownError::Auth(_) | KrownError::PermissionDenied => 401,
            KrownError::InvalidInput(_) => 400,
            _ => 500,
        }
    }
}

} // verus!
