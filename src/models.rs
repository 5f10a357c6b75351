//! The data that the session core reads and produces.

use vstd::prelude::*;
use crate::text::text_eq;

verus! {

/// Where a session stands in its lifecycle.
#[derive(Clone, Copy, Debug, PartialEq, Eq, Structural)]
pub enum SessionStatus {
    Connecting,
    Connected,
    Disconnected,
    Error,
}

impl SessionStatus {
    /// Disconnected and Error admit no further transition.
    pub open spec fn terminal(self) -> bool {
        self == SessionStatus::Disconnected || self == SessionStatus::Error
    }

    /// The lifecycle: Connecting becomes Connected once; any non-terminal
    /// status may fall into Disconnected or Error; a terminal one never moves.
    pub open spec fn allows(self, next: SessionStatus) -> bool {
        match self {
            SessionStatus::Connecting => next != SessionStatus::Connecting,
            SessionStatus::Connected => next.terminal(),
            _ => false,
        }
    }

    /// The lower-case name under which a status is stored.
    pub open spec fn name_spec(self) -> Seq<char> {
        match self {
            SessionStatus::Connecting => "connecting"@,
            SessionStatus::Connected => "connected"@,
            SessionStatus::Disconnected => "disconnected"@,
            SessionStatus::Error => "error"@,
        }
    }

    pub fn is_terminal(&self) -> (r: bool)
        ensures
            r == self.terminal(),
    {
        match self {
            SessionStatus::Disconnected | SessionStatus::Error => true,
            _ => false,
        }
    }

    pub fn can_transition(&self, next: SessionStatus) -> (r: bool)
        ensures
            r == self.allows(next),
    {
        match self {
            SessionStatus::Connecting => next != SessionStatus::Connecting,
            SessionStatus::Connected => next.is_terminal(),
            _ => false,
        }
    }

    pub fn as_str(&self) -> (r: &'static str)
        ensures
            r@ == self.name_spec(),
    {
        match self {
            SessionStatus::Connecting => "connecting",
            SessionStatus::Connected => "connected",
            SessionStatus::Disconnected => "disconnected",
            SessionStatus::Error => "error",
        }
    }

    /// Reads a stored status name; an unknown name reads as Error.
    pub fn parse(s: &str) -> (r: SessionStatus)
        ensures
            s@ == "connecting"@ ==> r == SessionStatus::Connecting,
            s@ == "connected"@ ==> r == SessionStatus::Connected,
            s@ == "disconnected"@ ==> r == SessionStatus::Disconnected,
            s@ != "connecting"@ && s@ != "connected"@ && s@ != "disconnected"@
                ==> r == SessionStatus::Error,
    {
        proof {
            reveal_strlit("connecting");
            reveal_strlit("connected");
            reveal_strlit("disconnected");
            assert("connecting"@.len() != "connected"@.len());
            assert("connecting"@.len() != "disconnected"@.len());
            assert("connected"@.len() != "disconnected"@.len());
        }
        if text_eq(s, "connecting") {
            SessionStatus::Connecting
        } else if text_eq(s, "connected") {
            SessionStatus::Connected
        } else if text_eq(s, "disconnected") {
            SessionStatus::Disconnected
        } else {
            SessionStatus::Error
        }
    }
}

/// One logical remote connection as the core tracks it.
///
/// Identifiers are 128-bit values; times are milliseconds since the Unix
/// epoch, in UTC.
#[derive(Debug)]
pub struct Session {
    pub id: u128,
    pub user_id: u128,
    pub host: String,
    pub port: u16,
    pub username: String,
    pub status: SessionStatus,
    pub created_at: i64,
    pub updated_at: i64,
    pub closed_at: Option<i64>,
}

impl Session {
    /// A field-for-field copy.
    pub fn duplicate(&self) -> (r: Session)
        ensures
            r == *self,
    {
        Session {
            id: self.id,
            user_id: self.user_id,
            host: self.host.clone(),
            port: self.port,
            username: self.username.clone(),
            status: self.status,
            created_at: self.created_at,
            updated_at: self.updated_at,
            closed_at: self.closed_at,
        }
    }
}

/// What a user of the service may do.
#[derive(Clone, Copy, Debug, PartialEq, Eq, Structural)]
pub enum UserRole {
    Admin,
    Operator,
    ReadOnly,
}

impl UserRole {
    /// The lower-case name under which a role is stored.
    pub open spec fn name_spec(self) -> Seq<char> {
        match self {
            UserRole::Admin => "admin"@,
            UserRole::Operator => "operator"@,
            UserRole::ReadOnly => "readonly"@,
        }
    }

    pub fn as_str(&self) -> (r: &'static str)
        ensures
            r@ == self.name_spec(),
    {
        match self {
            UserRole::Admin => "admin",
            UserRole::Operator => "operator",
            UserRole::ReadOnly => "readonly",
        }
    }

    /// Reads a stored role name; `None` for a name that is none of the three.
    pub fn parse(s: &str) -> (r: Option<UserRole>)
        ensures
            match r {
                Some(role) => role.name_spec() == s@,
                None => s@ != "admin"@ && s@ != "operator"@ && s@ != "readonly"@,
            },
    {
        proof {
            reveal_strlit("admin");
            reveal_strlit("operator");
            reveal_strlit("readonly");
            assert("admin"@.len() != "operator"@.len());
            assert("admin"@.len() != "readonly"@.len());
            assert("operator"@[0] != "readonly"@[0]);
        }
        if text_eq(s, "admin") {
            Some(UserRole::Admin)
        } else if text_eq(s, "operator") {
            Some(UserRole::Operator)
        } else if text_eq(s, "readonly") {
            Some(UserRole::ReadOnly)
        } else {
            None
        }
    }
}

/// A registered user. Times are milliseconds since the Unix epoch.
#[derive(Debug)]
pub struct User {
    pub id: u128,
    pub username: String,
    pub password_hash: String,
    pub email: Option<String>,
    pub role: UserRole,
    pub created_at: i64,
    pub updated_at: i64,
    pub last_login: Option<i64>,
}

#[derive(Debug)]
pub struct CreateUserRequest {
    pub username: String,
    pub password: String,
    pub email: Option<String>,
    pub role: UserRole,
}

#[derive(Debug)]
pub struct LoginRequest {
    pub username: String,
    pub password: String,
}

#[derive(Debug)]
pub struct LoginResponse {
    pub token: String,
    pub user: UserInfo,
}

/// What may be shown of a user: everything but the password hash and times.
#[derive(Debug)]
pub struct UserInfo {
    pub id: u128,
    pub username: String,
    pub email: Option<String>,
    pub role: UserRole,
}

impl From<User> for UserInfo {
    fn from(user: User) -> (r: UserInfo) {
        UserInfo { id: user.id, username: user.username, email: user.email, role: user.role }
    }
}

impl vstd::std_specs::convert::FromSpecImpl<User> for UserInfo {
    open spec fn obeys_from_spec() -> bool {
        true
    }

    open spec fn from_spec(user: User) -> UserInfo {
        UserInfo { id: user.id, username: user.username, email: user.email, role: user.role }
    }
}

/// The claims that a session token carries.
#[derive(Debug)]
pub struct Claims {
    /// The user's identifier, as text.
    pub sub: String,
    pub username: String,
    pub role: String,
    /// Expiry, in seconds since the Unix epoch.
    pub exp: i64,
}

/// A saved remote host with its credentials; `auth_method` is "password" or "key".
#[derive(Debug)]
pub struct Server {
    pub id: u128,
    pub user_id: u128,
    pub name: String,
    pub host: String,
    pub port: u16,
    pub username: String,
    pub auth_method: String,
    pub password: Option<String>,
    pub private_key: Option<String>,
    pub passphrase: Option<String>,
    pub created_at: i64,
    pub updated_at: i64,
}

#[derive(Debug)]
pub struct CreateServerRequest {
    pub name: String,
    pub host: String,
    pub port: Option<u16>,
    pub username: String,
    pub auth_method: String,
    pub password: Option<String>,
    pub private_key: Option<String>,
    pub passphrase: Option<String>,
}

#[derive(Debug)]
pub struct UpdateServerRequest {
    pub name: Option<String>,
    pub host: Option<String>,
    pub port: Option<u16>,
    pub username: Option<String>,
    pub auth_method: Option<String>,
    pub password: Option<String>,
    pub private_key: Option<String>,
    pub passphrase: Option<String>,
}

/// What may be shown of a saved server: everything but its credentials.
#[derive(Debug)]
pub struct ServerInfo {
    pub id: u128,
    pub user_id: u128,
    pub name: String,
    pub host: String,
    pub port: u16,
    pub username: String,
    pub auth_method: String,
    pub created_at: i64,
    pub updated_at: i64,
}

impl From<Server> for ServerInfo {
    fn from(server: Server) -> (r: ServerInfo) {
        ServerInfo {
            id: server.id,
            user_id: server.user_id,
            name: server.name,
            host: server.host,
            port: server.port,
            username: server.username,
            auth_method: server.auth_method,
            created_at: server.created_at,
            updated_at: server.updated_at,
        }
    }
}

impl vstd::std_specs::convert::FromSpecImpl<Server> for ServerInfo {
    open spec fn obeys_from_spec() -> bool {
        true
    }

    open spec fn from_spec(server: Server) -> ServerInfo {
        ServerInfo {
            id: server.id,
            user_id: server.user_id,
            name: server.name,
            host: server.host,
            port: server.port,
            username: server.username,
            auth_method: server.auth_method,
            created_at: server.created_at,
            updated_at: server.updated_at,
        }
    }
}

/// A stored command run, as read back from the log.
#[derive(Debug)]
pub struct CommandLog {
    pub id: u128,
    pub session_id: u128,
    pub command: String,
    pub stdout: String,
    pub stderr: String,
    pub exit_code: Option<i32>,
    pub executed_at: i64,
    pub duration_ms: u64,
}

/// How the remote user proves who it is.
#[derive(Debug)]
pub enum AuthMethod {
    Password { password: String },
    Key { private_key: String, passphrase: Option<String> },
}

/// A client's request to open a session; the port defaults to 22.
#[derive(Debug)]
pub struct CreateSessionRequest {
    pub host: String,
    pub port: Option<u16>,
    pub username: String,
    pub auth_method: AuthMethod,
}

/// A client's request to run a command, with an optional deadline in seconds.
#[derive(Debug)]
pub struct ExecuteCommandRequest {
    pub command: String,
    pub timeout_secs: Option<u64>,
}

/// One completed command run; never changed once made.
#[derive(Debug)]
pub struct CommandExecution {
    pub id: u128,
    pub session_id: u128,
    pub command: String,
    pub stdout: String,
    pub stderr: String,
    /// Absent where the transport gave no exit status.
    pub exit_code: Option<i32>,
    pub executed_at: i64,
    pub duration_ms: u64,
}

impl CommandExecution {
    /// A field-for-field copy.
    pub fn duplicate(&self) -> (r: CommandExecution)
        ensures
            r == *self,
    {
        CommandExecution {
            id: self.id,
            session_id: self.session_id,
            command: self.command.clone(),
            stdout: self.stdout.clone(),
            stderr: self.stderr.clone(),
            exit_code: self.exit_code,
            executed_at: self.executed_at,
            duration_ms: self.duration_ms,
        }
    }
}

/// The port to dial: the requested one, else 22.
pub open spec fn port_or_default(port: Option<u16>) -> u16 {
    match port {
        Some(p) => p,
        None => 22,
    }
}

impl CreateSessionRequest {
    pub fn effective_port(&self) -> (r: u16)
        ensures
            r == port_or_default(self.port),
    {
        match self.port {
            Some(p) => p,
            None => 22,
        }
    }
}

/// An event sent to a connected client; the tag names the variant.
#[derive(Debug)]
pub enum WebSocketEvent {
    Welcome { message: String },
    Authenticated { user_id: String, username: String },
    Subscribed { session_id: String },
    /// A chunk of command output; `stream` is "stdout" or "stderr".
    Output { session_id: String, stream: String, data: String },
    CommandComplete { session_id: String, exit_code: i32 },
    SessionStatus { session_id: String, status: String },
    Error { message: String },
    Pong,
}

impl WebSocketEvent {
    /// A variant-for-variant copy.
    pub fn duplicate(&self) -> (r: WebSocketEvent)
        ensures
            r == *self,
    {
        match self {
            WebSocketEvent::Welcome { message } => WebSocketEvent::Welcome { message: message.clone() },
            WebSocketEvent::Authenticated { user_id, username } => WebSocketEvent::Authenticated {
                user_id: user_id.clone(),
                username: username.clone(),
            },
            WebSocketEvent::Subscribed { session_id } => WebSocketEvent::Subscribed {
                session_id: session_id.clone(),
            },
            WebSocketEvent::Output { session_id, stream, data } => WebSocketEvent::Output {
                session_id: session_id.clone(),
                stream: stream.clone(),
                data: data.clone(),
            },
            WebSocketEvent::CommandComplete { session_id, exit_code } => WebSocketEvent::CommandComplete {
                session_id: session_id.clone(),
                exit_code: *exit_code,
            },
            WebSocketEvent::SessionStatus { session_id, status } => WebSocketEvent::SessionStatus {
                session_id: session_id.clone(),
                status: status.clone(),
            },
            WebSocketEvent::Error { message } => WebSocketEvent::Error { message: message.clone() },
            WebSocketEvent::Pong => WebSocketEvent::Pong,
        }
    }
}

} // verus!
