use krown::auth::{authenticate, create_user, login_outcome, register_user_at, token_expiry, validate_registration};
use krown::config::Config;
use krown::error::{ConnectError, ExecError, KrownError, OpenError};
use krown::ids::{parse_path_id, session_tag};
use krown::logs::{is_plain_file_name, last_lines, line_limit};
use krown::messages::{classify_message, reply_to, ClientMessage};
use krown::models::{
    AuthMethod, CreateServerRequest, CreateUserRequest, Server, ServerInfo, SessionStatus, UpdateServerRequest, User,
    UserInfo, UserRole, WebSocketEvent,
};
use krown::registry::RegistryError;
use krown::servers::{session_request_for, update_assignments};
use krown::text::{decimal_text, joined, text_eq};

fn user_request(username: &str, password: &str) -> CreateUserRequest {
    CreateUserRequest {
        username: username.to_string(),
        password: password.to_string(),
        email: Some("a@b.c".to_string()),
        role: UserRole::Operator,
    }
}

fn invalid_input(r: Result<(), KrownError>) -> String {
    match r {
        Err(KrownError::InvalidInput(m)) => m,
        other => panic!("unexpected {:?}", other),
    }
}

#[test]
fn status_names_round_trip() {
    for s in [SessionStatus::Connecting, SessionStatus::Connected, SessionStatus::Disconnected, SessionStatus::Error] {
        assert_eq!(SessionStatus::parse(s.as_str()), s);
    }
    assert_eq!(SessionStatus::Connected.as_str(), "connected");
    assert_eq!(SessionStatus::parse("bogus"), SessionStatus::Error);
}

#[test]
fn status_transitions_follow_the_lifecycle() {
    assert!(SessionStatus::Connecting.can_transition(SessionStatus::Connected));
    assert!(SessionStatus::Connecting.can_transition(SessionStatus::Error));
    assert!(SessionStatus::Connected.can_transition(SessionStatus::Disconnected));
    assert!(!SessionStatus::Connected.can_transition(SessionStatus::Connecting));
    assert!(!SessionStatus::Error.can_transition(SessionStatus::Connected));
    assert!(!SessionStatus::Disconnected.can_transition(SessionStatus::Error));
    assert!(SessionStatus::Error.is_terminal());
    assert!(!SessionStatus::Connected.is_terminal());
}

#[test]
fn role_names() {
    assert_eq!(UserRole::parse("admin"), Some(UserRole::Admin));
    assert_eq!(UserRole::parse("operator"), Some(UserRole::Operator));
    assert_eq!(UserRole::parse("readonly"), Some(UserRole::ReadOnly));
    assert_eq!(UserRole::parse("root"), None);
    assert_eq!(UserRole::ReadOnly.as_str(), "readonly");
}

#[test]
fn text_helpers() {
    assert!(text_eq("abc", "abc"));
    assert!(!text_eq("abc", "abd"));
    assert!(!text_eq("ab", "abc"));
    assert_eq!(joined("ab", "cd"), "abcd");
    assert_eq!(decimal_text(0), "0");
    assert_eq!(decimal_text(1234), "1234");
    assert_eq!(decimal_text(u64::MAX), "18446744073709551615");
}

#[test]
fn default_config_values() {
    let c = Config::default(None);
    assert_eq!(c.server.host, "0.0.0.0");
    assert_eq!(c.server.port, 8080);
    assert_eq!(c.server.cors_origins, vec!["http://localhost:3000".to_string()]);
    assert_eq!(c.database.url, "sqlite:krown.db");
    assert_eq!(c.ssh.connect_timeout_secs, 30);
    assert_eq!(c.ssh.command_timeout_secs, 60);
    assert_eq!(c.auth.jwt_secret, "CHANGE_THIS_SECRET_IN_PRODUCTION");
    assert_eq!(c.logging.file_path, Some("krown.log".to_string()));
    assert!(c.validate().is_ok());
    assert_eq!(Config::default(Some("s3".to_string())).auth.jwt_secret, "s3");
}

#[test]
fn config_validation_errors() {
    let mut c = Config::default(Some(String::new()));
    match c.validate() {
        Err(KrownError::Config(m)) => assert_eq!(m, "JWT secret cannot be empty"),
        other => panic!("unexpected {:?}", other),
    }
    c.auth.jwt_secret = "k".to_string();
    c.auth.password_min_length = 7;
    match c.validate() {
        Err(KrownError::Config(m)) => assert_eq!(m, "Password minimum length must be at least 8"),
        other => panic!("unexpected {:?}", other),
    }
}

#[test]
fn error_status_codes_and_messages() {
    assert_eq!(KrownError::SessionNotFound { id: "x".to_string() }.status_code(), 404);
    assert_eq!(KrownError::PermissionDenied.status_code(), 401);
    assert_eq!(KrownError::InvalidInput("x".to_string()).status_code(), 400);
    assert_eq!(KrownError::Ssh("x".to_string()).status_code(), 500);
    assert_eq!(KrownError::Ssh("boom".to_string()).message(), "SSH connection error: boom");
    assert_eq!(KrownError::PermissionDenied.message(), "Permission denied");
    match ConnectError::Timeout.into_krown() {
        KrownError::Ssh(m) => assert_eq!(m, "Connection timeout"),
        other => panic!("unexpected {:?}", other),
    }
    match ConnectError::Network("refused".to_string()).into_krown() {
        KrownError::Ssh(m) => assert_eq!(m, "Connection failed: TCP connection failed: refused"),
        other => panic!("unexpected {:?}", other),
    }
    match ExecError::Timeout.into_krown(1) {
        KrownError::Ssh(m) => assert_eq!(m, "Command execution timeout"),
        other => panic!("unexpected {:?}", other),
    }
    assert!(matches!(OpenError::Registry(RegistryError::Conflict).into_krown(), KrownError::Internal(_)));
}

#[test]
fn registration_rules() {
    assert_eq!(invalid_input(validate_registration(&user_request("ab", "longpassword"), 8, false)),
        "Username must be at least 3 characters");
    assert_eq!(invalid_input(validate_registration(&user_request("abc", "longpassword"), 8, true)),
        "Username already exists");
    assert_eq!(invalid_input(validate_registration(&user_request("abc", "short"), 8, false)),
        "Password must be at least 8 characters");
    assert!(validate_registration(&user_request("abc", "12345678"), 8, false).is_ok());
}

#[test]
fn registered_password_checks_out() {
    let u = register_user_at(user_request("dave", "correct horse"), 8, false, 77, 1234).unwrap();
    assert_eq!(u.id, 77);
    assert_eq!(u.username, "dave");
    assert_eq!(u.role, UserRole::Operator);
    assert_eq!(u.created_at, 1234);
    assert_eq!(u.last_login, None);
    assert!(u.password_hash != "correct horse");
    assert!(u.password_hash.starts_with("$argon2"));
    assert_eq!(authenticate("correct horse", Some(&u.password_hash), "operator").unwrap(), UserRole::Operator);
    match authenticate("wrong", Some(&u.password_hash), "operator") {
        Err(KrownError::Auth(m)) => assert_eq!(m, "Invalid credentials"),
        other => panic!("unexpected {:?}", other),
    }
    match authenticate("correct horse", Some(&u.password_hash), "root") {
        Err(KrownError::Internal(m)) => assert_eq!(m, "Invalid role"),
        other => panic!("unexpected {:?}", other),
    }
    match authenticate("x", Some("not a hash"), "admin") {
        Err(KrownError::Internal(m)) => assert_eq!(m, "Invalid password hash"),
        other => panic!("unexpected {:?}", other),
    }
    assert!(matches!(authenticate("x", None, "admin"), Err(KrownError::Auth(_))));
    assert!(create_user(user_request("x", "y"), 8, false).is_err());
}

#[test]
fn login_decisions() {
    assert!(matches!(login_outcome(false, Some(true), "admin"), Err(KrownError::Auth(_))));
    assert_eq!(login_outcome(true, Some(true), "admin").unwrap(), UserRole::Admin);
    assert!(matches!(login_outcome(true, Some(false), "admin"), Err(KrownError::Auth(_))));
    assert!(matches!(login_outcome(true, None, "admin"), Err(KrownError::Internal(_))));
}

#[test]
fn token_expiry_adds_hours() {
    assert_eq!(token_expiry(1_000, 24), Some(1_000 + 24 * 3600));
    assert_eq!(token_expiry(i64::MAX - 10, 1), None);
    assert_eq!(token_expiry(-3600, 1), Some(0));
    assert_eq!(token_expiry(i64::MIN, u64::MAX), None);
}

#[test]
fn identifiers_text_and_parse() {
    let id: u128 = 0x550e8400e29b41d4a716446655440000;
    assert_eq!(session_tag(id), "550e8400-e29b-41d4-a716-446655440000");
    assert_eq!(parse_path_id("550e8400-e29b-41d4-a716-446655440000", "session").unwrap(), id);
    match parse_path_id("not-a-uuid", "server") {
        Err(KrownError::InvalidInput(m)) => assert_eq!(m, "Invalid server ID"),
        other => panic!("unexpected {:?}", other),
    }
    assert_eq!(parse_path_id(&session_tag(7), "session").unwrap(), 7);
}

#[test]
fn user_and_server_views() {
    let u = User {
        id: 1,
        username: "eve".to_string(),
        password_hash: "h".to_string(),
        email: None,
        role: UserRole::Admin,
        created_at: 0,
        updated_at: 0,
        last_login: None,
    };
    let info = UserInfo::from(u);
    assert_eq!(info.username, "eve");
    assert_eq!(info.role, UserRole::Admin);
    let s = server("password");
    let v = ServerInfo::from(s);
    assert_eq!(v.name, "box");
    assert_eq!(v.port, 2200);
    let c = CreateServerRequest {
        name: "n".to_string(),
        host: "h".to_string(),
        port: None,
        username: "u".to_string(),
        auth_method: "key".to_string(),
        password: None,
        private_key: None,
        passphrase: None,
    };
    assert_eq!(c.effective_port(), 22);
}

fn server(auth: &str) -> Server {
    Server {
        id: 1,
        user_id: 2,
        name: "box".to_string(),
        host: "10.0.0.1".to_string(),
        port: 2200,
        username: "root".to_string(),
        auth_method: auth.to_string(),
        password: Some("pw".to_string()),
        private_key: None,
        passphrase: Some("pp".to_string()),
        created_at: 0,
        updated_at: 0,
    }
}

#[test]
fn saved_server_becomes_session_request() {
    let r = session_request_for(&server("password"));
    assert_eq!(r.host, "10.0.0.1");
    assert_eq!(r.port, Some(2200));
    assert_eq!(r.username, "root");
    match r.auth_method {
        AuthMethod::Password { password } => assert_eq!(password, "pw"),
        other => panic!("unexpected {:?}", other),
    }
    match session_request_for(&server("key")).auth_method {
        AuthMethod::Key { private_key, passphrase } => {
            assert_eq!(private_key, "");
            assert_eq!(passphrase, Some("pp".to_string()));
        }
        other => panic!("unexpected {:?}", other),
    }
}

#[test]
fn server_update_assignments_in_order() {
    let req = UpdateServerRequest {
        name: Some("n".to_string()),
        host: None,
        port: Some(2022),
        username: None,
        auth_method: None,
        password: None,
        private_key: None,
        passphrase: Some("p".to_string()),
    };
    let a = update_assignments(&req);
    assert_eq!(
        a,
        vec![
            ("name".to_string(), "n".to_string()),
            ("port".to_string(), "2022".to_string()),
            ("passphrase".to_string(), "p".to_string()),
        ]
    );
    let empty = UpdateServerRequest {
        name: None,
        host: None,
        port: None,
        username: None,
        auth_method: None,
        password: None,
        private_key: None,
        passphrase: None,
    };
    assert!(update_assignments(&empty).is_empty());
}

#[test]
fn log_tail_rules() {
    assert_eq!(line_limit(None), 100);
    assert_eq!(line_limit(Some(5)), 5);
    assert_eq!(line_limit(Some(5000)), 1000);
    assert!(is_plain_file_name("krown.log"));
    assert!(!is_plain_file_name("../etc/passwd"));
    assert!(!is_plain_file_name("/etc/passwd"));
    let lines: Vec<String> = (0..5).map(|n| n.to_string()).collect();
    assert_eq!(last_lines(&lines, 2), vec!["3".to_string(), "4".to_string()]);
    assert_eq!(last_lines(&lines, 10), lines);
    assert!(last_lines(&lines, 0).is_empty());
}

#[test]
fn client_messages() {
    assert!(matches!(classify_message(Some("ping"), None, None), Ok(ClientMessage::Ping)));
    match classify_message(Some("authenticate"), Some("tok"), None) {
        Ok(ClientMessage::Authenticate { token }) => assert_eq!(token, "tok"),
        other => panic!("unexpected {:?}", other),
    }
    match classify_message(Some("authenticate"), None, None) {
        Err(KrownError::InvalidInput(m)) => assert_eq!(m, "Missing 'token' field"),
        other => panic!("unexpected {:?}", other),
    }
    match classify_message(Some("subscribe_session"), None, Some("abc")) {
        Ok(ClientMessage::SubscribeSession { session_id }) => assert_eq!(session_id, "abc"),
        other => panic!("unexpected {:?}", other),
    }
    match classify_message(Some("dance"), None, None) {
        Err(KrownError::InvalidInput(m)) => assert_eq!(m, "Unknown message type: dance"),
        other => panic!("unexpected {:?}", other),
    }
    match classify_message(None, None, None) {
        Err(KrownError::InvalidInput(m)) => assert_eq!(m, "Missing 'type' field"),
        other => panic!("unexpected {:?}", other),
    }
    assert!(matches!(reply_to(&ClientMessage::Ping), Some(WebSocketEvent::Pong)));
    match reply_to(&ClientMessage::SubscribeSession { session_id: "s1".to_string() }) {
        Some(WebSocketEvent::Subscribed { session_id }) => assert_eq!(session_id, "s1"),
        other => panic!("unexpected {:?}", other),
    }
}

#[test]
fn registration_counts_bytes() {
    // two characters, three bytes
    assert!(validate_registration(&user_request("\u{e4}b", "12345678"), 8, false).is_ok());
    // four characters, eight bytes
    assert!(validate_registration(&user_request("abc", "\u{e4}\u{e4}\u{e4}\u{e4}"), 8, false).is_ok());
    assert_eq!(invalid_input(validate_registration(&user_request("abc", "\u{e4}\u{e4}\u{e4}"), 8, false)),
        "Password must be at least 8 characters");
}

#[test]
fn create_user_reports_the_validation_error() {
    match create_user(user_request("ab", "longpassword"), 8, false) {
        Err(KrownError::InvalidInput(m)) => assert_eq!(m, "Username must be at least 3 characters"),
        other => panic!("unexpected {:?}", other),
    }
    let u = create_user(user_request("frank", "longpassword"), 8, false).unwrap();
    assert_eq!(u.created_at, u.updated_at);
    assert_eq!(authenticate("longpassword", Some(&u.password_hash), "operator").unwrap(), UserRole::Operator);
}
