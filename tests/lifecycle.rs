use krown::config::Config;
use krown::connector::{first_step, next_action, plan_auth, AuthPlan, ConnectAction, ConnectStep, StepOutcome};
use krown::error::{ConnectError, ExecError, KrownError, OpenError};
use krown::executor::{completion_event, deadline_secs, settle, AuditRecord, OutputCollector, ReadEvent, RunOutcome};
use krown::manager::{status_event, SshManager};
use krown::models::{AuthMethod, CreateSessionRequest, ExecuteCommandRequest, SessionStatus, WebSocketEvent};
use krown::registry::{CheckoutError, RegistryError};

fn request(host: &str) -> CreateSessionRequest {
    CreateSessionRequest {
        host: host.to_string(),
        port: Some(22),
        username: "alice".to_string(),
        auth_method: AuthMethod::Password { password: "x".to_string() },
    }
}

fn manager() -> SshManager<u32> {
    SshManager::new(Config::default(None).ssh)
}

fn connected(m: &mut SshManager<u32>, id: u128) {
    m.open_session_at(id, 1, &request("example.org"), 100).unwrap();
    let (r, _) = m.finish_connect_at(id, Ok(55), 200);
    assert!(r.is_ok());
}

#[test]
fn unreachable_host_times_out_and_records_error() {
    let mut m = manager();
    let s = m.open_session_at(42, 1, &request("unreachable.invalid"), 1000).unwrap();
    assert_eq!(s.status, SessionStatus::Connecting);
    assert_eq!(s.port, 22);
    assert_eq!(s.username, "alice");
    assert_eq!(m.connect_timeout_secs(), 30);
    match next_action(first_step(), StepOutcome::DeadlineExpired) {
        ConnectAction::Abandon(ConnectError::Timeout) => {}
        other => panic!("unexpected {:?}", other),
    }
    let (r, audit) = m.finish_connect_at(42, Err(ConnectError::Timeout), 3000);
    assert!(matches!(r, Err(OpenError::Connect(ConnectError::Timeout))));
    assert_eq!(audit.len(), 1);
    match &audit[0] {
        AuditRecord::Status { session_id, status, at } => {
            assert_eq!(*session_id, 42);
            assert_eq!(*status, SessionStatus::Error);
            assert_eq!(*at, 3000);
        }
        other => panic!("unexpected {:?}", other),
    }
    assert!(m.get_session(42).is_err());
}

#[test]
fn dial_failure_is_a_network_error() {
    match next_action(ConnectStep::Dial, StepOutcome::Failed("refused".to_string())) {
        ConnectAction::Abandon(ConnectError::Network(m)) => assert_eq!(m, "refused"),
        other => panic!("unexpected {:?}", other),
    }
    match next_action(ConnectStep::Handshake, StepOutcome::Failed("kex".to_string())) {
        ConnectAction::Abandon(ConnectError::Handshake(m)) => assert_eq!(m, "kex"),
        other => panic!("unexpected {:?}", other),
    }
    match next_action(ConnectStep::Authenticate, StepOutcome::Failed("denied".to_string())) {
        ConnectAction::Abandon(ConnectError::Auth(m)) => assert_eq!(m, "denied"),
        other => panic!("unexpected {:?}", other),
    }
}

#[test]
fn steps_run_in_order_until_established() {
    assert!(matches!(next_action(ConnectStep::Dial, StepOutcome::Done), ConnectAction::Run(ConnectStep::Handshake)));
    assert!(matches!(
        next_action(ConnectStep::Handshake, StepOutcome::Done),
        ConnectAction::Run(ConnectStep::Authenticate)
    ));
    assert!(matches!(next_action(ConnectStep::Authenticate, StepOutcome::Done), ConnectAction::Established));
    assert!(matches!(
        next_action(ConnectStep::Authenticate, StepOutcome::DeadlineExpired),
        ConnectAction::Abandon(ConnectError::Timeout)
    ));
}

#[test]
fn key_credentials_plan_public_key_auth() {
    let req = CreateSessionRequest {
        host: "h".to_string(),
        port: None,
        username: "carol".to_string(),
        auth_method: AuthMethod::Key { private_key: "KEY".to_string(), passphrase: Some("pp".to_string()) },
    };
    assert_eq!(req.effective_port(), 22);
    match plan_auth(&req) {
        AuthPlan::PublicKey { username, private_key, passphrase } => {
            assert_eq!(username, "carol");
            assert_eq!(private_key, "KEY");
            assert_eq!(passphrase, Some("pp".to_string()));
        }
        other => panic!("unexpected {:?}", other),
    }
    match plan_auth(&request("h")) {
        AuthPlan::Password { username, password } => {
            assert_eq!(username, "alice");
            assert_eq!(password, "x");
        }
        other => panic!("unexpected {:?}", other),
    }
}

#[test]
fn successful_connect_records_connected() {
    let mut m = manager();
    m.open_session_at(7, 1, &request("example.org"), 100).unwrap();
    let (r, audit) = m.finish_connect_at(7, Ok(55), 200);
    let s = r.unwrap();
    assert_eq!(s.status, SessionStatus::Connected);
    assert_eq!(s.created_at, 100);
    assert_eq!(s.updated_at, 200);
    assert_eq!(audit.len(), 1);
    assert!(matches!(audit[0], AuditRecord::Status { session_id: 7, status: SessionStatus::Connected, at: 200 }));
}

#[test]
fn echo_hi_returns_output_and_one_record() {
    let mut m = manager();
    connected(&mut m, 9);
    let t = m.begin_execute(9).unwrap();
    let mut out = OutputCollector::new();
    let ev = out.absorb("tag", ReadEvent::Stdout("hi\n".to_string()));
    match ev {
        Some(WebSocketEvent::Output { session_id, stream, data }) => {
            assert_eq!(session_id, "tag");
            assert_eq!(stream, "stdout");
            assert_eq!(data, "hi\n");
        }
        other => panic!("unexpected {:?}", other),
    }
    assert!(out.absorb("tag", ReadEvent::Closed).is_none());
    assert!(out.absorb("tag", ReadEvent::Stdout("late".to_string())).is_none());
    let (r, audit, event) = m.finish_execute_at(
        9,
        "tag",
        t,
        "echo hi".to_string(),
        out,
        RunOutcome::Completed { exit_code: Some(0) },
        500,
        300,
        4,
    );
    let e = r.unwrap();
    assert_eq!(e.stdout, "hi\n");
    assert_eq!(e.stderr, "");
    assert_eq!(e.exit_code, Some(0));
    assert_eq!(e.command, "echo hi");
    assert_eq!(e.session_id, 9);
    assert_eq!(e.id, 500);
    assert_eq!(e.duration_ms, 4);
    assert_eq!(audit.len(), 1);
    match &audit[0] {
        AuditRecord::Execution(x) => assert_eq!(x.stdout, "hi\n"),
        other => panic!("unexpected {:?}", other),
    }
    assert!(matches!(event, WebSocketEvent::CommandComplete { exit_code: 0, .. }));
    assert_eq!(m.begin_execute(9), Ok(55));
}

#[test]
fn timeout_invalidates_the_session() {
    let mut m = manager();
    connected(&mut m, 11);
    let req = ExecuteCommandRequest { command: "sleep 10".to_string(), timeout_secs: None };
    assert_eq!(m.command_timeout_secs(&req), 60);
    let t = m.begin_execute(11).unwrap();
    let (r, audit, event) = m.finish_execute_at(
        11,
        "tag",
        t,
        "sleep 10".to_string(),
        OutputCollector::new(),
        RunOutcome::TimedOut,
        1,
        900,
        1,
    );
    assert!(matches!(r, Err(ExecError::Timeout)));
    assert_eq!(audit.len(), 1);
    assert!(matches!(audit[0], AuditRecord::Status { session_id: 11, status: SessionStatus::Error, at: 900 }));
    match event {
        WebSocketEvent::SessionStatus { session_id, status } => {
            assert_eq!(session_id, "tag");
            assert_eq!(status, "error");
        }
        other => panic!("unexpected {:?}", other),
    }
    assert!(m.registry.lookup(11).is_err());
    assert_eq!(m.begin_execute(11), Err(CheckoutError::NotFound));
    assert!(m.get_session(11).is_err());
}

#[test]
fn transport_failure_is_a_protocol_error() {
    let mut m = manager();
    connected(&mut m, 12);
    let t = m.begin_execute(12).unwrap();
    let (r, audit, _) = m.finish_execute_at(
        12,
        "tag",
        t,
        "ls".to_string(),
        OutputCollector::new(),
        RunOutcome::Failed("channel refused".to_string()),
        1,
        5,
        1,
    );
    match r {
        Err(ExecError::Protocol(m)) => assert_eq!(m, "channel refused"),
        other => panic!("unexpected {:?}", other),
    }
    assert_eq!(audit.len(), 1);
    assert_eq!(m.registry.lookup(12).unwrap_err(), RegistryError::NotFound);
}

#[test]
fn read_failure_is_noted_on_stderr() {
    let mut out = OutputCollector::new();
    out.absorb("s", ReadEvent::Stderr("warn ".to_string()));
    let ev = out.absorb("s", ReadEvent::Failed("broken pipe".to_string()));
    assert_eq!(out.stderr, "warn Read error: broken pipe");
    assert!(out.finished);
    match ev {
        Some(WebSocketEvent::Output { stream, data, .. }) => {
            assert_eq!(stream, "stderr");
            assert_eq!(data, "Read error: broken pipe");
        }
        other => panic!("unexpected {:?}", other),
    }
}

#[test]
fn settle_on_unknown_session_records_nothing() {
    let mut m = manager();
    let (r, audit) = settle(
        &mut m.registry,
        99,
        1u32,
        "ls".to_string(),
        OutputCollector::new(),
        RunOutcome::TimedOut,
        1,
        1,
        1,
    );
    assert!(matches!(r, Err(ExecError::Timeout)));
    assert!(audit.is_empty());
}

#[test]
fn close_then_lookup_finds_nothing() {
    let mut m = manager();
    connected(&mut m, 20);
    let (closed, audit) = m.close_session_at(20, 700);
    let closed = closed.unwrap();
    assert_eq!(closed.status, SessionStatus::Disconnected);
    assert_eq!(closed.closed_at, Some(700));
    assert!(matches!(audit[0], AuditRecord::Status { session_id: 20, status: SessionStatus::Disconnected, at: 700 }));
    assert!(m.get_session(20).is_err());
    let (again, audit2) = m.close_session_at(20, 800);
    assert!(again.is_none());
    assert!(audit2.is_empty());
    assert!(m.open_session_at(20, 1, &request("h"), 900).is_err());
}

#[test]
fn missing_session_error_names_the_identifier() {
    let m = manager();
    match m.get_session(0x550e8400e29b41d4a716446655440000) {
        Err(KrownError::SessionNotFound { id }) => assert_eq!(id, "550e8400-e29b-41d4-a716-446655440000"),
        other => panic!("unexpected {:?}", other),
    }
}

#[test]
fn listing_shows_live_sessions_of_the_owner() {
    let mut m = manager();
    connected(&mut m, 1);
    m.open_session_at(2, 2, &request("other"), 0).unwrap();
    let mine = m.list_user_sessions(1);
    assert_eq!(mine.len(), 1);
    assert_eq!(mine[0].id, 1);
}

#[test]
fn real_identifiers_and_clock() {
    let mut m = manager();
    let s = m.create_session(3, &request("h")).unwrap();
    assert_eq!((s.id >> 76) & 0xf, 4);
    assert!(s.created_at > 0);
    let t = m.create_session(3, &request("h")).unwrap();
    assert!(s.id != t.id);
    let (r, _) = m.finish_connect(s.id, Err(ConnectError::Network("no route".to_string())));
    assert!(matches!(r, Err(OpenError::Connect(ConnectError::Network(_)))));
    let (c, _) = m.close_session(t.id);
    assert!(c.is_some());
}

#[test]
fn deadline_and_completion_helpers() {
    let req = ExecuteCommandRequest { command: "x".to_string(), timeout_secs: Some(5) };
    assert_eq!(deadline_secs(&req, 60), 5);
    assert!(matches!(completion_event("s", None), WebSocketEvent::CommandComplete { exit_code: 0, .. }));
    assert!(matches!(completion_event("s", Some(3)), WebSocketEvent::CommandComplete { exit_code: 3, .. }));
    match status_event("s", SessionStatus::Disconnected) {
        WebSocketEvent::SessionStatus { status, .. } => assert_eq!(status, "disconnected"),
        other => panic!("unexpected {:?}", other),
    }
}

#[test]
fn clocked_steps_stamp_their_records() {
    let mut m = manager();
    let s = m.create_session(1, &request("h")).unwrap();
    let (r, audit) = m.finish_connect(s.id, Ok(5));
    let c = r.unwrap();
    assert_eq!(c.status, SessionStatus::Connected);
    assert!(matches!(audit[0], AuditRecord::Status { status: SessionStatus::Connected, at, .. } if at == c.updated_at));
    let t = m.begin_execute(s.id).unwrap();
    let (r, audit, _) = m.finish_execute(s.id, "tag", t, "ls".to_string(), OutputCollector::new(),
        RunOutcome::Completed { exit_code: None }, 2);
    let e = r.unwrap();
    assert_eq!(e.session_id, s.id);
    assert_eq!(e.exit_code, None);
    assert_eq!(audit.len(), 1);
    let (closed, audit) = m.close_session(s.id);
    let closed = closed.unwrap();
    assert_eq!(closed.status, SessionStatus::Disconnected);
    assert!(matches!(audit[0], AuditRecord::Status { status: SessionStatus::Disconnected, at, .. } if at == closed.updated_at));
    assert!(m.list_user_sessions(1).is_empty());
}
