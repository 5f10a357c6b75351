//! The session manager: the registry, the configured deadlines, and the
//! identifiers and times that each step takes from the clock.
//!
//! Each step that needs a fresh identifier or the current time comes in two
//! forms: one that takes them from the `uuid` and `chrono` crates, and one,
//! named `..._at`, that takes them as arguments and states its result exactly.

use vstd::prelude::*;
use crate::config::SshConfig;
use crate::error::{ConnectError, ExecError, KrownError, OpenError};
use crate::executor::{completion_event, deadline_secs, settle, settled, AuditRecord, OutputCollector, RunOutcome};
use crate::ids::{fresh_id, id_text, now_millis, hyphenated};
use crate::models::{port_or_default, CommandExecution, CreateSessionRequest, ExecuteCommandRequest, Session, SessionStatus, WebSocketEvent};
use crate::registry::{closed, restamped, CheckoutError, Entry, RegistryError, SessionRegistry, Slot};

verus! {

/// The event that tells observers of a session its new status.
pub fn status_event(session_tag: &str, status: SessionStatus) -> (r: WebSocketEvent)
    ensures
        r matches WebSocketEvent::SessionStatus { session_id, status: name } && session_id@
            == session_tag@ && name@ == status.name_spec(),
{
    WebSocketEvent::SessionStatus {
        session_id: String::from_str(session_tag),
        status: String::from_str(status.as_str()),
    }
}

/// The time an audit record carries.
pub open spec fn record_time(a: AuditRecord) -> i64 {
    match a {
        AuditRecord::Status { at, .. } => at,
        AuditRecord::Execution(e) => e.executed_at,
    }
}

/// What ending a connection attempt does: an established transport is bound
/// to a pending session, which becomes Connected at `now`; a failed attempt
/// removes the session with status Error.
pub open spec fn connect_finished<T>(
    before: SessionRegistry<T>,
    after: SessionRegistry<T>,
    id: u128,
    outcome: Result<T, ConnectError>,
    now: i64,
    result: Result<Session, OpenError>,
    audit: Seq<AuditRecord>,
) -> bool {
    match outcome {
        Ok(t) => if before@.contains_key(id) && before@[id].slot is Pending {
            let s = restamped(before@[id].session, SessionStatus::Connected, now);
            &&& result == Ok::<Session, OpenError>(s)
            &&& after@ == before@.insert(id, Entry { session: s, slot: Slot::Idle(t) })
            &&& after.retired_ids() == before.retired_ids()
            &&& audit == seq![AuditRecord::Status { session_id: id, status: SessionStatus::Connected, at: now }]
        } else {
            &&& result == Err::<Session, OpenError>(OpenError::Registry(RegistryError::Conflict))
            &&& after@ == before@
            &&& after.retired_ids() == before.retired_ids()
            &&& audit == Seq::<AuditRecord>::empty()
        },
        Err(e) => {
            &&& result == Err::<Session, OpenError>(OpenError::Connect(e))
            &&& after@ == before@.remove(id)
            &&& after.retired_ids() == if before@.contains_key(id) {
                before.retired_ids().insert(id)
            } else {
                before.retired_ids()
            }
            &&& audit == if before@.contains_key(id) {
                seq![AuditRecord::Status { session_id: id, status: SessionStatus::Error, at: now }]
            } else {
                Seq::<AuditRecord>::empty()
            }
        },
    }
}

/// What closing a session does: a live session is removed for good, closed
/// as Disconnected at `now`, and that is recorded; otherwise nothing changes.
pub open spec fn closed_down<T>(
    before: SessionRegistry<T>,
    after: SessionRegistry<T>,
    id: u128,
    now: i64,
    result: Option<Session>,
    audit: Seq<AuditRecord>,
) -> bool {
    &&& after@ == before@.remove(id)
    &&& !after@.contains_key(id)
    &&& if before@.contains_key(id) {
        &&& result == Some(closed(before@[id].session, SessionStatus::Disconnected, now))
        &&& after.retired_ids() == before.retired_ids().insert(id)
        &&& audit == seq![AuditRecord::Status { session_id: id, status: SessionStatus::Disconnected, at: now }]
    } else {
        &&& result is None
        &&& after.retired_ids() == before.retired_ids()
        &&& audit == Seq::<AuditRecord>::empty()
    }
}

/// The event observers receive when a command ends: its completion with the
/// exit status (0 when none was given), or the session's fall into Error.
pub open spec fn announced(outcome: RunOutcome, session_tag: Seq<char>, ev: WebSocketEvent) -> bool {
    match outcome {
        RunOutcome::Completed { exit_code } => ev matches WebSocketEvent::CommandComplete {
            session_id,
            exit_code: c,
        } && session_id@ == session_tag && c == match exit_code {
            Some(x) => x,
            None => 0i32,
        },
        _ => ev matches WebSocketEvent::SessionStatus { session_id, status } && session_id@ == session_tag
            && status@ == "error"@,
    }
}

pub struct SshManager<T> {
    pub registry: SessionRegistry<T>,
    pub config: SshConfig,
}

impl<T> SshManager<T> {
    pub open spec fn wf(&self) -> bool {
        self.registry.wf()
    }

    pub fn new(config: SshConfig) -> (r: SshManager<T>)
        ensures
            r.wf(),
            r.registry@ == Map::<u128, Entry<T>>::empty(),
            r.registry.retired_ids() == Set::<u128>::empty(),
            r.config == config,
    {
        SshManager { registry: SessionRegistry::new(), config: config }
    }

    /// The deadline for establishing a connection.
    pub fn connect_timeout_secs(&self) -> (r: u64)
        ensures
            r == self.config.connect_timeout_secs,
    {
        self.config.connect_timeout_secs
    }

    /// The deadline for a command: the requested one, else the configured one.
    pub fn command_timeout_secs(&self, req: &ExecuteCommandRequest) -> (r: u64)
        ensures
            r == match req.timeout_secs {
                Some(t) => t,
                None => self.config.command_timeout_secs,
            },
    {
        deadline_secs(req, self.config.command_timeout_secs)
    }

    /// Registers a new session `id` for `user_id`, in status Connecting, at `now`.
    pub fn open_session_at(&mut self, id: u128, user_id: u128, req: &CreateSessionRequest, now: i64) -> (r:
        Result<Session, RegistryError>)
        requires
            old(self).wf(),
        ensures
            final(self).wf(),
            final(self).config == old(self).config,
            final(self).registry.retired_ids() == old(self).registry.retired_ids(),
            r is Ok <==> !old(self).registry@.contains_key(id) && !old(self).registry.retired_ids().contains(id),
            match r {
                Ok(s) => {
                    &&& s == Session {
                        id: id,
                        user_id: user_id,
                        host: req.host,
                        port: port_or_default(req.port),
                        username: req.username,
                        status: SessionStatus::Connecting,
                        created_at: now,
                        updated_at: now,
                        closed_at: None,
                    }
                    &&& final(self).registry@ == old(self).registry@.insert(id, Entry { session: s, slot: Slot::Pending })
                },
                Err(e) => e == RegistryError::Conflict && final(self).registry@ == old(self).registry@,
            },
    {
        let port = req.effective_port();
        match self.registry.allocate(id, user_id, req.host.clone(), port, req.username.clone(), now) {
            Ok(()) => {
                let s = self.registry.lookup(id);
                match s {
                    Ok(s) => Ok(s),
                    Err(e) => Err(e),
                }
            },
            Err(e) => Err(e),
        }
    }

    /// Registers a new session for `user_id` under a fresh random identifier.
    /// It fails only where the identifier drawn is already live or retired,
    /// which cannot happen while the registry has never held one.
    pub fn create_session(&mut self, user_id: u128, req: &CreateSessionRequest) -> (r: Result<Session, RegistryError>)
        requires
            old(self).wf(),
        ensures
            final(self).wf(),
            final(self).config == old(self).config,
            final(self).registry.retired_ids() == old(self).registry.retired_ids(),
            old(self).registry@ == Map::<u128, Entry<T>>::empty() && old(self).registry.retired_ids() == Set::<
                u128,
            >::empty() ==> r is Ok,
            match r {
                Ok(s) => {
                    &&& !old(self).registry@.contains_key(s.id)
                    &&& !old(self).registry.retired_ids().contains(s.id)
                    &&& s.user_id == user_id && s.host == req.host && s.username == req.username
                    &&& s.port == port_or_default(req.port)
                    &&& s.status == SessionStatus::Connecting && s.closed_at is None
                    &&& s.created_at == s.updated_at
                    &&& final(self).registry@ == old(self).registry@.insert(s.id, Entry { session: s, slot: Slot::Pending })
                },
                Err(e) => e == RegistryError::Conflict && final(self).registry@ == old(self).registry@,
            },
    {
        let id = fresh_id();
        let now = now_millis();
        let r = self.open_session_at(id, user_id, req, now);
        proof {
            if r is Err {
                assert(old(self).registry@.contains_key(id) || old(self).registry.retired_ids().contains(id));
            }
        }
        r
    }

    /// Ends the connection attempt of session `id` at `now`: an established
    /// transport is bound and the session becomes Connected; a failed attempt
    /// removes the session with status Error. Returns the status records owed
    /// to the audit log.
    pub fn finish_connect_at(&mut self, id: u128, outcome: Result<T, ConnectError>, now: i64) -> (r: (
        Result<Session, OpenError>,
        Vec<AuditRecord>,
    ))
        requires
            old(self).wf(),
        ensures
            final(self).wf(),
            final(self).config == old(self).config,
            connect_finished(old(self).registry, final(self).registry, id, outcome, now, r.0, r.1@),
    {
        let mut audit: Vec<AuditRecord> = Vec::new();
        match outcome {
            Ok(t) => {
                match self.registry.install(id, t, now) {
                    Ok(()) => {
                        audit.push(AuditRecord::Status { session_id: id, status: SessionStatus::Connected, at: now });
                        proof {
                            assert(audit@ =~= seq![AuditRecord::Status { session_id: id, status: SessionStatus::Connected, at: now }]);
                        }
                        match self.registry.lookup(id) {
                            Ok(s) => (Ok(s), audit),
                            Err(e) => (Err(OpenError::Registry(e)), audit),
                        }
                    },
                    Err(e) => {
                        proof {
                            assert(audit@ =~= Seq::<AuditRecord>::empty());
                        }
                        (Err(OpenError::Registry(e)), audit)
                    },
                }
            },
            Err(e) => {
                match self.registry.remove(id, SessionStatus::Error, now) {
                    Ok(_) => {
                        audit.push(AuditRecord::Status { session_id: id, status: SessionStatus::Error, at: now });
                        proof {
                            assert(audit@ =~= seq![AuditRecord::Status { session_id: id, status: SessionStatus::Error, at: now }]);
                        }
                    },
                    Err(_) => {
                        proof {
                            assert(old(self).registry@.remove(id) =~= old(self).registry@);
                            assert(audit@ =~= Seq::<AuditRecord>::empty());
                        }
                    },
                }
                (Err(OpenError::Connect(e)), audit)
            },
        }
    }

    /// `finish_connect_at` at the current time; that time is the one that the
    /// result (its update time) or the audit record carries.
    pub fn finish_connect(&mut self, id: u128, outcome: Result<T, ConnectError>) -> (r: (
        Result<Session, OpenError>,
        Vec<AuditRecord>,
    ))
        requires
            old(self).wf(),
        ensures
            final(self).wf(),
            final(self).config == old(self).config,
            connect_finished(
                old(self).registry,
                final(self).registry,
                id,
                outcome,
                if r.0 is Ok {
                    r.0->Ok_0.updated_at
                } else if r.1@.len() > 0 {
                    record_time(r.1@[0])
                } else {
                    0
                },
                r.0,
                r.1@,
            ),
    {
        let now = now_millis();
        self.finish_connect_at(id, outcome, now)
    }

    /// Lends out the transport of session `id` for one command; Busy while
    /// another command holds it.
    pub fn begin_execute(&mut self, id: u128) -> (r: Result<T, CheckoutError>)
        requires
            old(self).wf(),
        ensures
            final(self).wf(),
            final(self).config == old(self).config,
            final(self).registry.retired_ids() == old(self).registry.retired_ids(),
            r is Ok <==> old(self).registry.checkout_spec(id) is Ok,
            match r {
                Ok(t) => {
                    &&& old(self).registry@[id].slot == Slot::Idle(t)
                    &&& final(self).registry@ == old(self).registry@.insert(
                        id,
                        Entry { session: old(self).registry@[id].session, slot: Slot::Busy },
                    )
                },
                Err(e) => {
                    &&& old(self).registry.checkout_spec(id) == Err::<(), CheckoutError>(e)
                    &&& final(self).registry@ == old(self).registry@
                },
            },
    {
        self.registry.checkout(id)
    }

    /// Ends a command on session `id` (see `settle`), under the execution
    /// identifier `execution_id` and at time `at`; also returns the event that
    /// observers of the session receive: the command's completion, or the
    /// session's fall into Error.
    pub fn finish_execute_at(
        &mut self,
        id: u128,
        session_tag: &str,
        transport: T,
        command: String,
        output: OutputCollector,
        outcome: RunOutcome,
        execution_id: u128,
        at: i64,
        duration_ms: u64,
    ) -> (r: (Result<CommandExecution, ExecError>, Vec<AuditRecord>, WebSocketEvent))
        requires
            old(self).wf(),
        ensures
            final(self).wf(),
            final(self).config == old(self).config,
            settled(
                old(self).registry,
                final(self).registry,
                id,
                transport,
                command,
                output,
                outcome,
                execution_id,
                at,
                duration_ms,
                r.0,
                r.1@,
            ),
            announced(outcome, session_tag@, r.2),
    {
        let exit = match &outcome {
            RunOutcome::Completed { exit_code } => Some(*exit_code),
            _ => None,
        };
        let (result, audit) = settle(
            &mut self.registry,
            id,
            transport,
            command,
            output,
            outcome,
            execution_id,
            at,
            duration_ms,
        );
        let event = match exit {
            Some(code) => completion_event(session_tag, code),
            None => status_event(session_tag, SessionStatus::Error),
        };
        (result, audit, event)
    }

    /// `finish_execute_at` with a fresh execution identifier and the current
    /// time; those are the ones that the record (or the status record) carries.
    pub fn finish_execute(
        &mut self,
        id: u128,
        session_tag: &str,
        transport: T,
        command: String,
        output: OutputCollector,
        outcome: RunOutcome,
        duration_ms: u64,
    ) -> (r: (Result<CommandExecution, ExecError>, Vec<AuditRecord>, WebSocketEvent))
        requires
            old(self).wf(),
        ensures
            final(self).wf(),
            final(self).config == old(self).config,
            settled(
                old(self).registry,
                final(self).registry,
                id,
                transport,
                command,
                output,
                outcome,
                if r.0 is Ok {
                    r.0->Ok_0.id
                } else {
                    0
                },
                if r.0 is Ok {
                    r.0->Ok_0.executed_at
                } else if r.1@.len() > 0 {
                    record_time(r.1@[0])
                } else {
                    0
                },
                duration_ms,
                r.0,
                r.1@,
            ),
            announced(outcome, session_tag@, r.2),
    {
        let execution_id = fresh_id();
        let at = now_millis();
        self.finish_execute_at(id, session_tag, transport, command, output, outcome, execution_id, at, duration_ms)
    }

    /// Closes session `id` at `now`: it is removed for good with status
    /// Disconnected. A session that is not live is left as it is and nothing
    /// is recorded.
    pub fn close_session_at(&mut self, id: u128, now: i64) -> (r: (Option<Session>, Vec<AuditRecord>))
        requires
            old(self).wf(),
        ensures
            final(self).wf(),
            final(self).config == old(self).config,
            closed_down(old(self).registry, final(self).registry, id, now, r.0, r.1@),
    {
        let mut audit: Vec<AuditRecord> = Vec::new();
        match self.registry.remove(id, SessionStatus::Disconnected, now) {
            Ok((s, _transport)) => {
                audit.push(AuditRecord::Status { session_id: id, status: SessionStatus::Disconnected, at: now });
                proof {
                    assert(audit@ =~= seq![AuditRecord::Status { session_id: id, status: SessionStatus::Disconnected, at: now }]);
                }
                (Some(s), audit)
            },
            Err(_) => {
                proof {
                    assert(old(self).registry@.remove(id) =~= old(self).registry@);
                    assert(audit@ =~= Seq::<AuditRecord>::empty());
                }
                (None, audit)
            },
        }
    }

    /// `close_session_at` at the current time, which the closed session's
    /// update time carries.
    pub fn close_session(&mut self, id: u128) -> (r: (Option<Session>, Vec<AuditRecord>))
        requires
            old(self).wf(),
        ensures
            final(self).wf(),
            final(self).config == old(self).config,
            closed_down(
                old(self).registry,
                final(self).registry,
                id,
                if r.0 is Some {
                    r.0->Some_0.updated_at
                } else {
                    0
                },
                r.0,
                r.1@,
            ),
    {
        let now = now_millis();
        self.close_session_at(id, now)
    }

    /// The live session `id`; SessionNotFound once it is closed or failed.
    pub fn get_session(&self, id: u128) -> (r: Result<Session, KrownError>)
        requires
            self.wf(),
        ensures
            match self.registry.lookup_spec(id) {
                Ok(s) => r == Ok::<Session, KrownError>(s),
                Err(_) => r matches Err(KrownError::SessionNotFound { id: t }) && t@ == hyphenated(id),
            },
    {
        match self.registry.lookup(id) {
            Ok(s) => Ok(s),
            Err(_) => Err(KrownError::SessionNotFound { id: id_text(id) }),
        }
    }

    /// The live sessions of `user_id`, each once, newest first (see
    /// `SessionRegistry::list_by_owner`).
    pub fn list_user_sessions(&self, user_id: u128) -> (r: Vec<Session>)
        requires
            self.wf(),
        ensures
            forall|k: int|
                0 <= k < r@.len() ==> {
                    &&& self.registry@.contains_key(#[trigger] r@[k].id)
                    &&& self.registry@[r@[k].id].session == r@[k]
                    &&& r@[k].user_id == user_id
                },
            forall|id: u128|
                #[trigger] self.registry@.contains_key(id) && self.registry@[id].session.user_id == user_id ==> exists|
                    k: int,
                | 0 <= k < r@.len() && r@[k] == self.registry@[id].session,
            forall|a: int, b: int| 0 <= a < r@.len() && 0 <= b < r@.len() && a != b ==> r@[a].id != r@[b].id,
            forall|a: int, b: int| 0 <= a < b < r@.len() ==> r@[a].created_at >= r@[b].created_at,
    {
        self.registry.list_by_owner(user_id)
    }
}

} // verus!
