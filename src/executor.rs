//! The decisions taken while a command runs on a session.
//!
//! The caller lends the session's transport out of the registry, runs the
//! command under its deadline, and feeds each read to an `OutputCollector`,
//! which accumulates both streams and yields the event to publish for it.
//! `settle` then hands the transport back, or, after a timeout or a transport
//! failure, removes the session for good; it returns the execution record
//! and what must be written to the audit log.

use vstd::prelude::*;
use crate::error::ExecError;
use crate::models::{CommandExecution, ExecuteCommandRequest, SessionStatus, WebSocketEvent};
use crate::registry::{Entry, SessionRegistry, Slot};
use crate::text::joined;

verus! {

/// One read from a running command.
#[derive(Debug)]
pub enum ReadEvent {
    Stdout(String),
    Stderr(String),
    /// The remote side signalled completion.
    Closed,
    /// The read failed; the text says why.
    Failed(String),
}

/// How a command run ended.
#[derive(Debug)]
pub enum RunOutcome {
    /// The output was read to the end; the exit status, if the transport gave one.
    Completed { exit_code: Option<i32> },
    TimedOut,
    /// Opening the channel or submitting the command failed.
    Failed(String),
}

/// A durable record owed to the audit log.
#[derive(Debug)]
pub enum AuditRecord {
    Status { session_id: u128, status: SessionStatus, at: i64 },
    Execution(CommandExecution),
}

/// Output gathered so far from one command.
pub struct OutputCollector {
    pub stdout: String,
    pub stderr: String,
    /// No more output is taken once the stream has ended.
    pub finished: bool,
}

impl OutputCollector {
    pub fn new() -> (r: OutputCollector)
        ensures
            r.stdout@ == Seq::<char>::empty(),
            r.stderr@ == Seq::<char>::empty(),
            !r.finished,
    {
        OutputCollector { stdout: String::new(), stderr: String::new(), finished: false }
    }

    /// Takes one read: output is appended to its stream and comes back as the
    /// event to publish under `session_tag`; a failed read is noted on stderr
    /// and ends the stream, as does the end of output.
    pub fn absorb(&mut self, session_tag: &str, ev: ReadEvent) -> (r: Option<WebSocketEvent>)
        ensures
            old(self).finished ==> r is None && final(self).stdout == old(self).stdout
                && final(self).stderr == old(self).stderr && final(self).finished,
            !old(self).finished ==> match ev {
                ReadEvent::Stdout(d) => {
                    &&& final(self).stdout@ == old(self).stdout@ + d@
                    &&& final(self).stderr == old(self).stderr
                    &&& !final(self).finished
                    &&& r matches Some(WebSocketEvent::Output { session_id, stream, data })
                    &&& session_id@ == session_tag@ && stream@ == "stdout"@ && data == d
                },
                ReadEvent::Stderr(d) => {
                    &&& final(self).stderr@ == old(self).stderr@ + d@
                    &&& final(self).stdout == old(self).stdout
                    &&& !final(self).finished
                    &&& r matches Some(WebSocketEvent::Output { session_id, stream, data })
                    &&& session_id@ == session_tag@ && stream@ == "stderr"@ && data == d
                },
                ReadEvent::Closed => {
                    &&& final(self).stdout == old(self).stdout
                    &&& final(self).stderr == old(self).stderr
                    &&& final(self).finished
                    &&& r is None
                },
                ReadEvent::Failed(why) => {
                    &&& final(self).stdout == old(self).stdout
                    &&& final(self).stderr@ == old(self).stderr@ + "Read error: "@ + why@
                    &&& final(self).finished
                    &&& r matches Some(WebSocketEvent::Output { session_id, stream, data })
                    &&& session_id@ == session_tag@ && stream@ == "stderr"@ && data@ == "Read error: "@
                        + why@
                },
            },
    {
        if self.finished {
            return None;
        }
        match ev {
            ReadEvent::Stdout(d) => {
                self.stdout.append(d.as_str());
                Some(
                    WebSocketEvent::Output {
                        session_id: String::from_str(session_tag),
                        stream: String::from_str("stdout"),
                        data: d,
                    },
                )
            },
            ReadEvent::Stderr(d) => {
                self.stderr.append(d.as_str());
                Some(
                    WebSocketEvent::Output {
                        session_id: String::from_str(session_tag),
                        stream: String::from_str("stderr"),
                        data: d,
                    },
                )
            },
            ReadEvent::Closed => {
                self.finished = true;
                None
            },
            ReadEvent::Failed(why) => {
                let note = joined("Read error: ", why.as_str());
                self.stderr.append(note.as_str());
                self.finished = true;
                proof {
                    assert(self.stderr@ =~= old(self).stderr@ + "Read error: "@ + why@);
                }
                Some(
                    WebSocketEvent::Output {
                        session_id: String::from_str(session_tag),
                        stream: String::from_str("stderr"),
                        data: note,
                    },
                )
            },
        }
    }
}

/// The deadline of a command: the one requested, else the configured default.
pub fn deadline_secs(req: &ExecuteCommandRequest, default_secs: u64) -> (r: u64)
    ensures
        r == match req.timeout_secs {
            Some(t) => t,
            None => default_secs,
        },
{
    match req.timeout_secs {
        Some(t) => t,
        None => default_secs,
    }
}

/// The event that announces the end of a command; a missing exit status reads as 0.
pub fn completion_event(session_tag: &str, exit_code: Option<i32>) -> (r: WebSocketEvent)
    ensures
        r matches WebSocketEvent::CommandComplete { session_id, exit_code: code }
            && session_id@ == session_tag@ && code == match exit_code {
            Some(c) => c,
            None => 0i32,
        },
{
    WebSocketEvent::CommandComplete {
        session_id: String::from_str(session_tag),
        exit_code: match exit_code {
            Some(c) => c,
            None => 0,
        },
    }
}

/// What `settle` does: the registry `before` becomes `after`, and the run
/// yields `result` and the audit records `audit`.
pub open spec fn settled<T>(
    before: SessionRegistry<T>,
    after: SessionRegistry<T>,
    id: u128,
    transport: T,
    command: String,
    output: OutputCollector,
    outcome: RunOutcome,
    execution_id: u128,
    at: i64,
    duration_ms: u64,
    result: Result<CommandExecution, ExecError>,
    audit: Seq<AuditRecord>,
) -> bool {
    match outcome {
        RunOutcome::Completed { exit_code } => {
            let e = CommandExecution {
                id: execution_id,
                session_id: id,
                command: command,
                stdout: output.stdout,
                stderr: output.stderr,
                exit_code: exit_code,
                executed_at: at,
                duration_ms: duration_ms,
            };
            &&& result == Ok::<CommandExecution, ExecError>(e)
            &&& audit == seq![AuditRecord::Execution(e)]
            &&& after.retired_ids() == before.retired_ids()
            &&& if before@.contains_key(id) && before@[id].slot is Busy {
                after@ == before@.insert(id, Entry { session: before@[id].session, slot: Slot::Idle(transport) })
            } else {
                after@ == before@
            }
        },
        _ => {
            &&& result == match outcome {
                RunOutcome::Failed(why) => Err::<CommandExecution, ExecError>(ExecError::Protocol(why)),
                _ => Err::<CommandExecution, ExecError>(ExecError::Timeout),
            }
            &&& after@ == before@.remove(id)
            &&& !after@.contains_key(id)
            &&& after.retired_ids() == if before@.contains_key(id) {
                before.retired_ids().insert(id)
            } else {
                before.retired_ids()
            }
            &&& audit == if before@.contains_key(id) {
                seq![AuditRecord::Status { session_id: id, status: SessionStatus::Error, at: at }]
            } else {
                Seq::<AuditRecord>::empty()
            }
        },
    }
}

/// Ends a command run on session `id`, whose transport the caller holds.
///
/// A completed run hands the transport back and yields the execution record,
/// which is also the one audit record. A timeout or a transport failure
/// drops the transport and removes the session with status Error (recorded
/// if the session was still registered), since the channel's state can no
/// longer be trusted.
pub fn settle<T>(
    reg: &mut SessionRegistry<T>,
    id: u128,
    transport: T,
    command: String,
    output: OutputCollector,
    outcome: RunOutcome,
    execution_id: u128,
    at: i64,
    duration_ms: u64,
) -> (r: (Result<CommandExecution, ExecError>, Vec<AuditRecord>))
    requires
        old(reg).wf(),
    ensures
        final(reg).wf(),
        settled(
            *old(reg),
            *final(reg),
            id,
            transport,
            command,
            output,
            outcome,
            execution_id,
            at,
            duration_ms,
            r.0,
            r.1@,
        ),
{
    match outcome {
        RunOutcome::Completed { exit_code } => {
            let back = reg.checkin(id, transport);
            let e = CommandExecution {
                id: execution_id,
                session_id: id,
                command: command,
                stdout: output.stdout,
                stderr: output.stderr,
                exit_code: exit_code,
                executed_at: at,
                duration_ms: duration_ms,
            };
            let mut audit: Vec<AuditRecord> = Vec::new();
            audit.push(AuditRecord::Execution(e.duplicate()));
            proof {
                assert(audit@ =~= seq![AuditRecord::Execution(e)]);
            }
            (Ok(e), audit)
        },
        other => {
            let err = match other {
                RunOutcome::Failed(why) => ExecError::Protocol(why),
                _ => ExecError::Timeout,
            };
            let mut audit: Vec<AuditRecord> = Vec::new();
            match reg.remove(id, SessionStatus::Error, at) {
                Ok(_) => {
                    audit.push(AuditRecord::Status { session_id: id, status: SessionStatus::Error, at: at });
                    proof {
                        assert(audit@ =~= seq![AuditRecord::Status { session_id: id, status: SessionStatus::Error, at: at }]);
                    }
                },
                Err(_) => {
                    proof {
                        assert(old(reg)@.remove(id) =~= old(reg)@);
                        assert(audit@ =~= Seq::<AuditRecord>::empty());
                    }
                },
            }
            (Err(err), audit)
        },
    }
}

} // verus!
