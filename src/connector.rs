//! The decisions taken while a connection is established.
//!
//! Dialing, the protocol handshake and authentication are performed by the
//! caller, one step at a time, all under one deadline. After each step the
//! caller reports how it went and `next_action` says what to do: run the next
//! step, keep the connection, or abandon it with a classified error. A
//! connection that is abandoned is closed by the caller before it returns.

use vstd::prelude::*;
use crate::error::ConnectError;
use crate::models::{AuthMethod, CreateSessionRequest};

verus! {

/// The steps of establishing a connection, in order.
#[derive(Clone, Copy, Debug, PartialEq, Eq, Structural)]
pub enum ConnectStep {
    Dial,
    Handshake,
    Authenticate,
}

/// How a step went.
#[derive(Debug)]
pub enum StepOutcome {
    Done,
    /// The step failed; the text says why.
    Failed(String),
    /// The deadline passed while the step was in progress.
    DeadlineExpired,
}

/// What the caller does next.
#[derive(Debug)]
pub enum ConnectAction {
    Run(ConnectStep),
    /// The transport is authenticated and can be registered.
    Established,
    /// Close whatever was opened and report the error.
    Abandon(ConnectError),
}

/// How the remote user is authenticated.
#[derive(Debug)]
pub enum AuthPlan {
    Password { username: String, password: String },
    /// Signature-based authentication with an in-memory private key,
    /// decrypted with the passphrase where one is given.
    PublicKey { username: String, private_key: String, passphrase: Option<String> },
}

/// The step that starts every connection.
pub fn first_step() -> (r: ConnectStep)
    ensures
        r == ConnectStep::Dial,
{
    ConnectStep::Dial
}

/// The error for a failure of `step`.
pub open spec fn failure_of(step: ConnectStep, why: String) -> ConnectError {
    match step {
        ConnectStep::Dial => ConnectError::Network(why),
        ConnectStep::Handshake => ConnectError::Handshake(why),
        ConnectStep::Authenticate => ConnectError::Auth(why),
    }
}

/// What follows a step: the next step or the end on success, the step's
/// error class on failure, and Timeout once the deadline has passed,
/// whichever step was in progress.
pub open spec fn next_action_spec(step: ConnectStep, outcome: StepOutcome) -> ConnectAction {
    match outcome {
        StepOutcome::DeadlineExpired => ConnectAction::Abandon(ConnectError::Timeout),
        StepOutcome::Failed(why) => ConnectAction::Abandon(failure_of(step, why)),
        StepOutcome::Done => match step {
            ConnectStep::Dial => ConnectAction::Run(ConnectStep::Handshake),
            ConnectStep::Handshake => ConnectAction::Run(ConnectStep::Authenticate),
            ConnectStep::Authenticate => ConnectAction::Established,
        },
    }
}

pub fn next_action(step: ConnectStep, outcome: StepOutcome) -> (r: ConnectAction)
    ensures
        r == next_action_spec(step, outcome),
{
    match outcome {
        StepOutcome::DeadlineExpired => ConnectAction::Abandon(ConnectError::Timeout),
        StepOutcome::Failed(why) => ConnectAction::Abandon(
            match step {
                ConnectStep::Dial => ConnectError::Network(why),
                ConnectStep::Handshake => ConnectError::Handshake(why),
                ConnectStep::Authenticate => ConnectError::Auth(why),
            },
        ),
        StepOutcome::Done => match step {
            ConnectStep::Dial => ConnectAction::Run(ConnectStep::Handshake),
            ConnectStep::Handshake => ConnectAction::Run(ConnectStep::Authenticate),
            ConnectStep::Authenticate => ConnectAction::Established,
        },
    }
}

/// The authentication to perform for a request: each kind of credential
/// has its own plan, and nothing else is tried.
pub fn plan_auth(req: &CreateSessionRequest) -> (r: AuthPlan)
    ensures
        match req.auth_method {
            AuthMethod::Password { password } => r == AuthPlan::Password {
                username: req.username,
                password: password,
            },
            AuthMethod::Key { private_key, passphrase } => r == AuthPlan::PublicKey {
                username: req.username,
                private_key: private_key,
                passphrase: passphrase,
            },
        },
{
    match &req.auth_method {
        AuthMethod::Password { password } => AuthPlan::Password {
            username: req.username.clone(),
            password: password.clone(),
        },
        AuthMethod::Key { private_key, passphrase } => AuthPlan::PublicKey {
            username: req.username.clone(),
            private_key: private_key.clone(),
            passphrase: match passphrase {
                Some(p) => Some(p.clone()),
                None => None,
            },
        },
    }
}

/// An expired deadline abandons the attempt with Timeout whichever step was
/// in progress, and only a completed authentication establishes the connection.
pub proof fn lemma_timeout_whatever_the_step(step: ConnectStep)
    ensures
        next_action_spec(step, StepOutcome::DeadlineExpired) == ConnectAction::Abandon(ConnectError::Timeout),
        next_action_spec(step, StepOutcome::Done) == ConnectAction::Established <==> step
            == ConnectStep::Authenticate,
{
}

} // verus!
