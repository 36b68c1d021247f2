//! The restart policy wrapped around one connection-plus-consumer session:
//! retry after a fixed delay on failure, stop on clean completion or once
//! shutdown has been requested.

use vstd::prelude::*;
use crate::consumer::TransportError;

verus! {

/// Seconds the supervisor waits before restarting a failed session.
pub const RESTART_DELAY_SECS: u64 = 5;

/// Why one session ended with an error: the broker was unreachable or the
/// handshake failed, or the subscription broke mid-run.
#[derive(Debug, Clone, Copy, PartialEq, Eq, Structural)]
pub enum SessionError {
    Connect,
    Transport(TransportError),
}

/// The supervisor's verdict after one session: stop, or restart the session
/// after the fixed delay.
#[derive(Debug, Clone, Copy, PartialEq, Eq, Structural)]
pub enum SupervisorDecision {
    Stop,
    RetryAfterSecs(u64),
}

/// The restart policy: a session that completed cleanly ends the supervisor;
/// a failed session is retried after the fixed delay, unless shutdown was
/// already pending when it failed — a failure during intentional shutdown is
/// treated as a clean exit, not as a reason to retry.
pub open spec fn spec_supervise(shutdown_pending: bool, outcome: Result<(), SessionError>) -> SupervisorDecision {
    if outcome is Ok {
        SupervisorDecision::Stop
    } else if shutdown_pending {
        SupervisorDecision::Stop
    } else {
        SupervisorDecision::RetryAfterSecs(RESTART_DELAY_SECS)
    }
}

/// Decides, after one session, whether to restart it. The cancellation
/// signal's current status is queried before restarting, so shutdown intent
/// is never raced against failure handling.
pub fn supervise(shutdown_pending: bool, outcome: &Result<(), SessionError>) -> (d:
    SupervisorDecision)
    ensures
        d == spec_supervise(shutdown_pending, *outcome),
{
    match outcome {
        Ok(_) => SupervisorDecision::Stop,
        Err(_) => {
            if shutdown_pending {
                SupervisorDecision::Stop
            } else {
                SupervisorDecision::RetryAfterSecs(RESTART_DELAY_SECS)
            }
        },
    }
}

/// As long as shutdown has not been requested, every failure — however the
/// session failed, and however often — is answered with a retry after the
/// fixed delay, never with a stop: the process never exits on a transient
/// failure.
pub proof fn lemma_retries_until_shutdown(outcome: Result<(), SessionError>)
    requires
        outcome is Err,
    ensures
        spec_supervise(false, outcome) == SupervisorDecision::RetryAfterSecs(RESTART_DELAY_SECS),
        spec_supervise(true, outcome) == SupervisorDecision::Stop,
{
}

} // verus!
