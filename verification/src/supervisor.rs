//! The connection supervisor's reconnect rule, and the orchestrator's
//! shutdown rule.
//!
//! The supervisor runs forever: it attempts a connection, runs a session
//! over it to completion, and sleeps between iterations.  Connection
//! failures are expected steady-state events, never fatal.  The engine
//! fixes how long each pause must be; opening connections and sleeping
//! happen outside.

use vstd::prelude::*;

use crate::session::SessionEnd;

verus! {

/// No reconnect pause may undercut this floor, in milliseconds.
pub const MIN_RECONNECT_DELAY_MS: u64 = 5000;

/// The configured reconnect pause in milliseconds, clamped to the
/// machine's range: minutes times sixty thousand, saturating.
pub open spec fn configured_delay_ms(delay_minutes: u64) -> int {
    if delay_minutes * 60000 > u64::MAX {
        u64::MAX as int
    } else {
        delay_minutes * 60000
    }
}

/// The pause before the next connection attempt: the configured delay,
/// but never below the floor.
pub open spec fn backoff_ms(delay_minutes: u64, floor_ms: u64) -> int {
    if configured_delay_ms(delay_minutes) > floor_ms {
        configured_delay_ms(delay_minutes)
    } else {
        floor_ms as int
    }
}

/// Compute the pause that must pass after a failed connection attempt
/// (or an ordinary session end) before the supervisor may try again:
/// at least the configured delay and at least the floor.
pub fn reconnect_backoff_ms(delay_minutes: u64, floor_ms: u64) -> (r: u64)
    ensures
        r == backoff_ms(delay_minutes, floor_ms),
        r >= floor_ms,
        r >= configured_delay_ms(delay_minutes),
{
    let scaled = match delay_minutes.checked_mul(60000) {
        Some(v) => v,
        None => u64::MAX,
    };
    if scaled > floor_ms {
        scaled
    } else {
        floor_ms
    }
}

/// The pause owed after a session ended: a session that closed cleanly
/// with leave to reconnect at once skips the backoff; every other end
/// waits the full backoff.
pub fn delay_after_session(end: SessionEnd, delay_minutes: u64) -> (r: u64)
    ensures
        end.reconnect_immediately ==> r == 0,
        !end.reconnect_immediately ==> r == backoff_ms(delay_minutes, MIN_RECONNECT_DELAY_MS),
{
    if end.reconnect_immediately {
        0
    } else {
        reconnect_backoff_ms(delay_minutes, MIN_RECONNECT_DELAY_MS)
    }
}

/// After a failed connect, the next attempt comes no sooner than the
/// larger of the configured reconnect delay and the floor.
pub proof fn lemma_backoff_honours_floor_and_config(delay_minutes: u64, floor_ms: u64)
    ensures
        backoff_ms(delay_minutes, floor_ms) >= floor_ms,
        backoff_ms(delay_minutes, floor_ms) >= configured_delay_ms(delay_minutes),
        backoff_ms(delay_minutes, floor_ms) == configured_delay_ms(delay_minutes)
            || backoff_ms(delay_minutes, floor_ms) == floor_ms,
{
}

/// What the orchestrator observed while its tasks run.
#[derive(Clone, Copy, Debug, PartialEq, Eq, Structural)]
pub enum OrchestratorEvent {
    /// The process received an interrupt.
    Interrupt,
    /// The periodic check found a reload request.
    ReloadRequested,
    /// The periodic check found no reload request.
    NoReloadRequested,
    /// The supervisor task reached a terminal exit.
    SupervisorExited,
    /// The sweeper task reached a terminal exit.
    SweeperExited,
}

/// What the orchestrator does next.
#[derive(Clone, Copy, Debug, PartialEq, Eq, Structural)]
pub enum OrchestratorStep {
    /// Cancel every task and exit; a reload relies on an external restart.
    Shutdown,
    /// Keep all tasks running.
    Continue,
}

/// The orchestrator shuts down on an interrupt, on a reload request and
/// on any task's terminal exit; it keeps running only when a periodic
/// check found nothing.
pub fn orchestrator_step(ev: OrchestratorEvent) -> (r: OrchestratorStep)
    ensures
        r == (match ev {
            OrchestratorEvent::NoReloadRequested => OrchestratorStep::Continue,
            _ => OrchestratorStep::Shutdown,
        }),
{
    match ev {
        OrchestratorEvent::NoReloadRequested => OrchestratorStep::Continue,
        _ => OrchestratorStep::Shutdown,
    }
}

} // verus!
