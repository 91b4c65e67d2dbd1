//! The upload executor's retry policy.
//!
//! Streaming a file to the caller-supplied endpoint is plain I/O and
//! happens outside the engine.  The engine decides: the caller opens the
//! file fresh and makes one attempt whenever `should_attempt` says so,
//! then reports the outcome to `record_attempt`.  The policy stops at the
//! first success, and abandons the upload after `max_attempts` failed
//! tries — giving up is logged, never signalled to the remote peer.

use vstd::prelude::*;

verus! {

/// The running state of one upload: how many attempts were made and how
/// the upload stands.
#[derive(Clone, Copy, Debug, PartialEq, Eq, Structural)]
pub struct UploadState {
    /// The configured attempt bound.
    pub max_attempts: u64,
    /// Attempts made so far.
    pub attempts_made: u64,
    /// True once the upload succeeded or was abandoned.
    pub finished: bool,
    /// True once one attempt succeeded.
    pub succeeded: bool,
}

impl UploadState {
    /// The state before the first attempt.
    pub open spec fn initial_spec(max_attempts: u64) -> UploadState {
        UploadState { max_attempts, attempts_made: 0, finished: false, succeeded: false }
    }

    /// The state after one more attempt with the given outcome: success
    /// finishes the upload at once; a failure finishes it only when the
    /// attempt bound is reached.
    pub open spec fn step(self, success: bool) -> UploadState {
        UploadState {
            attempts_made: (self.attempts_made + 1) as u64,
            finished: success || self.attempts_made + 1 >= self.max_attempts,
            succeeded: success,
            ..self
        }
    }

    /// The state reached from `self` after `n` more failed attempts.
    pub open spec fn after_failures(self, n: nat) -> UploadState
        decreases n,
    {
        if n == 0 {
            self
        } else {
            self.after_failures((n - 1) as nat).step(false)
        }
    }

    /// Begin an upload under the configured attempt bound.
    pub fn new(max_attempts: u64) -> (s: UploadState)
        ensures
            s == UploadState::initial_spec(max_attempts),
    {
        UploadState { max_attempts, attempts_made: 0, finished: false, succeeded: false }
    }

    /// Whether the caller should make (another) attempt.
    pub fn should_attempt(&self) -> (r: bool)
        ensures
            r == !self.finished,
    {
        !self.finished
    }

    /// Record the outcome of one attempt.
    pub fn record_attempt(&mut self, success: bool)
        requires
            !old(self).finished,
            old(self).attempts_made < u64::MAX,
        ensures
            *final(self) == old(self).step(success),
    {
        self.attempts_made = self.attempts_made + 1;
        self.succeeded = success;
        self.finished = success || self.attempts_made >= self.max_attempts;
    }
}

/// Against a destination that always fails, the policy makes exactly
/// `max_attempts` attempts and then abandons the upload: after `k` failed
/// attempts it still retries for every `k` below the bound, and at the
/// bound it is finished, unsuccessful, with exactly `max_attempts`
/// attempts made.
pub proof fn lemma_always_failing_retries_exactly_max(max_attempts: u64)
    requires
        1 <= max_attempts,
    ensures
        forall|k: nat|
            k < max_attempts ==> !(#[trigger] UploadState::initial_spec(
                max_attempts,
            ).after_failures(k)).finished,
        ({
            let end = UploadState::initial_spec(max_attempts).after_failures(max_attempts as nat);
            &&& end.finished
            &&& !end.succeeded
            &&& end.attempts_made == max_attempts
        }),
{
    assert forall|k: nat| k <= max_attempts implies {
        let s = #[trigger] UploadState::initial_spec(max_attempts).after_failures(k);
        &&& s.attempts_made == k
        &&& s.max_attempts == max_attempts
        &&& s.finished == (k == max_attempts)
        &&& !s.succeeded
    } by {
        lemma_failures_count(UploadState::initial_spec(max_attempts), k);
    }
}

/// After `n` failed attempts from the start state, the attempt counter
/// reads `n`, nothing has succeeded, and the upload is finished exactly
/// when the bound is reached.
proof fn lemma_failures_count(start: UploadState, n: nat)
    requires
        start == UploadState::initial_spec(start.max_attempts),
        1 <= start.max_attempts,
        n <= start.max_attempts,
    ensures
        start.after_failures(n).attempts_made == n,
        start.after_failures(n).max_attempts == start.max_attempts,
        start.after_failures(n).finished == (n == start.max_attempts),
        !start.after_failures(n).succeeded,
    decreases n,
{
    if n > 0 {
        lemma_failures_count(start, (n - 1) as nat);
    }
}

/// The first success stops the retry loop at once: one successful attempt
/// finishes the upload as succeeded, whatever came before it.
pub proof fn lemma_success_stops_immediately(s: UploadState)
    requires
        !s.finished,
        s.attempts_made < u64::MAX,
    ensures
        s.step(true).finished,
        s.step(true).succeeded,
        s.step(true).attempts_made == s.attempts_made + 1,
{
}

} // verus!
