use vstd::prelude::*;

verus! {

/// Delay before the first retry of a failed schema migration, in
/// milliseconds.
pub const INITIAL_RETRY_DELAY_MS: u64 = 100;

/// How far the schema migration has come at startup. Nothing may touch the
/// status store before the state is `Ready`.
#[derive(Clone, Copy, Debug, PartialEq, Eq, Structural)]
pub enum MigrationState {
    /// No migration attempt has failed yet.
    Pending,
    /// The last attempt failed; the next one follows after `delay_ms`.
    Retrying { delay_ms: u64 },
    /// The schema is in place.
    Ready,
}

/// What the caller does after a migration attempt.
#[derive(Clone, Copy, Debug, PartialEq, Eq, Structural)]
pub enum MigrationAction {
    /// Sleep for `delay_ms`, then attempt the migration again.
    RetryAfter { delay_ms: u64 },
    /// Go on with startup.
    Proceed,
}

/// The delay that follows `failures` failed attempts in a row: the initial
/// delay after the first, twice the previous delay after each further one.
pub open spec fn retry_delay(failures: nat) -> int
    decreases failures,
{
    if failures <= 1 {
        INITIAL_RETRY_DELAY_MS as int
    } else {
        2 * retry_delay((failures - 1) as nat)
    }
}

/// The state when all of the `failures` attempts so far have failed.
pub open spec fn after_failures(failures: nat) -> MigrationState {
    if failures == 0 {
        MigrationState::Pending
    } else {
        MigrationState::Retrying { delay_ms: retry_delay(failures) as u64 }
    }
}

impl MigrationState {
    /// The state at startup.
    pub fn new() -> (state: MigrationState)
        ensures
            state == MigrationState::Pending,
    {
        MigrationState::Pending
    }

    /// The delay a further failed attempt leads to.
    pub open spec fn next_delay(self) -> int {
        match self {
            MigrationState::Retrying { delay_ms } => 2 * delay_ms,
            _ => INITIAL_RETRY_DELAY_MS as int,
        }
    }

    /// The state after one more migration attempt. Once ready, always
    /// ready; a success makes it ready; a failure schedules a retry.
    pub open spec fn after_attempt(self, succeeded: bool) -> MigrationState {
        if self == MigrationState::Ready || succeeded {
            MigrationState::Ready
        } else {
            MigrationState::Retrying { delay_ms: self.next_delay() as u64 }
        }
    }

    /// What the caller does once an attempt has led to this state.
    pub open spec fn action(self) -> MigrationAction {
        match self {
            MigrationState::Retrying { delay_ms } => MigrationAction::RetryAfter { delay_ms },
            _ => MigrationAction::Proceed,
        }
    }

    /// Whether the schema is in place.
    pub fn is_ready(&self) -> (ready: bool)
        ensures
            ready == (*self == MigrationState::Ready),
    {
        match self {
            MigrationState::Ready => true,
            _ => false,
        }
    }

    /// Whether a further failed attempt can be scheduled: the doubled delay
    /// still fits in 64 bits.
    pub fn can_fail(&self) -> (fits: bool)
        ensures
            fits == (self.next_delay() <= u64::MAX),
    {
        match self {
            MigrationState::Retrying { delay_ms } => *delay_ms <= u64::MAX / 2,
            _ => true,
        }
    }

    /// Records the result of one migration attempt and says what to do next.
    /// The delay is never capped: a failure whose doubled delay no longer
    /// fits in 64 bits is outside this function.
    pub fn on_attempt(self, succeeded: bool) -> (next: (MigrationState, MigrationAction))
        requires
            self != MigrationState::Ready && !succeeded ==> self.next_delay() <= u64::MAX,
        ensures
            next.0 == self.after_attempt(succeeded),
            next.1 == next.0.action(),
    {
        if succeeded {
            return (MigrationState::Ready, MigrationAction::Proceed);
        }
        match self {
            MigrationState::Ready => (MigrationState::Ready, MigrationAction::Proceed),
            MigrationState::Pending => (
                MigrationState::Retrying { delay_ms: INITIAL_RETRY_DELAY_MS },
                MigrationAction::RetryAfter { delay_ms: INITIAL_RETRY_DELAY_MS },
            ),
            MigrationState::Retrying { delay_ms } => {
                let doubled: u64 = delay_ms * 2;
                (
                    MigrationState::Retrying { delay_ms: doubled },
                    MigrationAction::RetryAfter { delay_ms: doubled },
                )
            },
        }
    }
}

/// Delays only grow: each one is at least the initial delay and at most the
/// one that follows it.
pub proof fn lemma_retry_delay_grows(failures: nat)
    ensures
        INITIAL_RETRY_DELAY_MS <= retry_delay(failures) <= retry_delay(failures + 1),
    decreases failures,
{
    if failures > 1 {
        lemma_retry_delay_grows((failures - 1) as nat);
    }
}

/// One more failure after `failures` failures in a row leads to the state of
/// `failures + 1` failures, as long as the new delay fits in 64 bits: the
/// first retry waits the initial delay and each further one twice as long as
/// the one before.
pub proof fn law_failure_doubles_delay(failures: nat)
    requires
        retry_delay(failures + 1) <= u64::MAX,
    ensures
        after_failures(failures).after_attempt(false) == after_failures(failures + 1),
        after_failures(failures + 1).action() == (MigrationAction::RetryAfter {
            delay_ms: retry_delay(failures + 1) as u64,
        }),
{
    lemma_retry_delay_grows(failures);
}

/// A success makes the state ready whatever came before, and a ready state
/// stays ready whatever is reported to it.
pub proof fn law_success_makes_ready(state: MigrationState, succeeded: bool)
    ensures
        state.after_attempt(true) == MigrationState::Ready,
        MigrationState::Ready.after_attempt(succeeded) == MigrationState::Ready,
        MigrationState::Ready.action() == MigrationAction::Proceed,
{
}

} // verus!
