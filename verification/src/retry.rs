//! Best-effort operations that are repeated at every tick of a timer until
//! they succeed or a wall-clock budget is spent.
//!
//! Writing and removing the PID file and killing an orphaned process all
//! follow this pattern: a failure is never fatal, it is reported once per
//! distinct error text, and the operation is tried again.

use vstd::prelude::*;

verus! {

/// Time between two attempts, in milliseconds.
pub const RETRY_INTERVAL_MS: u64 = 50;

/// Total time allowed for one best-effort operation, in milliseconds.
pub const RETRY_BUDGET_MS: u64 = 5000;

/// What the caller reports.
#[derive(Debug)]
pub enum RetryEvent {
    /// The timer fired; `elapsed_ms` is the time since the operation began.
    Tick { elapsed_ms: u64 },
    /// The attempt succeeded.
    Succeeded,
    /// The attempt failed with the error text `error`.
    Failed { error: String },
    /// There was nothing to attempt this time.
    Skipped,
}

/// What the caller has to do next.
#[derive(Debug)]
pub enum RetryAction {
    /// Wait for the next tick.
    Wait,
    /// Log `error`, then wait for the next tick.
    Report { error: String },
    /// Make one attempt.
    Attempt,
    /// Stop: the operation `completed`, or the budget ran out.
    Finish { completed: bool },
    /// Nothing: the event does not belong to the current phase.
    Ignore,
}

/// Where the operation stands.
#[derive(Clone, Copy, Debug, PartialEq, Eq, Structural)]
pub enum RetryPhase {
    Waiting,
    Trying,
    Finished,
}

/// The coordinator of one best-effort operation.
#[derive(Debug)]
pub struct BestEffort {
    pub budget_ms: u64,
    pub phase: RetryPhase,
    /// The error text that was reported last; empty before the first failure.
    pub last_error: String,
}

/// The transition taken on `event` in `state`.
pub open spec fn retry_step(state: BestEffort, event: RetryEvent) -> (BestEffort, RetryAction) {
    match (state.phase, event) {
        (RetryPhase::Waiting, RetryEvent::Tick { elapsed_ms }) => if elapsed_ms > state.budget_ms {
            (
                BestEffort { phase: RetryPhase::Finished, ..state },
                RetryAction::Finish { completed: false },
            )
        } else {
            (BestEffort { phase: RetryPhase::Trying, ..state }, RetryAction::Attempt)
        },
        (RetryPhase::Trying, RetryEvent::Succeeded) => (
            BestEffort { phase: RetryPhase::Finished, ..state },
            RetryAction::Finish { completed: true },
        ),
        (RetryPhase::Trying, RetryEvent::Failed { error }) => if state.last_error@ != error@ {
            (
                BestEffort { phase: RetryPhase::Waiting, last_error: error, ..state },
                RetryAction::Report { error },
            )
        } else {
            (BestEffort { phase: RetryPhase::Waiting, ..state }, RetryAction::Wait)
        },
        (RetryPhase::Trying, RetryEvent::Skipped) => (
            BestEffort { phase: RetryPhase::Waiting, ..state },
            RetryAction::Wait,
        ),
        _ => (state, RetryAction::Ignore),
    }
}

impl BestEffort {
    /// An operation that has not been tried yet, with the usual budget.
    pub fn begin() -> (r: BestEffort)
        ensures
            r.budget_ms == RETRY_BUDGET_MS,
            r.phase == RetryPhase::Waiting,
            r.last_error@ == Seq::<char>::empty(),
    {
        BestEffort {
            budget_ms: RETRY_BUDGET_MS,
            phase: RetryPhase::Waiting,
            last_error: String::new(),
        }
    }

    /// The transition on `event`.
    pub fn step(self, event: RetryEvent) -> (r: (BestEffort, RetryAction))
        ensures
            r == retry_step(self, event),
    {
        let BestEffort { budget_ms, phase, last_error } = self;
        match phase {
            RetryPhase::Waiting => match event {
                RetryEvent::Tick { elapsed_ms } => {
                    if elapsed_ms > budget_ms {
                        (
                            BestEffort { budget_ms, phase: RetryPhase::Finished, last_error },
                            RetryAction::Finish { completed: false },
                        )
                    } else {
                        (
                            BestEffort { budget_ms, phase: RetryPhase::Trying, last_error },
                            RetryAction::Attempt,
                        )
                    }
                },
                _ => (
                    BestEffort { budget_ms, phase: RetryPhase::Waiting, last_error },
                    RetryAction::Ignore,
                ),
            },
            RetryPhase::Trying => match event {
                RetryEvent::Succeeded => (
                    BestEffort { budget_ms, phase: RetryPhase::Finished, last_error },
                    RetryAction::Finish { completed: true },
                ),
                RetryEvent::Failed { error } => {
                    if last_error == error {
                        (
                            BestEffort { budget_ms, phase: RetryPhase::Waiting, last_error },
                            RetryAction::Wait,
                        )
                    } else {
                        let text = error.clone();
                        (
                            BestEffort { budget_ms, phase: RetryPhase::Waiting, last_error: error },
                            RetryAction::Report { error: text },
                        )
                    }
                },
                RetryEvent::Skipped => (
                    BestEffort { budget_ms, phase: RetryPhase::Waiting, last_error },
                    RetryAction::Wait,
                ),
                _ => (
                    BestEffort { budget_ms, phase: RetryPhase::Trying, last_error },
                    RetryAction::Ignore,
                ),
            },
            RetryPhase::Finished => (
                BestEffort { budget_ms, phase: RetryPhase::Finished, last_error },
                RetryAction::Ignore,
            ),
        }
    }
}

/// No attempt is begun once the budget is spent: the tick that finds it
/// spent ends the operation, and nothing follows.
pub proof fn lemma_retry_stops_at_budget(state: BestEffort, elapsed_ms: u64, later: RetryEvent)
    requires
        state.phase == RetryPhase::Waiting,
        elapsed_ms > state.budget_ms,
    ensures
        retry_step(state, RetryEvent::Tick { elapsed_ms }).1 == (RetryAction::Finish {
            completed: false,
        }),
        retry_step(retry_step(state, RetryEvent::Tick { elapsed_ms }).0, later).1
            == RetryAction::Ignore,
{
}

/// A failure is reported when its text differs from the one reported last,
/// and the same text is not reported twice in a row.
pub proof fn lemma_retry_reports_once(state: BestEffort, error: String, elapsed_ms: u64)
    requires
        state.phase == RetryPhase::Trying,
        elapsed_ms <= state.budget_ms,
    ensures
        ({
            let first = retry_step(state, RetryEvent::Failed { error });
            let tick = retry_step(first.0, RetryEvent::Tick { elapsed_ms });
            let second = retry_step(tick.0, RetryEvent::Failed { error });
            &&& first.1 == if state.last_error@ != error@ {
                RetryAction::Report { error }
            } else {
                RetryAction::Wait
            }
            &&& tick.1 == RetryAction::Attempt
            &&& second.1 == RetryAction::Wait
        }),
{
}

} // verus!
