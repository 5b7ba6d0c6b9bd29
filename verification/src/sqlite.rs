//! Checkpointing the database's write-ahead log before the launcher exits.
//!
//! The managed server does not always close its database cleanly, so the
//! launcher forces a truncating checkpoint on its behalf: again and again, at
//! a fixed interval, while the log's sidecar file still exists and the time
//! is not up. The caller looks at the file system and talks to the database;
//! what happens next is decided here.

use vstd::prelude::*;
use crate::text::joined;

verus! {

/// Time between two checkpoints, in milliseconds.
pub const CHECKPOINT_INTERVAL_MS: u64 = 100;

/// Total time allowed for checkpointing, in milliseconds.
pub const CHECKPOINT_TIMEOUT_MS: u64 = 5000;

/// The statements that prepare a fresh connection.
pub const CONNECTION_PRAGMAS: &'static str =
    "PRAGMA foreign_keys = 0;\nPRAGMA cache_size = -16000;\nPRAGMA busy_timeout = 10000;";

/// The statement that moves the log into the database and truncates it.
pub const CHECKPOINT_STATEMENT: &'static str = "PRAGMA wal_checkpoint(TRUNCATE);";

/// The error text of a checkpoint whose time ran out.
pub const TIMED_OUT: &'static str = "operation timed out";

/// The connection address of the database file at `path`.
pub fn database_url(path: &str) -> (r: String)
    ensures
        r@ == "sqlite://"@ + path@,
{
    joined("sqlite://", path)
}

/// How the checkpointing ended.
#[derive(Debug)]
pub enum CheckpointOutcome {
    /// There was no log: nothing was done, no connection was opened.
    NotNeeded,
    /// The log is gone and no attempt failed.
    Completed,
    /// An attempt failed or the time ran out; `error` is the last error.
    Failed { error: String },
}

/// What the caller reports.
#[derive(Debug)]
pub enum CheckpointEvent {
    /// The timer fired.
    Tick,
    /// One checkpoint was attempted; `error` is its error text, if it failed.
    Attempted { error: Option<String> },
    /// The caller looked: the log `exists` or not, `elapsed_ms` after the
    /// checkpointing began.
    Looked { exists: bool, elapsed_ms: u64 },
}

/// What the caller has to do next.
#[derive(Debug)]
pub enum CheckpointAction {
    /// Wait for the next tick.
    Wait,
    /// Open a connection, issue the checkpoint statement, close.
    Attempt,
    /// See whether the log still exists and how much time has passed.
    Look,
    /// Stop with this outcome.
    Finish { outcome: CheckpointOutcome },
    /// Nothing: the event does not belong to the current phase.
    Ignore,
}

/// Where the checkpointing stands.
#[derive(Clone, Copy, Debug, PartialEq, Eq, Structural)]
pub enum CheckpointPhase {
    Waiting,
    Attempting,
    Looking,
    Finished,
}

/// The coordinator of the checkpointing.
#[derive(Debug)]
pub struct Checkpointing {
    pub phase: CheckpointPhase,
    /// The error text of the last attempt that failed.
    pub last_error: Option<String>,
}

/// The outcome of a checkpointing that was needed and ends with the last
/// error `last_error`.
pub open spec fn outcome_of(last_error: Option<String>) -> CheckpointOutcome {
    match last_error {
        Some(error) => CheckpointOutcome::Failed { error },
        None => CheckpointOutcome::Completed,
    }
}

/// The transition taken on `event` in `state`, where `timed_out` is the
/// error text of a time-out.
pub open spec fn checkpoint_step(state: Checkpointing, event: CheckpointEvent, timed_out: String) -> (
    Checkpointing,
    CheckpointAction,
) {
    match (state.phase, event) {
        (CheckpointPhase::Waiting, CheckpointEvent::Tick) => (
            Checkpointing { phase: CheckpointPhase::Attempting, ..state },
            CheckpointAction::Attempt,
        ),
        (CheckpointPhase::Attempting, CheckpointEvent::Attempted { error }) => (
            Checkpointing {
                phase: CheckpointPhase::Looking,
                last_error: if error is Some {
                    error
                } else {
                    state.last_error
                },
            },
            CheckpointAction::Look,
        ),
        (CheckpointPhase::Looking, CheckpointEvent::Looked { exists, elapsed_ms }) => if !exists {
            (
                Checkpointing { phase: CheckpointPhase::Finished, ..state },
                CheckpointAction::Finish { outcome: outcome_of(state.last_error) },
            )
        } else if elapsed_ms > CHECKPOINT_TIMEOUT_MS {
            (
                Checkpointing { phase: CheckpointPhase::Finished, last_error: Some(timed_out) },
                CheckpointAction::Finish { outcome: CheckpointOutcome::Failed { error: timed_out } },
            )
        } else {
            (Checkpointing { phase: CheckpointPhase::Waiting, ..state }, CheckpointAction::Wait)
        },
        _ => (state, CheckpointAction::Ignore),
    }
}

/// Begins the checkpointing of a database whose log `wal_exists` or not.
/// Without a log there is nothing to do: the checkpointing is over at once
/// and no connection is ever asked for.
pub fn wait_checkpoint(wal_exists: bool) -> (r: (Checkpointing, CheckpointAction))
    ensures
        r.0.last_error is None,
        !wal_exists ==> r.0.phase == CheckpointPhase::Finished && r.1
            == (CheckpointAction::Finish { outcome: CheckpointOutcome::NotNeeded }),
        wal_exists ==> r.0.phase == CheckpointPhase::Waiting && r.1 == CheckpointAction::Wait,
{
    if wal_exists {
        (Checkpointing { phase: CheckpointPhase::Waiting, last_error: None }, CheckpointAction::Wait)
    } else {
        (
            Checkpointing { phase: CheckpointPhase::Finished, last_error: None },
            CheckpointAction::Finish { outcome: CheckpointOutcome::NotNeeded },
        )
    }
}

impl Checkpointing {
    /// The transition on `event`.
    pub fn step(self, event: CheckpointEvent) -> (r: (Checkpointing, CheckpointAction))
        ensures
            exists|timed_out: String|
                timed_out@ == TIMED_OUT@ && r == checkpoint_step(self, event, timed_out),
    {
        let ghost before = self;
        let Checkpointing { phase, last_error } = self;
        let timed_out = String::from_str(TIMED_OUT);
        let ghost witness = timed_out;
        let r = match phase {
            CheckpointPhase::Waiting => match event {
                CheckpointEvent::Tick => (
                    Checkpointing { phase: CheckpointPhase::Attempting, last_error },
                    CheckpointAction::Attempt,
                ),
                _ => (Checkpointing { phase, last_error }, CheckpointAction::Ignore),
            },
            CheckpointPhase::Attempting => match event {
                CheckpointEvent::Attempted { error } => {
                    let kept = match error {
                        Some(e) => Some(e),
                        None => last_error,
                    };
                    (
                        Checkpointing { phase: CheckpointPhase::Looking, last_error: kept },
                        CheckpointAction::Look,
                    )
                },
                _ => (Checkpointing { phase, last_error }, CheckpointAction::Ignore),
            },
            CheckpointPhase::Looking => match event {
                CheckpointEvent::Looked { exists, elapsed_ms } => {
                    if !exists {
                        let outcome = match last_error.clone() {
                            Some(error) => CheckpointOutcome::Failed { error },
                            None => CheckpointOutcome::Completed,
                        };
                        (
                            Checkpointing { phase: CheckpointPhase::Finished, last_error },
                            CheckpointAction::Finish { outcome },
                        )
                    } else if elapsed_ms > CHECKPOINT_TIMEOUT_MS {
                        let text = timed_out.clone();
                        let r = (
                            Checkpointing {
                                phase: CheckpointPhase::Finished,
                                last_error: Some(timed_out),
                            },
                            CheckpointAction::Finish {
                                outcome: CheckpointOutcome::Failed { error: text },
                            },
                        );
                        r
                    } else {
                        (
                            Checkpointing { phase: CheckpointPhase::Waiting, last_error },
                            CheckpointAction::Wait,
                        )
                    }
                },
                _ => (Checkpointing { phase, last_error }, CheckpointAction::Ignore),
            },
            CheckpointPhase::Finished => (
                Checkpointing { phase, last_error },
                CheckpointAction::Ignore,
            ),
        };
        assert(r == checkpoint_step(before, event, witness));
        r
    }
}

/// Without a log nothing is ever attempted: the checkpointing is over from
/// the start, and whatever is reported to it afterwards, it asks for
/// nothing.
pub proof fn lemma_no_log_no_connection(event: CheckpointEvent, timed_out: String)
    ensures
        checkpoint_step(
            Checkpointing { phase: CheckpointPhase::Finished, last_error: None },
            event,
            timed_out,
        ).1 == CheckpointAction::Ignore,
{
}

/// An attempt is made only in answer to a tick, and a tick is waited for
/// only after a look that found the log in place and the time not up: once
/// the time is up, the checkpointing gives up with a time-out.
pub proof fn lemma_checkpoint_gives_up(state: Checkpointing, elapsed_ms: u64, timed_out: String)
    requires
        state.phase == CheckpointPhase::Looking,
        elapsed_ms > CHECKPOINT_TIMEOUT_MS,
    ensures
        checkpoint_step(state, CheckpointEvent::Looked { exists: true, elapsed_ms }, timed_out).1
            == (CheckpointAction::Finish { outcome: CheckpointOutcome::Failed { error: timed_out } }),
        checkpoint_step(
            state,
            CheckpointEvent::Looked { exists: true, elapsed_ms },
            timed_out,
        ).0.phase == CheckpointPhase::Finished,
        forall|s: Checkpointing, e: CheckpointEvent| #[trigger]
            checkpoint_step(s, e, timed_out).1 == CheckpointAction::Attempt ==> s.phase
                == CheckpointPhase::Waiting && e is Tick,
{
}

} // verus!
