//! Atomic persistence of the configuration file.
//!
//! The text is written to a temporary sibling file and renamed over the
//! destination. Every failure is followed by the removal of the temporary file
//! and a new attempt at the next tick, until the attempt succeeds or the
//! wall-clock budget is spent. The caller performs the file operations and
//! reports what happened; the decisions are taken here.

use vstd::prelude::*;
use crate::config::types::{default_config, Config};
use crate::text::joined;

verus! {

/// The comment block that opens every saved configuration file.
pub const CONFIG_HEADER: &'static str =
    "#\n#! User comments on this file will be lost whenever\n#    the configuration is updated by Memospot !\n#\n# For an explained configuration file, see:\n# https://memospot.github.io/configuration\n#\n";

/// Time between two attempts, in milliseconds.
pub const SAVE_INTERVAL_MS: u64 = 50;

/// Total time allowed for saving, in milliseconds.
pub const SAVE_BUDGET_MS: u64 = 5000;

/// The text of a configuration file whose serialized document is `yaml`.
pub fn file_contents(yaml: &str) -> (r: String)
    ensures
        r@ == CONFIG_HEADER@ + yaml@,
{
    let mut r = String::from_str(CONFIG_HEADER);
    r.append(yaml);
    r
}

/// `uuid::Uuid::new_v4` draws a random identifier, and `to_string` renders it.
/// Nothing is claimed of the text: it differs from call to call.
#[verifier::external_body]
fn fresh_token() -> (r: String) {
    uuid::Uuid::new_v4().to_string()
}

/// The file name of the temporary sibling built from `token`.
pub fn temp_file_name(token: &str) -> (r: String)
    ensures
        r@ == token@ + ".tmp"@,
{
    let mut r = String::from_str(token);
    r.append(".tmp");
    r
}

/// The sub-step of one attempt at which a failure was observed.
#[derive(Clone, Copy, Debug, PartialEq, Eq, Structural)]
pub enum SaveStage {
    Create,
    Write,
    Flush,
    Rename,
}

/// Why a configuration could not be saved.
#[derive(Debug)]
pub enum SaveError {
    /// The destination is a directory.
    IsDirectory,
    /// The document could not be serialized.
    Serialize,
    /// The budget ran out; `last_error` is the most recent failure, if any.
    TimedOut { last_error: Option<String> },
}

/// The error `error` in words.
pub open spec fn save_error_text(error: SaveError) -> Seq<char> {
    match error {
        SaveError::IsDirectory => "provided configuration file is a directory"@,
        SaveError::Serialize => "failed to serialize configuration"@,
        SaveError::TimedOut { last_error } =>
            "unable to write configuration. Timed out after 5 seconds. Last error: "@
            + match last_error {
                Some(text) => text@,
                None => "none"@,
            },
    }
}

impl SaveError {
    /// The error in words.
    pub fn message(&self) -> (r: String)
        ensures
            r@ == save_error_text(*self),
    {
        match self {
            SaveError::IsDirectory => String::from_str("provided configuration file is a directory"),
            SaveError::Serialize => String::from_str("failed to serialize configuration"),
            SaveError::TimedOut { last_error } => {
                let last = match last_error {
                    Some(text) => text.as_str(),
                    None => "none",
                };
                joined(
                    "unable to write configuration. Timed out after 5 seconds. Last error: ",
                    last,
                )
            },
        }
    }
}

/// What the caller reports to the coordinator.
#[derive(Debug)]
pub enum SaveEvent {
    /// The timer fired; `elapsed_ms` is the time since saving began.
    Tick { elapsed_ms: u64 },
    /// The temporary file was created, written, flushed and renamed.
    Written,
    /// The attempt failed at `stage` with the error text `error`.
    Failed { stage: SaveStage, error: String },
    /// The temporary file of the failed attempt is gone (or could not be removed).
    TempRemoved,
}

/// What the caller has to do next.
#[derive(Debug)]
pub enum SaveAction {
    /// Wait for the next tick of the timer.
    Wait,
    /// Create the temporary sibling `temp`, write the text, flush, rename.
    Write { temp: String },
    /// Remove the temporary sibling `temp`.
    RemoveTemp { temp: String },
    /// Saving is over with this result.
    Finish { result: Result<(), SaveError> },
    /// Nothing: the event does not belong to the current phase.
    Ignore,
}

/// Where the coordinator stands.
#[derive(Debug)]
pub enum SavePhase {
    /// Waiting for a tick before the next attempt.
    Waiting,
    /// An attempt on the temporary file `temp` is under way.
    Attempting { temp: String },
    /// The temporary file `temp` of a failed attempt is being removed.
    Cleaning { temp: String },
    /// Saving is over.
    Finished,
}

/// The coordinator of one save.
#[derive(Debug)]
pub struct SaveState {
    pub phase: SavePhase,
    /// The error text of the most recent failed attempt.
    pub last_error: Option<String>,
}

/// The transition taken on `event` in `state`, where `temp` is the name that
/// a new attempt would use.
pub open spec fn save_step(state: SaveState, event: SaveEvent, temp: String) -> (
    SaveState,
    SaveAction,
) {
    match (state.phase, event) {
        (SavePhase::Waiting, SaveEvent::Tick { elapsed_ms }) => if elapsed_ms > SAVE_BUDGET_MS {
            (
                SaveState { phase: SavePhase::Finished, last_error: state.last_error },
                SaveAction::Finish {
                    result: Err(SaveError::TimedOut { last_error: state.last_error }),
                },
            )
        } else {
            (
                SaveState {
                    phase: SavePhase::Attempting { temp },
                    last_error: state.last_error,
                },
                SaveAction::Write { temp },
            )
        },
        (SavePhase::Attempting { temp: used }, SaveEvent::Written) => (
            SaveState { phase: SavePhase::Finished, last_error: state.last_error },
            SaveAction::Finish { result: Ok(()) },
        ),
        (SavePhase::Attempting { temp: used }, SaveEvent::Failed { stage, error }) => if stage
            == SaveStage::Create {
            (SaveState { phase: SavePhase::Waiting, last_error: Some(error) }, SaveAction::Wait)
        } else {
            (
                SaveState { phase: SavePhase::Cleaning { temp: used }, last_error: Some(error) },
                SaveAction::RemoveTemp { temp: used },
            )
        },
        (SavePhase::Cleaning { temp: used }, SaveEvent::TempRemoved) => (
            SaveState { phase: SavePhase::Waiting, last_error: state.last_error },
            SaveAction::Wait,
        ),
        _ => (state, SaveAction::Ignore),
    }
}

impl SaveState {
    /// The coordinator before the first tick, for a destination that
    /// `is_directory` says is a directory or not, and a document that was
    /// serialized (`serialized`) or not. A directory is refused first, then
    /// a document that cannot be serialized.
    pub fn begin(is_directory: bool, serialized: bool) -> (r: (SaveState, SaveAction))
        ensures
            r.0.last_error is None,
            is_directory ==> r.0.phase is Finished && r.1 == (SaveAction::Finish {
                result: Err(SaveError::IsDirectory),
            }),
            !is_directory && !serialized ==> r.0.phase is Finished && r.1 == (SaveAction::Finish {
                result: Err(SaveError::Serialize),
            }),
            !is_directory && serialized ==> r.0.phase is Waiting && r.1 == SaveAction::Wait,
    {
        if is_directory {
            (
                SaveState { phase: SavePhase::Finished, last_error: None },
                SaveAction::Finish { result: Err(SaveError::IsDirectory) },
            )
        } else if !serialized {
            (
                SaveState { phase: SavePhase::Finished, last_error: None },
                SaveAction::Finish { result: Err(SaveError::Serialize) },
            )
        } else {
            (SaveState { phase: SavePhase::Waiting, last_error: None }, SaveAction::Wait)
        }
    }

    /// The transition on `event`, where a new attempt uses the file name `temp`.
    pub fn step_with(self, event: SaveEvent, temp: String) -> (r: (SaveState, SaveAction))
        ensures
            r == save_step(self, event, temp),
    {
        match self.phase {
            SavePhase::Waiting => match event {
                SaveEvent::Tick { elapsed_ms } => {
                    if elapsed_ms > SAVE_BUDGET_MS {
                        let last = self.last_error.clone();
                        (
                            SaveState { phase: SavePhase::Finished, last_error: self.last_error },
                            SaveAction::Finish {
                                result: Err(SaveError::TimedOut { last_error: last }),
                            },
                        )
                    } else {
                        let name = temp.clone();
                        (
                            SaveState {
                                phase: SavePhase::Attempting { temp },
                                last_error: self.last_error,
                            },
                            SaveAction::Write { temp: name },
                        )
                    }
                },
                _ => (
                    SaveState { phase: SavePhase::Waiting, last_error: self.last_error },
                    SaveAction::Ignore,
                ),
            },
            SavePhase::Attempting { temp: used } => match event {
                SaveEvent::Written => (
                    SaveState { phase: SavePhase::Finished, last_error: self.last_error },
                    SaveAction::Finish { result: Ok(()) },
                ),
                SaveEvent::Failed { stage, error } => {
                    if stage == SaveStage::Create {
                        (
                            SaveState { phase: SavePhase::Waiting, last_error: Some(error) },
                            SaveAction::Wait,
                        )
                    } else {
                        let name = used.clone();
                        (
                            SaveState {
                                phase: SavePhase::Cleaning { temp: used },
                                last_error: Some(error),
                            },
                            SaveAction::RemoveTemp { temp: name },
                        )
                    }
                },
                _ => (
                    SaveState {
                        phase: SavePhase::Attempting { temp: used },
                        last_error: self.last_error,
                    },
                    SaveAction::Ignore,
                ),
            },
            SavePhase::Cleaning { temp: used } => match event {
                SaveEvent::TempRemoved => (
                    SaveState { phase: SavePhase::Waiting, last_error: self.last_error },
                    SaveAction::Wait,
                ),
                _ => (
                    SaveState {
                        phase: SavePhase::Cleaning { temp: used },
                        last_error: self.last_error,
                    },
                    SaveAction::Ignore,
                ),
            },
            SavePhase::Finished => (
                SaveState { phase: SavePhase::Finished, last_error: self.last_error },
                SaveAction::Ignore,
            ),
        }
    }

    /// The transition on `event`. A new attempt writes to a temporary file
    /// with a fresh random name that ends in `.tmp`.
    pub fn step(self, event: SaveEvent) -> (r: (SaveState, SaveAction))
        ensures
            exists|temp: String|
                r == save_step(self, event, temp) && ".tmp"@.is_suffix_of(temp@),
    {
        let token = fresh_token();
        let temp = temp_file_name(token.as_str());
        assert(temp@.skip(temp@.len() - ".tmp"@.len()) == ".tmp"@);
        self.step_with(event, temp)
    }
}

impl Config {
    /// Begins to reset the configuration file to the defaults: the
    /// document to write, and the coordinator of its save.
    pub fn reset_file(is_directory: bool) -> (r: (Config, (SaveState, SaveAction)))
        ensures
            r.0@ == default_config(),
            r.1.0.last_error is None,
            is_directory ==> r.1.0.phase is Finished && r.1.1 == (SaveAction::Finish {
                result: Err(SaveError::IsDirectory),
            }),
            !is_directory ==> r.1.0.phase is Waiting && r.1.1 == SaveAction::Wait,
    {
        (Config::default(), SaveState::begin(is_directory, true))
    }
}

/// The state after the events `events`, taken in order from `state`, where
/// the attempt begun at event `i` would use the file name `temps[i]`.
pub open spec fn save_run(state: SaveState, events: Seq<SaveEvent>, temps: Seq<String>) -> SaveState
    decreases events.len(),
{
    if events.len() == 0 {
        state
    } else {
        save_step(
            save_run(state, events.drop_last(), temps.drop_last()),
            events.last(),
            temps.last(),
        ).0
    }
}

/// The action that answers the last of the events `events`.
pub open spec fn save_last_action(
    state: SaveState,
    events: Seq<SaveEvent>,
    temps: Seq<String>,
) -> SaveAction
    recommends
        events.len() > 0,
{
    save_step(save_run(state, events.drop_last(), temps.drop_last()), events.last(), temps.last()).1
}

/// A failure after the temporary file was created is answered by the removal
/// of that very file, and the next attempt waits until it is gone.
pub proof fn lemma_failed_attempt_is_cleaned(
    state: SaveState,
    stage: SaveStage,
    error: String,
    temp: String,
)
    requires
        state.phase is Attempting,
        stage != SaveStage::Create,
    ensures
        save_step(state, SaveEvent::Failed { stage, error }, temp).1 == (SaveAction::RemoveTemp {
            temp: state.phase->Attempting_temp,
        }),
        save_step(state, SaveEvent::Failed { stage, error }, temp).0.phase == (SavePhase::Cleaning {
            temp: state.phase->Attempting_temp,
        }),
        forall|e: SaveEvent, t: String|
            !(e is TempRemoved) ==> #[trigger] save_step(
                save_step(state, SaveEvent::Failed { stage, error }, temp).0,
                e,
                t,
            ).1 == SaveAction::Ignore,
{
}

/// One attempt whose rename fails: the tick within the budget starts it on
/// `temp`, the failure is answered by the removal of `temp`, and once that is
/// done the coordinator waits again, remembering the error.
pub proof fn lemma_failed_round(state: SaveState, elapsed_ms: u64, error: String, temp: String)
    requires
        state.phase is Waiting,
        elapsed_ms <= SAVE_BUDGET_MS,
    ensures
        ({
            let started = save_step(state, SaveEvent::Tick { elapsed_ms }, temp);
            let failed = save_step(
                started.0,
                SaveEvent::Failed { stage: SaveStage::Rename, error },
                temp,
            );
            let cleaned = save_step(failed.0, SaveEvent::TempRemoved, temp);
            &&& started.1 == SaveAction::Write { temp }
            &&& failed.1 == SaveAction::RemoveTemp { temp }
            &&& cleaned.1 == SaveAction::Wait
            &&& cleaned.0 == SaveState { phase: SavePhase::Waiting, last_error: Some(error) }
        }),
{
}

/// The tick that finds the budget spent ends the save with the error of the
/// most recent failed attempt.
pub proof fn lemma_timeout_returns_last_error(state: SaveState, elapsed_ms: u64, temp: String)
    requires
        state.phase is Waiting,
        elapsed_ms > SAVE_BUDGET_MS,
    ensures
        save_step(state, SaveEvent::Tick { elapsed_ms }, temp).1 == (SaveAction::Finish {
            result: Err(SaveError::TimedOut { last_error: state.last_error }),
        }),
        save_step(state, SaveEvent::Tick { elapsed_ms }, temp).0.phase is Finished,
{
}

/// Success is reported only in answer to a completed attempt: whatever the
/// events, if the last of them is not `Written`, the answer is not `Ok`.
pub proof fn lemma_success_needs_written(
    state: SaveState,
    events: Seq<SaveEvent>,
    temps: Seq<String>,
)
    requires
        events.len() > 0,
        !(events.last() is Written),
    ensures
        save_last_action(state, events, temps) != (SaveAction::Finish { result: Ok(()) }),
{
}

} // verus!
