//! Bringing the configuration file into a usable state at startup.
//!
//! A missing file is created with the defaults. A path that is a directory
//! or cannot be written is fatal. A file that cannot be read as a
//! configuration is reset to the defaults only if the user agrees, and only
//! after it was backed up; otherwise that is fatal too. The caller looks at
//! the file system and asks the user; what is done next is decided here.

use vstd::prelude::*;

verus! {

/// Why the launcher cannot start.
#[derive(Clone, Copy, Debug, PartialEq, Eq, Structural)]
pub enum StartupFailure {
    /// The missing file could not be created.
    UnableToCreate,
    /// The path is a directory.
    NotAFile,
    /// The file is not writable.
    NotWritable,
    /// The file is malformed and the user declined to reset it.
    Declined,
    /// The malformed file could not be backed up.
    UnableToBackUp,
    /// The malformed file could not be reset.
    UnableToReset,
}

/// What the caller reports.
#[derive(Clone, Copy, Debug, PartialEq, Eq, Structural)]
pub enum StartupEvent {
    /// The file `exists` or not.
    Probed { exists: bool },
    /// The defaults were `written` to the file or not.
    DefaultsWritten { written: bool },
    /// What the path is: a directory or not, writable or not.
    Inspected { is_dir: bool, writable: bool },
    /// The file was loaded, and is `valid` or not.
    Loaded { valid: bool },
    /// The user was asked whether to reset the file and `agreed` or not.
    Answered { agreed: bool },
    /// The file was `copied` to a backup or not.
    BackedUp { copied: bool },
}

/// What the caller has to do next.
#[derive(Clone, Copy, Debug, PartialEq, Eq, Structural)]
pub enum StartupAction {
    /// See whether the file exists.
    Probe,
    /// Write the defaults to the file.
    WriteDefaults,
    /// See whether the path is a directory and whether it is writable.
    Inspect,
    /// Load the file.
    Load,
    /// Show the error and ask the user whether to reset the file.
    AskToReset,
    /// Copy the file to a backup named after the current time.
    BackUp,
    /// Go on with the configuration that was loaded.
    UseLoaded,
    /// Go on with the defaults.
    UseDefaults,
    /// Tell the user and give up.
    Fatal { failure: StartupFailure },
    /// Nothing: the event does not belong to the current state.
    Ignore,
}

/// Where the startup stands.
#[derive(Clone, Copy, Debug, PartialEq, Eq, Structural)]
pub enum Startup {
    Probing,
    Creating,
    Inspecting,
    Loading,
    Asking,
    BackingUp,
    Resetting,
    Finished,
}

/// The transition taken on `event` in `state`.
pub open spec fn startup_step(state: Startup, event: StartupEvent) -> (Startup, StartupAction) {
    match (state, event) {
        (Startup::Probing, StartupEvent::Probed { exists }) => if exists {
            (Startup::Inspecting, StartupAction::Inspect)
        } else {
            (Startup::Creating, StartupAction::WriteDefaults)
        },
        (Startup::Creating, StartupEvent::DefaultsWritten { written }) => if written {
            (Startup::Inspecting, StartupAction::Inspect)
        } else {
            (Startup::Finished, StartupAction::Fatal { failure: StartupFailure::UnableToCreate })
        },
        (Startup::Inspecting, StartupEvent::Inspected { is_dir, writable }) => if is_dir {
            (Startup::Finished, StartupAction::Fatal { failure: StartupFailure::NotAFile })
        } else if !writable {
            (Startup::Finished, StartupAction::Fatal { failure: StartupFailure::NotWritable })
        } else {
            (Startup::Loading, StartupAction::Load)
        },
        (Startup::Loading, StartupEvent::Loaded { valid }) => if valid {
            (Startup::Finished, StartupAction::UseLoaded)
        } else {
            (Startup::Asking, StartupAction::AskToReset)
        },
        (Startup::Asking, StartupEvent::Answered { agreed }) => if agreed {
            (Startup::BackingUp, StartupAction::BackUp)
        } else {
            (Startup::Finished, StartupAction::Fatal { failure: StartupFailure::Declined })
        },
        (Startup::BackingUp, StartupEvent::BackedUp { copied }) => if copied {
            (Startup::Resetting, StartupAction::WriteDefaults)
        } else {
            (Startup::Finished, StartupAction::Fatal { failure: StartupFailure::UnableToBackUp })
        },
        (Startup::Resetting, StartupEvent::DefaultsWritten { written }) => if written {
            (Startup::Finished, StartupAction::UseDefaults)
        } else {
            (Startup::Finished, StartupAction::Fatal { failure: StartupFailure::UnableToReset })
        },
        _ => (state, StartupAction::Ignore),
    }
}

impl Startup {
    /// Begins with a look at the file.
    pub fn begin() -> (r: (Startup, StartupAction))
        ensures
            r == (Startup::Probing, StartupAction::Probe),
    {
        (Startup::Probing, StartupAction::Probe)
    }

    /// The transition on `event`.
    pub fn step(self, event: StartupEvent) -> (r: (Startup, StartupAction))
        ensures
            r == startup_step(self, event),
    {
        match (self, event) {
            (Startup::Probing, StartupEvent::Probed { exists }) => {
                if exists {
                    (Startup::Inspecting, StartupAction::Inspect)
                } else {
                    (Startup::Creating, StartupAction::WriteDefaults)
                }
            },
            (Startup::Creating, StartupEvent::DefaultsWritten { written }) => {
                if written {
                    (Startup::Inspecting, StartupAction::Inspect)
                } else {
                    (
                        Startup::Finished,
                        StartupAction::Fatal { failure: StartupFailure::UnableToCreate },
                    )
                }
            },
            (Startup::Inspecting, StartupEvent::Inspected { is_dir, writable }) => {
                if is_dir {
                    (Startup::Finished, StartupAction::Fatal { failure: StartupFailure::NotAFile })
                } else if !writable {
                    (
                        Startup::Finished,
                        StartupAction::Fatal { failure: StartupFailure::NotWritable },
                    )
                } else {
                    (Startup::Loading, StartupAction::Load)
                }
            },
            (Startup::Loading, StartupEvent::Loaded { valid }) => {
                if valid {
                    (Startup::Finished, StartupAction::UseLoaded)
                } else {
                    (Startup::Asking, StartupAction::AskToReset)
                }
            },
            (Startup::Asking, StartupEvent::Answered { agreed }) => {
                if agreed {
                    (Startup::BackingUp, StartupAction::BackUp)
                } else {
                    (Startup::Finished, StartupAction::Fatal { failure: StartupFailure::Declined })
                }
            },
            (Startup::BackingUp, StartupEvent::BackedUp { copied }) => {
                if copied {
                    (Startup::Resetting, StartupAction::WriteDefaults)
                } else {
                    (
                        Startup::Finished,
                        StartupAction::Fatal { failure: StartupFailure::UnableToBackUp },
                    )
                }
            },
            (Startup::Resetting, StartupEvent::DefaultsWritten { written }) => {
                if written {
                    (Startup::Finished, StartupAction::UseDefaults)
                } else {
                    (
                        Startup::Finished,
                        StartupAction::Fatal { failure: StartupFailure::UnableToReset },
                    )
                }
            },
            (state, _) => (state, StartupAction::Ignore),
        }
    }
}

/// A malformed file is never replaced without the user's consent and a
/// backup: the defaults are written over an existing file only right after
/// the backup succeeded, and the backup is made only right after the user
/// agreed.
pub proof fn lemma_reset_needs_consent_and_backup(state: Startup, event: StartupEvent)
    ensures
        state != Startup::Resetting && startup_step(state, event).0 == Startup::Resetting
            ==> state == Startup::BackingUp && event == (StartupEvent::BackedUp { copied: true }),
        state != Startup::BackingUp && startup_step(state, event).0 == Startup::BackingUp
            ==> state == Startup::Asking && event == (StartupEvent::Answered { agreed: true }),
        startup_step(state, event).1 == StartupAction::UseDefaults ==> state
            == Startup::Resetting,
        startup_step(state, event).1 == StartupAction::UseLoaded ==> state == Startup::Loading
            && event == (StartupEvent::Loaded { valid: true }),
{
}

} // verus!
