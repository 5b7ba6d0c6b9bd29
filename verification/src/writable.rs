//! Finding out whether a path can be written to.
//!
//! A file is opened for writing; a directory gets a file created in it,
//! under a name that is not taken, and removed again. Other programs may
//! hold a file for a moment, so every attempt is repeated a few times with
//! a pause in between. The caller touches the file system; what is tried
//! next and what the verdict is, is decided here.

use vstd::prelude::*;
use crate::decimal::{decimal, push_decimal};
use crate::text::{chars_of, string_of};

verus! {

/// How many times an attempt is made at most.
pub const WRITE_ATTEMPTS: u8 = 10;

/// The pause between two attempts, in milliseconds.
pub const WRITE_PAUSE_MS: u64 = 100;

/// How many numbered names are tried for the test file after the plain one.
pub const MAX_TEST_FILES: u8 = 100;

/// The name of the test file created in a directory.
pub const TEST_FILE: &'static str = "write_test";

/// What a path is.
#[derive(Clone, Copy, Debug, PartialEq, Eq, Structural)]
pub enum PathKind {
    File,
    Directory,
    /// Neither a file nor a directory: it does not exist, for one.
    Other,
}

/// What the caller reports.
#[derive(Clone, Copy, Debug, PartialEq, Eq, Structural)]
pub enum WritableEvent {
    /// The file was opened for writing, or the test file was created and
    /// removed: `done` says whether that worked.
    Attempted { done: bool },
    /// The test file of the name asked about `exists` or not.
    Probed { exists: bool },
    /// The pause is over.
    Paused,
}

/// What the caller has to do next.
#[derive(Clone, Copy, Debug, PartialEq, Eq, Structural)]
pub enum WritableAction {
    /// Open the file for writing and close it.
    OpenForWriting,
    /// See whether the test file number `number` exists in the directory;
    /// number 0 is the test file without extension.
    ProbeTestFile { number: u8 },
    /// Create the test file number `number` anew and remove it.
    CreateTestFile { number: u8 },
    /// Pause for `ms` milliseconds.
    Pause { ms: u64 },
    /// The verdict.
    Finish { writable: bool },
    /// Nothing: the event does not belong to the current state.
    Ignore,
}

/// Where the probe stands.
#[derive(Clone, Copy, Debug, PartialEq, Eq, Structural)]
pub enum Writable {
    /// The file is being opened, for the `attempt`-th time.
    Opening { attempt: u8 },
    /// A pause before the file is opened again.
    PausingFile { attempt: u8 },
    /// A free name for the test file is looked for; `number` is asked about.
    Naming { number: u8 },
    /// The test file `number` is being created, for the `attempt`-th time.
    Creating { number: u8, attempt: u8 },
    /// A pause before the test file is created again.
    PausingDirectory { number: u8, attempt: u8 },
    Finished,
}

/// The state and action that a probe of a path of the kind `kind` begins
/// with.
pub open spec fn writable_start(kind: PathKind) -> (Writable, WritableAction) {
    match kind {
        PathKind::File => (Writable::Opening { attempt: 1 }, WritableAction::OpenForWriting),
        PathKind::Directory => (
            Writable::Naming { number: 0 },
            WritableAction::ProbeTestFile { number: 0 },
        ),
        PathKind::Other => (Writable::Finished, WritableAction::Finish { writable: false }),
    }
}

/// The transition taken on `event` in `state`.
pub open spec fn writable_step(state: Writable, event: WritableEvent) -> (
    Writable,
    WritableAction,
) {
    match (state, event) {
        (Writable::Opening { attempt }, WritableEvent::Attempted { done }) => if done {
            (Writable::Finished, WritableAction::Finish { writable: true })
        } else if attempt < WRITE_ATTEMPTS {
            (Writable::PausingFile { attempt }, WritableAction::Pause { ms: WRITE_PAUSE_MS })
        } else {
            (Writable::Finished, WritableAction::Finish { writable: false })
        },
        (Writable::PausingFile { attempt }, WritableEvent::Paused) => if attempt < WRITE_ATTEMPTS {
            (Writable::Opening { attempt: (attempt + 1) as u8 }, WritableAction::OpenForWriting)
        } else {
            (Writable::Finished, WritableAction::Finish { writable: false })
        },
        (Writable::Naming { number }, WritableEvent::Probed { exists }) => if !exists {
            (
                Writable::Creating { number, attempt: 1 },
                WritableAction::CreateTestFile { number },
            )
        } else if number < MAX_TEST_FILES {
            (
                Writable::Naming { number: (number + 1) as u8 },
                WritableAction::ProbeTestFile { number: (number + 1) as u8 },
            )
        } else {
            (Writable::Finished, WritableAction::Finish { writable: false })
        },
        (Writable::Creating { number, attempt }, WritableEvent::Attempted { done }) => if done {
            (Writable::Finished, WritableAction::Finish { writable: true })
        } else if attempt < WRITE_ATTEMPTS {
            (
                Writable::PausingDirectory { number, attempt },
                WritableAction::Pause { ms: WRITE_PAUSE_MS },
            )
        } else {
            (Writable::Finished, WritableAction::Finish { writable: false })
        },
        (Writable::PausingDirectory { number, attempt }, WritableEvent::Paused) => if attempt
            < WRITE_ATTEMPTS {
            (
                Writable::Creating { number, attempt: (attempt + 1) as u8 },
                WritableAction::CreateTestFile { number },
            )
        } else {
            (Writable::Finished, WritableAction::Finish { writable: false })
        },
        _ => (state, WritableAction::Ignore),
    }
}

/// Begins to find out whether a path of the kind `kind` is writable.
pub fn is_writable(kind: PathKind) -> (r: (Writable, WritableAction))
    ensures
        r == writable_start(kind),
        r.0.wf(),
{
    match kind {
        PathKind::File => (Writable::Opening { attempt: 1 }, WritableAction::OpenForWriting),
        PathKind::Directory => (
            Writable::Naming { number: 0 },
            WritableAction::ProbeTestFile { number: 0 },
        ),
        PathKind::Other => (Writable::Finished, WritableAction::Finish { writable: false }),
    }
}

impl Writable {
    /// What every state of a probe satisfies.
    pub open spec fn wf(self) -> bool {
        match self {
            Writable::Opening { attempt } => 1 <= attempt <= WRITE_ATTEMPTS,
            Writable::PausingFile { attempt } => 1 <= attempt < WRITE_ATTEMPTS,
            Writable::Naming { number } => number <= MAX_TEST_FILES,
            Writable::Creating { number, attempt } => 1 <= attempt <= WRITE_ATTEMPTS,
            Writable::PausingDirectory { number, attempt } => 1 <= attempt < WRITE_ATTEMPTS,
            Writable::Finished => true,
        }
    }

    /// The transition on `event`.
    pub fn step(self, event: WritableEvent) -> (r: (Writable, WritableAction))
        ensures
            r == writable_step(self, event),
            self.wf() ==> r.0.wf(),
    {
        match (self, event) {
            (Writable::Opening { attempt }, WritableEvent::Attempted { done }) => {
                if done {
                    (Writable::Finished, WritableAction::Finish { writable: true })
                } else if attempt < WRITE_ATTEMPTS {
                    (
                        Writable::PausingFile { attempt },
                        WritableAction::Pause { ms: WRITE_PAUSE_MS },
                    )
                } else {
                    (Writable::Finished, WritableAction::Finish { writable: false })
                }
            },
            (Writable::PausingFile { attempt }, WritableEvent::Paused) => {
                if attempt < WRITE_ATTEMPTS {
                    (Writable::Opening { attempt: attempt + 1 }, WritableAction::OpenForWriting)
                } else {
                    (Writable::Finished, WritableAction::Finish { writable: false })
                }
            },
            (Writable::Naming { number }, WritableEvent::Probed { exists }) => {
                if !exists {
                    (
                        Writable::Creating { number, attempt: 1 },
                        WritableAction::CreateTestFile { number },
                    )
                } else if number < MAX_TEST_FILES {
                    (
                        Writable::Naming { number: number + 1 },
                        WritableAction::ProbeTestFile { number: number + 1 },
                    )
                } else {
                    (Writable::Finished, WritableAction::Finish { writable: false })
                }
            },
            (Writable::Creating { number, attempt }, WritableEvent::Attempted { done }) => {
                if done {
                    (Writable::Finished, WritableAction::Finish { writable: true })
                } else if attempt < WRITE_ATTEMPTS {
                    (
                        Writable::PausingDirectory { number, attempt },
                        WritableAction::Pause { ms: WRITE_PAUSE_MS },
                    )
                } else {
                    (Writable::Finished, WritableAction::Finish { writable: false })
                }
            },
            (Writable::PausingDirectory { number, attempt }, WritableEvent::Paused) => {
                if attempt < WRITE_ATTEMPTS {
                    (
                        Writable::Creating { number, attempt: attempt + 1 },
                        WritableAction::CreateTestFile { number },
                    )
                } else {
                    (Writable::Finished, WritableAction::Finish { writable: false })
                }
            },
            (state, _) => (state, WritableAction::Ignore),
        }
    }
}

/// The name of the test file number `number`: the plain name for 0, and
/// with the number before as its extension for any other.
pub open spec fn test_file(number: u8) -> Seq<char> {
    if number == 0 {
        TEST_FILE@
    } else {
        TEST_FILE@ + "."@ + decimal((number - 1) as nat)
    }
}

/// The name of the test file number `number`.
pub fn test_file_name(number: u8) -> (r: String)
    ensures
        r@ == test_file(number),
{
    let mut name = chars_of(TEST_FILE);
    if number > 0 {
        name.push('.');
        proof {
            reveal_strlit(".");
            assert(name@ =~= TEST_FILE@ + "."@);
        }
        push_decimal((number - 1) as u64, &mut name);
    }
    string_of(&name)
}

/// A path is found writable only in answer to an attempt that worked, and
/// found not writable only after the last of the attempts failed, no free
/// name was found for the test file, or the path is neither file nor
/// directory.
pub proof fn lemma_writable_verdict(state: Writable, event: WritableEvent)
    requires
        state.wf(),
    ensures
        writable_step(state, event).1 == (WritableAction::Finish { writable: true }) ==> event
            == (WritableEvent::Attempted { done: true }),
        writable_step(state, event).1 == (WritableAction::Finish { writable: false }) ==> match state {
            Writable::Opening { attempt } => attempt == WRITE_ATTEMPTS,
            Writable::Creating { number, attempt } => attempt == WRITE_ATTEMPTS,
            Writable::Naming { number } => number == MAX_TEST_FILES,
            _ => false,
        },
{
}

} // verus!
