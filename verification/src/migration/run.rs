//! Running the migrations of the server's database before the server is
//! spawned.
//!
//! Nothing is done where migrations are switched off, where there is no
//! database yet, or where no migration is pending. Otherwise the database
//! is backed up first, if backups are switched on, and a backup that fails
//! is told to the user but stops nothing. The caller talks to the database
//! and writes the backup; what is done next is decided here.

use vstd::prelude::*;

verus! {

/// Why nothing was migrated.
#[derive(Clone, Copy, Debug, PartialEq, Eq, Structural)]
pub enum Skipped {
    /// Migrations are switched off in the configuration.
    Disabled,
    /// There is no database file yet.
    NoDatabase,
    /// No migration is pending.
    UpToDate,
}

/// Why the launcher cannot go on.
#[derive(Clone, Copy, Debug, PartialEq, Eq, Structural)]
pub enum MigrationFailure {
    /// The database could not be connected to.
    Connect,
    /// The connection could not be closed after the migrations.
    Close,
}

/// What the caller reports.
#[derive(Clone, Copy, Debug, PartialEq, Eq, Structural)]
pub enum MigrationEvent {
    /// The pending migrations were counted; `None` if the database could
    /// not be connected to.
    Counted { pending: Option<usize> },
    /// The backup was `written` or not.
    BackedUp { written: bool },
    /// The database was connected to, or not.
    Connected { connected: bool },
    /// The migrations ran and `succeeded` or not.
    Applied { succeeded: bool },
    /// The connection was `closed` or not.
    Closed { closed: bool },
}

/// What the caller has to do next.
#[derive(Clone, Copy, Debug, PartialEq, Eq, Structural)]
pub enum MigrationAction {
    /// Connect, count the pending migrations, close.
    CountPending,
    /// Back the database and its sidecar files up.
    BackUp,
    /// Connect to the database.
    Connect,
    /// Apply the pending migrations.
    Apply,
    /// Tell the user that something failed, then apply the pending
    /// migrations all the same (`backup` true: the backup failed) or close
    /// the connection (`backup` false: the migrations failed).
    Warn { backup: bool },
    /// Close the connection.
    Close,
    /// Nothing was to be done.
    Skip { reason: Skipped },
    /// The `applied` migrations ran.
    Finish { applied: usize },
    /// Tell the user and give up.
    Fatal { failure: MigrationFailure },
    /// Nothing: the event does not belong to the current state.
    Ignore,
}

/// Where the run stands.
#[derive(Clone, Copy, Debug, PartialEq, Eq, Structural)]
pub enum MigrationPhase {
    Counting,
    BackingUp,
    Connecting,
    Applying,
    Closing,
    Finished,
}

/// The coordinator of one run of the migrations.
#[derive(Clone, Copy, Debug, PartialEq, Eq, Structural)]
pub struct MigrationRun {
    /// Whether the database is backed up before it is migrated.
    pub backups: bool,
    pub phase: MigrationPhase,
    /// The number of pending migrations, once counted.
    pub pending: usize,
}

/// The coordinator and the action that a run begins with.
pub open spec fn run_start(enabled: bool, database_exists: bool, backups: bool) -> (
    MigrationRun,
    MigrationAction,
) {
    if !enabled {
        (
            MigrationRun { backups, phase: MigrationPhase::Finished, pending: 0 },
            MigrationAction::Skip { reason: Skipped::Disabled },
        )
    } else if !database_exists {
        (
            MigrationRun { backups, phase: MigrationPhase::Finished, pending: 0 },
            MigrationAction::Skip { reason: Skipped::NoDatabase },
        )
    } else {
        (
            MigrationRun { backups, phase: MigrationPhase::Counting, pending: 0 },
            MigrationAction::CountPending,
        )
    }
}

/// The transition taken on `event` in `run`.
pub open spec fn run_step(run: MigrationRun, event: MigrationEvent) -> (
    MigrationRun,
    MigrationAction,
) {
    match (run.phase, event) {
        (MigrationPhase::Counting, MigrationEvent::Counted { pending }) => match pending {
            None => (
                MigrationRun { phase: MigrationPhase::Finished, ..run },
                MigrationAction::Fatal { failure: MigrationFailure::Connect },
            ),
            Some(count) => if count == 0 {
                (
                    MigrationRun { phase: MigrationPhase::Finished, ..run },
                    MigrationAction::Skip { reason: Skipped::UpToDate },
                )
            } else if run.backups {
                (
                    MigrationRun { phase: MigrationPhase::BackingUp, pending: count, ..run },
                    MigrationAction::BackUp,
                )
            } else {
                (
                    MigrationRun { phase: MigrationPhase::Connecting, pending: count, ..run },
                    MigrationAction::Connect,
                )
            },
        },
        (MigrationPhase::BackingUp, MigrationEvent::BackedUp { written }) => (
            MigrationRun { phase: MigrationPhase::Connecting, ..run },
            if written {
                MigrationAction::Connect
            } else {
                MigrationAction::Warn { backup: true }
            },
        ),
        (MigrationPhase::Connecting, MigrationEvent::Connected { connected }) => if connected {
            (MigrationRun { phase: MigrationPhase::Applying, ..run }, MigrationAction::Apply)
        } else {
            (
                MigrationRun { phase: MigrationPhase::Finished, ..run },
                MigrationAction::Fatal { failure: MigrationFailure::Connect },
            )
        },
        (MigrationPhase::Applying, MigrationEvent::Applied { succeeded }) => (
            MigrationRun { phase: MigrationPhase::Closing, ..run },
            if succeeded {
                MigrationAction::Close
            } else {
                MigrationAction::Warn { backup: false }
            },
        ),
        (MigrationPhase::Closing, MigrationEvent::Closed { closed }) => (
            MigrationRun { phase: MigrationPhase::Finished, ..run },
            if closed {
                MigrationAction::Finish { applied: run.pending }
            } else {
                MigrationAction::Fatal { failure: MigrationFailure::Close }
            },
        ),
        _ => (run, MigrationAction::Ignore),
    }
}

/// Begins a run of the migrations: `enabled` and `backups` are what the
/// configuration says of migrations and backups, and `database_exists`
/// says whether there is a database file.
pub fn migrate_database(enabled: bool, database_exists: bool, backups: bool) -> (r: (
    MigrationRun,
    MigrationAction,
))
    ensures
        r == run_start(enabled, database_exists, backups),
{
    if !enabled {
        (
            MigrationRun { backups, phase: MigrationPhase::Finished, pending: 0 },
            MigrationAction::Skip { reason: Skipped::Disabled },
        )
    } else if !database_exists {
        (
            MigrationRun { backups, phase: MigrationPhase::Finished, pending: 0 },
            MigrationAction::Skip { reason: Skipped::NoDatabase },
        )
    } else {
        (
            MigrationRun { backups, phase: MigrationPhase::Counting, pending: 0 },
            MigrationAction::CountPending,
        )
    }
}

impl MigrationRun {
    /// The transition on `event`.
    pub fn step(self, event: MigrationEvent) -> (r: (MigrationRun, MigrationAction))
        ensures
            r == run_step(self, event),
    {
        let MigrationRun { backups, phase, pending } = self;
        match (phase, event) {
            (MigrationPhase::Counting, MigrationEvent::Counted { pending: counted }) => {
                match counted {
                    None => (
                        MigrationRun { backups, phase: MigrationPhase::Finished, pending },
                        MigrationAction::Fatal { failure: MigrationFailure::Connect },
                    ),
                    Some(count) => {
                        if count == 0 {
                            (
                                MigrationRun { backups, phase: MigrationPhase::Finished, pending },
                                MigrationAction::Skip { reason: Skipped::UpToDate },
                            )
                        } else if backups {
                            (
                                MigrationRun {
                                    backups,
                                    phase: MigrationPhase::BackingUp,
                                    pending: count,
                                },
                                MigrationAction::BackUp,
                            )
                        } else {
                            (
                                MigrationRun {
                                    backups,
                                    phase: MigrationPhase::Connecting,
                                    pending: count,
                                },
                                MigrationAction::Connect,
                            )
                        }
                    },
                }
            },
            (MigrationPhase::BackingUp, MigrationEvent::BackedUp { written }) => (
                MigrationRun { backups, phase: MigrationPhase::Connecting, pending },
                if written {
                    MigrationAction::Connect
                } else {
                    MigrationAction::Warn { backup: true }
                },
            ),
            (MigrationPhase::Connecting, MigrationEvent::Connected { connected }) => {
                if connected {
                    (
                        MigrationRun { backups, phase: MigrationPhase::Applying, pending },
                        MigrationAction::Apply,
                    )
                } else {
                    (
                        MigrationRun { backups, phase: MigrationPhase::Finished, pending },
                        MigrationAction::Fatal { failure: MigrationFailure::Connect },
                    )
                }
            },
            (MigrationPhase::Applying, MigrationEvent::Applied { succeeded }) => (
                MigrationRun { backups, phase: MigrationPhase::Closing, pending },
                if succeeded {
                    MigrationAction::Close
                } else {
                    MigrationAction::Warn { backup: false }
                },
            ),
            (MigrationPhase::Closing, MigrationEvent::Closed { closed }) => (
                MigrationRun { backups, phase: MigrationPhase::Finished, pending },
                if closed {
                    MigrationAction::Finish { applied: pending }
                } else {
                    MigrationAction::Fatal { failure: MigrationFailure::Close }
                },
            ),
            (phase, _) => (MigrationRun { backups, phase, pending }, MigrationAction::Ignore),
        }
    }
}

/// The database is touched only where migrations are switched on, a
/// database exists and a migration is pending; and where backups are
/// switched on, the backup is attempted before the database is touched.
pub proof fn lemma_backup_comes_first(run: MigrationRun, event: MigrationEvent)
    ensures
        run.phase != MigrationPhase::Connecting && run_step(run, event).0.phase
            == MigrationPhase::Connecting ==> run.phase == MigrationPhase::BackingUp || (
        run.phase == MigrationPhase::Counting && !run.backups),
        run_step(run, event).1 == MigrationAction::Apply ==> run.phase
            == MigrationPhase::Connecting && event == (MigrationEvent::Connected {
            connected: true,
        }),
        forall|backups: bool, exists: bool|
            run_start(false, exists, backups).0.phase == MigrationPhase::Finished,
        forall|backups: bool, enabled: bool|
            run_start(enabled, false, backups).0.phase == MigrationPhase::Finished,
{
}

} // verus!
