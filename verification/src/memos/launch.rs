//! Launching the managed server with a bounded number of attempts.
//!
//! A failed launch on a POSIX system is answered once by making the binary
//! executable and launching again. Elsewhere the failure is final. The caller
//! spawns the process and changes the permissions; the decisions are taken
//! here.

use vstd::prelude::*;
use crate::memos::env::{prepare_env, prepared_env};
use crate::platform::Platform;
use crate::runtime_config::RuntimeConfig;
use crate::sidecar::command::Command;

verus! {

/// The largest number of launches in one run.
pub const MAX_LAUNCH_ATTEMPTS: u8 = 2;

/// The permission bits given to the binary before the second launch.
pub const EXECUTABLE_MODE: u32 = 0o755;

/// Why the server could not be launched.
#[derive(Debug)]
pub struct LaunchError {
    /// The error text of the last launch that failed.
    pub spawn_error: String,
    /// The error text of the failed attempt to make the binary executable.
    pub repair_error: Option<String>,
    /// How many launches were made.
    pub attempts: u8,
}

/// What the caller reports.
#[derive(Debug)]
pub enum LaunchEvent {
    /// The process runs under the identifier `pid`.
    Started { pid: u32 },
    /// The process could not be spawned.
    SpawnFailed { error: String },
    /// The binary is executable now.
    Repaired,
    /// The permissions of the binary could not be changed.
    RepairFailed { error: String },
}

/// What the caller has to do next.
#[derive(Debug)]
pub enum LaunchAction {
    /// Spawn the server with the prepared environment and working directory.
    Spawn,
    /// Give the binary the permission bits `mode`.
    MakeExecutable { mode: u32 },
    /// The server runs: persist `pid`, and stream its output to the log if
    /// `log_output` says so.
    Track { pid: u32, log_output: bool },
    /// The launch failed for good.
    GiveUp { error: LaunchError },
    /// Nothing: the event does not belong to the current phase.
    Ignore,
}

/// Where a launch stands.
#[derive(Debug)]
pub enum LaunchPhase {
    /// A spawn is under way.
    Spawning,
    /// The permissions are being changed after the failure `spawn_error`.
    Repairing { spawn_error: String },
    /// The server runs under `pid`.
    Running { pid: u32 },
    /// The launch was given up.
    Failed,
}

/// The coordinator of one launch.
#[derive(Debug)]
pub struct Launch {
    pub platform: Platform,
    /// Whether the server's output goes to the log.
    pub log_output: bool,
    pub phase: LaunchPhase,
    /// The number of spawns asked for so far.
    pub attempts: u8,
    pub repair_error: Option<String>,
}

/// The state and action after the attempt to make the binary executable,
/// which left the error `repair_error` if it failed: the server is spawned
/// again, unless the attempts are used up.
pub open spec fn respawn(state: Launch, spawn_error: String, repair_error: Option<String>) -> (
    Launch,
    LaunchAction,
) {
    if state.attempts < MAX_LAUNCH_ATTEMPTS {
        (
            Launch {
                phase: LaunchPhase::Spawning,
                attempts: (state.attempts + 1) as u8,
                repair_error,
                ..state
            },
            LaunchAction::Spawn,
        )
    } else {
        (
            Launch { phase: LaunchPhase::Failed, repair_error, ..state },
            LaunchAction::GiveUp {
                error: LaunchError { spawn_error, repair_error, attempts: state.attempts },
            },
        )
    }
}

/// The transition taken on `event` in `state`.
pub open spec fn launch_step(state: Launch, event: LaunchEvent) -> (Launch, LaunchAction) {
    match (state.phase, event) {
        (LaunchPhase::Spawning, LaunchEvent::Started { pid }) => (
            Launch { phase: LaunchPhase::Running { pid }, ..state },
            LaunchAction::Track { pid, log_output: state.log_output },
        ),
        (LaunchPhase::Spawning, LaunchEvent::SpawnFailed { error }) => if state.platform
            == Platform::Posix && state.attempts < MAX_LAUNCH_ATTEMPTS {
            (
                Launch { phase: LaunchPhase::Repairing { spawn_error: error }, ..state },
                LaunchAction::MakeExecutable { mode: EXECUTABLE_MODE },
            )
        } else {
            (
                Launch { phase: LaunchPhase::Failed, ..state },
                LaunchAction::GiveUp {
                    error: LaunchError {
                        spawn_error: error,
                        repair_error: state.repair_error,
                        attempts: state.attempts,
                    },
                },
            )
        },
        (LaunchPhase::Repairing { spawn_error }, LaunchEvent::Repaired) => respawn(
            state,
            spawn_error,
            state.repair_error,
        ),
        (LaunchPhase::Repairing { spawn_error }, LaunchEvent::RepairFailed { error }) => respawn(
            state,
            spawn_error,
            Some(error),
        ),
        _ => (state, LaunchAction::Ignore),
    }
}

impl Launch {
    /// What every state of a launch satisfies: the attempts are counted from
    /// one and bounded, and a repair happens only on POSIX, after the first
    /// attempt.
    pub open spec fn wf(self) -> bool {
        &&& 1 <= self.attempts <= MAX_LAUNCH_ATTEMPTS
        &&& self.phase is Repairing ==> self.platform == Platform::Posix && self.attempts
            < MAX_LAUNCH_ATTEMPTS
    }

    fn respawn(
        platform: Platform,
        log_output: bool,
        attempts: u8,
        spawn_error: String,
        repair_error: Option<String>,
    ) -> (r: (Launch, LaunchAction))
        ensures
            forall|phase: LaunchPhase, before: Option<String>|
                r == #[trigger] respawn(
                    Launch { platform, log_output, phase, attempts, repair_error: before },
                    spawn_error,
                    repair_error,
                ),
    {
        if attempts < MAX_LAUNCH_ATTEMPTS {
            (
                Launch {
                    platform,
                    log_output,
                    phase: LaunchPhase::Spawning,
                    attempts: attempts + 1,
                    repair_error,
                },
                LaunchAction::Spawn,
            )
        } else {
            let repair = repair_error.clone();
            (
                Launch { platform, log_output, phase: LaunchPhase::Failed, attempts, repair_error },
                LaunchAction::GiveUp {
                    error: LaunchError { spawn_error, repair_error: repair, attempts },
                },
            )
        }
    }

    /// The transition on `event`.
    pub fn step(self, event: LaunchEvent) -> (r: (Launch, LaunchAction))
        ensures
            r == launch_step(self, event),
            self.wf() ==> r.0.wf(),
    {
        let Launch { platform, log_output, phase, attempts, repair_error } = self;
        match phase {
            LaunchPhase::Spawning => match event {
                LaunchEvent::Started { pid } => (
                    Launch {
                        platform,
                        log_output,
                        phase: LaunchPhase::Running { pid },
                        attempts,
                        repair_error,
                    },
                    LaunchAction::Track { pid, log_output },
                ),
                LaunchEvent::SpawnFailed { error } => {
                    if platform == Platform::Posix && attempts < MAX_LAUNCH_ATTEMPTS {
                        (
                            Launch {
                                platform,
                                log_output,
                                phase: LaunchPhase::Repairing { spawn_error: error },
                                attempts,
                                repair_error,
                            },
                            LaunchAction::MakeExecutable { mode: EXECUTABLE_MODE },
                        )
                    } else {
                        let repair = repair_error.clone();
                        (
                            Launch {
                                platform,
                                log_output,
                                phase: LaunchPhase::Failed,
                                attempts,
                                repair_error,
                            },
                            LaunchAction::GiveUp {
                                error: LaunchError {
                                    spawn_error: error,
                                    repair_error: repair,
                                    attempts,
                                },
                            },
                        )
                    }
                },
                _ => (
                    Launch { platform, log_output, phase: LaunchPhase::Spawning, attempts, repair_error },
                    LaunchAction::Ignore,
                ),
            },
            LaunchPhase::Repairing { spawn_error } => match event {
                LaunchEvent::Repaired => Launch::respawn(
                    platform,
                    log_output,
                    attempts,
                    spawn_error,
                    repair_error,
                ),
                LaunchEvent::RepairFailed { error } => Launch::respawn(
                    platform,
                    log_output,
                    attempts,
                    spawn_error,
                    Some(error),
                ),
                _ => (
                    Launch {
                        platform,
                        log_output,
                        phase: LaunchPhase::Repairing { spawn_error },
                        attempts,
                        repair_error,
                    },
                    LaunchAction::Ignore,
                ),
            },
            LaunchPhase::Running { pid } => (
                Launch { platform, log_output, phase: LaunchPhase::Running { pid }, attempts, repair_error },
                LaunchAction::Ignore,
            ),
            LaunchPhase::Failed => (
                Launch { platform, log_output, phase: LaunchPhase::Failed, attempts, repair_error },
                LaunchAction::Ignore,
            ),
        }
    }
}

/// Begins to launch the managed server on `platform`: the first spawn is
/// asked for. `log_output` says whether the server's output goes to the
/// log.
pub fn spawn(platform: Platform, log_output: bool) -> (r: (Launch, LaunchAction))
    ensures
        r.0 == (Launch {
            platform,
            log_output,
            phase: LaunchPhase::Spawning,
            attempts: 1,
            repair_error: None,
        }),
        r.1 == LaunchAction::Spawn,
        r.0.wf(),
{
    (
        Launch {
            platform,
            log_output,
            phase: LaunchPhase::Spawning,
            attempts: 1,
            repair_error: None,
        },
        LaunchAction::Spawn,
    )
}

/// The command that launches the managed server in the working directory
/// `cwd`: the server binary without arguments, in an environment that holds
/// the prepared variables and nothing else, so that the server's
/// environment does not depend on the launcher's.
pub fn server_command(rtcfg: &RuntimeConfig, cwd: String) -> (r: Command)
    ensures
        r.program@ == rtcfg@.paths.memos_bin,
        r.args@.len() == 0,
        r.env_clear,
        r.env.deep_view() == prepared_env(rtcfg@),
        r.current_dir == Some(cwd),
        r.encoding is None,
{
    Command::new(rtcfg.paths.memos_bin.as_str()).env_clear().envs(prepare_env(rtcfg)).current_dir(
        cwd,
    )
}

/// Off POSIX the first failure is final: no repair is tried and the error is
/// handed back at once.
pub proof fn lemma_no_repair_off_posix(state: Launch, error: String)
    requires
        state.phase is Spawning,
        state.platform == Platform::Other,
    ensures
        launch_step(state, LaunchEvent::SpawnFailed { error }).1 matches LaunchAction::GiveUp {
            error: e,
        } && e.spawn_error == error && e.attempts == state.attempts,
{
}

/// On POSIX the repair is tried once: after it, whatever its outcome, the
/// server is spawned a second time, and a failure of that spawn is final.
pub proof fn lemma_single_repair_on_posix(
    log_output: bool,
    first: String,
    outcome: LaunchEvent,
    second: String,
)
    requires
        outcome is Repaired || outcome is RepairFailed,
    ensures
        ({
            let start = Launch {
                platform: Platform::Posix,
                log_output,
                phase: LaunchPhase::Spawning,
                attempts: 1,
                repair_error: None,
            };
            let failed = launch_step(start, LaunchEvent::SpawnFailed { error: first });
            let repaired = launch_step(failed.0, outcome);
            let again = launch_step(repaired.0, LaunchEvent::SpawnFailed { error: second });
            &&& failed.1 == LaunchAction::MakeExecutable { mode: EXECUTABLE_MODE }
            &&& repaired.1 == LaunchAction::Spawn
            &&& repaired.0.attempts == MAX_LAUNCH_ATTEMPTS
            &&& again.1 matches LaunchAction::GiveUp { error: e } && e.spawn_error == second
                && e.attempts == MAX_LAUNCH_ATTEMPTS
            &&& again.0.phase is Failed
        }),
{
}

} // verus!
