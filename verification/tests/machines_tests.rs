use memospot::config::save::{
    temp_file_name, SaveAction, SaveError, SaveEvent, SavePhase, SaveStage, SaveState,
    SAVE_BUDGET_MS,
};
use memospot::config::startup::{Startup, StartupAction, StartupEvent, StartupFailure};
use memospot::platform::Platform;
use memospot::memos::launch::{
    spawn, LaunchAction, LaunchEvent, LaunchPhase, EXECUTABLE_MODE,
};
use memospot::memos::pidfile::{
    find_and_kill_orphaned, get_last_pid, kill_pid, parse_pid, pid_text, remove_pid_file,
    save_pid_file, OrphanAction, PID_FILE_NAME,
};
use memospot::retry::{BestEffort, RetryAction, RetryEvent, RetryPhase};
use memospot::runtime_config::RuntimeConfig;
use memospot::shutdown::{shutdown, Shutdown, ShutdownAction, ShutdownEvent, ShutdownState};
use memospot::sidecar::stop::{ChildState, Stop, StopAction, StopEvent};
use memospot::sqlite::{
    database_url, wait_checkpoint, CheckpointAction, CheckpointEvent, CheckpointOutcome,
    CheckpointPhase,
};

#[test]
fn save_succeeds_at_the_first_attempt() {
    let (state, action) = SaveState::begin(false, true);
    assert!(matches!(action, SaveAction::Wait));
    let (state, action) = state.step(SaveEvent::Tick { elapsed_ms: 0 });
    let SaveAction::Write { temp } = action else {
        panic!("expected a write");
    };
    assert!(temp.ends_with(".tmp"));
    assert_eq!(temp.len(), 36 + 4);
    let (state, action) = state.step(SaveEvent::Written);
    assert!(matches!(action, SaveAction::Finish { result: Ok(()) }));
    assert!(matches!(state.phase, SavePhase::Finished));
}

#[test]
fn save_refuses_directories_and_unserializable_documents() {
    let (_, action) = SaveState::begin(true, true);
    assert!(matches!(action, SaveAction::Finish { result: Err(SaveError::IsDirectory) }));
    let (_, action) = SaveState::begin(true, false);
    assert!(matches!(action, SaveAction::Finish { result: Err(SaveError::IsDirectory) }));
    let (_, action) = SaveState::begin(false, false);
    assert!(matches!(action, SaveAction::Finish { result: Err(SaveError::Serialize) }));
}

#[test]
fn save_whose_rename_always_fails_exhausts_the_budget_and_cleans_up() {
    let (mut state, _) = SaveState::begin(false, true);
    let mut elapsed = 0;
    let mut attempts = 0;
    let mut removed = Vec::new();
    let mut written = Vec::new();
    loop {
        let (next, action) = state.step(SaveEvent::Tick { elapsed_ms: elapsed });
        state = next;
        match action {
            SaveAction::Write { temp } => {
                attempts += 1;
                written.push(temp);
                let (next, action) = state.step(SaveEvent::Failed {
                    stage: SaveStage::Rename,
                    error: format!("rename failed #{attempts}"),
                });
                let SaveAction::RemoveTemp { temp } = action else {
                    panic!("expected the removal of the temporary file");
                };
                removed.push(temp);
                let (next, action) = next.step(SaveEvent::TempRemoved);
                assert!(matches!(action, SaveAction::Wait));
                state = next;
            }
            SaveAction::Finish { result } => {
                match result {
                    Err(SaveError::TimedOut { last_error }) => {
                        assert_eq!(last_error, Some(format!("rename failed #{attempts}")));
                    }
                    other => panic!("unexpected result {:?}", other),
                }
                break;
            }
            other => panic!("unexpected action {:?}", other),
        }
        elapsed += 50;
    }
    assert_eq!(elapsed, SAVE_BUDGET_MS + 50);
    assert_eq!(attempts, 101);
    assert_eq!(written, removed);
    let mut names = written.clone();
    names.sort();
    names.dedup();
    assert_eq!(names.len(), written.len());
}

#[test]
fn a_failed_create_leaves_nothing_to_remove() {
    let (state, _) = SaveState::begin(false, true);
    let (state, _) = state.step_with(SaveEvent::Tick { elapsed_ms: 10 }, temp_file_name("t"));
    let (state, action) = state.step(SaveEvent::Failed {
        stage: SaveStage::Create,
        error: "denied".to_string(),
    });
    assert!(matches!(action, SaveAction::Wait));
    assert!(matches!(state.phase, SavePhase::Waiting));
    assert_eq!(state.last_error, Some("denied".to_string()));
    let (_, action) = state.step_with(SaveEvent::Tick { elapsed_ms: 5001 }, temp_file_name("u"));
    match action {
        SaveAction::Finish { result: Err(SaveError::TimedOut { last_error }) } => {
            assert_eq!(last_error, Some("denied".to_string()))
        }
        other => panic!("unexpected action {:?}", other),
    }
    assert_eq!(temp_file_name("abc"), "abc.tmp");
    assert_eq!(SaveError::IsDirectory.message(), "provided configuration file is a directory");
    assert_eq!(SaveError::Serialize.message(), "failed to serialize configuration");
    assert_eq!(
        SaveError::TimedOut { last_error: Some("busy".to_string()) }.message(),
        "unable to write configuration. Timed out after 5 seconds. Last error: busy"
    );
    assert_eq!(
        SaveError::TimedOut { last_error: None }.message(),
        "unable to write configuration. Timed out after 5 seconds. Last error: none"
    );
}

#[test]
fn launch_is_repaired_once_on_posix() {
    let (launch, action) = spawn(Platform::Posix, true);
    assert!(matches!(action, LaunchAction::Spawn));
    let (launch, action) = launch.step(LaunchEvent::SpawnFailed { error: "denied".to_string() });
    assert!(matches!(action, LaunchAction::MakeExecutable { mode: 0o755 }));
    assert_eq!(EXECUTABLE_MODE, 0o755);
    let (launch, action) = launch.step(LaunchEvent::Repaired);
    assert!(matches!(action, LaunchAction::Spawn));
    assert_eq!(launch.attempts, 2);
    let (launch, action) = launch.step(LaunchEvent::Started { pid: 4242 });
    assert!(matches!(action, LaunchAction::Track { pid: 4242, log_output: true }));
    assert!(matches!(launch.phase, LaunchPhase::Running { pid: 4242 }));
}

#[test]
fn launch_gives_up_after_the_second_failure() {
    let (launch, _) = spawn(Platform::Posix, false);
    let (launch, _) = launch.step(LaunchEvent::SpawnFailed { error: "first".to_string() });
    let (launch, action) = launch.step(LaunchEvent::RepairFailed { error: "chmod".to_string() });
    assert!(matches!(action, LaunchAction::Spawn));
    let (launch, action) = launch.step(LaunchEvent::SpawnFailed { error: "second".to_string() });
    match action {
        LaunchAction::GiveUp { error } => {
            assert_eq!(error.spawn_error, "second");
            assert_eq!(error.repair_error, Some("chmod".to_string()));
            assert_eq!(error.attempts, 2);
        }
        other => panic!("unexpected action {:?}", other),
    }
    assert!(matches!(launch.phase, LaunchPhase::Failed));
    let (_, action) = launch.step(LaunchEvent::Repaired);
    assert!(matches!(action, LaunchAction::Ignore));
}

#[test]
fn launch_fails_at_once_off_posix() {
    let (launch, _) = spawn(Platform::Other, false);
    let (_, action) = launch.step(LaunchEvent::SpawnFailed { error: "no".to_string() });
    match action {
        LaunchAction::GiveUp { error } => {
            assert_eq!(error.spawn_error, "no");
            assert_eq!(error.repair_error, None);
            assert_eq!(error.attempts, 1);
        }
        other => panic!("unexpected action {:?}", other),
    }
}

#[test]
fn pid_is_read_back_as_written() {
    for pid in [0u32, 1, 9, 10, 4242, 65535, u32::MAX] {
        let (_, text) = save_pid_file(pid);
        assert_eq!(text, pid.to_string());
        assert_eq!(pid_text(pid), pid.to_string());
        assert_eq!(get_last_pid(true, Some(&text)), Some(pid));
        assert_eq!(parse_pid(&text), Some(pid));
    }
    assert_eq!(PID_FILE_NAME, "memos.pid");
}

#[test]
fn pid_file_that_is_missing_or_unreadable_gives_none() {
    assert_eq!(get_last_pid(false, None), None);
    assert_eq!(get_last_pid(false, Some("12")), None);
    assert_eq!(get_last_pid(true, None), None);
    assert_eq!(get_last_pid(true, Some("")), None);
    assert_eq!(get_last_pid(true, Some("twelve")), None);
    assert_eq!(get_last_pid(true, Some("-12")), None);
    assert_eq!(get_last_pid(true, Some("4294967296")), None);
    assert_eq!(get_last_pid(true, Some("  4242\n")), Some(4242));
    assert_eq!(get_last_pid(true, Some("42 42")), None);
}

#[test]
fn orphans_are_killed_only_if_the_old_server_answers() {
    assert_eq!(find_and_kill_orphaned(None, true), OrphanAction::Nothing);
    assert_eq!(find_and_kill_orphaned(Some(7), false), OrphanAction::Nothing);
    assert_eq!(
        find_and_kill_orphaned(Some(7), true),
        OrphanAction::Kill { pid: 7, settle_ms: 2000 }
    );
}

#[test]
fn best_effort_operations_retry_until_the_budget_is_spent() {
    let mut state = remove_pid_file();
    let mut reports = Vec::new();
    let mut elapsed = 0;
    let completed;
    loop {
        let (next, action) = state.step(RetryEvent::Tick { elapsed_ms: elapsed });
        state = next;
        match action {
            RetryAction::Attempt => {
                let error = if elapsed < 1000 { "busy" } else { "denied" };
                let (next, action) =
                    state.step(RetryEvent::Failed { error: error.to_string() });
                if let RetryAction::Report { error } = action {
                    reports.push(error);
                }
                state = next;
            }
            RetryAction::Finish { completed: done } => {
                completed = done;
                break;
            }
            other => panic!("unexpected action {:?}", other),
        }
        elapsed += 50;
    }
    assert!(!completed);
    assert_eq!(elapsed, 5050);
    assert_eq!(reports, vec!["busy".to_string(), "denied".to_string()]);
    assert_eq!(state.phase, RetryPhase::Finished);
}

#[test]
fn best_effort_operations_stop_at_the_first_success() {
    let state = kill_pid();
    let (state, action) = state.step(RetryEvent::Tick { elapsed_ms: 0 });
    assert!(matches!(action, RetryAction::Attempt));
    let (state, action) = state.step(RetryEvent::Skipped);
    assert!(matches!(action, RetryAction::Wait));
    let (state, _) = state.step(RetryEvent::Tick { elapsed_ms: 50 });
    let (state, action) = state.step(RetryEvent::Succeeded);
    assert!(matches!(action, RetryAction::Finish { completed: true }));
    let (_, action) = state.step(RetryEvent::Tick { elapsed_ms: 100 });
    assert!(matches!(action, RetryAction::Ignore));
    assert_eq!(BestEffort::begin().budget_ms, 5000);
}

fn run_shutdown(managed: bool, changed: bool, graceful: bool, completed: bool) -> Vec<ShutdownAction> {
    let mut shutdown = Shutdown::new(managed, changed);
    let mut actions = Vec::new();
    let mut event = ShutdownEvent::ExitRequested;
    loop {
        let action = shutdown.step(event);
        actions.push(action);
        event = match action {
            ShutdownAction::PreventExit => ShutdownEvent::ExitSuppressed,
            ShutdownAction::KillChildren => ShutdownEvent::ChildrenStopped { graceful },
            ShutdownAction::Checkpoint => ShutdownEvent::CheckpointConcluded { completed },
            ShutdownAction::RemovePidFile => ShutdownEvent::PidFileHandled { removed: true },
            ShutdownAction::SaveConfig => ShutdownEvent::ConfigSaved { saved: false },
            ShutdownAction::Exit { .. } | ShutdownAction::Ignore => break,
        };
    }
    assert_eq!(shutdown.state, ShutdownState::Terminated);
    actions
}

#[test]
fn shutdown_steps_come_in_order() {
    for graceful in [true, false] {
        for completed in [true, false] {
            assert_eq!(
                run_shutdown(true, true, graceful, completed),
                vec![
                    ShutdownAction::PreventExit,
                    ShutdownAction::KillChildren,
                    ShutdownAction::Checkpoint,
                    ShutdownAction::RemovePidFile,
                    ShutdownAction::SaveConfig,
                    ShutdownAction::Exit { code: 0 },
                ]
            );
            assert_eq!(
                run_shutdown(true, false, graceful, completed),
                vec![
                    ShutdownAction::PreventExit,
                    ShutdownAction::KillChildren,
                    ShutdownAction::Checkpoint,
                    ShutdownAction::RemovePidFile,
                    ShutdownAction::Exit { code: 0 },
                ]
            );
        }
    }
    assert_eq!(
        run_shutdown(false, true, true, true),
        vec![ShutdownAction::PreventExit, ShutdownAction::SaveConfig, ShutdownAction::Exit { code: 0 }]
    );
    assert_eq!(
        run_shutdown(false, false, true, true),
        vec![ShutdownAction::PreventExit, ShutdownAction::Exit { code: 0 }]
    );
}

#[test]
fn shutdown_persists_a_changed_configuration_only() {
    let mut config = RuntimeConfig::new();
    let coordinator = shutdown(&config);
    assert!(coordinator.plan.managed);
    assert!(!coordinator.plan.config_changed);
    assert_eq!(coordinator.state, ShutdownState::Running);
    config.yaml.memospot.window.width = Some(800);
    config.is_managed_server = false;
    let coordinator = shutdown(&config);
    assert!(!coordinator.plan.managed);
    assert!(coordinator.plan.config_changed);
}

#[test]
fn shutdown_ignores_events_out_of_turn() {
    let mut shutdown = Shutdown::new(true, false);
    assert_eq!(
        shutdown.step(ShutdownEvent::CheckpointConcluded { completed: true }),
        ShutdownAction::Ignore
    );
    assert_eq!(shutdown.step(ShutdownEvent::PidFileHandled { removed: true }), ShutdownAction::Ignore);
    assert_eq!(shutdown.state, ShutdownState::Running);
    assert_eq!(shutdown.step(ShutdownEvent::ExitRequested), ShutdownAction::PreventExit);
    assert_eq!(shutdown.step(ShutdownEvent::ExitRequested), ShutdownAction::Ignore);
    assert_eq!(
        shutdown.step(ShutdownEvent::ChildrenStopped { graceful: true }),
        ShutdownAction::Ignore
    );
    assert_eq!(shutdown.state, ShutdownState::StopRequested);
}

#[test]
fn checkpoint_without_a_log_does_nothing() {
    let (state, action) = wait_checkpoint(false);
    assert!(matches!(action, CheckpointAction::Finish { outcome: CheckpointOutcome::NotNeeded }));
    assert_eq!(state.phase, CheckpointPhase::Finished);
    let (state, action) = state.step(CheckpointEvent::Tick);
    assert!(matches!(action, CheckpointAction::Ignore));
    let (_, action) = state.step(CheckpointEvent::Looked { exists: true, elapsed_ms: 0 });
    assert!(matches!(action, CheckpointAction::Ignore));
}

#[test]
fn checkpoint_repeats_until_the_log_is_gone() {
    let (state, action) = wait_checkpoint(true);
    assert!(matches!(action, CheckpointAction::Wait));
    let (state, action) = state.step(CheckpointEvent::Tick);
    assert!(matches!(action, CheckpointAction::Attempt));
    let (state, action) = state.step(CheckpointEvent::Attempted { error: None });
    assert!(matches!(action, CheckpointAction::Look));
    let (state, action) = state.step(CheckpointEvent::Looked { exists: true, elapsed_ms: 100 });
    assert!(matches!(action, CheckpointAction::Wait));
    let (state, _) = state.step(CheckpointEvent::Tick);
    let (state, _) = state.step(CheckpointEvent::Attempted { error: None });
    let (_, action) = state.step(CheckpointEvent::Looked { exists: false, elapsed_ms: 200 });
    assert!(matches!(action, CheckpointAction::Finish { outcome: CheckpointOutcome::Completed }));
}

#[test]
fn checkpoint_gives_up_when_the_time_is_up() {
    let (mut state, _) = wait_checkpoint(true);
    let mut elapsed = 0;
    let mut attempts = 0;
    let outcome;
    loop {
        let (next, action) = state.step(CheckpointEvent::Tick);
        assert!(matches!(action, CheckpointAction::Attempt));
        attempts += 1;
        let (next, _) = next.step(CheckpointEvent::Attempted { error: Some("locked".to_string()) });
        elapsed += 100;
        let (next, action) = next.step(CheckpointEvent::Looked { exists: true, elapsed_ms: elapsed });
        state = next;
        if let CheckpointAction::Finish { outcome: o } = action {
            outcome = o;
            break;
        }
    }
    assert_eq!(attempts, 51);
    match outcome {
        CheckpointOutcome::Failed { error } => assert_eq!(error, "operation timed out"),
        other => panic!("unexpected outcome {:?}", other),
    }
    assert_eq!(state.last_error, Some("operation timed out".to_string()));
}

#[test]
fn checkpoint_remembers_an_earlier_failure() {
    let (state, _) = wait_checkpoint(true);
    let (state, _) = state.step(CheckpointEvent::Tick);
    let (state, _) = state.step(CheckpointEvent::Attempted { error: Some("locked".to_string()) });
    let (state, _) = state.step(CheckpointEvent::Looked { exists: true, elapsed_ms: 100 });
    let (state, _) = state.step(CheckpointEvent::Tick);
    let (state, _) = state.step(CheckpointEvent::Attempted { error: None });
    let (_, action) = state.step(CheckpointEvent::Looked { exists: false, elapsed_ms: 200 });
    match action {
        CheckpointAction::Finish { outcome: CheckpointOutcome::Failed { error } } => {
            assert_eq!(error, "locked")
        }
        other => panic!("unexpected action {:?}", other),
    }
    assert_eq!(database_url("/data/memos_prod.db"), "sqlite:///data/memos_prod.db");
}

#[test]
fn a_child_that_exits_in_time_is_not_killed() {
    let (stop, action) = Stop::begin();
    assert_eq!(action, StopAction::Interrupt { signal: 2 });
    let (stop, action) = stop.step(StopEvent::Signalled);
    assert_eq!(action, StopAction::Poll);
    let (stop, action) =
        stop.step(StopEvent::Polled { state: ChildState::Running, elapsed_ms: 0 });
    assert_eq!(action, StopAction::Sleep { ms: 100 });
    let (stop, action) = stop.step(StopEvent::Slept);
    assert_eq!(action, StopAction::Poll);
    let (stop, action) =
        stop.step(StopEvent::Polled { state: ChildState::Exited, elapsed_ms: 100 });
    assert_eq!(action, StopAction::Finish { graceful: true });
    assert_eq!(stop, Stop::Finished);
    assert_eq!(stop.step(StopEvent::Killed).1, StopAction::Ignore);
}

#[test]
fn a_child_that_does_not_exit_is_killed_after_the_grace_period() {
    let (stop, _) = Stop::begin();
    let (mut stop, _) = stop.step(StopEvent::Signalled);
    let mut elapsed = 0;
    loop {
        let (next, action) =
            stop.step(StopEvent::Polled { state: ChildState::Running, elapsed_ms: elapsed });
        stop = next;
        match action {
            StopAction::Sleep { ms } => {
                elapsed += ms;
                stop = stop.step(StopEvent::Slept).0;
            }
            StopAction::Kill => break,
            other => panic!("unexpected action {:?}", other),
        }
    }
    assert_eq!(elapsed, 1600);
    assert_eq!(stop.step(StopEvent::Killed), (Stop::Finished, StopAction::Finish { graceful: false }));
    let (stop, _) = Stop::begin();
    let (stop, _) = stop.step(StopEvent::Signalled);
    assert_eq!(
        stop.step(StopEvent::Polled { state: ChildState::Unknown, elapsed_ms: 0 }).1,
        StopAction::Kill
    );
}

#[test]
fn startup_creates_a_missing_file_and_loads_it() {
    let (state, action) = Startup::begin();
    assert_eq!(action, StartupAction::Probe);
    let (state, action) = state.step(StartupEvent::Probed { exists: false });
    assert_eq!(action, StartupAction::WriteDefaults);
    let (state, action) = state.step(StartupEvent::DefaultsWritten { written: true });
    assert_eq!(action, StartupAction::Inspect);
    let (state, action) = state.step(StartupEvent::Inspected { is_dir: false, writable: true });
    assert_eq!(action, StartupAction::Load);
    let (state, action) = state.step(StartupEvent::Loaded { valid: true });
    assert_eq!(action, StartupAction::UseLoaded);
    assert_eq!(state, Startup::Finished);
}

#[test]
fn startup_resets_a_malformed_file_only_with_consent_and_backup() {
    let load = |answer: bool, copied: bool, written: bool| {
        let (state, _) = Startup::begin();
        let (state, _) = state.step(StartupEvent::Probed { exists: true });
        let (state, _) = state.step(StartupEvent::Inspected { is_dir: false, writable: true });
        let (state, action) = state.step(StartupEvent::Loaded { valid: false });
        assert_eq!(action, StartupAction::AskToReset);
        let (state, action) = state.step(StartupEvent::Answered { agreed: answer });
        if !answer {
            return action;
        }
        assert_eq!(action, StartupAction::BackUp);
        let (state, action) = state.step(StartupEvent::BackedUp { copied });
        if !copied {
            return action;
        }
        assert_eq!(action, StartupAction::WriteDefaults);
        state.step(StartupEvent::DefaultsWritten { written }).1
    };
    assert_eq!(load(false, true, true), StartupAction::Fatal { failure: StartupFailure::Declined });
    assert_eq!(
        load(true, false, true),
        StartupAction::Fatal { failure: StartupFailure::UnableToBackUp }
    );
    assert_eq!(
        load(true, true, false),
        StartupAction::Fatal { failure: StartupFailure::UnableToReset }
    );
    assert_eq!(load(true, true, true), StartupAction::UseDefaults);
}

#[test]
fn startup_fails_on_directories_and_unwritable_files() {
    let inspect = |exists: bool, is_dir: bool, writable: bool| {
        let (state, _) = Startup::begin();
        let (state, action) = state.step(StartupEvent::Probed { exists });
        let state = if exists {
            state
        } else {
            assert_eq!(action, StartupAction::WriteDefaults);
            state.step(StartupEvent::DefaultsWritten { written: true }).0
        };
        state.step(StartupEvent::Inspected { is_dir, writable }).1
    };
    assert_eq!(inspect(true, true, true), StartupAction::Fatal { failure: StartupFailure::NotAFile });
    assert_eq!(
        inspect(true, false, false),
        StartupAction::Fatal { failure: StartupFailure::NotWritable }
    );
    assert_eq!(inspect(false, false, true), StartupAction::Load);
    let (state, _) = Startup::begin();
    let (state, _) = state.step(StartupEvent::Probed { exists: false });
    assert_eq!(
        state.step(StartupEvent::DefaultsWritten { written: false }).1,
        StartupAction::Fatal { failure: StartupFailure::UnableToCreate }
    );
}
