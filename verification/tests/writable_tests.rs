use memospot::config::save::SaveAction;
use memospot::config::types::Config;
use memospot::memos::launch::server_command;
use memospot::runtime_config::RuntimeConfig;
use memospot::writable::{
    is_writable, test_file_name, PathKind, Writable, WritableAction, WritableEvent,
};

use std::path::Path;

/// Probes the directory `dir` on the file system of this machine.
fn directory_is_writable(dir: &Path) -> bool {
    assert!(dir.is_dir());
    let (mut state, mut action) = is_writable(PathKind::Directory);
    loop {
        let event = match action {
            WritableAction::ProbeTestFile { number } => {
                WritableEvent::Probed { exists: dir.join(test_file_name(number)).exists() }
            }
            WritableAction::CreateTestFile { number } => {
                let name = test_file_name(number);
                let created = tempfile::Builder::new().prefix(&name).rand_bytes(0).tempfile_in(dir);
                WritableEvent::Attempted { done: created.is_ok() }
            }
            WritableAction::Pause { .. } => WritableEvent::Paused,
            WritableAction::Finish { writable } => return writable,
            other => panic!("unexpected action {:?}", other),
        };
        (state, action) = state.step(event);
    }
}

#[test]
fn test_writable_directory() {
    let tmp_dir = tempfile::tempdir().unwrap();
    assert!(directory_is_writable(&tmp_dir.path().to_path_buf()));
    assert!(directory_is_writable(tmp_dir.path()));
    assert!(!tmp_dir.path().join(test_file_name(0)).exists());
}

#[test]
fn test_unwritable_directory() {
    if nix::unistd::Uid::effective().is_root() {
        return;
    }

    let unwritable = std::path::PathBuf::from("/");
    assert!(!directory_is_writable(&unwritable));
    assert!(!directory_is_writable(unwritable.as_path()));
}

#[test]
fn a_file_is_opened_up_to_ten_times() {
    let (mut state, mut action) = is_writable(PathKind::File);
    let mut attempts = 0;
    let mut paused = 0;
    loop {
        let event = match action {
            WritableAction::OpenForWriting => {
                attempts += 1;
                WritableEvent::Attempted { done: false }
            }
            WritableAction::Pause { ms } => {
                paused += ms;
                WritableEvent::Paused
            }
            WritableAction::Finish { writable } => {
                assert!(!writable);
                break;
            }
            other => panic!("unexpected action {:?}", other),
        };
        (state, action) = state.step(event);
    }
    assert_eq!(attempts, 10);
    assert_eq!(paused, 900);
    let (state, _) = is_writable(PathKind::File);
    let (state, _) = state.step(WritableEvent::Attempted { done: false });
    let (state, _) = state.step(WritableEvent::Paused);
    assert_eq!(
        state.step(WritableEvent::Attempted { done: true }),
        (Writable::Finished, WritableAction::Finish { writable: true })
    );
}

#[test]
fn a_directory_gets_a_test_file_under_a_free_name() {
    let (state, action) = is_writable(PathKind::Directory);
    assert_eq!(action, WritableAction::ProbeTestFile { number: 0 });
    let (state, action) = state.step(WritableEvent::Probed { exists: true });
    assert_eq!(action, WritableAction::ProbeTestFile { number: 1 });
    let (state, action) = state.step(WritableEvent::Probed { exists: false });
    assert_eq!(action, WritableAction::CreateTestFile { number: 1 });
    let (state, action) = state.step(WritableEvent::Attempted { done: false });
    assert_eq!(action, WritableAction::Pause { ms: 100 });
    let (state, action) = state.step(WritableEvent::Paused);
    assert_eq!(action, WritableAction::CreateTestFile { number: 1 });
    let (state, action) = state.step(WritableEvent::Attempted { done: true });
    assert_eq!(action, WritableAction::Finish { writable: true });
    assert_eq!(state, Writable::Finished);
    assert_eq!(test_file_name(0), "write_test");
    assert_eq!(test_file_name(1), "write_test.0");
    assert_eq!(test_file_name(100), "write_test.99");
}

#[test]
fn a_directory_full_of_test_files_is_not_writable() {
    let (mut state, mut action) = is_writable(PathKind::Directory);
    let mut probes = 0;
    loop {
        match action {
            WritableAction::ProbeTestFile { number } => {
                assert_eq!(number, probes);
                probes += 1;
                (state, action) = state.step(WritableEvent::Probed { exists: true });
            }
            WritableAction::Finish { writable } => {
                assert!(!writable);
                break;
            }
            other => panic!("unexpected action {:?}", other),
        }
    }
    assert_eq!(probes, 101);
    assert_eq!(
        is_writable(PathKind::Other),
        (Writable::Finished, WritableAction::Finish { writable: false })
    );
}

#[test]
fn the_server_runs_in_a_prepared_environment_only() {
    let mut rtcfg = RuntimeConfig::new();
    rtcfg.paths.memos_bin = "/usr/local/bin/memos".to_string();
    rtcfg.paths.memos_data = "/data".to_string();
    let command = server_command(&rtcfg, "/srv/memos".to_string());
    assert_eq!(command.program, "/usr/local/bin/memos");
    assert!(command.args.is_empty());
    assert!(command.env_clear);
    assert_eq!(command.current_dir, Some("/srv/memos".to_string()));
    assert_eq!(command.encoding, None);
    assert_eq!(command.env.len(), 8);
    assert!(command.env.contains(&("MEMOS_DATA".to_string(), "/data".to_string())));
    assert!(command.env.contains(&("MEMOS_MODE".to_string(), "prod".to_string())));
}

#[test]
fn resetting_writes_the_defaults() {
    let (config, (_, action)) = Config::reset_file(false);
    assert_eq!(config, Config::default());
    assert!(matches!(action, SaveAction::Wait));
    let (_, (_, action)) = Config::reset_file(true);
    assert!(matches!(action, SaveAction::Finish { result: Err(_) }));
}
