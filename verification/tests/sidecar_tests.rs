use memospot::dialog::{
    failure_message, limit_width, lines_of, words_of, ExpectDialogExt, LimitWidthExt,
};
use memospot::menu::{changelog_url, release_notes_url, MainMenu};
use memospot::migration::run::{
    migrate_database, MigrationAction, MigrationEvent, MigrationFailure, Skipped,
};
use memospot::platform::Platform;
use memospot::routes::Routes;
use memospot::runtime_config::RuntimeConfig;
use memospot::sidecar::command::{relative_command_path, Command};
use memospot::sidecar::event::{
    decode_line, decoded_event, line_event, log_level, CommandEvent, ExitStatus, LineBuffer,
    LogLevel, Output, Stream, TerminatedPayload,
};
use memospot::sidecar::registry::ChildRegistry;
use memospot::sidecar::stop::kill_children;
use memospot::window::Window;

fn terminated(code: Option<i32>) -> CommandEvent {
    CommandEvent::Terminated(TerminatedPayload { code, signal: None })
}

#[test]
fn output_is_collected_from_events() {
    let events = vec![
        CommandEvent::Stdout("first".to_string()),
        CommandEvent::Stderr("warning".to_string()),
        CommandEvent::Error("not text".to_string()),
        CommandEvent::Stdout("second".to_string()),
        terminated(Some(3)),
        CommandEvent::Stderr("late".to_string()),
    ];
    let output = Output::collect(&events);
    assert_eq!(output.status.code(), Some(3));
    assert!(!output.status.success());
    assert_eq!(output.stdout, "first\nsecond\n");
    assert_eq!(output.stderr, "warning\nlate\n");
    assert_eq!(ExitStatus::of_events(&events).code(), Some(3));
}

#[test]
fn exit_status() {
    assert!(ExitStatus::new(Some(0)).success());
    assert!(!ExitStatus::new(Some(1)).success());
    assert!(!ExitStatus::new(None).success());
    assert_eq!(ExitStatus::new(Some(-1)).code(), Some(-1));
    assert_eq!(ExitStatus::new(None).code(), None);
    let empty = Output::collect(&vec![]);
    assert_eq!(empty.status.code(), None);
    assert_eq!(empty.stdout, "");
    assert_eq!(empty.stderr, "");
    let twice = vec![terminated(Some(1)), terminated(None)];
    assert_eq!(Output::collect(&twice).status.code(), None);
    let signalled = vec![terminated(None), terminated(Some(0))];
    assert!(ExitStatus::of_events(&signalled).success());
}

#[test]
fn lines_become_events() {
    assert_eq!(
        decode_line(Stream::Stdout, "héllo".as_bytes().to_vec(), None),
        CommandEvent::Stdout("héllo".to_string())
    );
    assert_eq!(
        decode_line(Stream::Stderr, b"cat: src: Is a directory".to_vec(), None),
        CommandEvent::Stderr("cat: src: Is a directory".to_string())
    );
    assert_eq!(decode_line(Stream::Stdout, vec![], None), CommandEvent::Stdout("".to_string()));
    assert_eq!(
        line_event(Stream::Stderr, "x".to_string()),
        CommandEvent::Stderr("x".to_string())
    );
}

#[test]
fn lines_that_are_no_text_become_error_events() {
    match decode_line(Stream::Stdout, vec![0x63, 0x61, 0x66, 0xE9], None) {
        CommandEvent::Error(message) => assert!(message.contains("utf-8"), "{message}"),
        other => panic!("unexpected event {:?}", other),
    }
    assert!(matches!(
        decode_line(Stream::Stderr, vec![0xFF], None),
        CommandEvent::Error(_)
    ));
    assert!(matches!(
        decode_line(Stream::Stdout, vec![0xED, 0xA0, 0x80], None),
        CommandEvent::Error(_)
    ));
}

#[test]
fn lines_are_decoded_with_the_named_encoding() {
    assert_eq!(
        decode_line(Stream::Stdout, vec![0x63, 0x61, 0x66, 0xE9], Some("windows-1252")),
        CommandEvent::Stdout("café".to_string())
    );
    assert_eq!(
        decode_line(Stream::Stderr, vec![0x63, 0x61, 0x66, 0xE9], Some(" Latin1 ")),
        CommandEvent::Stderr("café".to_string())
    );
    assert_eq!(
        decode_line(Stream::Stdout, vec![0xEF, 0xBB, 0xBF, 0x61], Some("utf-8")),
        CommandEvent::Stdout("a".to_string())
    );
    assert_eq!(
        decode_line(Stream::Stdout, vec![0x61, 0xFF], Some("utf-8")),
        CommandEvent::Stdout("a\u{fffd}".to_string())
    );
    assert_eq!(
        decode_line(Stream::Stdout, vec![0x82, 0xA0], Some("shift_jis")),
        CommandEvent::Stdout("あ".to_string())
    );
    assert!(matches!(
        decode_line(Stream::Stdout, vec![0x61], Some("no such encoding")),
        CommandEvent::Error(_)
    ));
    assert!(matches!(decoded_event(Stream::Stdout, None), CommandEvent::Error(_)));
}

#[test]
fn lines_are_framed_wherever_the_stream_is_cut() {
    let stream = b"first\nsecond\r\nthird\rfourth\n\nlast";
    let expected: Vec<Vec<u8>> = vec![
        b"first".to_vec(),
        b"second".to_vec(),
        b"third".to_vec(),
        b"fourth".to_vec(),
        b"".to_vec(),
    ];
    let mut whole = LineBuffer::new();
    assert_eq!(whole.feed(&stream.to_vec()), expected);
    assert_eq!(whole.finish(), Some(b"last".to_vec()));
    for cut in 0..=stream.len() {
        let mut buffer = LineBuffer::new();
        let mut lines = buffer.feed(&stream[..cut].to_vec());
        lines.extend(buffer.feed(&stream[cut..].to_vec()));
        assert_eq!(lines, expected, "cut at {cut}");
        assert_eq!(buffer.finish(), Some(b"last".to_vec()));
    }
    let mut bytewise = LineBuffer::new();
    let mut lines = Vec::new();
    for byte in stream {
        lines.extend(bytewise.feed(&vec![*byte]));
    }
    assert_eq!(lines, expected);
    let mut empty = LineBuffer::new();
    assert_eq!(empty.feed(&vec![]), Vec::<Vec<u8>>::new());
    assert_eq!(empty.finish(), None);
    let mut ended = LineBuffer::new();
    assert_eq!(ended.feed(&b"done\n".to_vec()), vec![b"done".to_vec()]);
    assert_eq!(ended.finish(), None);
}

#[test]
fn a_carriage_return_and_a_line_feed_end_one_line() {
    let mut buffer = LineBuffer::new();
    assert_eq!(buffer.feed(&b"one\r".to_vec()), Vec::<Vec<u8>>::new());
    assert_eq!(buffer.feed(&b"\ntwo\r".to_vec()), vec![b"one".to_vec()]);
    assert_eq!(buffer.feed(&b"three\n\r\n".to_vec()), vec![
        b"two".to_vec(),
        b"three".to_vec(),
        b"".to_vec()
    ]);
    assert_eq!(buffer.finish(), None);
    let mut progress = LineBuffer::new();
    assert_eq!(progress.feed(&b"10%\r20%\r".to_vec()), vec![b"10%".to_vec()]);
    assert_eq!(progress.finish(), Some(b"20%".to_vec()));
    let mut bare = LineBuffer::new();
    assert_eq!(bare.feed(&b"\r".to_vec()), Vec::<Vec<u8>>::new());
    assert_eq!(bare.finish(), Some(b"".to_vec()));
    let mut reversed = LineBuffer::new();
    assert_eq!(reversed.feed(&b"a\n\rb".to_vec()), vec![b"a".to_vec(), b"".to_vec()]);
    assert_eq!(reversed.finish(), Some(b"b".to_vec()));
}

#[test]
fn commands_are_built_step_by_step() {
    let command = Command::new("cat")
        .args(vec!["-n".to_string()])
        .args(vec!["a".to_string(), "b".to_string()])
        .env_clear()
        .envs(vec![("A".to_string(), "1".to_string())])
        .envs(vec![("B".to_string(), "2".to_string())])
        .current_dir("/tmp".to_string())
        .encoding("utf-8".to_string());
    assert_eq!(command.program, "cat");
    assert_eq!(command.args, vec!["-n".to_string(), "a".to_string(), "b".to_string()]);
    assert!(command.env_clear);
    assert_eq!(command.env, vec![("B".to_string(), "2".to_string())]);
    assert_eq!(command.current_dir, Some("/tmp".to_string()));
    assert_eq!(command.encoding, Some("utf-8".to_string()));
    let plain = Command::new("memos");
    assert!(plain.args.is_empty());
    assert!(!plain.env_clear);
    assert!(plain.env.is_empty());
    assert_eq!(plain.current_dir, None);
    assert_eq!(plain.encoding, None);
}

#[test]
fn sidecar_programs_lie_beside_the_launcher() {
    assert_eq!(
        relative_command_path("memos", Some("/usr/bin"), Platform::Posix),
        Some("/usr/bin/memos".to_string())
    );
    assert_eq!(
        relative_command_path("memos", Some("C:\\App"), Platform::Other),
        Some("C:\\App\\memos.exe".to_string())
    );
    assert_eq!(relative_command_path("memos", None, Platform::Posix), None);
    let command = Command::new_sidecar("memos", Some("/opt/app"), Platform::Posix).unwrap();
    assert_eq!(command.program, "/opt/app/memos");
    assert!(command.args.is_empty());
    assert!(Command::new_sidecar("memos", None, Platform::Other).is_none());
}

#[test]
fn events_have_their_log_levels() {
    assert_eq!(log_level(&CommandEvent::Stdout("x".to_string())), LogLevel::Info);
    assert_eq!(log_level(&CommandEvent::Stderr("x".to_string())), LogLevel::Error);
    assert_eq!(log_level(&CommandEvent::Error("x".to_string())), LogLevel::Error);
    assert_eq!(log_level(&terminated(Some(0))), LogLevel::Warn);
}

#[test]
fn migrations_run_after_the_backup() {
    assert_eq!(
        migrate_database(false, true, true).1,
        MigrationAction::Skip { reason: Skipped::Disabled }
    );
    assert_eq!(
        migrate_database(true, false, true).1,
        MigrationAction::Skip { reason: Skipped::NoDatabase }
    );
    let (run, action) = migrate_database(true, true, true);
    assert_eq!(action, MigrationAction::CountPending);
    assert_eq!(
        run.step(MigrationEvent::Counted { pending: Some(0) }).1,
        MigrationAction::Skip { reason: Skipped::UpToDate }
    );
    assert_eq!(
        run.step(MigrationEvent::Counted { pending: None }).1,
        MigrationAction::Fatal { failure: MigrationFailure::Connect }
    );
    let (run, action) = run.step(MigrationEvent::Counted { pending: Some(3) });
    assert_eq!(action, MigrationAction::BackUp);
    let (run, action) = run.step(MigrationEvent::BackedUp { written: false });
    assert_eq!(action, MigrationAction::Warn { backup: true });
    let (run, action) = run.step(MigrationEvent::Connected { connected: true });
    assert_eq!(action, MigrationAction::Apply);
    let (run, action) = run.step(MigrationEvent::Applied { succeeded: false });
    assert_eq!(action, MigrationAction::Warn { backup: false });
    assert_eq!(
        run.step(MigrationEvent::Closed { closed: false }).1,
        MigrationAction::Fatal { failure: MigrationFailure::Close }
    );
    let (run, action) = run.step(MigrationEvent::Closed { closed: true });
    assert_eq!(action, MigrationAction::Finish { applied: 3 });
    assert_eq!(run.step(MigrationEvent::Closed { closed: true }).1, MigrationAction::Ignore);
    let (run, _) = migrate_database(true, true, false);
    let (run, action) = run.step(MigrationEvent::Counted { pending: Some(1) });
    assert_eq!(action, MigrationAction::Connect);
    assert_eq!(
        run.step(MigrationEvent::Connected { connected: false }).1,
        MigrationAction::Fatal { failure: MigrationFailure::Connect }
    );
}

#[test]
fn registry_tracks_children_by_pid() {
    let mut registry: ChildRegistry<String> = ChildRegistry::new();
    assert_eq!(registry.len(), 0);
    assert_eq!(kill_children(&registry), Vec::<u32>::new());
    assert_eq!(registry.track(10, "a".to_string()), None);
    assert_eq!(registry.track(20, "b".to_string()), None);
    assert_eq!(registry.track(10, "c".to_string()), Some("a".to_string()));
    assert_eq!(registry.len(), 2);
    assert_eq!(registry.handle(10), Some(&"c".to_string()));
    assert_eq!(registry.handle(30), None);
    let mut snapshot = kill_children(&registry);
    snapshot.sort();
    assert_eq!(snapshot, vec![10, 20]);
    assert_eq!(registry.forget(10), Some("c".to_string()));
    assert_eq!(registry.forget(10), None);
    assert_eq!(registry.pids(), vec![20]);
    assert_eq!(snapshot, vec![10, 20]);
}

#[test]
fn dialog_lines_are_wrapped() {
    assert_eq!(limit_width("hello   world\n\nnext"), "hello world\n\n\nnext\n");
    assert_eq!(limit_width(""), "\n");
    assert_eq!(limit_width("   "), "\n");
    assert_eq!(limit_width("  a\n"), "a\n");
    assert_eq!(limit_width("a\n\n\nb"), "a\n\n\n\n\nb\n");
    assert_eq!(limit_width("a\r\nb"), "a\nb\n");
    assert_eq!(limit_width("a\tb"), "a b\n");
    assert_eq!(limit_width("a\u{7}b \u{1b}[0m"), "ab [0m\n");
    let words: Vec<&str> = std::iter::repeat("aaaa").take(30).collect();
    let expected = format!("{}\n{}\n", words[..19].join(" "), words[19..].join(" "));
    assert_eq!(limit_width(&words.join(" ")), expected);
    assert_eq!(expected.lines().next().unwrap().len(), 94);
    let full = "x".repeat(96);
    assert_eq!(limit_width(&format!("{full} y")), format!("{full}\ny\n"));
    let long = "x".repeat(97);
    assert_eq!(limit_width(&long), format!("\n{long}\n"));
    let wide = "é".repeat(48);
    assert_eq!(limit_width(&format!("{wide} é")), format!("{wide}\né\n"));
    let wider = "é".repeat(49);
    assert_eq!(limit_width(&wider), format!("\n{wider}\n"));
    assert_eq!("a  b".limit_width(), "a b\n");
    assert_eq!("a  b".to_string().limit_width(), "a b\n");
}

#[test]
fn lines_and_words() {
    let chars: Vec<char> = "a b\n\n c\n".chars().collect();
    let lines = lines_of(&chars);
    let texts: Vec<String> = lines.iter().map(|l| l.iter().collect()).collect();
    assert_eq!(texts, vec!["a b", "", " c", ""]);
    for sample in ["", " ", "a", " a  b\u{a0}c\t", "\u{3000}x\u{2003}"] {
        let chars: Vec<char> = sample.chars().collect();
        let words: Vec<String> = words_of(&chars).iter().map(|w| w.iter().collect()).collect();
        let expected: Vec<&str> = sample.split_whitespace().collect();
        assert_eq!(words, expected, "{:?}", sample);
    }
    for sample in ["", "\n", "a\nb", "a\n", "\na", "a\n\nb\n"] {
        let chars: Vec<char> = sample.chars().collect();
        let lines: Vec<String> = lines_of(&chars).iter().map(|w| w.iter().collect()).collect();
        let expected: Vec<&str> = sample.split('\n').collect();
        assert_eq!(lines, expected, "{:?}", sample);
    }
}

#[test]
fn failed_expectations_give_the_text_of_their_dialog() {
    assert_eq!(Some(7).expect_dialog("no value"), Ok(7));
    assert_eq!(None::<u8>.expect_dialog("no value"), Err("no value".to_string()));
    let ok: Result<u8, String> = Ok(1);
    assert_eq!(ok.expect_dialog("failed to spawn"), Ok(1));
    let failed: Result<u8, String> = Err("permission   denied".to_string());
    assert_eq!(
        failed.expect_dialog("failed to spawn"),
        Err("Failed to spawn:\n\npermission denied\n".to_string())
    );
    let sharp: Result<u8, String> = Err("x".to_string());
    assert_eq!(sharp.expect_dialog("ßpawn"), Err("SSpawn:\n\nx\n".to_string()));
    assert_eq!(failure_message("N", "no", "e"), "No:\n\ne\n");
}

#[test]
fn routes_windows_and_menu_entries() {
    assert_eq!(Routes::Loader.id(), 0);
    assert_eq!(Routes::Settings.id(), 1);
    assert_eq!(Routes::Loader.text(), "/loader");
    assert_eq!(Routes::Settings.text(), "/settings");
    assert_eq!(Routes::Settings.path(), "/settings");
    assert_eq!(Routes::from_repr(1), Some(Routes::Settings));
    assert_eq!(Routes::from_repr(2), None);
    assert_eq!(Window::Main.as_str(), "main");
    assert_eq!(Window::Settings.as_str(), "settings");
    assert_eq!(Window::from_label("settings"), Some(Window::Settings));
    assert_eq!(Window::from_label("Main"), None);
    assert_eq!(MainMenu::App.repr(), 0);
    assert_eq!(MainMenu::AppSettings.id(), "2");
    assert_eq!(MainMenu::HelpMemosVersion.id(), "20");
    assert_eq!(MainMenu::AppQuit.as_ref(), "appmenu-quit");
    assert_eq!(MainMenu::ViewReload.as_ref(), "viewmenu-reload-view");
    assert_eq!(MainMenu::HelpMemosDocumentation.as_ref(), "helpmenu-documentation");
    assert_eq!(MainMenu::from_repr(5), Some(MainMenu::AppUpdate));
    assert_eq!(MainMenu::from_repr(21), None);
    assert_eq!(
        release_notes_url("1.0.1"),
        "https://github.com/memospot/memospot/releases/tag/v1.0.1"
    );
    assert_eq!(changelog_url("0.24.1"), "https://www.usememos.com/changelog/0-24-1");
    assert_eq!(changelog_url(""), "https://www.usememos.com/changelog/");
    assert_eq!(MainMenu::from_event_id("12"), Some(MainMenu::Window));
    assert_eq!(MainMenu::from_event_id("21"), None);
    assert_eq!(MainMenu::from_event_id("x"), None);
    assert_eq!(MainMenu::from_event_id("300"), None);
    for id in 0..21 {
        assert_eq!(MainMenu::from_repr(id).unwrap().repr() as usize, id);
    }
}

#[test]
fn runtime_configuration_store() {
    let mut store = RuntimeConfig::global_store();
    assert_eq!(RuntimeConfig::from_global_store(&store), RuntimeConfig::new());
    assert_eq!(RuntimeConfig::default(), RuntimeConfig::new());
    let mut config = RuntimeConfig::new();
    assert!(config.is_managed_server);
    assert!(!config.has_changed());
    config.paths.memos_bin = "/usr/bin/memos".to_string();
    config.memos_url = "http://localhost:5230/".to_string();
    config.yaml.memos.port = Some(5230);
    assert!(config.has_changed());
    config.to_global_store(&mut store);
    config.memos_url = "changed after storing".to_string();
    let read = RuntimeConfig::from_global_store(&store);
    assert_eq!(read.memos_url, "http://localhost:5230/");
    assert_eq!(read.paths.memos_bin, "/usr/bin/memos");
    assert_eq!(read.yaml.memos.port, Some(5230));
    assert_eq!(read.__yaml__.memos.port, Some(0));
    assert!(read.has_changed());
}
