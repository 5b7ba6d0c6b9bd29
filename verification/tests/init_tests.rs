use memospot::init::{
    binary_name, check_database_file, configured_binary, cwd_candidates, database,
    ensure_backup_directory, find_memos, get_cwd, memos_candidates, memos_data, memos_data_with,
    memos_port, memos_search_directories, pick_first, related_files, FileAction,
    backup_entries, backup_name, database_file_paths, hw_acceleration, Graphics, Rendering,
};
use memospot::homedir::Error;
use memospot::platform::Platform;
use memospot::migration::resource_path::{
    build_path_list, is_current_storage_setting, log_interval, needs_update, norm_suffix,
    relative_path, storage_type, to_slash,
};
use memospot::portpicker::{
    find_free_port, get_random_free_port, PortAction, PortEvent, PortSearch,
    MAX_RANDOM_PORT_RETRIES, UPPER_PORT,
};
use memospot::runtime_config::RuntimeConfig;
use memospot::updater::{is_check_due, is_enabled, should_run};
use memospot::utils::{
    absolute_path, data_path_candidates, get_app_data_path, platform_data_path,
};
use std::path::PathBuf;

fn runtime() -> RuntimeConfig {
    let mut rtcfg = RuntimeConfig::new();
    rtcfg.paths.memospot_data = "/home/me/.memospot".to_string();
    rtcfg.paths.memospot_cwd = "/usr/bin".to_string();
    rtcfg.paths.memos_data = "/home/me/.memospot".to_string();
    rtcfg
}

#[test]
fn absolute_paths_are_cleaned() {
    assert_eq!(absolute_path("/a/b/../c/./d//e/", None), Some("/a/c/d/e".to_string()));
    assert_eq!(absolute_path("/..", Some("/cwd")), Some("/".to_string()));
    assert_eq!(absolute_path("b/../c", Some("/cwd/x")), Some("/cwd/x/c".to_string()));
    assert_eq!(absolute_path("", Some("/cwd")), Some("/cwd".to_string()));
    assert_eq!(absolute_path("../..", Some("/cwd")), Some("/".to_string()));
    assert_eq!(absolute_path("relative", None), None);
}

#[test]
fn data_path_prefers_existing_directories() {
    let candidates = || data_path_candidates("memospot", "/home/me", None);
    assert_eq!(PathBuf::from(candidates().xdg), PathBuf::from("/home/me/.config/memospot"));
    assert_eq!(PathBuf::from(candidates().fallback), PathBuf::from("/home/me/.memospot"));
    let named = data_path_candidates("memospot", "/home/me", Some("/xdg"));
    assert_eq!(PathBuf::from(named.xdg), PathBuf::from("/xdg/memospot"));
    assert_eq!(get_app_data_path(candidates(), true, true, None), candidates().xdg);
    assert_eq!(get_app_data_path(candidates(), false, true, None), candidates().fallback);
    assert_eq!(
        get_app_data_path(candidates(), false, false, Some("C:\\Local\\memospot".to_string())),
        "C:\\Local\\memospot"
    );
    assert_eq!(get_app_data_path(candidates(), false, false, None), candidates().fallback);
}

#[test]
fn data_directory_of_the_server() {
    let mut rtcfg = runtime();
    for own in [None, Some(""), Some("  "), Some("."), Some(" . ")] {
        rtcfg.yaml.memos.data = own.map(|s| s.to_string());
        assert_eq!(memos_data(&rtcfg, Some("/cwd")), "/home/me/.memospot");
    }
    rtcfg.yaml.memos.data = Some(" /srv/memos/../data ".to_string());
    assert_eq!(memos_data(&rtcfg, Some("/cwd")), "/srv/data");
    rtcfg.yaml.memos.data = Some("data".to_string());
    assert_eq!(memos_data(&rtcfg, Some("/cwd")), "/cwd/data");
    assert_eq!(memos_data(&rtcfg, None), "/home/me/.memospot");
    rtcfg.yaml.memos.data = Some("~root/memos".to_string());
    assert_eq!(memos_data(&rtcfg, None), "/root/memos");
    rtcfg.yaml.memos.data = Some("~_foobar_/memos".to_string());
    assert_eq!(memos_data(&rtcfg, Some("/cwd")), "/cwd");
    assert_eq!(
        memos_data_with(&rtcfg, Err(Error::MissingEntry("x".to_string())), None),
        "/home/me/.memospot"
    );
    assert_eq!(memos_data_with(&rtcfg, Ok("/x/y/..".to_string()), None), "/x");
}

#[test]
fn configured_port() {
    let mut rtcfg = runtime();
    assert_eq!(memos_port(&rtcfg), 0);
    rtcfg.yaml.memos.port = Some(5230);
    assert_eq!(memos_port(&rtcfg), 5230);
    rtcfg.yaml.memos.port = None;
    assert_eq!(memos_port(&rtcfg), 0);
}

#[test]
fn database_files() {
    let mut rtcfg = runtime();
    assert_eq!(PathBuf::from(database(&rtcfg)), PathBuf::from("/home/me/.memospot/memos_prod.db"));
    rtcfg.yaml.memos.mode = Some("demo".to_string());
    assert_eq!(PathBuf::from(database(&rtcfg)), PathBuf::from("/home/me/.memospot/memos_demo.db"));
    rtcfg.yaml.memos.mode = None;
    assert_eq!(PathBuf::from(database(&rtcfg)), PathBuf::from("/home/me/.memospot/memos_.db"));
    assert_eq!(
        database_file_paths("/data/memos_prod.db"),
        vec![
            "/data/memos_prod.db".to_string(),
            "/data/memos_prod.db-wal".to_string(),
            "/data/memos_prod.db-shm".to_string()
        ]
    );
    assert_eq!(check_database_file(false, true, false), FileAction::Accept);
    assert_eq!(check_database_file(true, true, false), FileAction::Remove);
    assert_eq!(check_database_file(true, false, true), FileAction::Accept);
    assert_eq!(check_database_file(true, false, false), FileAction::Fatal);
}

#[test]
fn backups_hold_the_files_that_exist() {
    let extensions = vec!["db-wal".to_string(), "db-shm".to_string()];
    let related = related_files("/data/memos_prod.db", &extensions);
    assert_eq!(
        related,
        vec!["/data/memos_prod.db-wal".to_string(), "/data/memos_prod.db-shm".to_string()]
    );
    assert_eq!(
        backup_entries("/data/memos_prod.db", &related, &vec![false, true]),
        vec!["/data/memos_prod.db".to_string(), "/data/memos_prod.db-shm".to_string()]
    );
    assert_eq!(
        backup_entries("/data/memos_prod.db", &related, &vec![true, true]).len(),
        3
    );
    assert_eq!(
        backup_entries("/data/memos_prod.db", &vec![], &vec![]),
        vec!["/data/memos_prod.db".to_string()]
    );
    assert_eq!(related_files("/a/b.txt", &vec![]), Vec::<String>::new());
    assert_eq!(backup_name("20240522-101112"), "db-20240522-101112-pre-migration.zst.zip");
}

#[test]
fn rendering_of_the_web_view() {
    let graphics = |has_renderer, is_x11, is_flatpak, is_nvidia| Graphics {
        has_renderer,
        is_x11,
        is_flatpak,
        is_nvidia,
    };
    assert_eq!(hw_acceleration(graphics(false, true, true, true)), Rendering::DisableCompositing);
    assert_eq!(hw_acceleration(graphics(true, false, true, true)), Rendering::Untouched);
    assert_eq!(hw_acceleration(graphics(true, true, true, false)), Rendering::DisableDmabuf);
    assert_eq!(hw_acceleration(graphics(true, true, false, true)), Rendering::DisableDmabuf);
    assert_eq!(hw_acceleration(graphics(true, true, false, false)), Rendering::Untouched);
}

#[test]
fn server_binary() {
    let rtcfg = runtime();
    assert_eq!(binary_name(Platform::Posix), "memos");
    assert_eq!(binary_name(Platform::Other), "memos.exe");
    let dirs = memos_search_directories(&rtcfg, Platform::Posix, None);
    assert_eq!(
        dirs,
        vec![
            "/usr/bin".to_string(),
            "/home/me/.memospot".to_string(),
            "/usr/local/bin".to_string(),
            "/var/opt/memos".to_string(),
            "/usr/local/memos".to_string()
        ]
    );
    let windows = memos_search_directories(&rtcfg, Platform::Other, Some("/ProgramData"));
    assert_eq!(windows.len(), 3);
    assert_eq!(PathBuf::from(&windows[2]), PathBuf::from("/ProgramData/memos"));
    assert_eq!(memos_search_directories(&rtcfg, Platform::Other, None).len(), 2);
    let candidates = memos_candidates(&dirs, Platform::Posix);
    assert_eq!(PathBuf::from(&candidates[0]), PathBuf::from("/usr/bin/memos"));
    assert_eq!(PathBuf::from(&candidates[4]), PathBuf::from("/usr/local/memos/memos"));
    let hits = vec![false, false, true, true, false];
    assert_eq!(
        find_memos(None, false, candidates.clone(), &hits).map(PathBuf::from),
        Some(PathBuf::from("/usr/local/bin/memos"))
    );
    assert_eq!(
        find_memos(Some("/opt/memos".to_string()), true, candidates.clone(), &hits),
        Some("/opt/memos".to_string())
    );
    assert_eq!(
        find_memos(Some("/opt/memos".to_string()), false, candidates.clone(), &hits)
            .map(PathBuf::from),
        Some(PathBuf::from("/usr/local/bin/memos"))
    );
    assert_eq!(find_memos(None, false, candidates, &vec![false; 5]), None);
    assert_eq!(find_memos(None, true, vec![], &vec![]), None);
}

#[test]
fn configured_binary_path() {
    let mut rtcfg = runtime();
    assert_eq!(configured_binary(&rtcfg, Some("/cwd")), None);
    rtcfg.yaml.memos.binary_path = Some("   ".to_string());
    assert_eq!(configured_binary(&rtcfg, Some("/cwd")), None);
    rtcfg.yaml.memos.binary_path = Some(" bin/memos ".to_string());
    assert_eq!(configured_binary(&rtcfg, Some("/cwd")), Some("/cwd/bin/memos".to_string()));
    assert_eq!(configured_binary(&rtcfg, None), Some("".to_string()));
    rtcfg.yaml.memos.binary_path = Some("~root/memos".to_string());
    assert_eq!(configured_binary(&rtcfg, None), Some("/root/memos".to_string()));
}

#[test]
fn working_directory_of_the_server() {
    let rtcfg = runtime();
    let candidates = cwd_candidates(&rtcfg, Some("/custom".to_string()), "\\\\?\\C:\\res");
    assert_eq!(
        candidates,
        vec![
            "/custom".to_string(),
            "C:\\res".to_string(),
            "/home/me/.memospot".to_string(),
            "/usr/bin".to_string()
        ]
    );
    assert_eq!(get_cwd(&rtcfg, &candidates, &vec![false, true, true, false]), "C:\\res");
    assert_eq!(get_cwd(&rtcfg, &candidates, &vec![false, false, false, true]), "/usr/bin");
    assert_eq!(get_cwd(&rtcfg, &candidates, &vec![false; 4]), "/home/me/.memospot");
    let without = cwd_candidates(&rtcfg, None, "");
    assert_eq!(without.len(), 3);
    assert_eq!(without[0], "");
    assert_eq!(get_cwd(&rtcfg, &without, &vec![true, false, true]), "/usr/bin");
    assert_eq!(pick_first(&without, &vec![true, false, false]), None);
    assert_eq!(pick_first(&without, &vec![true, true, true]), Some(1));
}

#[test]
fn backup_directory() {
    let mut rtcfg = runtime();
    let own = PathBuf::from("/home/me/.memospot/backups");
    for configured in [None, Some(""), Some(" . "), Some("backups")] {
        rtcfg.yaml.memospot.backups.path = configured.map(|s| s.to_string());
        assert_eq!(
            PathBuf::from(ensure_backup_directory(&rtcfg, Ok("ignored".to_string()), None)),
            own
        );
    }
    rtcfg.yaml.memospot.backups.path = Some("/mnt/backups/".to_string());
    assert_eq!(
        ensure_backup_directory(&rtcfg, Ok("/mnt/backups/".to_string()), None),
        "/mnt/backups"
    );
    assert_eq!(
        PathBuf::from(ensure_backup_directory(&rtcfg, Ok("rel".to_string()), None)),
        own
    );
    assert_eq!(ensure_backup_directory(&rtcfg, Ok("rel".to_string()), Some("/cwd")), "/cwd/rel");
}

#[test]
fn port_search_prefers_the_free_preferred_port() {
    let (search, action) = find_free_port(5230);
    assert_eq!(action, PortAction::Probe { port: 5230 });
    let (search, action) = search.step(PortEvent::Probed { free: true });
    assert_eq!(action, PortAction::Finish { port: Some(5230) });
    assert_eq!(search, PortSearch::Done);
    assert_eq!(search.step(PortEvent::Probed { free: true }).1, PortAction::Ignore);
}

#[test]
fn port_search_passes_a_taken_port_over() {
    let (search, _) = find_free_port(5230);
    let (search, action) = search.step(PortEvent::Probed { free: false });
    assert_eq!(action, PortAction::AskOs);
    let (_, action) = search.step(PortEvent::OsAnswered { port: Some(40123) });
    assert_eq!(action, PortAction::Finish { port: Some(40123) });
}

#[test]
fn port_search_without_preference_asks_the_system() {
    for preferred in [0u16, 65534, 65535] {
        let (search, action) = find_free_port(preferred);
        assert_eq!(action, PortAction::AskOs);
        assert_eq!(search, PortSearch::Os { attempt: 1 });
    }
    let (_, action) = find_free_port(65533);
    assert_eq!(action, PortAction::Probe { port: 65533 });
    assert_eq!(UPPER_PORT, 65534);
}

#[test]
fn port_search_falls_back_to_random_ports_and_ends() {
    let (mut search, mut action) = find_free_port(0);
    let mut asked = 0;
    let mut probed = Vec::new();
    loop {
        match action {
            PortAction::AskOs => {
                asked += 1;
                let answer = if asked % 2 == 0 { Some(65534) } else { None };
                let next = search.step(PortEvent::OsAnswered { port: answer });
                search = next.0;
                action = next.1;
            }
            PortAction::Probe { port } => {
                assert!((15000..45000).contains(&port));
                probed.push(port);
                let next = search.step(PortEvent::Probed { free: false });
                search = next.0;
                action = next.1;
            }
            PortAction::Finish { port } => {
                assert_eq!(port, None);
                break;
            }
            PortAction::Ignore => panic!("nothing was ignored"),
        }
    }
    assert_eq!(asked, 10);
    assert_eq!(probed.len(), MAX_RANDOM_PORT_RETRIES as usize);
    let (search, _) = find_free_port(0);
    let (search, action) = search.step_with(PortEvent::OsAnswered { port: Some(0) }, 20000);
    assert_eq!(action, PortAction::AskOs);
    assert_eq!(search, PortSearch::Os { attempt: 2 });
    let (search, action) = get_random_free_port(0, 20000);
    assert_eq!(action, PortAction::Probe { port: 20000 });
    let (_, action) = search.step_with(PortEvent::Probed { free: true }, 20001);
    assert_eq!(action, PortAction::Finish { port: Some(20000) });
    assert_eq!(get_random_free_port(10, 20000).1, PortAction::Finish { port: None });
}

#[test]
fn resource_paths() {
    assert_eq!(norm_suffix("/var/opt/memos"), "/var/opt/memos/");
    assert_eq!(norm_suffix("/var/opt/memos/"), "/var/opt/memos/");
    assert_eq!(norm_suffix("C:\\memos"), "C:\\memos\\");
    assert_eq!(norm_suffix("C:\\memos\\"), "C:\\memos\\");
    assert_eq!(norm_suffix("C:\\a/b"), "C:\\a/b/");
    assert_eq!(norm_suffix("a/b\\"), "a/b\\/");
    assert_eq!(norm_suffix("memos"), "memos");
    assert_eq!(norm_suffix(""), "");
    for sample in ["", "a\\b", "a\\\\b", "a//b", "a///b", "a////b", "\\\\srv\\x//y", "/a/b/"] {
        assert_eq!(to_slash(sample), sample.replace('\\', "/").replace("//", "/"), "{:?}", sample);
    }
    let known = vec!["/var/opt/memos/".to_string(), "C:\\Users\\me\\memos\\".to_string()];
    assert_eq!(relative_path("/var/opt/memos/assets/2024/a.png", &known), "assets/2024/a.png");
    assert_eq!(relative_path("C:\\Users\\me\\memos\\assets\\b.png", &known), "assets/b.png");
    assert_eq!(relative_path("/elsewhere/data/assets/c.png", &known), "assets/c.png");
    assert_eq!(relative_path("/elsewhere/d.png", &known), "elsewhere/d.png");
    assert_eq!(relative_path("assets/e.png", &known), "assets/e.png");
    assert_eq!(relative_path("/x/assets/y/assets/z.png", &known), "assets/z.png");
    assert!(needs_update("/var/opt/memos/assets/a.png", "assets/a.png"));
    assert!(!needs_update("assets/a.png", "assets/a.png"));
    assert_eq!(
        build_path_list("/home/me/.memospot", "/usr/bin/", None),
        vec![
            "/var/opt/memos/".to_string(),
            "/home/me/.memospot/".to_string(),
            "/usr/bin/".to_string()
        ]
    );
    assert_eq!(
        build_path_list("/var/opt/memos", "/var/opt/memos/", Some("C:\\ProgramData")),
        vec!["/var/opt/memos/".to_string(), "C:\\ProgramData\\memos\\".to_string()]
    );
    assert!(is_current_storage_setting(
        "{\"storageType\":\"LOCAL\",\"filepathTemplate\":\"a\",\"uploadSizeLimitMb\":\"32\"}"
    ));
    assert!(!is_current_storage_setting("{\"storageType\":\"LOCAL\"}"));
    assert!(!is_current_storage_setting(""));
    assert_eq!(storage_type(None), "LOCAL");
    assert_eq!(storage_type(Some(-1)), "LOCAL");
    assert_eq!(storage_type(Some(0)), "DATABASE");
    assert_eq!(storage_type(Some(1)), "S3");
    assert_eq!(storage_type(Some(-2)), "S3");
    assert_eq!(log_interval(0), 0);
    assert_eq!(log_interval(100), 100);
    assert_eq!(log_interval(101), 10);
    assert_eq!(log_interval(1000), 100);
    assert_eq!(log_interval(1001), 50);
    assert_eq!(log_interval(10001), 200);
    assert_eq!(log_interval(100001), 1000);
    assert_eq!(log_interval(1000001), 10);
}

#[test]
fn update_checks() {
    assert!(is_enabled(Some(true), None));
    assert!(is_enabled(Some(true), Some("")));
    assert!(!is_enabled(Some(true), Some("io.github.memospot")));
    assert!(!is_enabled(Some(false), None));
    assert!(!is_enabled(None, None));
    assert!(should_run(Some("1d"), Some(1000), 1000 + 86400 + 1));
    assert!(!should_run(Some("1d"), Some(1000), 1000 + 86400));
    assert!(should_run(Some("2h 37min"), None, 9421));
    assert!(!should_run(Some("2h 37min"), None, 9420));
    assert!(!should_run(Some("0"), Some(0), 100));
    assert!(!should_run(Some("soon"), Some(0), u64::MAX));
    assert!(!should_run(Some(""), Some(0), u64::MAX));
    assert!(!should_run(None, Some(0), u64::MAX));
    assert!(!is_check_due(Some(u64::MAX), Some(u64::MAX), u64::MAX));
    assert!(is_check_due(Some(1), None, 2));
}

#[test]
fn an_interval_too_long_to_read_is_never_due() {
    assert!(!should_run(Some("18446744073709551615s 1000000000ns"), Some(0), u64::MAX));
    assert!(!should_run(Some("0000000000000000001s"), Some(0), u64::MAX));
    assert!(!should_run(Some("1d 1h 1min 1s 1ms 1us"), None, u64::MAX));
    assert!(should_run(Some("000000000000000001s"), Some(0), 2));
    assert!(!should_run(Some("000000000000000001s"), Some(0), 1));
    assert!(should_run(Some("365days 23h 59m 59s"), None, 31622400));
    assert!(!should_run(Some("365days 23h 59m 59s"), None, 31622399));
}

#[test]
fn a_candidate_without_an_answer_is_not_there() {
    let candidates = vec!["/a".to_string(), "/b".to_string(), "/c".to_string()];
    assert_eq!(pick_first(&candidates, &vec![]), None);
    assert_eq!(pick_first(&candidates, &vec![false]), None);
    assert_eq!(pick_first(&candidates, &vec![false, true]), Some(1));
    assert_eq!(pick_first(&candidates, &vec![false, false, false, true]), None);
    assert_eq!(pick_first(&vec![], &vec![true]), None);
    assert_eq!(find_memos(None, false, candidates.clone(), &vec![false, false]), None);
    assert_eq!(
        find_memos(None, false, candidates.clone(), &vec![true]),
        Some("/a".to_string())
    );
    let mut rtcfg = RuntimeConfig::new();
    rtcfg.paths.memospot_data = "/home/me/.memospot".to_string();
    assert_eq!(get_cwd(&rtcfg, &candidates, &vec![false]), "/home/me/.memospot");
    assert_eq!(get_cwd(&rtcfg, &candidates, &vec![false, false, true, true]), "/c");
    let related = vec!["/d/m.db-wal".to_string(), "/d/m.db-shm".to_string()];
    assert_eq!(backup_entries("/d/m.db", &related, &vec![]), vec!["/d/m.db".to_string()]);
    assert_eq!(
        backup_entries("/d/m.db", &related, &vec![true]),
        vec!["/d/m.db".to_string(), "/d/m.db-wal".to_string()]
    );
    assert_eq!(
        backup_entries("/d/m.db", &related, &vec![false, true, true]),
        vec!["/d/m.db".to_string(), "/d/m.db-shm".to_string()]
    );
}

#[test]
fn the_platform_data_directory_is_the_local_one() {
    assert_eq!(platform_data_path("memospot", None, None), None);
    assert_eq!(
        platform_data_path("memospot", Some("/users/me/AppData/Local"), None).map(PathBuf::from),
        Some(PathBuf::from("/users/me/AppData/Local").join("memospot"))
    );
    assert_eq!(
        platform_data_path("memospot", None, Some("/users/me/AppData/Roaming"))
            .map(PathBuf::from),
        Some(PathBuf::from("/users/me/AppData").join("Local").join("memospot"))
    );
    assert_eq!(
        platform_data_path("memospot", Some("/l"), Some("/users/me/AppData/Roaming"))
            .map(PathBuf::from),
        Some(PathBuf::from("/l").join("memospot"))
    );
    assert_eq!(
        platform_data_path("memospot", None, Some("/users/me/NotRoaming")).map(PathBuf::from),
        Some(PathBuf::from("/users/me/NotRoaming").join("memospot"))
    );
    assert_eq!(
        platform_data_path("memospot", Some("Roaming"), None).map(PathBuf::from),
        Some(PathBuf::from("Local").join("memospot"))
    );
}
