use memospot::config::extract::ConfigError;
use memospot::config::fields::Fault;
use memospot::config::migration::{migrate, migrate_recorded, upgrade_env, v_0_1_7_to_v1_0_0};
use memospot::config::history::MigrationHistory;
use memospot::config::save::{
    file_contents, SaveAction, SaveEvent, SaveStage, CONFIG_HEADER,
};
use memospot::config::tree::{copy_value, get, merge, put, Entry, Kind, Value};
use memospot::config::types::{
    Backups, Config, EnvironmentVariables, Log, Memos, Memospot, Migrations, RemoteServer,
    Updater, Window,
};

use std::io::{Read, Seek, Write};

fn from_yaml(value: &serde_yaml::Value) -> Value {
    match value {
        serde_yaml::Value::Null => Value::Null,
        serde_yaml::Value::Bool(b) => Value::Bool(*b),
        serde_yaml::Value::Number(n) => {
            if let Some(i) = n.as_i64() {
                Value::Int(i as i128)
            } else if let Some(u) = n.as_u64() {
                Value::Int(u as i128)
            } else {
                Value::Real(n.to_string())
            }
        }
        serde_yaml::Value::String(s) => Value::Text(s.clone()),
        serde_yaml::Value::Sequence(items) => Value::List(items.iter().map(from_yaml).collect()),
        serde_yaml::Value::Mapping(map) => Value::Dict(
            map.iter()
                .map(|(k, v)| Entry {
                    key: k.as_str().unwrap_or_default().to_string(),
                    value: from_yaml(v),
                })
                .collect(),
        ),
        serde_yaml::Value::Tagged(tagged) => from_yaml(&tagged.value),
    }
}

fn to_yaml(value: &Value) -> serde_yaml::Value {
    match value {
        Value::Null => serde_yaml::Value::Null,
        Value::Bool(b) => serde_yaml::Value::Bool(*b),
        Value::Int(n) => serde_yaml::Value::Number((*n as i64).into()),
        Value::Real(s) => serde_yaml::Value::String(s.clone()),
        Value::Text(s) => serde_yaml::Value::String(s.clone()),
        Value::List(items) => serde_yaml::Value::Sequence(items.iter().map(to_yaml).collect()),
        Value::Dict(entries) => {
            let mut map = serde_yaml::Mapping::new();
            for entry in entries {
                map.insert(serde_yaml::Value::String(entry.key.clone()), to_yaml(&entry.value));
            }
            serde_yaml::Value::Mapping(map)
        }
    }
}

fn parse(text: &str) -> Value {
    let value: serde_yaml::Value = serde_yaml::from_str(text).unwrap();
    from_yaml(&value)
}

fn serialize(config: &Config) -> String {
    serde_yaml::to_string(&to_yaml(&config.to_tree())).unwrap()
}

fn dict(entries: Vec<(&str, Value)>) -> Value {
    Value::Dict(
        entries
            .into_iter()
            .map(|(k, v)| Entry { key: k.to_string(), value: v })
            .collect(),
    )
}

fn text(s: &str) -> Value {
    Value::Text(s.to_string())
}

/// A configuration that is given is merged with the defaults where fields
/// are missing.
#[test]
fn test_init_partial() {
    static PARTIAL_YAML: &str = r#"
memos:
#   addr: 127.0.0.1
    mode: demo # default is prod
#   port: 0
memospot:
    log:
        enabled: true # default is false
"#;

    let tree = parse(PARTIAL_YAML);
    let parsed_config = Config::init(Some(&tree), None).unwrap();

    assert_eq!(parsed_config.memos.addr, Some("127.0.0.1".to_string()));
    assert_eq!(parsed_config.memos.port, Some(0));
    assert_eq!(parsed_config.memos.mode, Some("demo".to_string()));
    assert!(parsed_config.memospot.log.enabled.unwrap());
}

#[test]
fn settings_left_out_keep_their_defaults() {
    let defaults = Config::default();

    let window_only = parse("memospot:\n  window:\n    width: 800\n    theme: dark\n");
    let config = Config::init(Some(&window_only), None).unwrap();
    assert_eq!(config.memospot.window.width, Some(800));
    assert_eq!(config.memospot.window.theme, Some("dark".to_string()));
    let mut expected = Config::default();
    expected.memospot.window.width = Some(800);
    expected.memospot.window.theme = Some("dark".to_string());
    assert_eq!(config, expected);
    assert_eq!(config.memos, defaults.memos);
    assert_eq!(config.memospot.window.height, defaults.memospot.window.height);

    let mixed = parse("memos:\n  port: 5230\n  env:\n    vars:\n      a: b\nmemospot:\n  updater:\n    enabled: false\n");
    let config = Config::init(Some(&mixed), None).unwrap();
    let mut expected = Config::default();
    expected.memos.port = Some(5230);
    expected.memos.env.vars = Some(vec![("a".to_string(), "b".to_string())]);
    expected.memospot.updater.enabled = Some(false);
    assert_eq!(config, expected);

    let nulled = parse("memos:\n  addr: ~\n");
    let config = Config::init(Some(&nulled), None).unwrap();
    let mut expected = Config::default();
    expected.memos.addr = None;
    assert_eq!(config, expected);

    let empty = parse("{}");
    assert_eq!(Config::init(Some(&empty), None).unwrap(), defaults);
    assert_eq!(Config::init(None, None).unwrap(), defaults);
}

#[test]
fn test_malformed() {
    static MALFORMED_YAML: &str = r#"
memospot:
mode: prod
"#;

    let tree = parse(MALFORMED_YAML);
    let Err(e) = Config::init(Some(&tree), None) else {
        panic!("init must fail with malformed YAML");
    };

    assert!(e
        .message()
        .contains("invalid type: found unit, expected struct Memospot for key"));
}

#[test]
fn test_gibberish() {
    static INVALID_YAML: &str = r#"
\0\xqwefdklsaj
"#;

    let tree = parse(INVALID_YAML);
    let Err(_) = Config::init(Some(&tree), None) else {
        panic!("init must fail with invalid YAML");
    };
}

#[test]
fn test_parse() {
    let mut config = Config::init(None, None).unwrap();
    config.memos.addr = Some("0.0.0.0".to_string());

    let saved = file_contents(&serialize(&config));
    let parsed = Config::parse_file(&parse(&saved)).unwrap();

    assert_eq!(parsed, config);
    assert_ne!(parsed, Config::default());
}

#[test]
fn test_edit() {
    let mut default_config = Config::default();
    default_config.memos.addr = Some("0.0.0.0".to_string());

    let saved = file_contents(&serialize(&default_config));
    let parsed = Config::parse_file(&parse(&saved)).unwrap();

    assert_eq!(parsed, default_config);
    assert_ne!(parsed, Config::default());
}

#[test]
fn test_reset() {
    let default_config = Config::default();
    let default_yaml = serialize(&default_config);

    let tmp_dir = tempfile::tempdir().unwrap();
    let tmp_yaml = tmp_dir.path().join("memospot.yaml");

    let (config, (mut state, mut action)) = Config::reset_file(tmp_yaml.is_dir());
    let mut elapsed = 0;
    let mut saved = None;
    loop {
        let event = match action {
            SaveAction::Wait => {
                elapsed += 100;
                SaveEvent::Tick { elapsed_ms: elapsed }
            }
            SaveAction::Write { temp } => {
                let contents = file_contents(&serialize(&config));
                let written = tempfile::Builder::new()
                    .prefix(&temp)
                    .rand_bytes(0)
                    .tempfile_in(tmp_dir.path())
                    .and_then(|mut file| file.write_all(contents.as_bytes()).map(|_| file))
                    .and_then(|file| file.persist(&tmp_yaml).map_err(|e| e.error));
                match written {
                    Ok(file) => {
                        saved = Some(file);
                        SaveEvent::Written
                    }
                    Err(e) => SaveEvent::Failed { stage: SaveStage::Write, error: e.to_string() },
                }
            }
            SaveAction::RemoveTemp { .. } => SaveEvent::TempRemoved,
            SaveAction::Finish { result } => {
                assert!(result.is_ok());
                break;
            }
            SaveAction::Ignore => unreachable!(),
        };
        (state, action) = state.step(event);
    }
    assert!(tmp_yaml.is_file());

    let mut text = String::new();
    let mut file = saved.unwrap();
    file.rewind().unwrap();
    file.read_to_string(&mut text).unwrap();
    assert!(text.starts_with(CONFIG_HEADER));
    let cfg = Config::parse_file(&parse(&text)).unwrap();
    let yaml = serialize(&cfg);
    assert_eq!(yaml, default_yaml);
}

#[test]
fn test_show() {
    let default_config = Config::default();
    let default_yaml = serialize(&default_config);
    println!("{default_yaml}");
}

#[test]
fn defaults_have_their_documented_values() {
    let config = Config::default();
    assert_eq!(config.memos.binary_path, None);
    assert_eq!(config.memos.working_dir, None);
    assert_eq!(config.memos.data, None);
    assert_eq!(config.memos.mode, Some("prod".to_string()));
    assert_eq!(config.memos.addr, Some("127.0.0.1".to_string()));
    assert_eq!(config.memos.port, Some(0));
    assert_eq!(config.memos.env, EnvironmentVariables { enabled: Some(false), vars: None });
    assert_eq!(config.memospot.backups, Backups { enabled: Some(true), path: None });
    assert_eq!(config.memospot.env, EnvironmentVariables { enabled: Some(false), vars: None });
    assert_eq!(config.memospot.migrations, Migrations { enabled: Some(true) });
    assert_eq!(config.memospot.log, Log { enabled: Some(false) });
    assert_eq!(
        config.memospot.remote,
        RemoteServer { enabled: Some(false), url: None, user_agent: None }
    );
    assert_eq!(config.memospot.updater, Updater { enabled: Some(true) });
    assert_eq!(
        config.memospot.window,
        Window {
            center: Some(true),
            fullscreen: Some(false),
            resizable: Some(true),
            maximized: Some(false),
            width: Some(1280),
            height: Some(720),
            x: Some(0),
            y: Some(0),
            hide_menu_bar: Some(false),
            theme: None,
            language: None,
        }
    );
    assert_eq!(Memos::default().port, Some(5230));
    assert_eq!(Memospot::default(), config.memospot);
    assert_eq!(Config::new(), config);
}

#[test]
fn missing_file_gives_defaults() {
    assert_eq!(Config::init(None, None).unwrap(), Config::default());
    assert_eq!(Config::init(Some(&dict(vec![])), None).unwrap(), Config::default());
}

#[test]
fn explicit_null_is_no_value_and_missing_is_default() {
    let tree = parse("memos:\n  mode: ~\n  port: 8081\n");
    let config = Config::init(Some(&tree), None).unwrap();
    assert_eq!(config.memos.mode, None);
    assert_eq!(config.memos.port, Some(8081));
    assert_eq!(config.memos.addr, Some("127.0.0.1".to_string()));
}

#[test]
fn wrong_kinds_are_reported_with_their_key() {
    let tree = parse("memos:\n  port: \"8081\"\n");
    assert_eq!(
        Config::init(Some(&tree), None),
        Err(ConfigError {
            key: "memos.port".to_string(),
            fault: Fault::InvalidType { found: Kind::Text }
        })
    );
    let tree = parse("memos:\n  port: 70000\n");
    assert_eq!(
        Config::init(Some(&tree), None),
        Err(ConfigError { key: "memos.port".to_string(), fault: Fault::OutOfRange })
    );
    let tree = parse("memospot:\n  window:\n    x: -5\n    width: -5\n");
    assert_eq!(
        Config::init(Some(&tree), None),
        Err(ConfigError { key: "memospot.window.width".to_string(), fault: Fault::OutOfRange })
    );
    let tree = parse("memospot:\n  window:\n    theme: [dark]\n");
    assert_eq!(
        Config::init(Some(&tree), None),
        Err(ConfigError {
            key: "memospot.window.theme".to_string(),
            fault: Fault::InvalidType { found: Kind::List }
        })
    );
    let tree = parse("memospot:\n  env:\n    vars:\n      A: 1\n");
    assert_eq!(
        Config::init(Some(&tree), None),
        Err(ConfigError {
            key: "memospot.env.vars".to_string(),
            fault: Fault::InvalidType { found: Kind::Integer }
        })
    );
    let tree = parse("- a\n- b\n");
    assert_eq!(
        Config::init(Some(&tree), None),
        Err(ConfigError { key: "".to_string(), fault: Fault::InvalidType { found: Kind::List } })
    );
}

#[test]
fn the_first_problem_in_document_order_is_reported() {
    let tree = parse("memos:\n  addr: 1\n  mode: 2\nmemospot: 3\n");
    assert_eq!(
        Config::init(Some(&tree), None).unwrap_err().key,
        "memos.mode".to_string()
    );
}

#[test]
fn parse_file_requires_sections_and_applies_no_defaults() {
    let tree = parse("memos:\n  mode: demo\n");
    assert_eq!(
        Config::parse_file(&tree),
        Err(ConfigError { key: "memos.env".to_string(), fault: Fault::Missing })
    );
    assert_eq!(Config::parse_file(&Config::blank().to_tree()).unwrap(), Config::blank());
    assert_eq!(Config::blank().memos.mode, None);
}

#[test]
fn error_messages_name_kind_and_key() {
    let e = ConfigError { key: "memos.port".to_string(), fault: Fault::OutOfRange };
    assert_eq!(e.message(), "invalid value: number out of range for key \"memos.port\"");
    let e = ConfigError {
        key: "memospot.window".to_string(),
        fault: Fault::InvalidType { found: Kind::Bool },
    };
    assert_eq!(
        e.message(),
        "invalid type: found bool, expected struct Window for key \"memospot.window\""
    );
    let e = ConfigError { key: "memos".to_string(), fault: Fault::Missing };
    assert_eq!(e.message(), "missing field for key \"memos\"");
    let e = ConfigError {
        key: "memos.mode".to_string(),
        fault: Fault::InvalidType { found: Kind::Dict },
    };
    assert_eq!(
        e.message(),
        "invalid type: found map, expected a value of the setting's type for key \"memos.mode\""
    );
}

#[test]
fn round_trip_keeps_every_setting() {
    let mut config = Config::default();
    config.memos.binary_path = Some("/opt/memos/memos".to_string());
    config.memos.port = Some(65535);
    config.memos.mode = None;
    config.memos.env = EnvironmentVariables {
        enabled: Some(true),
        vars: Some(vec![
            ("B".to_string(), "2".to_string()),
            ("A".to_string(), "1".to_string()),
        ]),
    };
    config.memospot.window.x = Some(-2147483648);
    config.memospot.window.width = Some(4294967295);
    config.memospot.window.theme = Some("dark".to_string());
    config.memospot.remote.url = Some("https://example.org/".to_string());
    config.memospot.updater.enabled = None;

    assert_eq!(Config::parse_file(&config.to_tree()).unwrap(), config);
    assert_eq!(Config::init(Some(&config.to_tree()), None).unwrap(), config);
    let text = file_contents(&serialize(&config));
    assert_eq!(Config::init(Some(&parse(&text)), None).unwrap(), config);
    assert!(config.same_as(&config.clone()));
    assert!(!config.same_as(&Config::default()));
}

#[test]
fn saving_defaults_twice_gives_the_same_text() {
    let first = file_contents(&serialize(&Config::default()));
    let reloaded = Config::init(Some(&parse(&first)), None).unwrap();
    let second = file_contents(&serialize(&reloaded));
    assert_eq!(first, second);
    assert!(first.starts_with(CONFIG_HEADER));
    assert!(first.starts_with("#\n#! User comments on this file will be lost whenever\n"));
}

#[test]
fn environment_overrides_win_over_the_file() {
    let file = parse("memos:\n  mode: prod\n  port: 5000\nmemospot:\n  log:\n    enabled: false\n");
    let env = dict(vec![("memos", dict(vec![("mode", text("dev"))]))]);
    let config = Config::init(Some(&file), Some(&env)).unwrap();
    assert_eq!(config.memos.mode, Some("dev".to_string()));
    assert_eq!(config.memos.port, Some(5000));
    assert_eq!(config.memospot.log.enabled, Some(false));
    let only_env = Config::init(None, Some(&env)).unwrap();
    assert_eq!(only_env.memos.mode, Some("dev".to_string()));
    assert_eq!(only_env.memos.port, Some(0));
}

#[test]
fn settings_sent_as_json_are_not_migrated() {
    let json = dict(vec![("memos", dict(vec![("mode", text("demo"))]))]);
    let config = Config::from_json(&json, None).unwrap();
    assert_eq!(config.memos.mode, Some("demo".to_string()));
    assert_eq!(config.memos.port, Some(0));
    let env = dict(vec![("memos", dict(vec![("port", Value::Int(5231))]))]);
    let config = Config::from_json(&json, Some(&env)).unwrap();
    assert_eq!(config.memos.mode, Some("demo".to_string()));
    assert_eq!(config.memos.port, Some(5231));
    let legacy = dict(vec![("memos", dict(vec![("env", dict(vec![("A", text("b"))]))]))]);
    assert_eq!(
        Config::from_json(&legacy, None).unwrap().memos.env,
        EnvironmentVariables { enabled: Some(false), vars: None }
    );
    let null = dict(vec![("memos", dict(vec![("env", Value::Null)]))]);
    assert_eq!(
        Config::from_json(&null, None),
        Err(ConfigError {
            key: "memos.env".to_string(),
            fault: Fault::InvalidType { found: Kind::Unit }
        })
    );
}

#[test]
fn merge_unites_mappings_and_keeps_order() {
    let base = dict(vec![
        ("a", Value::Int(1)),
        ("b", dict(vec![("x", Value::Int(1)), ("y", Value::Int(2))])),
    ]);
    let over = dict(vec![
        ("c", Value::Bool(true)),
        ("b", dict(vec![("y", Value::Int(3)), ("z", Value::Null)])),
        ("a", text("one")),
    ]);
    let expected = dict(vec![
        ("a", text("one")),
        ("b", dict(vec![("x", Value::Int(1)), ("y", Value::Int(3)), ("z", Value::Null)])),
        ("c", Value::Bool(true)),
    ]);
    assert_eq!(merge(&base, &over), expected);
    assert_eq!(merge(&base, &Value::Int(7)), Value::Int(7));
    assert_eq!(merge(&Value::Int(7), &base), copy_value(&base));
}

#[test]
fn lookup_takes_the_first_entry_and_put_replaces_it() {
    let mut entries = vec![
        Entry { key: "k".to_string(), value: Value::Int(1) },
        Entry { key: "k".to_string(), value: Value::Int(2) },
    ];
    assert_eq!(get(&entries, "k"), Some(&Value::Int(1)));
    assert_eq!(get(&entries, "missing"), None);
    put(&mut entries, "k", Value::Int(3));
    put(&mut entries, "n", Value::Null);
    assert_eq!(entries.len(), 3);
    assert_eq!(get(&entries, "k"), Some(&Value::Int(3)));
    assert_eq!(entries[2], Entry { key: "n".to_string(), value: Value::Null });
}

#[test]
fn legacy_environment_is_migrated() {
    let legacy = parse("memos:\n  mode: prod\n  env:\n    MEMOS_FOO: bar\n    B: c\n");
    let migrated = migrate(&legacy);
    let expected = parse(
        "memos:\n  mode: prod\n  env:\n    enabled: true\n    vars:\n      MEMOS_FOO: bar\n      B: c\n",
    );
    assert_eq!(migrated, expected);
    let config = Config::init(Some(&legacy), None).unwrap();
    assert_eq!(config.memos.env.enabled, Some(true));
    assert_eq!(
        config.memos.env.vars,
        Some(vec![
            ("MEMOS_FOO".to_string(), "bar".to_string()),
            ("B".to_string(), "c".to_string())
        ])
    );
}

#[test]
fn null_environment_is_switched_off() {
    let legacy = parse("memos:\n  env: ~\n");
    assert_eq!(migrate(&legacy), parse("memos:\n  env:\n    enabled: false\n"));
    assert_eq!(upgrade_env(&Value::Null), dict(vec![("enabled", Value::Bool(false))]));
    let config = Config::init(Some(&legacy), None).unwrap();
    assert_eq!(config.memos.env, EnvironmentVariables { enabled: Some(false), vars: None });
}

#[test]
fn migration_is_idempotent_and_leaves_the_current_shape() {
    let documents = [
        "memos:\n  env:\n    A: b\n",
        "memos:\n  env: ~\n",
        "memos:\n  env: {}\n",
        "memos:\n  env:\n    enabled: true\n    vars:\n      A: b\n",
        "memos:\n  env:\n    enabled: false\n",
        "memos:\n  mode: demo\n",
        "memos: 3\n",
        "other: true\n",
        "[1, 2]\n",
    ];
    for document in documents {
        let tree = parse(document);
        let once = v_0_1_7_to_v1_0_0(&tree);
        let twice = v_0_1_7_to_v1_0_0(&once);
        assert_eq!(once, twice, "{document}");
    }
    let current = parse("memos:\n  env:\n    enabled: true\n    vars:\n      A: b\n");
    assert_eq!(migrate(&current), current);
    let untouched = parse("memos:\n  mode: demo\n");
    assert_eq!(migrate(&untouched), untouched);
}

#[test]
fn recorded_migrations_are_not_applied_again() {
    let legacy = parse("memos:\n  env:\n    A: b\n");
    let mut history = MigrationHistory::new();
    assert!(history.is_pending("v0.1.7-to-v1.0.0"));
    let first = migrate_recorded(&legacy, &mut history, 1700000000);
    assert_eq!(first, migrate(&legacy));
    assert_eq!(history.completed_at("v0.1.7-to-v1.0.0"), Some(1700000000));
    let second = migrate_recorded(&legacy, &mut history, 1800000000);
    assert_eq!(second, legacy);
    assert_eq!(history.completed_at("v0.1.7-to-v1.0.0"), Some(1700000000));
    history.record("later step", 5);
    let steps = vec![
        "v0.1.7-to-v1.0.0".to_string(),
        "new step".to_string(),
        "later step".to_string(),
        "newest step".to_string(),
    ];
    assert_eq!(
        history.pending(&steps),
        vec!["new step".to_string(), "newest step".to_string()]
    );
    assert_eq!(history.completed_at("new step"), None);
}
