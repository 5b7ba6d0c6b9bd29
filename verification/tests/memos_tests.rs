use memospot::config::types::{Config, EnvironmentVariables};
use memospot::memos::env::{
    env_key_of, make_env_key, prepare_env, put_var, set_env_vars, ManagedVar,
};
use memospot::memos::readiness::{
    endpoint_url, health_endpoint, wait_api_ready, Endpoint, ping_api, ping_timeout, ping_verdict, Poll, PollAction,
    PollPhase, Reply, POLL_INTERVAL_MS, POLL_TIMEOUT_MS, QUERY_USER_AGENT,
};
use memospot::memos::url::{
    dev_port, get_url, is_managed_url, is_valid_server_url, main_title, memos_url, user_agent,
};
use memospot::memos::version::MemosVersionStore;
use memospot::runtime_config::RuntimeConfig;

fn lookup<'a>(vars: &'a [(String, String)], key: &str) -> Option<&'a str> {
    vars.iter().find(|(k, _)| k == key).map(|(_, v)| v.as_str())
}

#[test]
fn memos_version_test_version_store() {
    let mut store = MemosVersionStore::instance();
    assert_eq!(store.get(), "");

    store.set("1.0.0".to_string());
    assert_eq!(store.get(), "1.0.0");
    assert_eq!(store.get(), "1.0.0");
    assert_eq!(store.get(), "1.0.0");

    store.set("1.0.1".to_string());
    assert_eq!(store.get(), "1.0.1");
    assert_eq!(store.get(), "1.0.1");
    assert_eq!(store.get(), "1.0.1");

    store.set("1.0.2".to_string());
    assert_eq!(store.get(), "1.0.2");
    assert_eq!(store.get(), "1.0.2");
    assert_eq!(store.get(), "1.0.2");
}

#[test]
fn environment_keys_are_uppercased_and_prefixed() {
    assert_eq!(make_env_key("mode"), "MEMOS_MODE");
    assert_eq!(make_env_key("instance-url"), "MEMOS_INSTANCE_URL");
    assert_eq!(make_env_key("memos_port"), "MEMOS_PORT");
    assert_eq!(make_env_key("MEMOS-x"), "MEMOS_X");
    assert_eq!(make_env_key("memo"), "MEMOS_MEMO");
    assert_eq!(make_env_key(""), "MEMOS_");
    assert_eq!(make_env_key("straße"), "MEMOS_STRASSE");
    assert_eq!(make_env_key("ǆ"), "MEMOS_Ǆ");
    assert_eq!(env_key_of("A-B"), "MEMOS_A_B");
    assert_eq!(env_key_of("MEMOS_A-B"), "MEMOS_A_B");
    assert_eq!(env_key_of("memos_a"), "MEMOS_memos_a");
    assert_eq!(ManagedVar::PasswordAuth.key(), "MEMOS_PASSWORD_AUTH");
    assert_eq!(ManagedVar::InstanceUrl.key(), "MEMOS_INSTANCE_URL");
}

#[test]
fn managed_variables_win_over_the_users() {
    let mut rtcfg = RuntimeConfig::new();
    rtcfg.paths.memos_data = "/data/memos".to_string();
    rtcfg.memos_url = "http://localhost:5231/".to_string();
    rtcfg.yaml.memos.port = Some(5231);
    rtcfg.yaml.memos.mode = Some("prod".to_string());
    rtcfg.yaml.memos.env = EnvironmentVariables {
        enabled: Some(true),
        vars: Some(vec![
            ("MEMOS_PUBLIC".to_string(), "true".to_string()),
            ("custom".to_string(), "1".to_string()),
            ("mode".to_string(), "dev".to_string()),
            ("foo-bar".to_string(), "1".to_string()),
            ("MEMOS_CUSTOM".to_string(), "2".to_string()),
            ("memos_port".to_string(), "1".to_string()),
        ]),
    };
    let env = prepare_env(&rtcfg);
    assert_eq!(
        env,
        vec![
            ("MEMOS_PUBLIC".to_string(), "false".to_string()),
            ("MEMOS_CUSTOM".to_string(), "2".to_string()),
            ("MEMOS_MODE".to_string(), "prod".to_string()),
            ("MEMOS_FOO_BAR".to_string(), "1".to_string()),
            ("MEMOS_PORT".to_string(), "5231".to_string()),
            ("MEMOS_ADDR".to_string(), "127.0.0.1".to_string()),
            ("MEMOS_DATA".to_string(), "/data/memos".to_string()),
            ("MEMOS_METRIC".to_string(), "false".to_string()),
            ("MEMOS_INSTANCE_URL".to_string(), "http://localhost:5231/".to_string()),
            ("MEMOS_PASSWORD_AUTH".to_string(), "true".to_string()),
        ]
    );
    assert_eq!(lookup(&env, "MEMOS_PASSWORD_AUTH"), Some("true"));
    assert_eq!(lookup(&env, "mode"), None);
    assert_eq!(lookup(&env, "foo-bar"), None);
    assert!(env.iter().all(|(key, _)| key.starts_with("MEMOS_")));
}

#[test]
fn user_variables_that_are_switched_off_are_left_out() {
    let mut rtcfg = RuntimeConfig::new();
    rtcfg.yaml.memos.env = EnvironmentVariables {
        enabled: Some(false),
        vars: Some(vec![("CUSTOM".to_string(), "1".to_string())]),
    };
    rtcfg.yaml.memos.mode = None;
    rtcfg.yaml.memos.port = None;
    let env = prepare_env(&rtcfg);
    assert_eq!(env.len(), 8);
    assert_eq!(lookup(&env, "CUSTOM"), None);
    assert_eq!(lookup(&env, "MEMOS_MODE"), Some(""));
    assert_eq!(lookup(&env, "MEMOS_PORT"), Some("0"));
    assert_eq!(lookup(&env, "MEMOS_ADDR"), Some("127.0.0.1"));
    assert_eq!(set_env_vars(&rtcfg), Vec::<(String, String)>::new());
    rtcfg.yaml.memospot.env = EnvironmentVariables {
        enabled: Some(true),
        vars: Some(vec![("WEBKIT_DISABLE_COMPOSITING_MODE".to_string(), "0".to_string())]),
    };
    assert_eq!(
        set_env_vars(&rtcfg),
        vec![("WEBKIT_DISABLE_COMPOSITING_MODE".to_string(), "0".to_string())]
    );
    rtcfg.yaml.memospot.env.enabled = None;
    assert_eq!(set_env_vars(&rtcfg), Vec::<(String, String)>::new());
    let mut vars = vec![("a".to_string(), "1".to_string())];
    put_var(&mut vars, "b".to_string(), "2".to_string());
    put_var(&mut vars, "a".to_string(), "3".to_string());
    assert_eq!(vars, vec![("a".to_string(), "3".to_string()), ("b".to_string(), "2".to_string())]);
}

#[test]
fn server_address() {
    let mut rtcfg = RuntimeConfig::new();
    assert_eq!(get_url(&rtcfg), "http://localhost:0/");
    assert_eq!(memos_url(&rtcfg), "http://localhost:0/");
    rtcfg.yaml.memos.port = Some(5230);
    assert_eq!(get_url(&rtcfg), "http://localhost:5230/");
    rtcfg.yaml.memos.port = None;
    assert_eq!(get_url(&rtcfg), "http://localhost:0/");
    rtcfg.yaml.memos.port = Some(65535);
    rtcfg.yaml.memospot.remote.url = Some("https://memos.example.org///".to_string());
    assert_eq!(get_url(&rtcfg), "http://localhost:65535/");
    rtcfg.yaml.memospot.remote.enabled = Some(true);
    assert_eq!(get_url(&rtcfg), "https://memos.example.org/");
    assert_eq!(memos_url(&rtcfg), "https://memos.example.org/");
    rtcfg.yaml.memospot.remote.url = Some("https://memos.example.org".to_string());
    assert_eq!(get_url(&rtcfg), "https://memos.example.org/");
    rtcfg.yaml.memospot.remote.url = Some("".to_string());
    assert_eq!(get_url(&rtcfg), "http://localhost:65535/");
    assert_eq!(memos_url(&rtcfg), "/");
    rtcfg.yaml.memospot.remote.url = None;
    assert_eq!(get_url(&rtcfg), "http://localhost:65535/");
    assert_eq!(memos_url(&rtcfg), "http://localhost:65535/");
    rtcfg.yaml.memospot.remote.enabled = None;
    rtcfg.yaml.memospot.remote.url = Some("https://x/".to_string());
    assert_eq!(get_url(&rtcfg), "http://localhost:65535/");
    assert!(is_valid_server_url("http://x"));
    assert!(is_valid_server_url("https://x"));
    assert!(!is_valid_server_url("ftp://x"));
    assert!(!is_valid_server_url(""));
}

#[test]
fn managed_server_and_window_title() {
    assert!(is_managed_url("http://localhost:5230/", Some(5230)));
    assert!(!is_managed_url("http://localhost:5230/", Some(5231)));
    assert!(is_managed_url("http://localhost:52301/", Some(5230)));
    assert!(!is_managed_url("https://localhost:5230/", Some(5230)));
    assert!(is_managed_url("http://localhost:0/", None));
    assert_eq!(main_title(true, "http://localhost:5230/"), "Memospot");
    assert_eq!(main_title(false, "https://memos.example.org/"), "Memospot - memos.example.org");
    assert_eq!(main_title(false, "http://http://x//"), "Memospot - x");
    assert_eq!(main_title(false, "http://https://x"), "Memospot - x");
    assert_eq!(main_title(false, "https://http://x"), "Memospot - http://x");
    assert_eq!(dev_port(Some(5230)), 5231);
    assert_eq!(dev_port(None), 1);
    assert_eq!(dev_port(Some(65534)), 65535);
}

#[test]
fn user_agent_of_the_web_view() {
    let mut config = Config::default();
    let browser = "Mozilla/5.0 (x64) AppleWebKit/537.36 (KHTML, like Gecko) Chrome/120.0.0.0 Safari/537.36 Memospot/1.2.3";
    assert_eq!(user_agent(&config.memospot.remote, "1.2.3"), browser);
    config.memospot.remote.user_agent = Some("Custom/1".to_string());
    assert_eq!(user_agent(&config.memospot.remote, "1.2.3"), browser);
    config.memospot.remote.enabled = Some(true);
    assert_eq!(user_agent(&config.memospot.remote, "1.2.3"), "Custom/1");
    config.memospot.remote.user_agent = Some("".to_string());
    assert_eq!(user_agent(&config.memospot.remote, "1.2.3"), browser);
}

#[test]
fn endpoints_and_liveness_check() {
    assert_eq!(endpoint_url("http://localhost:5230/", Endpoint::WorkspaceProfile), "http://localhost:5230/api/v1/workspace/profile");
    assert_eq!(endpoint_url("http://localhost:5230/", Endpoint::InstanceProfile), "http://localhost:5230/api/v1/instance/profile");
    assert_eq!(health_endpoint("http://localhost:5230/"), "http://localhost:5230/healthz");
    assert_eq!(health_endpoint("http://localhost:5230"), "http://localhost:5230/healthz");
    assert_eq!(health_endpoint("http://localhost:5230///"), "http://localhost:5230/healthz");
    assert_eq!(ping_timeout(0), 1000);
    assert_eq!(ping_timeout(99), 1000);
    assert_eq!(ping_timeout(100), 100);
    assert_eq!(ping_timeout(2000), 2000);
    let request = ping_api("http://localhost:1/", 50);
    assert_eq!(request.url, "http://localhost:1/healthz");
    assert_eq!(request.timeout_ms, 1000);
    assert!(ping_verdict(Some((200, "Service ready."))));
    assert!(ping_verdict(Some((204, "Service ready. All good."))));
    assert!(!ping_verdict(Some((200, "service ready."))));
    assert!(!ping_verdict(Some((200, ""))));
    assert!(!ping_verdict(Some((500, "Service ready."))));
    assert!(!ping_verdict(Some((199, "Service ready."))));
    assert!(!ping_verdict(Some((300, "Service ready."))));
    assert!(!ping_verdict(None));
    assert_eq!(QUERY_USER_AGENT, "Memospot");
    assert_eq!(Endpoint::WorkspaceProfile.next(), Some(Endpoint::InstanceProfile));
    assert_eq!(Endpoint::InstanceProfile.next(), None);
    assert_eq!(POLL_INTERVAL_MS, 100);
}

#[test]
fn poll_stores_the_version_of_the_first_endpoint_that_answers() {
    let mut store = MemosVersionStore::instance();
    let poll = Poll::begin();
    let (poll, action) = poll.on_tick(0);
    assert!(matches!(action, PollAction::Query { endpoint: Endpoint::WorkspaceProfile, timeout_ms: 1000 }));
    let (poll, action) = poll.on_answer(404, "not found", 10, &mut store);
    assert!(matches!(action, PollAction::Query { endpoint: Endpoint::InstanceProfile, timeout_ms: 1000 }));
    assert_eq!(poll.last_error, "server responded with status code 404");
    assert_eq!(store.get(), "");
    let (poll, action) =
        poll.on_answer(200, "{\"owner\": \"x\", \"version\": \"0.24.1\"}", 20, &mut store);
    assert!(matches!(action, PollAction::Ready));
    assert_eq!(poll.phase, PollPhase::Finished);
    assert_eq!(store.get(), "0.24.1");
    let (_, action) = poll.on_tick(100);
    assert!(matches!(action, PollAction::Ignore));
}

#[test]
fn poll_does_not_take_an_answer_without_a_version() {
    let bodies = [
        "",
        "not json",
        "[]",
        "{}",
        "{\"version\": 1}",
        "{\"version\": null}",
        "{\"Version\": \"1.0\"}",
        "\"version\"",
    ];
    for body in bodies {
        let mut store = MemosVersionStore::instance();
        let (poll, _) = Poll::begin().on_tick(0);
        let (poll, action) = poll.on_answer(200, body, 5, &mut store);
        assert!(
            matches!(
                action,
                PollAction::Query { endpoint: Endpoint::InstanceProfile, timeout_ms: 1000 }
            ),
            "{:?}",
            body
        );
        assert_eq!(poll.last_error, "server response holds no version");
        assert_eq!(store.get(), "");
    }
    let mut store = MemosVersionStore::instance();
    let (poll, _) = Poll::begin().on_tick(0);
    let (_, action) = poll.on_answer(500, "{\"version\": \"1.0\"}", 5, &mut store);
    assert!(matches!(action, PollAction::Query { endpoint: Endpoint::InstanceProfile, .. }));
    assert_eq!(store.get(), "");
}

#[test]
fn poll_ends_on_an_answer_with_an_empty_version() {
    let mut store = MemosVersionStore::instance();
    let (poll, _) = Poll::begin().on_tick(0);
    let (poll, _) = poll.on_reply(Reply::Failed { error: "refused".to_string() }, 5, &mut store);
    let (poll, action) = poll.on_answer(200, "{\"version\": \"\"}", 10, &mut store);
    match action {
        PollAction::GiveUp { last_error } => assert_eq!(last_error, "refused"),
        other => panic!("unexpected action {:?}", other),
    }
    assert_eq!(poll.phase, PollPhase::Finished);
    assert_eq!(poll.last_error, "refused");
    assert_eq!(store.get(), "");
    assert!(matches!(poll.on_tick(100).1, PollAction::Ignore));
}

#[test]
fn poll_of_a_server_that_never_answers_times_out_and_stores_nothing() {
    let mut store = MemosVersionStore::instance();
    let mut poll = Poll::begin();
    let mut elapsed = 0;
    let mut queries = 0;
    let last_error;
    loop {
        let (next, action) = poll.on_tick(elapsed);
        poll = next;
        match action {
            PollAction::Query { endpoint: Endpoint::WorkspaceProfile, timeout_ms } => {
                assert!(elapsed + timeout_ms <= POLL_TIMEOUT_MS + POLL_INTERVAL_MS);
                queries += 1;
                let (next, action) = poll.on_reply(
                    Reply::Failed { error: format!("connection refused #{queries}") },
                    elapsed,
                    &mut store,
                );
                let PollAction::Query { endpoint: Endpoint::InstanceProfile, timeout_ms } = action
                else {
                    panic!("unexpected action {:?}", action);
                };
                assert!(elapsed + timeout_ms <= POLL_TIMEOUT_MS + POLL_INTERVAL_MS);
                queries += 1;
                let (next, action) = next.on_reply(
                    Reply::Answered { status: 503, version: Some("1.0".to_string()) },
                    elapsed,
                    &mut store,
                );
                assert!(matches!(action, PollAction::Wait));
                poll = next;
            }
            PollAction::GiveUp { last_error: error } => {
                last_error = error;
                break;
            }
            other => panic!("unexpected action {:?}", other),
        }
        elapsed += POLL_INTERVAL_MS;
    }
    assert_eq!(elapsed, POLL_TIMEOUT_MS + POLL_INTERVAL_MS);
    assert_eq!(queries, 302);
    assert_eq!(last_error, "server responded with status code 503");
    assert_eq!(store.get(), "");
    assert_eq!(poll.phase, PollPhase::Finished);
}

#[test]
fn poll_ends_by_the_deadline_however_slow_the_server_is() {
    let mut store = MemosVersionStore::instance();
    let (poll, action) = Poll::begin().on_tick(15000);
    let PollAction::Query { endpoint: Endpoint::WorkspaceProfile, timeout_ms } = action else {
        panic!("unexpected action {:?}", action);
    };
    assert_eq!(timeout_ms, 100);
    let (poll, action) =
        poll.on_reply(Reply::Failed { error: "timed out".to_string() }, 15100, &mut store);
    match action {
        PollAction::GiveUp { last_error } => assert_eq!(last_error, "timed out"),
        other => panic!("unexpected action {:?}", other),
    }
    assert_eq!(poll.phase, PollPhase::Finished);
    let (poll, action) = Poll::begin().on_tick(14500);
    assert!(matches!(action, PollAction::Query { timeout_ms: 600, .. }));
    let (poll, action) =
        poll.on_reply(Reply::Failed { error: "slow".to_string() }, 14950, &mut store);
    assert!(matches!(
        action,
        PollAction::Query { endpoint: Endpoint::InstanceProfile, timeout_ms: 150 }
    ));
    let (_, action) = poll.on_reply(Reply::Failed { error: "slow".to_string() }, 15000, &mut store);
    assert!(matches!(action, PollAction::Wait));
    assert!(matches!(Poll::begin().on_tick(15001).1, PollAction::GiveUp { .. }));
    assert!(matches!(Poll::begin().on_tick(0).1, PollAction::Query { timeout_ms: 1000, .. }));
    assert_eq!(store.get(), "");
}

#[test]
fn poll_gives_the_round_up_on_an_address_that_cannot_be_parsed() {
    let mut store = MemosVersionStore::instance();
    let (poll, _) = wait_api_ready().on_tick(0);
    let (poll, action) =
        poll.on_reply(Reply::InvalidUrl { error: "empty host".to_string() }, 1, &mut store);
    assert!(matches!(action, PollAction::Wait));
    assert_eq!(poll.phase, PollPhase::Waiting);
    assert_eq!(poll.last_error, "failed to parse server URL: empty host");
    let (poll, action) = poll.on_reply(Reply::Failed { error: "late".to_string() }, 2, &mut store);
    assert!(matches!(action, PollAction::Ignore));
    assert_eq!(poll.last_error, "failed to parse server URL: empty host");
}
