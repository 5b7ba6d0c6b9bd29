//! What holds of reading and writing configuration documents together.

use vstd::prelude::*;
use crate::config::emit::{
    backups_tree, config_tree, environment_tree, memos_tree, memospot_tree, remote_tree,
    switch_tree, variable_entries, window_tree,
};
use crate::config::extract::{
    backups_problem, backups_value, config_problem, config_value, environment_problem,
    environment_value, memos_env_keys, memos_problem, memos_value, memospot_env_keys,
    memospot_problem, memospot_value, remote_problem, remote_value, switch_problem, switch_value,
    window_problem, window_value, EnvironmentKeys,
};
use crate::config::fields::{all_text, variables_of};
use crate::config::tree::{lemma_position_is, lookup, Tree};
use crate::config::types::{
    BackupsView, ConfigView, EnvironmentVariablesView, MemosView, MemospotView, RemoteServerView,
    WindowView,
};

verus! {

/// What `entries` hold under `key` is the value at `at`, if the key stands
/// there and nowhere before.
pub proof fn lemma_lookup_at(entries: Seq<(Seq<char>, Tree)>, key: Seq<char>, at: int)
    requires
        0 <= at < entries.len(),
        entries[at].0 == key,
        forall|j: int| 0 <= j < at ==> (#[trigger] entries[j]).0 != key,
    ensures
        lookup(entries, key) == Some(entries[at].1),
{
    lemma_position_is(entries, key, at);
}

/// The entries written for a list of variables are texts, and reading them
/// gives the list back.
pub proof fn lemma_variables_round_trip(vars: Seq<(Seq<char>, Seq<char>)>)
    ensures
        all_text(variable_entries(vars)),
        variables_of(variable_entries(vars)) == vars,
{
    assert(variables_of(variable_entries(vars)) =~= vars);
}

/// Reading the backup policy back from its tree gives the policy.
pub proof fn lemma_backups_round_trip(
    outer: Seq<(Seq<char>, Tree)>,
    section: BackupsView,
    default: BackupsView,
    required: bool,
)
    requires
        lookup(outer, "backups"@) == Some(backups_tree(section)),
    ensures
        backups_problem(outer, required) is None,
        backups_value(outer, default) == section,
{
    reveal_strlit("enabled");
    reveal_strlit("path");
    let inner = backups_tree(section)->Dict_0;
    assert(inner[0].0 == "enabled"@);
    assert(inner[1].0 == "path"@);
    lemma_lookup_at(inner, "enabled"@, 0);
    lemma_lookup_at(inner, "path"@, 1);
}

/// Reading the remote server's settings back from their tree gives them.
pub proof fn lemma_remote_round_trip(
    outer: Seq<(Seq<char>, Tree)>,
    section: RemoteServerView,
    default: RemoteServerView,
    required: bool,
)
    requires
        lookup(outer, "remote"@) == Some(remote_tree(section)),
    ensures
        remote_problem(outer, required) is None,
        remote_value(outer, default) == section,
{
    reveal_strlit("enabled");
    reveal_strlit("url");
    reveal_strlit("user_agent");
    let inner = remote_tree(section)->Dict_0;
    assert(inner[0].0 == "enabled"@);
    assert(inner[1].0 == "url"@);
    assert(inner[2].0 == "user_agent"@);
    lemma_lookup_at(inner, "enabled"@, 0);
    lemma_lookup_at(inner, "url"@, 1);
    lemma_lookup_at(inner, "user_agent"@, 2);
}

/// Reading the window's settings back from their tree gives them.
pub proof fn lemma_window_round_trip(
    outer: Seq<(Seq<char>, Tree)>,
    section: WindowView,
    default: WindowView,
    required: bool,
)
    requires
        lookup(outer, "window"@) == Some(window_tree(section)),
    ensures
        window_problem(outer, required) is None,
        window_value(outer, default) == section,
{
    reveal_strlit("center");
    reveal_strlit("fullscreen");
    reveal_strlit("resizable");
    reveal_strlit("maximized");
    reveal_strlit("width");
    reveal_strlit("height");
    reveal_strlit("x");
    reveal_strlit("y");
    reveal_strlit("hide_menu_bar");
    reveal_strlit("theme");
    reveal_strlit("language");
    let inner = window_tree(section)->Dict_0;
    assert(inner[0].0 == "center"@);
    assert(inner[1].0 == "fullscreen"@);
    assert(inner[2].0 == "resizable"@);
    assert(inner[3].0 == "maximized"@);
    assert(inner[4].0 == "width"@);
    assert(inner[5].0 == "height"@);
    assert(inner[6].0 == "x"@);
    assert(inner[7].0 == "y"@);
    assert(inner[8].0 == "hide_menu_bar"@);
    assert(inner[9].0 == "theme"@);
    assert(inner[10].0 == "language"@);

    assert("center"@[0] != "height"@[0]);
    assert("resizable"@[0] != "maximized"@[0]);
    assert("width"@[0] != "theme"@[0]);
    assert("x"@[0] != "y"@[0]);
    lemma_lookup_at(inner, "center"@, 0);
    lemma_lookup_at(inner, "fullscreen"@, 1);
    lemma_lookup_at(inner, "resizable"@, 2);
    lemma_lookup_at(inner, "maximized"@, 3);
    lemma_lookup_at(inner, "width"@, 4);
    lemma_lookup_at(inner, "height"@, 5);
    lemma_lookup_at(inner, "x"@, 6);
    lemma_lookup_at(inner, "y"@, 7);
    lemma_lookup_at(inner, "hide_menu_bar"@, 8);
    lemma_lookup_at(inner, "theme"@, 9);
    lemma_lookup_at(inner, "language"@, 10);
}

/// Reading a list of environment variables back from its tree gives the
/// list.
pub proof fn lemma_environment_round_trip(
    outer: Seq<(Seq<char>, Tree)>,
    section: EnvironmentVariablesView,
    default: EnvironmentVariablesView,
    required: bool,
    keys: EnvironmentKeys,
)
    requires
        lookup(outer, "env"@) == Some(environment_tree(section)),
    ensures
        environment_problem(outer, required, keys) is None,
        environment_value(outer, default) == section,
{
    reveal_strlit("enabled");
    reveal_strlit("vars");
    let inner = environment_tree(section)->Dict_0;
    assert(inner[0].0 == "enabled"@);
    assert(inner[1].0 == "vars"@);
    lemma_lookup_at(inner, "enabled"@, 0);
    lemma_lookup_at(inner, "vars"@, 1);
    if section.vars is Some {
        lemma_variables_round_trip(section.vars->0);
    }
}

/// Reading a switch back from its tree gives the switch.
pub proof fn lemma_switch_round_trip(
    outer: Seq<(Seq<char>, Tree)>,
    name: Seq<char>,
    enabled: Option<bool>,
    default: Option<bool>,
    required: bool,
    key: Seq<char>,
    enabled_key: Seq<char>,
)
    requires
        lookup(outer, name) == Some(switch_tree(enabled)),
    ensures
        switch_problem(outer, name, required, key, enabled_key) is None,
        switch_value(outer, name, default) == enabled,
{
    reveal_strlit("enabled");
    let inner = switch_tree(enabled)->Dict_0;
    assert(inner[0].0 == "enabled"@);
    lemma_lookup_at(inner, "enabled"@, 0);
}

/// Reading the server's settings back from their tree gives them.
pub proof fn lemma_memos_round_trip(
    outer: Seq<(Seq<char>, Tree)>,
    section: MemosView,
    default: MemosView,
    required: bool,
)
    requires
        lookup(outer, "memos"@) == Some(memos_tree(section)),
    ensures
        memos_problem(outer, required) is None,
        memos_value(outer, default) == section,
{
    reveal_strlit("binary_path");
    reveal_strlit("working_dir");
    reveal_strlit("data");
    reveal_strlit("mode");
    reveal_strlit("addr");
    reveal_strlit("port");
    reveal_strlit("env");
    let inner = memos_tree(section)->Dict_0;
    assert(inner[0].0 == "binary_path"@);
    assert(inner[1].0 == "working_dir"@);
    assert(inner[2].0 == "data"@);
    assert(inner[3].0 == "mode"@);
    assert(inner[4].0 == "addr"@);
    assert(inner[5].0 == "port"@);
    assert(inner[6].0 == "env"@);

    assert("binary_path"@[0] != "working_dir"@[0]);
    assert("data"@[0] != "mode"@[0]);
    assert("data"@[0] != "addr"@[0]);
    assert("data"@[0] != "port"@[0]);
    assert("mode"@[0] != "addr"@[0]);
    assert("mode"@[0] != "port"@[0]);
    assert("addr"@[0] != "port"@[0]);
    lemma_lookup_at(inner, "binary_path"@, 0);
    lemma_lookup_at(inner, "working_dir"@, 1);
    lemma_lookup_at(inner, "data"@, 2);
    lemma_lookup_at(inner, "mode"@, 3);
    lemma_lookup_at(inner, "addr"@, 4);
    lemma_lookup_at(inner, "port"@, 5);
    lemma_lookup_at(inner, "env"@, 6);
    lemma_environment_round_trip(inner, section.env, default.env, required, memos_env_keys());
}

/// Reading the launcher's settings back from their tree gives them.
pub proof fn lemma_memospot_round_trip(
    outer: Seq<(Seq<char>, Tree)>,
    section: MemospotView,
    default: MemospotView,
    required: bool,
)
    requires
        lookup(outer, "memospot"@) == Some(memospot_tree(section)),
    ensures
        memospot_problem(outer, required) is None,
        memospot_value(outer, default) == section,
{
    reveal_strlit("backups");
    reveal_strlit("env");
    reveal_strlit("migrations");
    reveal_strlit("log");
    reveal_strlit("remote");
    reveal_strlit("updater");
    reveal_strlit("window");
    let inner = memospot_tree(section)->Dict_0;
    assert(inner[0].0 == "backups"@);
    assert(inner[1].0 == "env"@);
    assert(inner[2].0 == "migrations"@);
    assert(inner[3].0 == "log"@);
    assert(inner[4].0 == "remote"@);
    assert(inner[5].0 == "updater"@);
    assert(inner[6].0 == "window"@);

    assert("backups"@[0] != "updater"@[0]);
    assert("env"@[0] != "log"@[0]);
    assert("remote"@[0] != "window"@[0]);
    lemma_lookup_at(inner, "backups"@, 0);
    lemma_lookup_at(inner, "env"@, 1);
    lemma_lookup_at(inner, "migrations"@, 2);
    lemma_lookup_at(inner, "log"@, 3);
    lemma_lookup_at(inner, "remote"@, 4);
    lemma_lookup_at(inner, "updater"@, 5);
    lemma_lookup_at(inner, "window"@, 6);
    lemma_backups_round_trip(inner, section.backups, default.backups, required);
    lemma_environment_round_trip(inner, section.env, default.env, required, memospot_env_keys());
    lemma_switch_round_trip(
        inner,
        "migrations"@,
        section.migrations,
        default.migrations,
        required,
        "memospot.migrations"@,
        "memospot.migrations.enabled"@,
    );
    lemma_switch_round_trip(
        inner,
        "log"@,
        section.log,
        default.log,
        required,
        "memospot.log"@,
        "memospot.log.enabled"@,
    );
    lemma_remote_round_trip(inner, section.remote, default.remote, required);
    lemma_switch_round_trip(
        inner,
        "updater"@,
        section.updater,
        default.updater,
        required,
        "memospot.updater"@,
        "memospot.updater.enabled"@,
    );
    lemma_window_round_trip(inner, section.window, default.window, required);
}

/// A document that is written as a tree and read back is the same document:
/// no setting is lost, none is changed, and no default is needed, whether
/// sections are required or not.
pub proof fn lemma_config_round_trip(config: ConfigView, default: ConfigView, required: bool)
    ensures
        config_problem(config_tree(config), required) is None,
        config_value(config_tree(config), default) == config,
{
    reveal_strlit("memos");
    reveal_strlit("memospot");
    let inner = config_tree(config)->Dict_0;
    assert(inner[0].0 == "memos"@);
    assert(inner[1].0 == "memospot"@);
    lemma_lookup_at(inner, "memos"@, 0);
    lemma_lookup_at(inner, "memospot"@, 1);
    lemma_memos_round_trip(inner, config.memos, default.memos, required);
    lemma_memospot_round_trip(inner, config.memospot, default.memospot, required);
}

} // verus!
