//! Loading the configuration: the file's tree, overlaid with the overrides
//! from the environment, migrated to the current shape, and given its typed
//! form with the compiled-in defaults for what is still unset.

use vstd::prelude::*;
use crate::config::emit::config_tree;
use crate::config::extract::{config_problem, config_value, ConfigError, Problem};
use crate::config::fields::{
    copy_text, copy_variables, same_flag, same_number, same_text, same_variables,
};
use crate::config::laws::{lemma_config_round_trip, lemma_lookup_at};
use crate::config::migration::{migrate, migrated, upgraded_env};
use crate::config::tree::{
    entries_view, lemma_dict_view, lemma_store_same, lookup, merge, merged, Entry, Tree, Value,
};
use crate::config::types::{
    default_config, Backups, Config, ConfigView, EnvironmentVariables, Log, Memos, Memospot,
    Migrations, RemoteServer, Updater, Window,
};

verus! {

/// The tree that is read when neither a file nor the environment says
/// anything: a mapping without entries.
pub open spec fn nothing() -> Tree {
    Tree::Dict(Seq::empty())
}

/// The raw tree of a load: the file's tree overlaid with the overrides from
/// the environment.
pub open spec fn raw_tree(file: Option<Tree>, env: Option<Tree>) -> Tree {
    match (file, env) {
        (Some(f), Some(e)) => merged(f, e),
        (Some(f), None) => f,
        (None, Some(e)) => e,
        (None, None) => nothing(),
    }
}

/// What loading gives for the file's tree `file`, if there is a file, and
/// the overrides `env`, if there are any: the document, or the first
/// setting that has a value of the wrong kind.
pub open spec fn loaded(file: Option<Tree>, env: Option<Tree>) -> Result<ConfigView, Problem> {
    let tree = migrated(raw_tree(file, env));
    match config_problem(tree, false) {
        Some(p) => Err(p),
        None => Ok(config_value(tree, default_config())),
    }
}

impl Config {
    /// Loads the configuration from the tree of its file, if there is a
    /// file, and the overrides from the environment, if there are any. A
    /// missing file is no error: the defaults apply. A document that cannot
    /// be given its typed form is an error, never silently replaced by the
    /// defaults.
    pub fn init(file: Option<&Value>, env: Option<&Value>) -> (r: Result<Config, ConfigError>)
        ensures
            match r {
                Ok(c) => loaded(
                    match file {
                        Some(f) => Some(f@),
                        None => None,
                    },
                    match env {
                        Some(e) => Some(e@),
                        None => None,
                    },
                ) == Ok::<ConfigView, Problem>(c@),
                Err(e) => loaded(
                    match file {
                        Some(f) => Some(f@),
                        None => None,
                    },
                    match env {
                        Some(e) => Some(e@),
                        None => None,
                    },
                ) == Err::<ConfigView, Problem>(e@),
            },
    {
        let tree = match (file, env) {
            (Some(f), Some(e)) => migrate(&merge(f, e)),
            (Some(f), None) => migrate(f),
            (None, Some(e)) => migrate(e),
            (None, None) => {
                let empty: Vec<Entry> = Vec::new();
                proof {
                    lemma_dict_view(empty);
                    assert(entries_view(empty@) =~= Seq::empty());
                }
                migrate(&Value::Dict(empty))
            },
        };
        let default = Config::default();
        Config::from_tree(&tree, &default, false)
    }

    /// The configuration that a settings dialog sends as the tree `json`,
    /// overlaid with the overrides from the environment, with the defaults
    /// for what is unset. Such a document is in the current shape: no
    /// migration is applied.
    pub fn from_json(json: &Value, env: Option<&Value>) -> (r: Result<Config, ConfigError>)
        ensures
            ({
                let tree = match env {
                    Some(e) => merged(json@, e@),
                    None => json@,
                };
                match r {
                    Ok(c) => config_problem(tree, false) is None && c@ == config_value(
                        tree,
                        default_config(),
                    ),
                    Err(e) => config_problem(tree, false) == Some(e@),
                }
            }),
    {
        let default = Config::default();
        match env {
            Some(e) => Config::from_tree(&merge(json, e), &default, false),
            None => Config::from_tree(json, &default, false),
        }
    }

    /// Whether this document and `other` hold the same settings.
    pub fn same_as(&self, other: &Config) -> (r: bool)
        ensures
            r == (self@ == other@),
    {
        same_memos(&self.memos, &other.memos) && same_memospot(&self.memospot, &other.memospot)
    }
}

fn wide_u16(p: Option<u16>) -> (r: Option<i64>)
    ensures
        r is Some == p is Some,
        p matches Some(v) ==> r == Some(v as i64),
{
    match p {
        Some(v) => Some(v as i64),
        None => None,
    }
}

fn wide_u32(p: Option<u32>) -> (r: Option<i64>)
    ensures
        r is Some == p is Some,
        p matches Some(v) ==> r == Some(v as i64),
{
    match p {
        Some(v) => Some(v as i64),
        None => None,
    }
}

fn wide_i32(p: Option<i32>) -> (r: Option<i64>)
    ensures
        r is Some == p is Some,
        p matches Some(v) ==> r == Some(v as i64),
{
    match p {
        Some(v) => Some(v as i64),
        None => None,
    }
}

fn same_environment(a: &EnvironmentVariables, b: &EnvironmentVariables) -> (r: bool)
    ensures
        r == (a@ == b@),
{
    same_flag(a.enabled, b.enabled) && same_variables(&a.vars, &b.vars)
}

fn same_memos(a: &Memos, b: &Memos) -> (r: bool)
    ensures
        r == (a@ == b@),
{
    same_text(&a.binary_path, &b.binary_path) && same_text(&a.working_dir, &b.working_dir)
        && same_text(&a.data, &b.data) && same_text(&a.mode, &b.mode) && same_text(
        &a.addr,
        &b.addr,
    ) && same_number(wide_u16(a.port), wide_u16(b.port)) && same_environment(&a.env, &b.env)
}

fn same_window(a: &Window, b: &Window) -> (r: bool)
    ensures
        r == (a@ == b@),
{
    same_flag(a.center, b.center) && same_flag(a.fullscreen, b.fullscreen) && same_flag(
        a.resizable,
        b.resizable,
    ) && same_flag(a.maximized, b.maximized) && same_number(wide_u32(a.width), wide_u32(b.width))
        && same_number(wide_u32(a.height), wide_u32(b.height)) && same_number(
        wide_i32(a.x),
        wide_i32(b.x),
    ) && same_number(wide_i32(a.y), wide_i32(b.y)) && same_flag(a.hide_menu_bar, b.hide_menu_bar)
        && same_text(&a.theme, &b.theme) && same_text(&a.language, &b.language)
}

fn same_memospot(a: &Memospot, b: &Memospot) -> (r: bool)
    ensures
        r == (a@ == b@),
{
    same_flag(a.backups.enabled, b.backups.enabled) && same_text(&a.backups.path, &b.backups.path)
        && same_environment(&a.env, &b.env) && same_flag(a.migrations.enabled, b.migrations.enabled)
        && same_flag(a.log.enabled, b.log.enabled) && same_flag(a.remote.enabled, b.remote.enabled)
        && same_text(&a.remote.url, &b.remote.url) && same_text(
        &a.remote.user_agent,
        &b.remote.user_agent,
    ) && same_flag(a.updater.enabled, b.updater.enabled) && same_window(&a.window, &b.window)
}

impl Clone for EnvironmentVariables {
    fn clone(&self) -> (r: Self)
        ensures
            r@ == self@,
    {
        EnvironmentVariables { enabled: self.enabled, vars: copy_variables(&self.vars) }
    }
}

impl Clone for Memos {
    fn clone(&self) -> (r: Self)
        ensures
            r@ == self@,
    {
        Memos {
            binary_path: copy_text(&self.binary_path),
            working_dir: copy_text(&self.working_dir),
            data: copy_text(&self.data),
            mode: copy_text(&self.mode),
            addr: copy_text(&self.addr),
            port: self.port,
            env: self.env.clone(),
        }
    }
}

impl Clone for Window {
    fn clone(&self) -> (r: Self)
        ensures
            r@ == self@,
    {
        Window {
            center: self.center,
            fullscreen: self.fullscreen,
            resizable: self.resizable,
            maximized: self.maximized,
            width: self.width,
            height: self.height,
            x: self.x,
            y: self.y,
            hide_menu_bar: self.hide_menu_bar,
            theme: copy_text(&self.theme),
            language: copy_text(&self.language),
        }
    }
}

impl Clone for Memospot {
    fn clone(&self) -> (r: Self)
        ensures
            r@ == self@,
    {
        Memospot {
            backups: Backups {
                enabled: self.backups.enabled,
                path: copy_text(&self.backups.path),
            },
            env: self.env.clone(),
            migrations: Migrations { enabled: self.migrations.enabled },
            log: Log { enabled: self.log.enabled },
            remote: RemoteServer {
                enabled: self.remote.enabled,
                url: copy_text(&self.remote.url),
                user_agent: copy_text(&self.remote.user_agent),
            },
            updater: Updater { enabled: self.updater.enabled },
            window: self.window.clone(),
        }
    }
}

impl Clone for Config {
    fn clone(&self) -> (r: Self)
        ensures
            r@ == self@,
    {
        Config { memos: self.memos.clone(), memospot: self.memospot.clone() }
    }
}

/// With no file and no overrides every setting has its default.
pub proof fn lemma_nothing_loads_defaults()
    ensures
        loaded(None, None) == Ok::<ConfigView, Problem>(default_config()),
{
    let none = Seq::<(Seq<char>, Tree)>::empty();
    assert(lookup(none, "memos"@) is None);
    assert(lookup(none, "memospot"@) is None);
    assert(lookup(none, "env"@) is None);
    assert(lookup(none, "backups"@) is None);
    assert(lookup(none, "migrations"@) is None);
    assert(lookup(none, "log"@) is None);
    assert(lookup(none, "remote"@) is None);
    assert(lookup(none, "updater"@) is None);
    assert(lookup(none, "window"@) is None);
}

/// A file that mentions nothing but the server's mode gives the defaults
/// with that mode: what a file does not mention is not touched.
pub proof fn lemma_partial_document(mode: Seq<char>)
    ensures
        loaded(
            Some(Tree::Dict(seq![("memos"@, Tree::Dict(seq![("mode"@, Tree::Text(mode))]))])),
            None,
        ) == Ok::<ConfigView, Problem>(
            ConfigView {
                memos: crate::config::types::MemosView {
                    mode: Some(mode),
                    ..default_config().memos
                },
                ..default_config()
            },
        ),
{
    let memos = seq![("mode"@, Tree::Text(mode))];
    let top = seq![("memos"@, Tree::Dict(memos))];
    reveal_strlit("memos");
    reveal_strlit("memospot");
    reveal_strlit("binary_path");
    reveal_strlit("working_dir");
    reveal_strlit("data");
    reveal_strlit("mode");
    reveal_strlit("addr");
    reveal_strlit("port");
    reveal_strlit("env");
    reveal_strlit("backups");
    reveal_strlit("migrations");
    reveal_strlit("log");
    reveal_strlit("remote");
    reveal_strlit("updater");
    reveal_strlit("window");
    assert(top[0].0 == "memos"@);
    assert(memos[0].0 == "mode"@);
    assert("data"@[0] != "mode"@[0]);
    assert("addr"@[0] != "mode"@[0]);
    assert("port"@[0] != "mode"@[0]);
    lemma_lookup_at(top, "memos"@, 0);
    lemma_lookup_at(memos, "mode"@, 0);
    crate::config::tree::lemma_position_is(top, "memospot"@, 1);
    crate::config::tree::lemma_position_is(memos, "binary_path"@, 1);
    crate::config::tree::lemma_position_is(memos, "working_dir"@, 1);
    crate::config::tree::lemma_position_is(memos, "data"@, 1);
    crate::config::tree::lemma_position_is(memos, "addr"@, 1);
    crate::config::tree::lemma_position_is(memos, "port"@, 1);
    crate::config::tree::lemma_position_is(memos, "env"@, 1);
    let none = Seq::<(Seq<char>, Tree)>::empty();
    assert(lookup(none, "env"@) is None);
    assert(lookup(none, "backups"@) is None);
    assert(lookup(none, "migrations"@) is None);
    assert(lookup(none, "log"@) is None);
    assert(lookup(none, "remote"@) is None);
    assert(lookup(none, "updater"@) is None);
    assert(lookup(none, "window"@) is None);
    assert(migrated(Tree::Dict(top)) == Tree::Dict(top));
}

/// A document that was saved and is loaded again is the same document.
pub proof fn lemma_save_then_load(config: ConfigView)
    ensures
        loaded(Some(config_tree(config)), None) == Ok::<ConfigView, Problem>(config),
{
    let tree = config_tree(config);
    let top = tree->Dict_0;
    reveal_strlit("memos");
    reveal_strlit("memospot");
    assert(top[0].0 == "memos"@);
    lemma_lookup_at(top, "memos"@, 0);
    let memos = top[0].1->Dict_0;
    reveal_strlit("binary_path");
    reveal_strlit("working_dir");
    reveal_strlit("data");
    reveal_strlit("mode");
    reveal_strlit("addr");
    reveal_strlit("port");
    reveal_strlit("env");
    assert(memos[0].0 == "binary_path"@);
    assert(memos[1].0 == "working_dir"@);
    assert(memos[2].0 == "data"@);
    assert(memos[3].0 == "mode"@);
    assert(memos[4].0 == "addr"@);
    assert(memos[5].0 == "port"@);
    assert(memos[6].0 == "env"@);
    lemma_lookup_at(memos, "env"@, 6);
    let env = memos[6].1;
    assert(!(env->Dict_0[0].1 is Text));
    assert(upgraded_env(env) == env);
    lemma_store_same(memos, "env"@, env);
    lemma_store_same(top, "memos"@, Tree::Dict(memos));
    assert(migrated(tree) == tree);
    lemma_config_round_trip(config, default_config(), false);
}

} // verus!
