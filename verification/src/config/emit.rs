//! The raw tree of a typed configuration: what is handed to the serializer
//! when the document is saved. Every setting is written, a setting without
//! a value as an explicit null, so that reading the tree back needs no
//! defaults.

use vstd::prelude::*;
use crate::config::tree::{entries_view, lemma_dict_view, Entry, Tree, Value};
use crate::config::types::{
    Backups, BackupsView, Config, ConfigView, EnvironmentVariables, EnvironmentVariablesView,
    Memos, MemosView, Memospot, MemospotView, RemoteServer, RemoteServerView, Variables, Window,
    WindowView,
};

verus! {

/// The tree of a flag.
pub open spec fn flag_tree(flag: Option<bool>) -> Tree {
    match flag {
        Some(b) => Tree::Bool(b),
        None => Tree::Null,
    }
}

/// The tree of a text.
pub open spec fn text_tree(text: Option<Seq<char>>) -> Tree {
    match text {
        Some(s) => Tree::Text(s),
        None => Tree::Null,
    }
}

/// The tree of a number.
pub open spec fn number_tree(number: Option<int>) -> Tree {
    match number {
        Some(n) => Tree::Int(n),
        None => Tree::Null,
    }
}

/// The entries that stand for the variables `vars`.
pub open spec fn variable_entries(vars: Seq<(Seq<char>, Seq<char>)>) -> Seq<(Seq<char>, Tree)> {
    Seq::new(vars.len(), |i: int| (vars[i].0, Tree::Text(vars[i].1)))
}

/// The tree of a list of variables.
pub open spec fn variables_tree(vars: Option<Seq<(Seq<char>, Seq<char>)>>) -> Tree {
    match vars {
        Some(list) => Tree::Dict(variable_entries(list)),
        None => Tree::Null,
    }
}

/// The tree of a section that holds nothing but the flag `enabled`.
pub open spec fn switch_tree(enabled: Option<bool>) -> Tree {
    Tree::Dict(seq![("enabled"@, flag_tree(enabled))])
}

/// The tree of a list of environment variables with its switch.
pub open spec fn environment_tree(env: EnvironmentVariablesView) -> Tree {
    Tree::Dict(seq![("enabled"@, flag_tree(env.enabled)), ("vars"@, variables_tree(env.vars))])
}

/// The tree of the server's settings.
pub open spec fn memos_tree(memos: MemosView) -> Tree {
    Tree::Dict(
        seq![
            ("binary_path"@, text_tree(memos.binary_path)),
            ("working_dir"@, text_tree(memos.working_dir)),
            ("data"@, text_tree(memos.data)),
            ("mode"@, text_tree(memos.mode)),
            ("addr"@, text_tree(memos.addr)),
            (
                "port"@,
                number_tree(
                    match memos.port {
                        Some(p) => Some(p as int),
                        None => None,
                    },
                ),
            ),
            ("env"@, environment_tree(memos.env)),
        ],
    )
}

/// The tree of the backup policy.
pub open spec fn backups_tree(backups: BackupsView) -> Tree {
    Tree::Dict(seq![("enabled"@, flag_tree(backups.enabled)), ("path"@, text_tree(backups.path))])
}

/// The tree of the remote server's settings.
pub open spec fn remote_tree(remote: RemoteServerView) -> Tree {
    Tree::Dict(
        seq![
            ("enabled"@, flag_tree(remote.enabled)),
            ("url"@, text_tree(remote.url)),
            ("user_agent"@, text_tree(remote.user_agent)),
        ],
    )
}

/// The tree of the window's settings.
pub open spec fn window_tree(window: WindowView) -> Tree {
    Tree::Dict(
        seq![
            ("center"@, flag_tree(window.center)),
            ("fullscreen"@, flag_tree(window.fullscreen)),
            ("resizable"@, flag_tree(window.resizable)),
            ("maximized"@, flag_tree(window.maximized)),
            (
                "width"@,
                number_tree(
                    match window.width {
                        Some(p) => Some(p as int),
                        None => None,
                    },
                ),
            ),
            (
                "height"@,
                number_tree(
                    match window.height {
                        Some(p) => Some(p as int),
                        None => None,
                    },
                ),
            ),
            (
                "x"@,
                number_tree(
                    match window.x {
                        Some(p) => Some(p as int),
                        None => None,
                    },
                ),
            ),
            (
                "y"@,
                number_tree(
                    match window.y {
                        Some(p) => Some(p as int),
                        None => None,
                    },
                ),
            ),
            ("hide_menu_bar"@, flag_tree(window.hide_menu_bar)),
            ("theme"@, text_tree(window.theme)),
            ("language"@, text_tree(window.language)),
        ],
    )
}

/// The tree of the launcher's settings.
pub open spec fn memospot_tree(memospot: MemospotView) -> Tree {
    Tree::Dict(
        seq![
            ("backups"@, backups_tree(memospot.backups)),
            ("env"@, environment_tree(memospot.env)),
            ("migrations"@, switch_tree(memospot.migrations)),
            ("log"@, switch_tree(memospot.log)),
            ("remote"@, remote_tree(memospot.remote)),
            ("updater"@, switch_tree(memospot.updater)),
            ("window"@, window_tree(memospot.window)),
        ],
    )
}

/// The tree of the configuration document `config`.
pub open spec fn config_tree(config: ConfigView) -> Tree {
    Tree::Dict(
        seq![("memos"@, memos_tree(config.memos)), ("memospot"@, memospot_tree(config.memospot))],
    )
}

fn entry(key: &str, value: Value) -> (r: Entry)
    ensures
        r.key@ == key@,
        r.value == value,
{
    Entry { key: String::from_str(key), value }
}

fn flag(value: Option<bool>) -> (r: Value)
    ensures
        r@ == flag_tree(value),
{
    match value {
        Some(b) => Value::Bool(b),
        None => Value::Null,
    }
}

fn text(value: &Option<String>) -> (r: Value)
    ensures
        r@ == text_tree(value.deep_view()),
{
    match value {
        Some(s) => Value::Text(s.clone()),
        None => Value::Null,
    }
}

fn number(value: Option<i128>) -> (r: Value)
    ensures
        r@ == number_tree(
            match value {
                Some(n) => Some(n as int),
                None => None,
            },
        ),
{
    match value {
        Some(n) => Value::Int(n),
        None => Value::Null,
    }
}

fn variables(value: &Option<Variables>) -> (r: Value)
    ensures
        r@ == variables_tree(value.deep_view()),
{
    match value {
        None => Value::Null,
        Some(list) => {
            let mut entries: Vec<Entry> = Vec::new();
            let mut i: usize = 0;
            while i < list.len()
                invariant
                    i <= list.len(),
                    entries.len() == i,
                    forall|j: int|
                        0 <= j < i ==> (#[trigger] entries@[j]).key@ == list@[j].0@
                            && entries@[j].value@ == Tree::Text(list@[j].1@),
                decreases list.len() - i,
            {
                entries.push(
                    Entry { key: list[i].0.clone(), value: Value::Text(list[i].1.clone()) },
                );
                i += 1;
            }
            proof {
                lemma_dict_view(entries);
                assert(entries_view(entries@) =~= variable_entries(list.deep_view()));
            }
            Value::Dict(entries)
        },
    }
}

fn switch(enabled: Option<bool>) -> (r: Value)
    ensures
        r@ == switch_tree(enabled),
{
    let mut entries: Vec<Entry> = Vec::new();
    entries.push(entry("enabled", flag(enabled)));
    proof {
        lemma_dict_view(entries);
        assert(entries_view(entries@) =~= seq![("enabled"@, flag_tree(enabled))]);
    }
    Value::Dict(entries)
}

fn environment(env: &EnvironmentVariables) -> (r: Value)
    ensures
        r@ == environment_tree(env@),
{
    let mut entries: Vec<Entry> = Vec::new();
    entries.push(entry("enabled", flag(env.enabled)));
    entries.push(entry("vars", variables(&env.vars)));
    proof {
        lemma_dict_view(entries);
        assert(entries_view(entries@) =~= environment_tree(env@)->Dict_0);
    }
    Value::Dict(entries)
}

fn memos(section: &Memos) -> (r: Value)
    ensures
        r@ == memos_tree(section@),
{
    let mut entries: Vec<Entry> = Vec::new();
    entries.push(entry("binary_path", text(&section.binary_path)));
    entries.push(entry("working_dir", text(&section.working_dir)));
    entries.push(entry("data", text(&section.data)));
    entries.push(entry("mode", text(&section.mode)));
    entries.push(entry("addr", text(&section.addr)));
    let port: Option<i128> = match section.port {
        Some(p) => Some(p as i128),
        None => None,
    };
    entries.push(entry("port", number(port)));
    entries.push(entry("env", environment(&section.env)));
    proof {
        lemma_dict_view(entries);
        assert(entries_view(entries@) =~= memos_tree(section@)->Dict_0);
    }
    Value::Dict(entries)
}

fn backups(section: &Backups) -> (r: Value)
    ensures
        r@ == backups_tree(section@),
{
    let mut entries: Vec<Entry> = Vec::new();
    entries.push(entry("enabled", flag(section.enabled)));
    entries.push(entry("path", text(&section.path)));
    proof {
        lemma_dict_view(entries);
        assert(entries_view(entries@) =~= backups_tree(section@)->Dict_0);
    }
    Value::Dict(entries)
}

fn remote(section: &RemoteServer) -> (r: Value)
    ensures
        r@ == remote_tree(section@),
{
    let mut entries: Vec<Entry> = Vec::new();
    entries.push(entry("enabled", flag(section.enabled)));
    entries.push(entry("url", text(&section.url)));
    entries.push(entry("user_agent", text(&section.user_agent)));
    proof {
        lemma_dict_view(entries);
        assert(entries_view(entries@) =~= remote_tree(section@)->Dict_0);
    }
    Value::Dict(entries)
}

fn extent(value: Option<u32>) -> (r: Value)
    ensures
        r@ == number_tree(
            match value {
                Some(p) => Some(p as int),
                None => None,
            },
        ),
{
    match value {
        Some(p) => Value::Int(p as i128),
        None => Value::Null,
    }
}

fn coordinate(value: Option<i32>) -> (r: Value)
    ensures
        r@ == number_tree(
            match value {
                Some(p) => Some(p as int),
                None => None,
            },
        ),
{
    match value {
        Some(p) => Value::Int(p as i128),
        None => Value::Null,
    }
}

fn window(section: &Window) -> (r: Value)
    ensures
        r@ == window_tree(section@),
{
    let mut entries: Vec<Entry> = Vec::new();
    entries.push(entry("center", flag(section.center)));
    entries.push(entry("fullscreen", flag(section.fullscreen)));
    entries.push(entry("resizable", flag(section.resizable)));
    entries.push(entry("maximized", flag(section.maximized)));
    entries.push(entry("width", extent(section.width)));
    entries.push(entry("height", extent(section.height)));
    entries.push(entry("x", coordinate(section.x)));
    entries.push(entry("y", coordinate(section.y)));
    entries.push(entry("hide_menu_bar", flag(section.hide_menu_bar)));
    entries.push(entry("theme", text(&section.theme)));
    entries.push(entry("language", text(&section.language)));
    proof {
        lemma_dict_view(entries);
        assert(entries_view(entries@) =~= window_tree(section@)->Dict_0);
    }
    Value::Dict(entries)
}

fn memospot(section: &Memospot) -> (r: Value)
    ensures
        r@ == memospot_tree(section@),
{
    let mut entries: Vec<Entry> = Vec::new();
    entries.push(entry("backups", backups(&section.backups)));
    entries.push(entry("env", environment(&section.env)));
    entries.push(entry("migrations", switch(section.migrations.enabled)));
    entries.push(entry("log", switch(section.log.enabled)));
    entries.push(entry("remote", remote(&section.remote)));
    entries.push(entry("updater", switch(section.updater.enabled)));
    entries.push(entry("window", window(&section.window)));
    proof {
        lemma_dict_view(entries);
        assert(entries_view(entries@) =~= memospot_tree(section@)->Dict_0);
    }
    Value::Dict(entries)
}

impl Config {
    /// The raw tree of this document.
    pub fn to_tree(&self) -> (r: Value)
        ensures
            r@ == config_tree(self@),
    {
        let mut entries: Vec<Entry> = Vec::new();
        entries.push(entry("memos", memos(&self.memos)));
        entries.push(entry("memospot", memospot(&self.memospot)));
        proof {
            lemma_dict_view(entries);
            assert(entries_view(entries@) =~= config_tree(self@)->Dict_0);
        }
        Value::Dict(entries)
    }
}

} // verus!
