//! Giving the raw tree its typed form.
//!
//! Every setting is read from its place in the tree; what the tree does not
//! mention is taken from the defaults handed in. The first setting, in the
//! order of the document, whose value is of the wrong kind is reported with
//! its dotted key.

use vstd::prelude::*;
use crate::config::fields::{
    flag_fault, flag_value, number_fault, number_value, read_flag, read_number, read_text,
    read_variables, section_entries, section_fault, text_fault, text_value, variables_fault,
    variables_value, Fault,
};
use crate::config::fields::kind_of;
use crate::config::tree::{entries_view, get, lemma_dict_view, Entry, Kind, Tree, Value};
use crate::config::types::{
    Backups, BackupsView, Config, ConfigView, EnvironmentVariables, EnvironmentVariablesView, Log,
    Memos, MemosView, Memospot, MemospotView, Migrations, RemoteServer, RemoteServerView, Updater,
    Window, WindowView,
};
use crate::text::{chars_of, push_all, same_chars, string_of};

verus! {

/// Why a tree cannot be given its typed form.
#[derive(Debug, PartialEq)]
pub struct ConfigError {
    /// The dotted key of the setting at fault; empty for the document itself.
    pub key: String,
    pub fault: Fault,
}

/// The mathematical form of a `ConfigError`.
pub struct Problem {
    pub key: Seq<char>,
    pub fault: Fault,
}

impl View for ConfigError {
    type V = Problem;

    open spec fn view(&self) -> Problem {
        Problem { key: self.key@, fault: self.fault }
    }
}

/// What a setting with the dotted key `key` has to be: the section it
/// names, or a value of the setting's type.
pub open spec fn expected_text(key: Seq<char>) -> Seq<char> {
    if key == ""@ {
        "struct Config"@
    } else if key == "memos"@ {
        "struct Memos"@
    } else if key == "memospot"@ {
        "struct Memospot"@
    } else if key == "memos.env"@ {
        "struct EnvironmentVariables"@
    } else if key == "memospot.env"@ {
        "struct EnvironmentVariables"@
    } else if key == "memospot.backups"@ {
        "struct Backups"@
    } else if key == "memospot.migrations"@ {
        "struct Migrations"@
    } else if key == "memospot.log"@ {
        "struct Log"@
    } else if key == "memospot.remote"@ {
        "struct RemoteServer"@
    } else if key == "memospot.updater"@ {
        "struct Updater"@
    } else if key == "memospot.window"@ {
        "struct Window"@
    } else {
        "a value of the setting's type"@
    }
}

/// The name of the kind `kind` in messages.
pub open spec fn kind_text(kind: Kind) -> Seq<char> {
    match kind {
        Kind::Unit => "unit"@,
        Kind::Bool => "bool"@,
        Kind::Integer => "integer"@,
        Kind::Real => "float"@,
        Kind::Text => "string"@,
        Kind::List => "sequence"@,
        Kind::Dict => "map"@,
    }
}

/// What is wrong with a setting, in words.
pub open spec fn fault_text(fault: Fault, key: Seq<char>) -> Seq<char> {
    match fault {
        Fault::InvalidType { found } => "invalid type: found "@ + kind_text(found) + ", expected "@
            + expected_text(key),
        Fault::OutOfRange => "invalid value: number out of range"@,
        Fault::Missing => "missing field"@,
    }
}

fn expected_name(key: &str) -> (r: &'static str)
    ensures
        r@ == expected_text(key@),
{
    let chars = chars_of(key);
    if same_chars(&chars, &chars_of("")) {
        "struct Config"
    } else if same_chars(&chars, &chars_of("memos")) {
        "struct Memos"
    } else if same_chars(&chars, &chars_of("memospot")) {
        "struct Memospot"
    } else if same_chars(&chars, &chars_of("memos.env")) {
        "struct EnvironmentVariables"
    } else if same_chars(&chars, &chars_of("memospot.env")) {
        "struct EnvironmentVariables"
    } else if same_chars(&chars, &chars_of("memospot.backups")) {
        "struct Backups"
    } else if same_chars(&chars, &chars_of("memospot.migrations")) {
        "struct Migrations"
    } else if same_chars(&chars, &chars_of("memospot.log")) {
        "struct Log"
    } else if same_chars(&chars, &chars_of("memospot.remote")) {
        "struct RemoteServer"
    } else if same_chars(&chars, &chars_of("memospot.updater")) {
        "struct Updater"
    } else if same_chars(&chars, &chars_of("memospot.window")) {
        "struct Window"
    } else {
        "a value of the setting's type"
    }
}

fn kind_name(kind: Kind) -> (r: &'static str)
    ensures
        r@ == kind_text(kind),
{
    match kind {
        Kind::Unit => "unit",
        Kind::Bool => "bool",
        Kind::Integer => "integer",
        Kind::Real => "float",
        Kind::Text => "string",
        Kind::List => "sequence",
        Kind::Dict => "map",
    }
}

impl ConfigError {
    /// The error in words: what is wrong, and the key of the setting.
    pub fn message(&self) -> (r: String)
        ensures
            r@ == fault_text(self.fault, self.key@) + " for key \""@ + self.key@ + "\""@,
    {
        let mut out: Vec<char> = Vec::new();
        match self.fault {
            Fault::InvalidType { found } => {
                push_all(&mut out, &chars_of("invalid type: found "));
                push_all(&mut out, &chars_of(kind_name(found)));
                push_all(&mut out, &chars_of(", expected "));
                push_all(&mut out, &chars_of(expected_name(self.key.as_str())));
            },
            Fault::OutOfRange => {
                push_all(&mut out, &chars_of("invalid value: number out of range"));
            },
            Fault::Missing => {
                push_all(&mut out, &chars_of("missing field"));
            },
        }
        assert(out@ =~= fault_text(self.fault, self.key@));
        push_all(&mut out, &chars_of(" for key \""));
        push_all(&mut out, &chars_of(self.key.as_str()));
        push_all(&mut out, &chars_of("\""));
        string_of(&out)
    }
}

/// The entries of a tree in their mathematical form.
pub type Entries = Seq<(Seq<char>, Tree)>;

/// The problem of the setting `key` whose fault, if any, is `fault`.
pub open spec fn at(key: Seq<char>, fault: Option<Fault>) -> Option<Problem> {
    match fault {
        Some(f) => Some(Problem { key, fault: f }),
        None => None,
    }
}

/// The first problem of two.
pub open spec fn pick(first: Option<Problem>, second: Option<Problem>) -> Option<Problem> {
    if first is Some {
        first
    } else {
        second
    }
}

/// The error for the setting `key` with the fault `fault`.
fn problem(key: &str, fault: Fault) -> (r: ConfigError)
    ensures
        r@ == (Problem { key: key@, fault }),
{
    ConfigError { key: String::from_str(key), fault }
}

/// The entries of the section `name`. A section that is not there has no
/// entries, and is a fault only if it is `required`.
fn read_section<'a>(
    entries: &'a Vec<Entry>,
    name: &str,
    required: bool,
    none: &'a Vec<Entry>,
) -> (r: Result<&'a Vec<Entry>, Fault>)
    requires
        none@.len() == 0,
    ensures
        match r {
            Ok(inner) => section_fault(entries_view(entries@), name@, required) is None
                && entries_view(inner@) == section_entries(entries_view(entries@), name@),
            Err(f) => section_fault(entries_view(entries@), name@, required) == Some(f),
        },
{
    match get(entries, name) {
        None => {
            if required {
                Err(Fault::Missing)
            } else {
                assert(entries_view(none@) =~= Seq::empty());
                Ok(none)
            }
        },
        Some(Value::Dict(inner)) => {
            proof {
                lemma_dict_view(*inner);
            }
            Ok(inner)
        },
        Some(other) => Err(Fault::InvalidType { found: kind_of(other) }),
    }
}

/// The dotted keys of a list of environment variables: of the section, of
/// its flag and of its variables.
pub struct EnvironmentKeys {
    pub section: Seq<char>,
    pub enabled: Seq<char>,
    pub vars: Seq<char>,
}

/// The dotted keys of the server's environment variables.
pub open spec fn memos_env_keys() -> EnvironmentKeys {
    EnvironmentKeys {
        section: "memos.env"@,
        enabled: "memos.env.enabled"@,
        vars: "memos.env.vars"@,
    }
}

/// The dotted keys of the launcher's environment variables.
pub open spec fn memospot_env_keys() -> EnvironmentKeys {
    EnvironmentKeys {
        section: "memospot.env"@,
        enabled: "memospot.env.enabled"@,
        vars: "memospot.env.vars"@,
    }
}

/// The first problem of the section `env` of `entries`.
pub open spec fn environment_problem(entries: Entries, required: bool, keys: EnvironmentKeys) -> Option<
    Problem,
> {
    let inner = section_entries(entries, "env"@);
    pick(
        at(keys.section, section_fault(entries, "env"@, required)),
        pick(
            at(keys.enabled, flag_fault(inner, "enabled"@)),
            at(keys.vars, variables_fault(inner, "vars"@)),
        ),
    )
}

/// The section `env` of `entries`, with `default` for what is not mentioned.
pub open spec fn environment_value(
    entries: Entries,
    default: EnvironmentVariablesView,
) -> EnvironmentVariablesView {
    let inner = section_entries(entries, "env"@);
    EnvironmentVariablesView {
        enabled: flag_value(inner, "enabled"@, default.enabled),
        vars: variables_value(inner, "vars"@, default.vars),
    }
}

fn read_environment(
    entries: &Vec<Entry>,
    default: &EnvironmentVariables,
    required: bool,
    section: &str,
    enabled: &str,
    vars: &str,
) -> (r: Result<EnvironmentVariables, ConfigError>)
    ensures
        ({
            let keys = EnvironmentKeys { section: section@, enabled: enabled@, vars: vars@ };
            match r {
                Ok(v) => environment_problem(entries_view(entries@), required, keys) is None && v@
                    == environment_value(entries_view(entries@), default@),
                Err(e) => environment_problem(entries_view(entries@), required, keys) == Some(e@),
            }
        }),
{
    let none: Vec<Entry> = Vec::new();
    let inner = match read_section(entries, "env", required, &none) {
        Ok(inner) => inner,
        Err(fault) => {
            return Err(problem(section, fault));
        },
    };
    let flag = match read_flag(inner, "enabled", default.enabled) {
        Ok(v) => v,
        Err(fault) => {
            return Err(problem(enabled, fault));
        },
    };
    let list = match read_variables(inner, "vars", &default.vars) {
        Ok(v) => v,
        Err(fault) => {
            return Err(problem(vars, fault));
        },
    };
    Ok(EnvironmentVariables { enabled: flag, vars: list })
}

/// The first problem of the section `memos` of `entries`.
pub open spec fn memos_problem(entries: Entries, required: bool) -> Option<Problem> {
    let inner = section_entries(entries, "memos"@);
    pick(
        at("memos"@, section_fault(entries, "memos"@, required)),
        pick(
            at("memos.binary_path"@, text_fault(inner, "binary_path"@)),
            pick(
                at("memos.working_dir"@, text_fault(inner, "working_dir"@)),
                pick(
                    at("memos.data"@, text_fault(inner, "data"@)),
                    pick(
                        at("memos.mode"@, text_fault(inner, "mode"@)),
                        pick(
                            at("memos.addr"@, text_fault(inner, "addr"@)),
                            pick(
                                at("memos.port"@, number_fault(inner, "port"@, 0, 65535)),
                                environment_problem(inner, required, memos_env_keys()),
                            ),
                        ),
                    ),
                ),
            ),
        ),
    )
}

/// The number held by `n`, as a port.
pub open spec fn as_u16(n: Option<int>) -> Option<u16> {
    match n {
        Some(v) => Some(v as u16),
        None => None,
    }
}

/// The number held by `n`, as a length in pixels.
pub open spec fn as_u32(n: Option<int>) -> Option<u32> {
    match n {
        Some(v) => Some(v as u32),
        None => None,
    }
}

/// The number held by `n`, as a coordinate.
pub open spec fn as_i32(n: Option<int>) -> Option<i32> {
    match n {
        Some(v) => Some(v as i32),
        None => None,
    }
}

/// The port `p` as a number.
pub open spec fn of_u16(p: Option<u16>) -> Option<int> {
    match p {
        Some(v) => Some(v as int),
        None => None,
    }
}

/// The length `p` as a number.
pub open spec fn of_u32(p: Option<u32>) -> Option<int> {
    match p {
        Some(v) => Some(v as int),
        None => None,
    }
}

/// The coordinate `p` as a number.
pub open spec fn of_i32(p: Option<i32>) -> Option<int> {
    match p {
        Some(v) => Some(v as int),
        None => None,
    }
}

/// The section `memos` of `entries`, with `default` for what is not
/// mentioned.
pub open spec fn memos_value(entries: Entries, default: MemosView) -> MemosView {
    let inner = section_entries(entries, "memos"@);
    MemosView {
        binary_path: text_value(inner, "binary_path"@, default.binary_path),
        working_dir: text_value(inner, "working_dir"@, default.working_dir),
        data: text_value(inner, "data"@, default.data),
        mode: text_value(inner, "mode"@, default.mode),
        addr: text_value(inner, "addr"@, default.addr),
        port: as_u16(number_value(inner, "port"@, of_u16(default.port))),
        env: environment_value(inner, default.env),
    }
}

fn read_memos(entries: &Vec<Entry>, default: &Memos, required: bool) -> (r: Result<
    Memos,
    ConfigError,
>)
    ensures
        match r {
            Ok(v) => memos_problem(entries_view(entries@), required) is None && v@ == memos_value(
                entries_view(entries@),
                default@,
            ),
            Err(e) => memos_problem(entries_view(entries@), required) == Some(e@),
        },
{
    let none: Vec<Entry> = Vec::new();
    let inner = match read_section(entries, "memos", required, &none) {
        Ok(inner) => inner,
        Err(fault) => {
            return Err(problem("memos", fault));
        },
    };
    let binary_path = match read_text(inner, "binary_path", &default.binary_path) {
        Ok(v) => v,
        Err(fault) => {
            return Err(problem("memos.binary_path", fault));
        },
    };
    let working_dir = match read_text(inner, "working_dir", &default.working_dir) {
        Ok(v) => v,
        Err(fault) => {
            return Err(problem("memos.working_dir", fault));
        },
    };
    let data = match read_text(inner, "data", &default.data) {
        Ok(v) => v,
        Err(fault) => {
            return Err(problem("memos.data", fault));
        },
    };
    let mode = match read_text(inner, "mode", &default.mode) {
        Ok(v) => v,
        Err(fault) => {
            return Err(problem("memos.mode", fault));
        },
    };
    let addr = match read_text(inner, "addr", &default.addr) {
        Ok(v) => v,
        Err(fault) => {
            return Err(problem("memos.addr", fault));
        },
    };
    let default_port: Option<i128> = match default.port {
        Some(p) => Some(p as i128),
        None => None,
    };
    let port: Option<u16> = match read_number(inner, "port", default_port, 0, 65535) {
        Ok(Some(n)) => Some(n as u16),
        Ok(None) => None,
        Err(fault) => {
            return Err(problem("memos.port", fault));
        },
    };
    let env = match read_environment(
        inner,
        &default.env,
        required,
        "memos.env",
        "memos.env.enabled",
        "memos.env.vars",
    ) {
        Ok(v) => v,
        Err(e) => {
            return Err(e);
        },
    };
    Ok(Memos { binary_path, working_dir, data, mode, addr, port, env })
}

/// The first problem of a section `name` of `entries` that holds nothing
/// but the flag `enabled`; `key` is the section's dotted key and
/// `enabled_key` the flag's.
pub open spec fn switch_problem(
    entries: Entries,
    name: Seq<char>,
    required: bool,
    key: Seq<char>,
    enabled_key: Seq<char>,
) -> Option<Problem> {
    pick(
        at(key, section_fault(entries, name, required)),
        at(enabled_key, flag_fault(section_entries(entries, name), "enabled"@)),
    )
}

/// The flag `enabled` of the section `name` of `entries`.
pub open spec fn switch_value(entries: Entries, name: Seq<char>, default: Option<bool>) -> Option<
    bool,
> {
    flag_value(section_entries(entries, name), "enabled"@, default)
}

fn read_switch(
    entries: &Vec<Entry>,
    name: &str,
    default: Option<bool>,
    required: bool,
    key: &str,
    enabled_key: &str,
) -> (r: Result<Option<bool>, ConfigError>)
    ensures
        match r {
            Ok(v) => switch_problem(entries_view(entries@), name@, required, key@, enabled_key@)
                is None && v == switch_value(entries_view(entries@), name@, default),
            Err(e) => switch_problem(entries_view(entries@), name@, required, key@, enabled_key@)
                == Some(e@),
        },
{
    let none: Vec<Entry> = Vec::new();
    let inner = match read_section(entries, name, required, &none) {
        Ok(inner) => inner,
        Err(fault) => {
            return Err(problem(key, fault));
        },
    };
    match read_flag(inner, "enabled", default) {
        Ok(v) => Ok(v),
        Err(fault) => Err(problem(enabled_key, fault)),
    }
}

/// The first problem of the section `backups` of `entries`.
pub open spec fn backups_problem(entries: Entries, required: bool) -> Option<Problem> {
    let inner = section_entries(entries, "backups"@);
    pick(
        at("memospot.backups"@, section_fault(entries, "backups"@, required)),
        pick(
            at("memospot.backups.enabled"@, flag_fault(inner, "enabled"@)),
            at("memospot.backups.path"@, text_fault(inner, "path"@)),
        ),
    )
}

/// The section `backups` of `entries`.
pub open spec fn backups_value(entries: Entries, default: BackupsView) -> BackupsView {
    let inner = section_entries(entries, "backups"@);
    BackupsView {
        enabled: flag_value(inner, "enabled"@, default.enabled),
        path: text_value(inner, "path"@, default.path),
    }
}

fn read_backups(entries: &Vec<Entry>, default: &Backups, required: bool) -> (r: Result<
    Backups,
    ConfigError,
>)
    ensures
        match r {
            Ok(v) => backups_problem(entries_view(entries@), required) is None && v@
                == backups_value(entries_view(entries@), default@),
            Err(e) => backups_problem(entries_view(entries@), required) == Some(e@),
        },
{
    let none: Vec<Entry> = Vec::new();
    let inner = match read_section(entries, "backups", required, &none) {
        Ok(inner) => inner,
        Err(fault) => {
            return Err(problem("memospot.backups", fault));
        },
    };
    let enabled = match read_flag(inner, "enabled", default.enabled) {
        Ok(v) => v,
        Err(fault) => {
            return Err(problem("memospot.backups.enabled", fault));
        },
    };
    let path = match read_text(inner, "path", &default.path) {
        Ok(v) => v,
        Err(fault) => {
            return Err(problem("memospot.backups.path", fault));
        },
    };
    Ok(Backups { enabled, path })
}

/// The first problem of the section `remote` of `entries`.
pub open spec fn remote_problem(entries: Entries, required: bool) -> Option<Problem> {
    let inner = section_entries(entries, "remote"@);
    pick(
        at("memospot.remote"@, section_fault(entries, "remote"@, required)),
        pick(
            at("memospot.remote.enabled"@, flag_fault(inner, "enabled"@)),
            pick(
                at("memospot.remote.url"@, text_fault(inner, "url"@)),
                at("memospot.remote.user_agent"@, text_fault(inner, "user_agent"@)),
            ),
        ),
    )
}

/// The section `remote` of `entries`.
pub open spec fn remote_value(entries: Entries, default: RemoteServerView) -> RemoteServerView {
    let inner = section_entries(entries, "remote"@);
    RemoteServerView {
        enabled: flag_value(inner, "enabled"@, default.enabled),
        url: text_value(inner, "url"@, default.url),
        user_agent: text_value(inner, "user_agent"@, default.user_agent),
    }
}

fn read_remote(entries: &Vec<Entry>, default: &RemoteServer, required: bool) -> (r: Result<
    RemoteServer,
    ConfigError,
>)
    ensures
        match r {
            Ok(v) => remote_problem(entries_view(entries@), required) is None && v@
                == remote_value(entries_view(entries@), default@),
            Err(e) => remote_problem(entries_view(entries@), required) == Some(e@),
        },
{
    let none: Vec<Entry> = Vec::new();
    let inner = match read_section(entries, "remote", required, &none) {
        Ok(inner) => inner,
        Err(fault) => {
            return Err(problem("memospot.remote", fault));
        },
    };
    let enabled = match read_flag(inner, "enabled", default.enabled) {
        Ok(v) => v,
        Err(fault) => {
            return Err(problem("memospot.remote.enabled", fault));
        },
    };
    let url = match read_text(inner, "url", &default.url) {
        Ok(v) => v,
        Err(fault) => {
            return Err(problem("memospot.remote.url", fault));
        },
    };
    let user_agent = match read_text(inner, "user_agent", &default.user_agent) {
        Ok(v) => v,
        Err(fault) => {
            return Err(problem("memospot.remote.user_agent", fault));
        },
    };
    Ok(RemoteServer { enabled, url, user_agent })
}

/// The largest width or height of a window.
pub const MAX_EXTENT: i128 = 4294967295;

/// The smallest coordinate of a window.
pub const MIN_COORDINATE: i128 = -2147483648;

/// The largest coordinate of a window.
pub const MAX_COORDINATE: i128 = 2147483647;

/// The first problem among the flags of the section `window`, whose entries
/// are `inner`.
pub open spec fn window_flags_problem(inner: Entries) -> Option<Problem> {
    pick(
        at("memospot.window.center"@, flag_fault(inner, "center"@)),
        pick(
            at("memospot.window.fullscreen"@, flag_fault(inner, "fullscreen"@)),
            pick(
                at("memospot.window.resizable"@, flag_fault(inner, "resizable"@)),
                at("memospot.window.maximized"@, flag_fault(inner, "maximized"@)),
            ),
        ),
    )
}

/// The first problem among the geometry of the section `window`, whose
/// entries are `inner`.
pub open spec fn window_geometry_problem(inner: Entries) -> Option<Problem> {
    pick(
        at("memospot.window.width"@, number_fault(inner, "width"@, 0, MAX_EXTENT as int)),
        pick(
            at("memospot.window.height"@, number_fault(inner, "height"@, 0, MAX_EXTENT as int)),
            pick(
                at(
                    "memospot.window.x"@,
                    number_fault(inner, "x"@, MIN_COORDINATE as int, MAX_COORDINATE as int),
                ),
                at(
                    "memospot.window.y"@,
                    number_fault(inner, "y"@, MIN_COORDINATE as int, MAX_COORDINATE as int),
                ),
            ),
        ),
    )
}

/// The first problem among the appearance of the section `window`, whose
/// entries are `inner`.
pub open spec fn window_appearance_problem(inner: Entries) -> Option<Problem> {
    pick(
        at("memospot.window.hide_menu_bar"@, flag_fault(inner, "hide_menu_bar"@)),
        pick(
            at("memospot.window.theme"@, text_fault(inner, "theme"@)),
            at("memospot.window.language"@, text_fault(inner, "language"@)),
        ),
    )
}

/// The first problem of the section `window` of `entries`.
pub open spec fn window_problem(entries: Entries, required: bool) -> Option<Problem> {
    let inner = section_entries(entries, "window"@);
    pick(
        at("memospot.window"@, section_fault(entries, "window"@, required)),
        pick(
            window_flags_problem(inner),
            pick(window_geometry_problem(inner), window_appearance_problem(inner)),
        ),
    )
}

/// The section `window` of `entries`.
pub open spec fn window_value(entries: Entries, default: WindowView) -> WindowView {
    let inner = section_entries(entries, "window"@);
    WindowView {
        center: flag_value(inner, "center"@, default.center),
        fullscreen: flag_value(inner, "fullscreen"@, default.fullscreen),
        resizable: flag_value(inner, "resizable"@, default.resizable),
        maximized: flag_value(inner, "maximized"@, default.maximized),
        width: as_u32(number_value(inner, "width"@, of_u32(default.width))),
        height: as_u32(number_value(inner, "height"@, of_u32(default.height))),
        x: as_i32(number_value(inner, "x"@, of_i32(default.x))),
        y: as_i32(number_value(inner, "y"@, of_i32(default.y))),
        hide_menu_bar: flag_value(inner, "hide_menu_bar"@, default.hide_menu_bar),
        theme: text_value(inner, "theme"@, default.theme),
        language: text_value(inner, "language"@, default.language),
    }
}

fn read_extent(inner: &Vec<Entry>, name: &str, default: Option<u32>, key: &str) -> (r: Result<
    Option<u32>,
    ConfigError,
>)
    ensures
        match r {
            Ok(v) => number_fault(entries_view(inner@), name@, 0, MAX_EXTENT as int) is None && v
                == as_u32(number_value(entries_view(inner@), name@, of_u32(default))),
            Err(e) => at(key@, number_fault(entries_view(inner@), name@, 0, MAX_EXTENT as int))
                == Some(e@),
        },
{
    let wide: Option<i128> = match default {
        Some(p) => Some(p as i128),
        None => None,
    };
    match read_number(inner, name, wide, 0, MAX_EXTENT) {
        Ok(Some(n)) => Ok(Some(n as u32)),
        Ok(None) => Ok(None),
        Err(fault) => Err(problem(key, fault)),
    }
}

fn read_coordinate(inner: &Vec<Entry>, name: &str, default: Option<i32>, key: &str) -> (r: Result<
    Option<i32>,
    ConfigError,
>)
    ensures
        match r {
            Ok(v) => number_fault(
                entries_view(inner@),
                name@,
                MIN_COORDINATE as int,
                MAX_COORDINATE as int,
            ) is None && v == as_i32(number_value(entries_view(inner@), name@, of_i32(default))),
            Err(e) => at(
                key@,
                number_fault(
                    entries_view(inner@),
                    name@,
                    MIN_COORDINATE as int,
                    MAX_COORDINATE as int,
                ),
            ) == Some(e@),
        },
{
    let wide: Option<i128> = match default {
        Some(p) => Some(p as i128),
        None => None,
    };
    match read_number(inner, name, wide, MIN_COORDINATE, MAX_COORDINATE) {
        Ok(Some(n)) => Ok(Some(n as i32)),
        Ok(None) => Ok(None),
        Err(fault) => Err(problem(key, fault)),
    }
}

fn read_named_flag(inner: &Vec<Entry>, name: &str, default: Option<bool>, key: &str) -> (r:
    Result<Option<bool>, ConfigError>)
    ensures
        match r {
            Ok(v) => flag_fault(entries_view(inner@), name@) is None && v == flag_value(
                entries_view(inner@),
                name@,
                default,
            ),
            Err(e) => at(key@, flag_fault(entries_view(inner@), name@)) == Some(e@),
        },
{
    match read_flag(inner, name, default) {
        Ok(v) => Ok(v),
        Err(fault) => Err(problem(key, fault)),
    }
}

fn read_named_text(inner: &Vec<Entry>, name: &str, default: &Option<String>, key: &str) -> (r:
    Result<Option<String>, ConfigError>)
    ensures
        match r {
            Ok(v) => text_fault(entries_view(inner@), name@) is None && v.deep_view()
                == text_value(entries_view(inner@), name@, default.deep_view()),
            Err(e) => at(key@, text_fault(entries_view(inner@), name@)) == Some(e@),
        },
{
    match read_text(inner, name, default) {
        Ok(v) => Ok(v),
        Err(fault) => Err(problem(key, fault)),
    }
}

fn read_window(entries: &Vec<Entry>, default: &Window, required: bool) -> (r: Result<
    Window,
    ConfigError,
>)
    ensures
        match r {
            Ok(v) => window_problem(entries_view(entries@), required) is None && v@
                == window_value(entries_view(entries@), default@),
            Err(e) => window_problem(entries_view(entries@), required) == Some(e@),
        },
{
    let none: Vec<Entry> = Vec::new();
    let inner = match read_section(entries, "window", required, &none) {
        Ok(inner) => inner,
        Err(fault) => {
            return Err(problem("memospot.window", fault));
        },
    };
    let center = read_named_flag(inner, "center", default.center, "memospot.window.center")?;
    let fullscreen = read_named_flag(
        inner,
        "fullscreen",
        default.fullscreen,
        "memospot.window.fullscreen",
    )?;
    let resizable = read_named_flag(
        inner,
        "resizable",
        default.resizable,
        "memospot.window.resizable",
    )?;
    let maximized = read_named_flag(
        inner,
        "maximized",
        default.maximized,
        "memospot.window.maximized",
    )?;
    let width = read_extent(inner, "width", default.width, "memospot.window.width")?;
    let height = read_extent(inner, "height", default.height, "memospot.window.height")?;
    let x = read_coordinate(inner, "x", default.x, "memospot.window.x")?;
    let y = read_coordinate(inner, "y", default.y, "memospot.window.y")?;
    let hide_menu_bar = read_named_flag(
        inner,
        "hide_menu_bar",
        default.hide_menu_bar,
        "memospot.window.hide_menu_bar",
    )?;
    let theme = read_named_text(inner, "theme", &default.theme, "memospot.window.theme")?;
    let language = read_named_text(
        inner,
        "language",
        &default.language,
        "memospot.window.language",
    )?;
    Ok(
        Window {
            center,
            fullscreen,
            resizable,
            maximized,
            width,
            height,
            x,
            y,
            hide_menu_bar,
            theme,
            language,
        },
    )
}

/// The first problem of the section `memospot` of `entries`.
pub open spec fn memospot_problem(entries: Entries, required: bool) -> Option<Problem> {
    let inner = section_entries(entries, "memospot"@);
    pick(
        at("memospot"@, section_fault(entries, "memospot"@, required)),
        pick(
            backups_problem(inner, required),
            pick(
                environment_problem(inner, required, memospot_env_keys()),
                pick(
                    switch_problem(
                        inner,
                        "migrations"@,
                        required,
                        "memospot.migrations"@,
                        "memospot.migrations.enabled"@,
                    ),
                    pick(
                        switch_problem(
                            inner,
                            "log"@,
                            required,
                            "memospot.log"@,
                            "memospot.log.enabled"@,
                        ),
                        pick(
                            remote_problem(inner, required),
                            pick(
                                switch_problem(
                                    inner,
                                    "updater"@,
                                    required,
                                    "memospot.updater"@,
                                    "memospot.updater.enabled"@,
                                ),
                                window_problem(inner, required),
                            ),
                        ),
                    ),
                ),
            ),
        ),
    )
}

/// The section `memospot` of `entries`, with `default` for what is not
/// mentioned.
pub open spec fn memospot_value(entries: Entries, default: MemospotView) -> MemospotView {
    let inner = section_entries(entries, "memospot"@);
    MemospotView {
        backups: backups_value(inner, default.backups),
        env: environment_value(inner, default.env),
        migrations: switch_value(inner, "migrations"@, default.migrations),
        log: switch_value(inner, "log"@, default.log),
        remote: remote_value(inner, default.remote),
        updater: switch_value(inner, "updater"@, default.updater),
        window: window_value(inner, default.window),
    }
}

fn read_memospot(entries: &Vec<Entry>, default: &Memospot, required: bool) -> (r: Result<
    Memospot,
    ConfigError,
>)
    ensures
        match r {
            Ok(v) => memospot_problem(entries_view(entries@), required) is None && v@
                == memospot_value(entries_view(entries@), default@),
            Err(e) => memospot_problem(entries_view(entries@), required) == Some(e@),
        },
{
    let none: Vec<Entry> = Vec::new();
    let inner = match read_section(entries, "memospot", required, &none) {
        Ok(inner) => inner,
        Err(fault) => {
            return Err(problem("memospot", fault));
        },
    };
    let backups = read_backups(inner, &default.backups, required)?;
    let env = read_environment(
        inner,
        &default.env,
        required,
        "memospot.env",
        "memospot.env.enabled",
        "memospot.env.vars",
    )?;
    let migrations = read_switch(
        inner,
        "migrations",
        default.migrations.enabled,
        required,
        "memospot.migrations",
        "memospot.migrations.enabled",
    )?;
    let log = read_switch(
        inner,
        "log",
        default.log.enabled,
        required,
        "memospot.log",
        "memospot.log.enabled",
    )?;
    let remote = read_remote(inner, &default.remote, required)?;
    let updater = read_switch(
        inner,
        "updater",
        default.updater.enabled,
        required,
        "memospot.updater",
        "memospot.updater.enabled",
    )?;
    let window = read_window(inner, &default.window, required)?;
    Ok(
        Memospot {
            backups,
            env,
            migrations: Migrations { enabled: migrations },
            log: Log { enabled: log },
            remote,
            updater: Updater { enabled: updater },
            window,
        },
    )
}

/// The first problem of the document `tree`: the first setting, in the
/// order of the document, whose value is of the wrong kind. With `required`
/// every section has to be there.
pub open spec fn config_problem(tree: Tree, required: bool) -> Option<Problem> {
    match tree {
        Tree::Dict(entries) => pick(
            memos_problem(entries, required),
            memospot_problem(entries, required),
        ),
        other => Some(Problem { key: Seq::empty(), fault: Fault::InvalidType { found: other.kind() } }),
    }
}

/// The typed form of the document `tree`, with `default` for every setting
/// that `tree` does not mention.
pub open spec fn config_value(tree: Tree, default: ConfigView) -> ConfigView {
    let entries = tree->Dict_0;
    ConfigView {
        memos: memos_value(entries, default.memos),
        memospot: memospot_value(entries, default.memospot),
    }
}

/// A document without any value: what a file that mentions no setting
/// stands for where no defaults apply.
pub open spec fn blank_config() -> ConfigView {
    let no_variables = EnvironmentVariablesView { enabled: None, vars: None };
    ConfigView {
        memos: MemosView {
            binary_path: None,
            working_dir: None,
            data: None,
            mode: None,
            addr: None,
            port: None,
            env: no_variables,
        },
        memospot: MemospotView {
            backups: BackupsView { enabled: None, path: None },
            env: no_variables,
            migrations: None,
            log: None,
            remote: RemoteServerView { enabled: None, url: None, user_agent: None },
            updater: None,
            window: WindowView {
                center: None,
                fullscreen: None,
                resizable: None,
                maximized: None,
                width: None,
                height: None,
                x: None,
                y: None,
                hide_menu_bar: None,
                theme: None,
                language: None,
            },
        },
    }
}

impl Config {
    /// A document without any value.
    pub fn blank() -> (r: Config)
        ensures
            r@ == blank_config(),
    {
        Config {
            memos: Memos {
                binary_path: None,
                working_dir: None,
                data: None,
                mode: None,
                addr: None,
                port: None,
                env: EnvironmentVariables { enabled: None, vars: None },
            },
            memospot: Memospot {
                backups: Backups { enabled: None, path: None },
                env: EnvironmentVariables { enabled: None, vars: None },
                migrations: Migrations { enabled: None },
                log: Log { enabled: None },
                remote: RemoteServer { enabled: None, url: None, user_agent: None },
                updater: Updater { enabled: None },
                window: Window {
                    center: None,
                    fullscreen: None,
                    resizable: None,
                    maximized: None,
                    width: None,
                    height: None,
                    x: None,
                    y: None,
                    hide_menu_bar: None,
                    theme: None,
                    language: None,
                },
            },
        }
    }

    /// The typed form of `tree`, with `default` for every setting that
    /// `tree` does not mention; with `required`, a section that is missing
    /// is an error. Fails exactly if some setting has a value of the wrong
    /// kind, and then names the first such setting.
    pub fn from_tree(tree: &Value, default: &Config, required: bool) -> (r: Result<
        Config,
        ConfigError,
    >)
        ensures
            match r {
                Ok(c) => config_problem(tree@, required) is None && c@ == config_value(
                    tree@,
                    default@,
                ),
                Err(e) => config_problem(tree@, required) == Some(e@),
            },
    {
        match tree {
            Value::Dict(entries) => {
                proof {
                    lemma_dict_view(*entries);
                }
                let memos = read_memos(entries, &default.memos, required)?;
                let memospot = read_memospot(entries, &default.memospot, required)?;
                Ok(Config { memos, memospot })
            },
            other => {
                let found = kind_of(other);
                proof {
                    reveal_strlit("");
                    assert(""@ =~= Seq::<char>::empty());
                }
                Err(problem("", Fault::InvalidType { found }))
            },
        }
    }

    /// Reads a configuration file as it stands: every section has to be
    /// there, and a setting that is not mentioned has no value.
    pub fn parse_file(tree: &Value) -> (r: Result<Config, ConfigError>)
        ensures
            match r {
                Ok(c) => config_problem(tree@, true) is None && c@ == config_value(
                    tree@,
                    blank_config(),
                ),
                Err(e) => config_problem(tree@, true) == Some(e@),
            },
    {
        let blank = Config::blank();
        Config::from_tree(tree, &blank, true)
    }
}

} // verus!
