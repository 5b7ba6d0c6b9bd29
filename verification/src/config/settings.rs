//! The settings of the configuration document one by one: where a document
//! mentions each of them, and that loading takes every setting from the
//! document where it is mentioned there and from the defaults where it is not.

use vstd::prelude::*;
use crate::config::emit::{flag_tree, number_tree, text_tree, variable_entries, variables_tree};
use crate::config::extract::{
    config_problem, of_i32, of_u16, of_u32, Entries, MAX_COORDINATE, MAX_EXTENT, MIN_COORDINATE,
};
use crate::config::fields::{
    all_text, flag_fault, flag_value, number_fault, number_value, section_entries, text_fault,
    text_value, variables_fault, variables_of, variables_value,
};
use crate::config::load::{loaded, raw_tree};
use crate::config::migration::{
    is_legacy_env, lemma_current_shape_is_kept, migrated, server_env,
};
use crate::config::tree::{lookup, Tree};
use crate::config::types::{default_config, ConfigView};

verus! {

/// A setting of the configuration document: a value that is no section.
#[derive(Clone, Copy, Debug, PartialEq, Eq, Structural)]
pub enum Setting {
    MemosBinaryPath,
    MemosWorkingDir,
    MemosData,
    MemosMode,
    MemosAddr,
    MemosPort,
    MemosEnvEnabled,
    MemosEnvVars,
    BackupsEnabled,
    BackupsPath,
    EnvEnabled,
    EnvVars,
    MigrationsEnabled,
    LogEnabled,
    RemoteEnabled,
    RemoteUrl,
    RemoteUserAgent,
    UpdaterEnabled,
    WindowCenter,
    WindowFullscreen,
    WindowResizable,
    WindowMaximized,
    WindowWidth,
    WindowHeight,
    WindowX,
    WindowY,
    WindowHideMenuBar,
    WindowTheme,
    WindowLanguage,
}

/// The entries of the section `name` of the launcher's settings in the
/// document whose entries are `top`; none if the document does not mention
/// the section.
pub open spec fn launcher_section(top: Entries, name: Seq<char>) -> Entries {
    section_entries(section_entries(top, "memospot"@), name)
}

/// What the document `tree` mentions for `setting`: the value under the
/// setting's key in its section, or nothing if the document lacks the key
/// or a section that it stands in.
pub open spec fn mentioned(tree: Tree, setting: Setting) -> Option<Tree> {
    let top = tree->Dict_0;
    let memos = section_entries(top, "memos"@);
    match setting {
        Setting::MemosBinaryPath => lookup(memos, "binary_path"@),
        Setting::MemosWorkingDir => lookup(memos, "working_dir"@),
        Setting::MemosData => lookup(memos, "data"@),
        Setting::MemosMode => lookup(memos, "mode"@),
        Setting::MemosAddr => lookup(memos, "addr"@),
        Setting::MemosPort => lookup(memos, "port"@),
        Setting::MemosEnvEnabled => lookup(section_entries(memos, "env"@), "enabled"@),
        Setting::MemosEnvVars => lookup(section_entries(memos, "env"@), "vars"@),
        Setting::BackupsEnabled => lookup(launcher_section(top, "backups"@), "enabled"@),
        Setting::BackupsPath => lookup(launcher_section(top, "backups"@), "path"@),
        Setting::EnvEnabled => lookup(launcher_section(top, "env"@), "enabled"@),
        Setting::EnvVars => lookup(launcher_section(top, "env"@), "vars"@),
        Setting::MigrationsEnabled => lookup(launcher_section(top, "migrations"@), "enabled"@),
        Setting::LogEnabled => lookup(launcher_section(top, "log"@), "enabled"@),
        Setting::RemoteEnabled => lookup(launcher_section(top, "remote"@), "enabled"@),
        Setting::RemoteUrl => lookup(launcher_section(top, "remote"@), "url"@),
        Setting::RemoteUserAgent => lookup(launcher_section(top, "remote"@), "user_agent"@),
        Setting::UpdaterEnabled => lookup(launcher_section(top, "updater"@), "enabled"@),
        Setting::WindowCenter => lookup(launcher_section(top, "window"@), "center"@),
        Setting::WindowFullscreen => lookup(launcher_section(top, "window"@), "fullscreen"@),
        Setting::WindowResizable => lookup(launcher_section(top, "window"@), "resizable"@),
        Setting::WindowMaximized => lookup(launcher_section(top, "window"@), "maximized"@),
        Setting::WindowWidth => lookup(launcher_section(top, "window"@), "width"@),
        Setting::WindowHeight => lookup(launcher_section(top, "window"@), "height"@),
        Setting::WindowX => lookup(launcher_section(top, "window"@), "x"@),
        Setting::WindowY => lookup(launcher_section(top, "window"@), "y"@),
        Setting::WindowHideMenuBar => lookup(launcher_section(top, "window"@), "hide_menu_bar"@),
        Setting::WindowTheme => lookup(launcher_section(top, "window"@), "theme"@),
        Setting::WindowLanguage => lookup(launcher_section(top, "window"@), "language"@),
    }
}

/// The value that `setting` has in the typed document `config`, as a tree.
pub open spec fn setting_tree(config: ConfigView, setting: Setting) -> Tree {
    match setting {
        Setting::MemosBinaryPath => text_tree(config.memos.binary_path),
        Setting::MemosWorkingDir => text_tree(config.memos.working_dir),
        Setting::MemosData => text_tree(config.memos.data),
        Setting::MemosMode => text_tree(config.memos.mode),
        Setting::MemosAddr => text_tree(config.memos.addr),
        Setting::MemosPort => number_tree(of_u16(config.memos.port)),
        Setting::MemosEnvEnabled => flag_tree(config.memos.env.enabled),
        Setting::MemosEnvVars => variables_tree(config.memos.env.vars),
        Setting::BackupsEnabled => flag_tree(config.memospot.backups.enabled),
        Setting::BackupsPath => text_tree(config.memospot.backups.path),
        Setting::EnvEnabled => flag_tree(config.memospot.env.enabled),
        Setting::EnvVars => variables_tree(config.memospot.env.vars),
        Setting::MigrationsEnabled => flag_tree(config.memospot.migrations),
        Setting::LogEnabled => flag_tree(config.memospot.log),
        Setting::RemoteEnabled => flag_tree(config.memospot.remote.enabled),
        Setting::RemoteUrl => text_tree(config.memospot.remote.url),
        Setting::RemoteUserAgent => text_tree(config.memospot.remote.user_agent),
        Setting::UpdaterEnabled => flag_tree(config.memospot.updater),
        Setting::WindowCenter => flag_tree(config.memospot.window.center),
        Setting::WindowFullscreen => flag_tree(config.memospot.window.fullscreen),
        Setting::WindowResizable => flag_tree(config.memospot.window.resizable),
        Setting::WindowMaximized => flag_tree(config.memospot.window.maximized),
        Setting::WindowWidth => number_tree(of_u32(config.memospot.window.width)),
        Setting::WindowHeight => number_tree(of_u32(config.memospot.window.height)),
        Setting::WindowX => number_tree(of_i32(config.memospot.window.x)),
        Setting::WindowY => number_tree(of_i32(config.memospot.window.y)),
        Setting::WindowHideMenuBar => flag_tree(config.memospot.window.hide_menu_bar),
        Setting::WindowTheme => text_tree(config.memospot.window.theme),
        Setting::WindowLanguage => text_tree(config.memospot.window.language),
    }
}

/// What is read for a setting: the value that the document mentions for
/// it, or the default where the document mentions none.
pub open spec fn mentioned_or(found: Option<Tree>, default: Tree) -> Tree {
    match found {
        Some(value) => value,
        None => default,
    }
}

/// A flag without fault is read as the document has it, or as the default.
pub proof fn lemma_flag_is_read(inner: Entries, name: Seq<char>, default: Option<bool>)
    requires
        flag_fault(inner, name) is None,
    ensures
        flag_tree(flag_value(inner, name, default)) == mentioned_or(
            lookup(inner, name),
            flag_tree(default),
        ),
{
}

/// A text without fault is read as the document has it, or as the default.
pub proof fn lemma_text_is_read(inner: Entries, name: Seq<char>, default: Option<Seq<char>>)
    requires
        text_fault(inner, name) is None,
    ensures
        text_tree(text_value(inner, name, default)) == mentioned_or(
            lookup(inner, name),
            text_tree(default),
        ),
{
}

/// A number without fault is read as the document has it, or as the
/// default.
pub proof fn lemma_number_is_read(
    inner: Entries,
    name: Seq<char>,
    default: Option<int>,
    low: int,
    high: int,
)
    requires
        number_fault(inner, name, low, high) is None,
    ensures
        number_tree(number_value(inner, name, default)) == mentioned_or(
            lookup(inner, name),
            number_tree(default),
        ),
        lookup(inner, name) matches Some(Tree::Int(n)) ==> low <= n <= high,
{
}

/// Variables without fault are read as the document has them, or as the
/// default.
pub proof fn lemma_variables_are_read(
    inner: Entries,
    name: Seq<char>,
    default: Option<Seq<(Seq<char>, Seq<char>)>>,
)
    requires
        variables_fault(inner, name) is None,
    ensures
        variables_tree(variables_value(inner, name, default)) == mentioned_or(
            lookup(inner, name),
            variables_tree(default),
        ),
{
    match lookup(inner, name) {
        Some(Tree::Dict(vars)) => {
            assert(all_text(vars));
            assert forall|i: int| 0 <= i < vars.len() implies variable_entries(
                variables_of(vars),
            )[i] == vars[i] by {
                assert(vars[i].1 is Text);
            }
            assert(variable_entries(variables_of(vars)) =~= vars);
        },
        _ => {},
    }
}

/// Loading takes every setting from the document where the document
/// mentions it, and from the defaults where it does not: for any document
/// that loads, whatever settings it holds and whatever it leaves out. The
/// document is the file's tree overlaid with the overrides and brought
/// into the current shape.
pub proof fn lemma_unmentioned_settings_are_defaults(
    file: Option<Tree>,
    env: Option<Tree>,
    setting: Setting,
)
    requires
        loaded(file, env) is Ok,
    ensures
        setting_tree(loaded(file, env)->Ok_0, setting) == mentioned_or(
            mentioned(migrated(raw_tree(file, env)), setting),
            setting_tree(default_config(), setting),
        ),
{
    let tree = migrated(raw_tree(file, env));
    assert(config_problem(tree, false) is None);
    let top = tree->Dict_0;
    let memos = section_entries(top, "memos"@);
    let memos_env = section_entries(memos, "env"@);
    let backups = launcher_section(top, "backups"@);
    let launcher_env = launcher_section(top, "env"@);
    let remote = launcher_section(top, "remote"@);
    let window = launcher_section(top, "window"@);
    let d = default_config();
    match setting {
        Setting::MemosBinaryPath => lemma_text_is_read(memos, "binary_path"@, d.memos.binary_path),
        Setting::MemosWorkingDir => lemma_text_is_read(memos, "working_dir"@, d.memos.working_dir),
        Setting::MemosData => lemma_text_is_read(memos, "data"@, d.memos.data),
        Setting::MemosMode => lemma_text_is_read(memos, "mode"@, d.memos.mode),
        Setting::MemosAddr => lemma_text_is_read(memos, "addr"@, d.memos.addr),
        Setting::MemosPort => lemma_number_is_read(memos, "port"@, of_u16(d.memos.port), 0, 65535),
        Setting::MemosEnvEnabled => lemma_flag_is_read(memos_env, "enabled"@, d.memos.env.enabled),
        Setting::MemosEnvVars => lemma_variables_are_read(memos_env, "vars"@, d.memos.env.vars),
        Setting::BackupsEnabled => lemma_flag_is_read(
            backups,
            "enabled"@,
            d.memospot.backups.enabled,
        ),
        Setting::BackupsPath => lemma_text_is_read(backups, "path"@, d.memospot.backups.path),
        Setting::EnvEnabled => lemma_flag_is_read(launcher_env, "enabled"@, d.memospot.env.enabled),
        Setting::EnvVars => lemma_variables_are_read(launcher_env, "vars"@, d.memospot.env.vars),
        Setting::MigrationsEnabled => lemma_flag_is_read(
            launcher_section(top, "migrations"@),
            "enabled"@,
            d.memospot.migrations,
        ),
        Setting::LogEnabled => lemma_flag_is_read(
            launcher_section(top, "log"@),
            "enabled"@,
            d.memospot.log,
        ),
        Setting::RemoteEnabled => lemma_flag_is_read(remote, "enabled"@, d.memospot.remote.enabled),
        Setting::RemoteUrl => lemma_text_is_read(remote, "url"@, d.memospot.remote.url),
        Setting::RemoteUserAgent => lemma_text_is_read(
            remote,
            "user_agent"@,
            d.memospot.remote.user_agent,
        ),
        Setting::UpdaterEnabled => lemma_flag_is_read(
            launcher_section(top, "updater"@),
            "enabled"@,
            d.memospot.updater,
        ),
        Setting::WindowCenter => lemma_flag_is_read(window, "center"@, d.memospot.window.center),
        Setting::WindowFullscreen => lemma_flag_is_read(
            window,
            "fullscreen"@,
            d.memospot.window.fullscreen,
        ),
        Setting::WindowResizable => lemma_flag_is_read(
            window,
            "resizable"@,
            d.memospot.window.resizable,
        ),
        Setting::WindowMaximized => lemma_flag_is_read(
            window,
            "maximized"@,
            d.memospot.window.maximized,
        ),
        Setting::WindowWidth => lemma_number_is_read(
            window,
            "width"@,
            of_u32(d.memospot.window.width),
            0,
            MAX_EXTENT as int,
        ),
        Setting::WindowHeight => lemma_number_is_read(
            window,
            "height"@,
            of_u32(d.memospot.window.height),
            0,
            MAX_EXTENT as int,
        ),
        Setting::WindowX => lemma_number_is_read(
            window,
            "x"@,
            of_i32(d.memospot.window.x),
            MIN_COORDINATE as int,
            MAX_COORDINATE as int,
        ),
        Setting::WindowY => lemma_number_is_read(
            window,
            "y"@,
            of_i32(d.memospot.window.y),
            MIN_COORDINATE as int,
            MAX_COORDINATE as int,
        ),
        Setting::WindowHideMenuBar => lemma_flag_is_read(
            window,
            "hide_menu_bar"@,
            d.memospot.window.hide_menu_bar,
        ),
        Setting::WindowTheme => lemma_text_is_read(window, "theme"@, d.memospot.window.theme),
        Setting::WindowLanguage => lemma_text_is_read(
            window,
            "language"@,
            d.memospot.window.language,
        ),
    }
}

/// A file in the current shape that is loaded without overrides gives
/// every setting that it mentions the value it has in the file, and every
/// setting that it leaves out its default, whatever settings those are.
pub proof fn lemma_partial_file(file: Tree, setting: Setting)
    requires
        loaded(Some(file), None) is Ok,
        server_env(file) matches Some(env) ==> !is_legacy_env(env),
    ensures
        setting_tree(loaded(Some(file), None)->Ok_0, setting) == mentioned_or(
            mentioned(file, setting),
            setting_tree(default_config(), setting),
        ),
{
    lemma_current_shape_is_kept(file);
    lemma_unmentioned_settings_are_defaults(Some(file), None, setting);
}

} // verus!
