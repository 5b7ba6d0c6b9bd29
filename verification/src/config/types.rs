//! The typed configuration document.
//!
//! Every leaf is optional: a missing value means "use the default", never an
//! error. The document has two sections, the settings of the managed server
//! and those of the launcher itself.

use vstd::prelude::*;

verus! {

/// A list of environment variables in the order they were written; a name
/// is looked up at its first occurrence.
pub type Variables = Vec<(String, String)>;

/// Custom environment variables and whether they are applied.
#[derive(Debug, PartialEq)]
pub struct EnvironmentVariables {
    pub enabled: Option<bool>,
    pub vars: Option<Variables>,
}

/// Settings of the managed server.
#[derive(Debug, PartialEq)]
pub struct Memos {
    /// Path of the server binary.
    pub binary_path: Option<String>,
    /// Working directory of the server.
    pub working_dir: Option<String>,
    /// Directory where the server keeps its database and assets.
    pub data: Option<String>,
    /// Operating mode: `prod`, `dev` or `demo`. Each uses its own database.
    pub mode: Option<String>,
    /// Address the server binds to.
    pub addr: Option<String>,
    /// Port used last; 0 asks for a free one.
    pub port: Option<u16>,
    /// Custom environment variables passed to the server.
    pub env: EnvironmentVariables,
}

/// Backup policy.
#[derive(Debug, PartialEq)]
pub struct Backups {
    pub enabled: Option<bool>,
    /// Directory where backups are stored.
    pub path: Option<String>,
}

/// Whether database migrations run.
#[derive(Debug, PartialEq)]
pub struct Migrations {
    pub enabled: Option<bool>,
}

/// Whether the launcher writes a log.
#[derive(Debug, PartialEq)]
pub struct Log {
    pub enabled: Option<bool>,
}

/// A remote server to use in place of the managed one.
#[derive(Debug, PartialEq)]
pub struct RemoteServer {
    pub enabled: Option<bool>,
    pub url: Option<String>,
    pub user_agent: Option<String>,
}

/// Updater policy.
#[derive(Debug, PartialEq)]
pub struct Updater {
    pub enabled: Option<bool>,
}

/// Geometry and appearance of the main window.
#[derive(Debug, PartialEq)]
pub struct Window {
    pub center: Option<bool>,
    pub fullscreen: Option<bool>,
    pub resizable: Option<bool>,
    pub maximized: Option<bool>,
    pub width: Option<u32>,
    pub height: Option<u32>,
    pub x: Option<i32>,
    pub y: Option<i32>,
    pub hide_menu_bar: Option<bool>,
    pub theme: Option<String>,
    pub language: Option<String>,
}

/// Settings of the launcher.
#[derive(Debug, PartialEq)]
pub struct Memospot {
    pub backups: Backups,
    /// Custom environment variables of the launcher itself.
    pub env: EnvironmentVariables,
    pub migrations: Migrations,
    pub log: Log,
    pub remote: RemoteServer,
    pub updater: Updater,
    pub window: Window,
}

/// The configuration document.
#[derive(Debug, PartialEq)]
pub struct Config {
    pub memos: Memos,
    pub memospot: Memospot,
}

/// The mathematical form of a list of environment variables with its switch.
pub struct EnvironmentVariablesView {
    pub enabled: Option<bool>,
    pub vars: Option<Seq<(Seq<char>, Seq<char>)>>,
}

/// The mathematical form of the server's settings.
pub struct MemosView {
    pub binary_path: Option<Seq<char>>,
    pub working_dir: Option<Seq<char>>,
    pub data: Option<Seq<char>>,
    pub mode: Option<Seq<char>>,
    pub addr: Option<Seq<char>>,
    pub port: Option<u16>,
    pub env: EnvironmentVariablesView,
}

/// The mathematical form of the backup policy.
pub struct BackupsView {
    pub enabled: Option<bool>,
    pub path: Option<Seq<char>>,
}

/// The mathematical form of the remote server's settings.
pub struct RemoteServerView {
    pub enabled: Option<bool>,
    pub url: Option<Seq<char>>,
    pub user_agent: Option<Seq<char>>,
}

/// The mathematical form of the window's settings.
pub struct WindowView {
    pub center: Option<bool>,
    pub fullscreen: Option<bool>,
    pub resizable: Option<bool>,
    pub maximized: Option<bool>,
    pub width: Option<u32>,
    pub height: Option<u32>,
    pub x: Option<i32>,
    pub y: Option<i32>,
    pub hide_menu_bar: Option<bool>,
    pub theme: Option<Seq<char>>,
    pub language: Option<Seq<char>>,
}

/// The mathematical form of the launcher's settings; a section that holds nothing but a
/// switch is that switch.
pub struct MemospotView {
    pub backups: BackupsView,
    pub env: EnvironmentVariablesView,
    pub migrations: Option<bool>,
    pub log: Option<bool>,
    pub remote: RemoteServerView,
    pub updater: Option<bool>,
    pub window: WindowView,
}

/// The mathematical form of the configuration document.
pub struct ConfigView {
    pub memos: MemosView,
    pub memospot: MemospotView,
}

impl View for EnvironmentVariables {
    type V = EnvironmentVariablesView;

    open spec fn view(&self) -> EnvironmentVariablesView {
        EnvironmentVariablesView { enabled: self.enabled, vars: self.vars.deep_view() }
    }
}

impl View for Memos {
    type V = MemosView;

    open spec fn view(&self) -> MemosView {
        MemosView {
            binary_path: self.binary_path.deep_view(),
            working_dir: self.working_dir.deep_view(),
            data: self.data.deep_view(),
            mode: self.mode.deep_view(),
            addr: self.addr.deep_view(),
            port: self.port,
            env: self.env@,
        }
    }
}

impl View for Backups {
    type V = BackupsView;

    open spec fn view(&self) -> BackupsView {
        BackupsView { enabled: self.enabled, path: self.path.deep_view() }
    }
}

impl View for RemoteServer {
    type V = RemoteServerView;

    open spec fn view(&self) -> RemoteServerView {
        RemoteServerView {
            enabled: self.enabled,
            url: self.url.deep_view(),
            user_agent: self.user_agent.deep_view(),
        }
    }
}

impl View for Window {
    type V = WindowView;

    open spec fn view(&self) -> WindowView {
        WindowView {
            center: self.center,
            fullscreen: self.fullscreen,
            resizable: self.resizable,
            maximized: self.maximized,
            width: self.width,
            height: self.height,
            x: self.x,
            y: self.y,
            hide_menu_bar: self.hide_menu_bar,
            theme: self.theme.deep_view(),
            language: self.language.deep_view(),
        }
    }
}

impl View for Memospot {
    type V = MemospotView;

    open spec fn view(&self) -> MemospotView {
        MemospotView {
            backups: self.backups@,
            env: self.env@,
            migrations: self.migrations.enabled,
            log: self.log.enabled,
            remote: self.remote@,
            updater: self.updater.enabled,
            window: self.window@,
        }
    }
}

impl View for Config {
    type V = ConfigView;

    open spec fn view(&self) -> ConfigView {
        ConfigView { memos: self.memos@, memospot: self.memospot@ }
    }
}

/// The default settings of a list of custom environment variables.
pub open spec fn default_environment() -> EnvironmentVariablesView {
    EnvironmentVariablesView { enabled: Some(false), vars: None }
}

/// The default window.
pub open spec fn default_window() -> WindowView {
    WindowView {
        center: Some(true),
        fullscreen: Some(false),
        resizable: Some(true),
        maximized: Some(false),
        width: Some(1280),
        height: Some(720),
        x: Some(0),
        y: Some(0),
        hide_menu_bar: Some(false),
        theme: None,
        language: None,
    }
}

/// The default settings of the launcher.
pub open spec fn default_memospot() -> MemospotView {
    MemospotView {
        backups: BackupsView { enabled: Some(true), path: None },
        env: default_environment(),
        migrations: Some(true),
        log: Some(false),
        remote: RemoteServerView { enabled: Some(false), url: None, user_agent: None },
        updater: Some(true),
        window: default_window(),
    }
}

/// The default settings of a server that listens on `port`.
pub open spec fn default_memos(port: u16) -> MemosView {
    MemosView {
        binary_path: None,
        working_dir: None,
        data: None,
        mode: Some("prod"@),
        addr: Some("127.0.0.1"@),
        port: Some(port),
        env: default_environment(),
    }
}

/// The port of a server section built on its own.
pub const DEFAULT_SERVER_PORT: u16 = 5230;

/// The compiled-in defaults of the configuration document: the server in
/// production mode on the loopback address, on a port yet to be found.
pub open spec fn default_config() -> ConfigView {
    ConfigView { memos: default_memos(0), memospot: default_memospot() }
}

impl Default for EnvironmentVariables {
    fn default() -> (r: Self)
        ensures
            r@ == default_environment(),
    {
        EnvironmentVariables { enabled: Some(false), vars: None }
    }
}

impl Default for Memos {
    fn default() -> (r: Self)
        ensures
            r@ == default_memos(DEFAULT_SERVER_PORT),
    {
        Memos {
            binary_path: None,
            working_dir: None,
            data: None,
            mode: Some(String::from_str("prod")),
            addr: Some(String::from_str("127.0.0.1")),
            port: Some(DEFAULT_SERVER_PORT),
            env: EnvironmentVariables::default(),
        }
    }
}

impl Default for Backups {
    fn default() -> (r: Self)
        ensures
            r@ == default_memospot().backups,
    {
        Backups { enabled: Some(true), path: None }
    }
}

impl Default for Migrations {
    fn default() -> (r: Self)
        ensures
            r.enabled == Some(true),
    {
        Migrations { enabled: Some(true) }
    }
}

impl Default for Log {
    fn default() -> (r: Self)
        ensures
            r.enabled == Some(false),
    {
        Log { enabled: Some(false) }
    }
}

impl Default for RemoteServer {
    fn default() -> (r: Self)
        ensures
            r@ == default_memospot().remote,
    {
        RemoteServer { enabled: Some(false), url: None, user_agent: None }
    }
}

impl Default for Updater {
    fn default() -> (r: Self)
        ensures
            r.enabled == Some(true),
    {
        Updater { enabled: Some(true) }
    }
}

impl Default for Window {
    fn default() -> (r: Self)
        ensures
            r@ == default_window(),
    {
        Window {
            center: Some(true),
            fullscreen: Some(false),
            resizable: Some(true),
            maximized: Some(false),
            width: Some(1280),
            height: Some(720),
            x: Some(0),
            y: Some(0),
            hide_menu_bar: Some(false),
            theme: None,
            language: None,
        }
    }
}

impl Default for Memospot {
    fn default() -> (r: Self)
        ensures
            r@ == default_memospot(),
    {
        Memospot {
            backups: Backups::default(),
            env: EnvironmentVariables::default(),
            migrations: Migrations::default(),
            log: Log::default(),
            remote: RemoteServer::default(),
            updater: Updater::default(),
            window: Window::default(),
        }
    }
}

impl Default for Config {
    fn default() -> (r: Self)
        ensures
            r@ == default_config(),
    {
        let mut memos = Memos::default();
        memos.port = Some(0);
        Config { memos, memospot: Memospot::default() }
    }
}

impl Config {
    /// The default configuration.
    pub fn new() -> (r: Config)
        ensures
            r@ == default_config(),
    {
        Config::default()
    }
}

} // verus!
