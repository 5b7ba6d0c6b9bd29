//! The runtime configuration: what the launcher resolved at startup,
//! together with the live configuration document and the snapshot of it
//! that was loaded, for change detection.

use vstd::prelude::*;
use crate::config::types::{Config, ConfigView};

verus! {

/// The paths used throughout the launcher.
#[derive(Debug, PartialEq)]
pub struct RuntimeConfigPaths {
    /// The server binary.
    pub memos_bin: String,
    /// The server's data directory.
    pub memos_data: String,
    /// The server's database file.
    pub memos_db_file: String,
    /// The launcher binary.
    pub memospot_bin: String,
    /// The launcher's configuration file.
    pub memospot_config_file: String,
    /// The launcher's working directory.
    pub memospot_cwd: String,
    /// The launcher's data directory.
    pub memospot_data: String,
}

/// The runtime configuration.
#[derive(Debug, PartialEq)]
pub struct RuntimeConfig {
    pub paths: RuntimeConfigPaths,
    /// The server's address; it ends with a slash.
    pub memos_url: String,
    /// The `User-Agent` header sent to the server.
    pub user_agent: String,
    /// Whether the launcher manages a local server.
    pub is_managed_server: bool,
    /// The live configuration; it may change while the launcher runs.
    pub yaml: Config,
    /// The configuration as it was loaded; it never changes.
    pub __yaml__: Config,
}

/// The mathematical form of the paths.
pub struct RuntimeConfigPathsView {
    pub memos_bin: Seq<char>,
    pub memos_data: Seq<char>,
    pub memos_db_file: Seq<char>,
    pub memospot_bin: Seq<char>,
    pub memospot_config_file: Seq<char>,
    pub memospot_cwd: Seq<char>,
    pub memospot_data: Seq<char>,
}

/// The mathematical form of the runtime configuration; `loaded` is the
/// configuration as it was loaded.
pub struct RuntimeConfigView {
    pub paths: RuntimeConfigPathsView,
    pub memos_url: Seq<char>,
    pub user_agent: Seq<char>,
    pub is_managed_server: bool,
    pub yaml: ConfigView,
    pub loaded: ConfigView,
}

impl View for RuntimeConfigPaths {
    type V = RuntimeConfigPathsView;

    open spec fn view(&self) -> RuntimeConfigPathsView {
        RuntimeConfigPathsView {
            memos_bin: self.memos_bin@,
            memos_data: self.memos_data@,
            memos_db_file: self.memos_db_file@,
            memospot_bin: self.memospot_bin@,
            memospot_config_file: self.memospot_config_file@,
            memospot_cwd: self.memospot_cwd@,
            memospot_data: self.memospot_data@,
        }
    }
}

impl View for RuntimeConfig {
    type V = RuntimeConfigView;

    open spec fn view(&self) -> RuntimeConfigView {
        RuntimeConfigView {
            paths: self.paths@,
            memos_url: self.memos_url@,
            user_agent: self.user_agent@,
            is_managed_server: self.is_managed_server,
            yaml: self.yaml@,
            loaded: self.__yaml__@,
        }
    }
}

/// The runtime configuration before anything is resolved: no paths, no
/// address, a managed server, and the default document twice.
pub open spec fn initial_runtime_config() -> RuntimeConfigView {
    RuntimeConfigView {
        paths: RuntimeConfigPathsView {
            memos_bin: Seq::empty(),
            memos_data: Seq::empty(),
            memos_db_file: Seq::empty(),
            memospot_bin: Seq::empty(),
            memospot_config_file: Seq::empty(),
            memospot_cwd: Seq::empty(),
            memospot_data: Seq::empty(),
        },
        memos_url: Seq::empty(),
        user_agent: Seq::empty(),
        is_managed_server: true,
        yaml: crate::config::types::default_config(),
        loaded: crate::config::types::default_config(),
    }
}

impl Clone for RuntimeConfigPaths {
    fn clone(&self) -> (r: Self)
        ensures
            r@ == self@,
    {
        RuntimeConfigPaths {
            memos_bin: self.memos_bin.clone(),
            memos_data: self.memos_data.clone(),
            memos_db_file: self.memos_db_file.clone(),
            memospot_bin: self.memospot_bin.clone(),
            memospot_config_file: self.memospot_config_file.clone(),
            memospot_cwd: self.memospot_cwd.clone(),
            memospot_data: self.memospot_data.clone(),
        }
    }
}

impl Clone for RuntimeConfig {
    fn clone(&self) -> (r: Self)
        ensures
            r@ == self@,
    {
        RuntimeConfig {
            paths: self.paths.clone(),
            memos_url: self.memos_url.clone(),
            user_agent: self.user_agent.clone(),
            is_managed_server: self.is_managed_server,
            yaml: self.yaml.clone(),
            __yaml__: self.__yaml__.clone(),
        }
    }
}

impl Default for RuntimeConfig {
    fn default() -> (r: Self)
        ensures
            r@ == initial_runtime_config(),
    {
        RuntimeConfig::new()
    }
}

/// The single owner of the canonical runtime configuration. Readers take
/// copies out, writers replace the whole value; the owner guards the store
/// with a lock and holds it across neither.
#[derive(Debug)]
pub struct RuntimeConfigStore {
    current: RuntimeConfig,
}

impl View for RuntimeConfigStore {
    type V = RuntimeConfigView;

    closed spec fn view(&self) -> RuntimeConfigView {
        self.current@
    }
}

impl RuntimeConfig {
    /// The runtime configuration before anything is resolved.
    pub fn new() -> (r: RuntimeConfig)
        ensures
            r@ == initial_runtime_config(),
    {
        RuntimeConfig {
            paths: RuntimeConfigPaths {
                memos_bin: String::new(),
                memos_data: String::new(),
                memos_db_file: String::new(),
                memospot_bin: String::new(),
                memospot_config_file: String::new(),
                memospot_cwd: String::new(),
                memospot_data: String::new(),
            },
            is_managed_server: true,
            memos_url: String::new(),
            user_agent: String::new(),
            yaml: Config::default(),
            __yaml__: Config::default(),
        }
    }

    /// A store that holds the initial runtime configuration.
    pub fn global_store() -> (r: RuntimeConfigStore)
        ensures
            r@ == initial_runtime_config(),
    {
        RuntimeConfigStore { current: RuntimeConfig::new() }
    }

    /// A copy of the configuration that `store` holds.
    pub fn from_global_store(store: &RuntimeConfigStore) -> (r: RuntimeConfig)
        ensures
            r@ == store@,
    {
        store.current.clone()
    }

    /// Replaces what `store` holds by a copy of this configuration.
    pub fn to_global_store(&self, store: &mut RuntimeConfigStore)
        ensures
            final(store)@ == self@,
    {
        store.current = self.clone();
    }

    /// Whether the live configuration differs from the one that was loaded,
    /// so that it has to be persisted before the launcher exits.
    pub fn has_changed(&self) -> (r: bool)
        ensures
            r == (self@.yaml != self@.loaded),
    {
        !self.yaml.same_as(&self.__yaml__)
    }
}

} // verus!
