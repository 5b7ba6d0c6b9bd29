//! The launcher's configuration document: its typed form, its defaults, the
//! raw tree it is read from, schema migrations, and atomic persistence.

pub mod emit;
pub mod extract;
pub mod fields;
pub mod history;
pub mod laws;
pub mod load;
pub mod migration;
pub mod save;
pub mod settings;
pub mod startup;
pub mod tree;
pub mod types;

pub use crate::config::extract::ConfigError;
pub use crate::config::types::{Config, Log, Memos, Memospot};
