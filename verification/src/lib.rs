//! Supervision core of a desktop launcher for a bundled local web server:
//! port allocation, configuration reconciliation, child-process lifecycle,
//! readiness polling, orphan recovery and graceful shutdown.
//!
//! The library decides; it does no input or output of its own. Wherever
//! work alternates with the outside world, the decisions are a function
//! from a state and an event to the next state and an action, and the
//! program around the library performs the action and reports the event.
//! Every function states what it returns as a contract over a mathematical
//! model, and Verus proves that it does.

pub mod config;
pub mod decimal;
pub mod dialog;
pub mod homedir;
pub mod init;
pub mod memos;
pub mod menu;
pub mod migration;
pub mod platform;
pub mod portpicker;
pub mod retry;
pub mod routes;
pub mod runtime_config;
pub mod shutdown;
pub mod sidecar;
pub mod sqlite;
pub mod text;
pub mod updater;
pub mod utils;
pub mod window;
pub mod writable;
