//! Child processes: how a command is described, what a running child
//! reports, how its output lines become events, which children are alive,
//! and how they are stopped.

pub mod command;
pub mod event;
pub mod registry;
pub mod stop;
