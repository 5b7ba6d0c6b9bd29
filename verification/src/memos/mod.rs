//! Supervision of the managed server: its environment, its address, how it
//! is launched, watched until ready, tracked by PID and recovered.

pub mod env;
pub mod launch;
pub mod pidfile;
pub mod readiness;
pub mod url;
pub mod version;
