//! The migrations of the server's database: when they run, and the parts
//! of them that work on plain values.

pub mod resource_path;
pub mod run;
