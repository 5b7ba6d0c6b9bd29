//! The platforms the launcher runs on. Where they differ, the caller says
//! which one it is and the library takes the matching path.

use vstd::prelude::*;

verus! {

/// The family of operating systems the launcher runs on.
#[derive(Clone, Copy, Debug, PartialEq, Eq, Structural)]
pub enum Platform {
    Posix,
    Other,
}

} // verus!
