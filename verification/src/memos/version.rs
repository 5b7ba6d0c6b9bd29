//! The version that the managed server reported when it became ready.

use vstd::prelude::*;

verus! {

/// Holds the server's version; empty until the server has reported one.
///
/// One store is shared by the readiness poll, which writes it, and the user
/// interface, which reads it: the owner wraps it in a lock and hands
/// references out.
#[derive(Debug)]
pub struct MemosVersionStore {
    version: String,
}

impl View for MemosVersionStore {
    type V = Seq<char>;

    closed spec fn view(&self) -> Seq<char> {
        self.version@
    }
}

impl MemosVersionStore {
    /// A store that holds no version yet.
    pub fn instance() -> (r: MemosVersionStore)
        ensures
            r@ == Seq::<char>::empty(),
    {
        MemosVersionStore { version: String::new() }
    }

    /// The version stored last; empty if none was.
    pub fn get(&self) -> (r: String)
        ensures
            r@ == self@,
    {
        self.version.clone()
    }

    /// Replaces the stored version by `version`.
    pub fn set(&mut self, version: String)
        ensures
            final(self)@ == version@,
    {
        self.version = version;
    }
}

} // verus!
