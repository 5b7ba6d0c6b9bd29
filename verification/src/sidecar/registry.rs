//! The registry of live children, keyed by process id.

use vstd::prelude::*;
use std::collections::HashMap;
use vstd::std_specs::iter::IteratorSpec;

verus! {

/// The children spawned by the launcher that have not terminated, each
/// with the handle `H` through which it is waited for and killed.
pub struct ChildRegistry<H> {
    children: HashMap<u32, H>,
}

impl<H> View for ChildRegistry<H> {
    type V = Map<u32, H>;

    closed spec fn view(&self) -> Map<u32, H> {
        self.children@
    }
}

impl<H> ChildRegistry<H> {
    /// A registry without children.
    pub fn new() -> (r: Self)
        ensures
            r@ == Map::<u32, H>::empty(),
    {
        ChildRegistry { children: HashMap::new() }
    }

    /// Registers the child `pid` with its handle; a child registered
    /// under the same id before is replaced and handed back.
    pub fn track(&mut self, pid: u32, handle: H) -> (r: Option<H>)
        ensures
            final(self)@ == old(self)@.insert(pid, handle),
            match r {
                Some(h) => old(self)@.contains_key(pid) && h == old(self)@[pid],
                None => !old(self)@.contains_key(pid),
            },
    {
        broadcast use vstd::std_specs::hash::group_hash_axioms;

        self.children.insert(pid, handle)
    }

    /// Removes the child `pid`, which has terminated, and hands its handle
    /// back if it was registered.
    pub fn forget(&mut self, pid: u32) -> (r: Option<H>)
        ensures
            final(self)@ == old(self)@.remove(pid),
            match r {
                Some(h) => old(self)@.contains_key(pid) && h == old(self)@[pid],
                None => !old(self)@.contains_key(pid),
            },
    {
        broadcast use vstd::std_specs::hash::group_hash_axioms;

        self.children.remove(&pid)
    }

    /// The handle of the child `pid`, if it is registered.
    pub fn handle(&self, pid: u32) -> (r: Option<&H>)
        ensures
            match r {
                Some(h) => self@.contains_key(pid) && *h == self@[pid],
                None => !self@.contains_key(pid),
            },
    {
        broadcast use vstd::std_specs::hash::group_hash_axioms;

        self.children.get(&pid)
    }

    /// The number of registered children.
    pub fn len(&self) -> (r: usize)
        ensures
            r == self@.len(),
    {
        self.children.len()
    }

    /// The ids of all registered children, each once: the snapshot that a
    /// bulk operation walks, so that children that terminate meanwhile do
    /// not disturb it.
    pub fn pids(&self) -> (r: Vec<u32>)
        ensures
            r@.to_set() == self@.dom(),
            r@.no_duplicates(),
    {
        broadcast use vstd::std_specs::hash::group_hash_axioms;

        let mut pids: Vec<u32> = Vec::new();
        let ghost all = vstd::std_specs::hash::spec_keys_iter(&self.children).remaining();
        for pid in it: self.children.keys()
            invariant
                it.seq() == all,
                pids@ == all.take(it.index() as int).unref(),
        {
            pids.push(*pid);
            assert(pids@ =~= all.take(it.index() + 1).unref());
        }
        proof {
            assert(all.take(all.len() as int) == all);
            assert(pids@ == all.unref());
            assert forall|i: int, j: int| 0 <= i < j < pids@.len() implies pids@[i] != pids@[j] by {
                assert(all[i] != all[j]);
                assert(*all[i] == pids@[i] && *all[j] == pids@[j]);
            }
        }
        pids
    }
}

} // verus!
