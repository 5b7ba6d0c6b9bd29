//! The history of migrations: which steps were completed, and when.
//!
//! A step with a recorded time is never applied again. A step without one
//! is applied and then recorded; a crash between the two makes it run
//! again at the next start, which is why every step is idempotent.

use vstd::prelude::*;
use crate::config::tree::{lemma_lookup_store, lemma_position_is, lookup, position, store};
use crate::text::{chars_of, same_chars};

verus! {

/// The migration steps that were completed, each with the time of its
/// completion in seconds since the epoch.
#[derive(Debug)]
pub struct MigrationHistory {
    entries: Vec<(String, u64)>,
}

impl View for MigrationHistory {
    type V = Seq<(Seq<char>, u64)>;

    closed spec fn view(&self) -> Seq<(Seq<char>, u64)> {
        Seq::new(self.entries@.len(), |i: int| (self.entries@[i].0@, self.entries@[i].1))
    }
}

/// The steps among `steps` that `history` does not record, in their order.
pub open spec fn pending_steps(history: Seq<(Seq<char>, u64)>, steps: Seq<Seq<char>>) -> Seq<
    Seq<char>,
>
    decreases steps.len(),
{
    if steps.len() == 0 {
        Seq::empty()
    } else if lookup(history, steps.last()) is None {
        pending_steps(history, steps.drop_last()).push(steps.last())
    } else {
        pending_steps(history, steps.drop_last())
    }
}

/// The history `history` after the step `id` completed at `now`: a step
/// that is recorded keeps its time.
pub open spec fn recorded(history: Seq<(Seq<char>, u64)>, id: Seq<char>, now: u64) -> Seq<
    (Seq<char>, u64),
> {
    if lookup(history, id) is Some {
        history
    } else {
        store(history, id, now)
    }
}

impl MigrationHistory {
    /// A history without any step.
    pub fn new() -> (r: MigrationHistory)
        ensures
            r@ == Seq::<(Seq<char>, u64)>::empty(),
    {
        let r = MigrationHistory { entries: Vec::new() };
        assert(r@ =~= Seq::empty());
        r
    }

    fn find(&self, id: &str) -> (at: usize)
        ensures
            at == position(self@, id@),
            at <= self.entries.len(),
            self@.len() == self.entries.len(),
    {
        let wanted = chars_of(id);
        let mut i: usize = 0;
        while i < self.entries.len()
            invariant
                i <= self.entries.len(),
                self@.len() == self.entries.len(),
                wanted@ == id@,
                forall|j: int| 0 <= j < i ==> (#[trigger] self@[j]).0 != id@,
            decreases self.entries.len() - i,
        {
            let candidate = chars_of(self.entries[i].0.as_str());
            assert(self@[i as int].0 == self.entries@[i as int].0@);
            if same_chars(&candidate, &wanted) {
                proof {
                    lemma_position_is(self@, id@, i as int);
                }
                return i;
            }
            i += 1;
        }
        proof {
            lemma_position_is(self@, id@, i as int);
        }
        i
    }

    /// When the step `id` was completed, if it was.
    pub fn completed_at(&self, id: &str) -> (r: Option<u64>)
        ensures
            r == lookup(self@, id@),
    {
        let at = self.find(id);
        if at < self.entries.len() {
            Some(self.entries[at].1)
        } else {
            None
        }
    }

    /// Whether the step `id` has to be applied: it has no recorded time.
    pub fn is_pending(&self, id: &str) -> (r: bool)
        ensures
            r == lookup(self@, id@) is None,
    {
        self.completed_at(id).is_none()
    }

    /// Records that the step `id` completed at `now`. A step that is
    /// recorded keeps the time of its first completion.
    pub fn record(&mut self, id: &str, now: u64)
        ensures
            final(self)@ == recorded(old(self)@, id@, now),
    {
        let at = self.find(id);
        if at == self.entries.len() {
            self.entries.push((String::from_str(id), now));
            assert(self@ =~= store(old(self)@, id@, now));
        }
    }

    /// The steps among `steps` that have to be applied, in their order.
    pub fn pending(&self, steps: &Vec<String>) -> (r: Vec<String>)
        ensures
            r.deep_view() == pending_steps(self@, steps.deep_view()),
    {
        let ghost all = steps.deep_view();
        let mut todo: Vec<String> = Vec::new();
        let mut i: usize = 0;
        assert(all.take(0) =~= Seq::empty());
        assert(todo.deep_view() =~= Seq::empty());
        while i < steps.len()
            invariant
                i <= steps.len(),
                all == steps.deep_view(),
                todo.deep_view() == pending_steps(self@, all.take(i as int)),
            decreases steps.len() - i,
        {
            assert(all.take(i + 1).drop_last() == all.take(i as int));
            assert(all.take(i + 1).last() == steps@[i as int]@);
            if self.is_pending(steps[i].as_str()) {
                let ghost before = todo.deep_view();
                todo.push(steps[i].clone());
                assert(todo.deep_view() =~= before.push(steps@[i as int]@));
            }
            i += 1;
        }
        assert(all.take(steps.len() as int) == all);
        todo
    }
}

/// A step that is recorded is not pending, whatever is recorded after it,
/// and its time does not change.
pub proof fn lemma_recorded_step_stays(
    history: Seq<(Seq<char>, u64)>,
    id: Seq<char>,
    now: u64,
    other: Seq<char>,
    later: u64,
)
    ensures
        lookup(recorded(history, id, now), id) is Some,
        lookup(history, id) is None ==> lookup(recorded(history, id, now), id) == Some(now),
        lookup(recorded(recorded(history, id, now), other, later), id) == lookup(
            recorded(history, id, now),
            id,
        ),
{
    lemma_lookup_store(history, id, now, id);
    let once = recorded(history, id, now);
    lemma_lookup_store(once, other, later, id);
}

/// No step that the history records is among the pending ones, and every
/// pending one is one of the steps asked about.
pub proof fn lemma_pending_excludes_recorded(
    history: Seq<(Seq<char>, u64)>,
    steps: Seq<Seq<char>>,
)
    ensures
        forall|i: int|
            0 <= i < pending_steps(history, steps).len() ==> lookup(
                history,
                #[trigger] pending_steps(history, steps)[i],
            ) is None && steps.contains(pending_steps(history, steps)[i]),
    decreases steps.len(),
{
    if steps.len() > 0 {
        lemma_pending_excludes_recorded(history, steps.drop_last());
        let before = pending_steps(history, steps.drop_last());
        assert forall|i: int| 0 <= i < pending_steps(history, steps).len() implies lookup(
            history,
            #[trigger] pending_steps(history, steps)[i],
        ) is None && steps.contains(pending_steps(history, steps)[i]) by {
            if i < before.len() {
                assert(pending_steps(history, steps)[i] == before[i]);
                let j = choose|j: int| 0 <= j < steps.drop_last().len() && steps.drop_last()[j] == before[i];
                assert(steps[j] == before[i]);
            } else {
                assert(pending_steps(history, steps)[i] == steps[steps.len() - 1]);
            }
        }
    }
}

} // verus!
