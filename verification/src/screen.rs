//! The monitors that a consumer can ask for: the latest complete snapshot of
//! every output.
//!
//! Snapshots arrive from the aggregating side one by one, each replacing the
//! one before it of the same output. What is handed out is always complete:
//! a record in the middle of an update is never taken in.

use crate::displays::{ConnectionError, Globals};
use crate::outputs::{Output, OutputState};
use crate::roster::{
    distinct_ids, has_id, key_is_unique, position, push_keeps_distinct, remove_keeps_distinct,
    states, update_keeps_distinct,
};
use std::sync::Arc;
use vstd::prelude::*;

verus! {

/// Whether every record is complete.
pub open spec fn all_stable(records: Seq<OutputState>) -> bool {
    forall|i: int| 0 <= i < records.len() ==> !(#[trigger] records[i]).update_in_progress
}

/// The latest snapshot of every output, in the order in which the outputs
/// were first seen. No protocol object id occurs twice and every snapshot is
/// complete.
pub struct Monitors {
    snapshots: Vec<Output>,
}

impl View for Monitors {
    type V = Seq<OutputState>;

    closed spec fn view(&self) -> Seq<OutputState> {
        states(self.snapshots@)
    }
}

impl Monitors {
    #[verifier::type_invariant]
    spec fn inv(self) -> bool {
        distinct_ids(self@) && all_stable(self@)
    }

    /// No monitors yet.
    pub fn new() -> (monitors: Monitors)
        ensures
            monitors@ == Seq::<OutputState>::empty(),
    {
        let monitors = Monitors { snapshots: Vec::new() };
        assert(monitors@ =~= Seq::<OutputState>::empty());
        monitors
    }

    /// Takes in a snapshot that was published.
    ///
    /// A complete snapshot replaces the one held for the same output, or is
    /// added at the end if there is none. An incomplete record is refused and
    /// nothing changes.
    pub fn receive(&mut self, snapshot: Output) -> (accepted: bool)
        ensures
            accepted == !snapshot@.update_in_progress,
            !accepted ==> final(self)@ == old(self)@,
            accepted && !has_id(old(self)@, snapshot@.id) ==> final(self)@ == old(self)@.push(
                snapshot@,
            ),
            forall|i: int|
                accepted && 0 <= i < old(self)@.len() && (#[trigger] old(self)@[i]).id
                    == snapshot@.id ==> final(self)@ == old(self)@.update(i, snapshot@),
    {
        proof {
            use_type_invariant(&*self);
        }
        if snapshot.update_in_progress {
            return false;
        }
        let ghost before = self@;
        let ghost taken = snapshot@;
        let found = position(&self.snapshots, snapshot.id());
        let mut snapshots = Vec::new();
        core::mem::swap(&mut self.snapshots, &mut snapshots);
        match found {
            Some(at) => {
                snapshots[at] = snapshot;
                proof {
                    let after = states(snapshots@);
                    assert(after =~= before.update(at as int, taken));
                    update_keeps_distinct(before, at as int, taken);
                    assert forall|i: int| 0 <= i < after.len() implies !(
                    #[trigger] after[i]).update_in_progress by {
                        if i != at {
                            assert(after[i] == before[i]);
                        }
                    }
                    assert forall|i: int|
                        0 <= i < before.len() && (#[trigger] before[i]).id
                            == taken.id implies i == at by {
                        key_is_unique(before, i, at as int);
                    }
                }
            },
            None => {
                snapshots.push(snapshot);
                proof {
                    let after = states(snapshots@);
                    assert(after =~= before.push(taken));
                    push_keeps_distinct(before, taken);
                    assert forall|i: int| 0 <= i < after.len() implies !(
                    #[trigger] after[i]).update_in_progress by {
                        if i < before.len() {
                            assert(after[i] == before[i]);
                        }
                    }
                }
            },
        }
        self.snapshots = snapshots;
        true
    }

    /// Forgets the output with protocol object id `id`, which the compositor
    /// has taken away. Returns whether there was one.
    pub fn retract(&mut self, id: u32) -> (removed: bool)
        ensures
            removed == has_id(old(self)@, id),
            !has_id(final(self)@, id),
            !removed ==> final(self)@ == old(self)@,
            forall|i: int|
                0 <= i < old(self)@.len() && (#[trigger] old(self)@[i]).id == id ==> final(self)@
                    == old(self)@.remove(i),
    {
        proof {
            use_type_invariant(&*self);
        }
        match position(&self.snapshots, id) {
            None => false,
            Some(at) => {
                let ghost before = self@;
                assert(before[at as int].id == id);
                let mut snapshots = Vec::new();
                core::mem::swap(&mut self.snapshots, &mut snapshots);
                let _ = snapshots.remove(at);
                proof {
                    let after = states(snapshots@);
                    assert(after =~= before.remove(at as int));
                    remove_keeps_distinct(before, at as int);
                    assert forall|i: int| 0 <= i < after.len() implies !(
                    #[trigger] after[i]).update_in_progress by {
                        let from_i = if i < at { i } else { i + 1 };
                        assert(after[i] == before[from_i]);
                    }
                    assert forall|i: int|
                        0 <= i < before.len() && (#[trigger] before[i]).id
                            == id implies i == at by {
                        key_is_unique(before, i, at as int);
                    }
                }
                self.snapshots = snapshots;
                true
            },
        }
    }

    /// Copies of all snapshots, in order. Each is complete and no protocol
    /// object id occurs twice.
    pub fn list(&self) -> (copies: Vec<Output>)
        ensures
            states(copies@) == self@,
            all_stable(self@),
            distinct_ids(self@),
    {
        proof {
            use_type_invariant(self);
        }
        let mut copies: Vec<Output> = Vec::new();
        let mut i: usize = 0;
        while i < self.snapshots.len()
            invariant
                i <= self.snapshots.len(),
                copies.len() == i,
                forall|j: int| 0 <= j < i ==> (#[trigger] copies[j])@ == self.snapshots[j]@,
            decreases self.snapshots.len() - i,
        {
            copies.push(self.snapshots[i].snapshot());
            i += 1;
        }
        assert(states(copies@) =~= self@);
        copies
    }
}

/// The monitors to report to a consumer.
///
/// Without a bundle of globals there is nothing to report, and the failure
/// is not passed on: the list is empty. With one, the list holds the latest
/// complete snapshot of every output.
pub fn get_monitors<H>(
    globals: &Result<Arc<Globals<H>>, ConnectionError>,
    published: &Monitors,
) -> (monitors: Vec<Output>)
    ensures
        globals is Err ==> monitors@.len() == 0,
        globals is Ok ==> states(monitors@) == published@,
        all_stable(states(monitors@)),
        distinct_ids(states(monitors@)),
{
    match globals {
        Ok(_) => published.list(),
        Err(_) => Vec::new(),
    }
}

} // verus!
