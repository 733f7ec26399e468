//! Lists of outputs in which an output is found by its protocol object id or
//! by the global it stems from.
//!
//! Both the outputs that are tracked and the snapshots that were published
//! are kept as such lists. What they share is here: the vocabulary of their
//! contracts, the search, and the facts about what adding, replacing and
//! removing an entry does to a list without duplicates.

use crate::outputs::{Output, OutputState};
use vstd::prelude::*;

verus! {

/// The records of a list of outputs, in order.
pub open spec fn states(list: Seq<Output>) -> Seq<OutputState> {
    Seq::new(list.len(), |i: int| list[i]@)
}

/// Whether no two records share a protocol object id.
pub open spec fn distinct_ids(records: Seq<OutputState>) -> bool {
    forall|i: int, j: int|
        0 <= i < j < records.len() ==> (#[trigger] records[i]).id != (#[trigger] records[j]).id
}

/// Whether some record has the protocol object id `id`.
pub open spec fn has_id(records: Seq<OutputState>, id: u32) -> bool {
    exists|i: int| 0 <= i < records.len() && (#[trigger] records[i]).id == id
}

/// Whether no two records stem from the same global.
pub open spec fn distinct_gids(records: Seq<OutputState>) -> bool {
    forall|i: int, j: int|
        0 <= i < j < records.len() ==> (#[trigger] records[i]).gid != (#[trigger] records[j]).gid
}

/// Whether some record stems from the global `gid`.
pub open spec fn has_gid(records: Seq<OutputState>, gid: u32) -> bool {
    exists|i: int| 0 <= i < records.len() && (#[trigger] records[i]).gid == gid
}

/// The index in `list` of the first output with protocol object id `id`.
pub fn position(list: &Vec<Output>, id: u32) -> (found: Option<usize>)
    ensures
        found matches Some(i) ==> i < list.len() && list[i as int]@.id == id && forall|j: int|
            0 <= j < i ==> (#[trigger] list[j])@.id != id,
        found is Some <==> has_id(states(list@), id),
{
    let mut i: usize = 0;
    while i < list.len()
        invariant
            i <= list.len(),
            forall|j: int| 0 <= j < i ==> (#[trigger] states(list@)[j]).id != id,
        decreases list.len() - i,
    {
        if list[i].id() == id {
            assert(states(list@)[i as int].id == id);
            assert forall|j: int| 0 <= j < i implies (#[trigger] list[j])@.id != id by {
                assert(states(list@)[j].id != id);
            }
            return Some(i);
        }
        i += 1;
    }
    None
}

/// The index in `list` of the first output that stems from the global `gid`.
pub fn position_of_global(list: &Vec<Output>, gid: u32) -> (found: Option<usize>)
    ensures
        found matches Some(i) ==> i < list.len() && list[i as int]@.gid == gid && forall|j: int|
            0 <= j < i ==> (#[trigger] list[j])@.gid != gid,
        found is Some <==> has_gid(states(list@), gid),
{
    let mut i: usize = 0;
    while i < list.len()
        invariant
            i <= list.len(),
            forall|j: int| 0 <= j < i ==> (#[trigger] states(list@)[j]).gid != gid,
        decreases list.len() - i,
    {
        if list[i].gid == gid {
            assert(states(list@)[i as int].gid == gid);
            assert forall|j: int| 0 <= j < i implies (#[trigger] list[j])@.gid != gid by {
                assert(states(list@)[j].gid != gid);
            }
            return Some(i);
        }
        i += 1;
    }
    None
}

/// In a list without duplicates a key is found at one place only.
pub proof fn key_is_unique(records: Seq<OutputState>, i: int, j: int)
    requires
        0 <= i < records.len(),
        0 <= j < records.len(),
    ensures
        distinct_ids(records) && records[i].id == records[j].id ==> i == j,
        distinct_gids(records) && records[i].gid == records[j].gid ==> i == j,
{
}

/// A record whose key is new can be added at the end without making a
/// duplicate.
pub proof fn push_keeps_distinct(records: Seq<OutputState>, added: OutputState)
    ensures
        distinct_ids(records) && !has_id(records, added.id) ==> distinct_ids(records.push(added)),
        distinct_gids(records) && !has_gid(records, added.gid) ==> distinct_gids(
            records.push(added),
        ),
{
    let after = records.push(added);
    assert forall|i: int, j: int| 0 <= i < j < after.len() implies (distinct_ids(records)
        && !has_id(records, added.id) ==> (#[trigger] after[i]).id != (#[trigger] after[j]).id) && (
    distinct_gids(records) && !has_gid(records, added.gid) ==> after[i].gid != after[j].gid) by {
        assert(after[i] == records[i]);
        if j < records.len() {
            assert(after[j] == records[j]);
        }
    }
}

/// Replacing a record by one with the same key makes no duplicate.
pub proof fn update_keeps_distinct(records: Seq<OutputState>, at: int, record: OutputState)
    requires
        0 <= at < records.len(),
    ensures
        distinct_ids(records) && record.id == records[at].id ==> distinct_ids(
            records.update(at, record),
        ),
        distinct_gids(records) && record.gid == records[at].gid ==> distinct_gids(
            records.update(at, record),
        ),
{
    let after = records.update(at, record);
    assert forall|i: int, j: int| 0 <= i < j < after.len() implies (distinct_ids(records)
        && record.id == records[at].id ==> (#[trigger] after[i]).id != (#[trigger] after[j]).id)
        && (distinct_gids(records) && record.gid == records[at].gid ==> after[i].gid
        != after[j].gid) by {
        if i != at {
            assert(after[i] == records[i]);
        }
        if j != at {
            assert(after[j] == records[j]);
        }
    }
}

/// Removing a record makes no duplicate, and in a list without duplicates it
/// removes its key.
pub proof fn remove_keeps_distinct(records: Seq<OutputState>, at: int)
    requires
        0 <= at < records.len(),
    ensures
        distinct_ids(records) ==> distinct_ids(records.remove(at)) && !has_id(
            records.remove(at),
            records[at].id,
        ),
        distinct_gids(records) ==> distinct_gids(records.remove(at)) && !has_gid(
            records.remove(at),
            records[at].gid,
        ),
{
    let after = records.remove(at);
    assert forall|i: int| 0 <= i < after.len() implies #[trigger] after[i] == records[if i < at {
        i
    } else {
        i + 1
    }] by {}
    assert forall|i: int, j: int| 0 <= i < j < after.len() implies (distinct_ids(records) ==> (
    #[trigger] after[i]).id != (#[trigger] after[j]).id) && (distinct_gids(records)
        ==> after[i].gid != after[j].gid) by {
        let from_i = if i < at { i } else { i + 1 };
        let from_j = if j < at { j } else { j + 1 };
        assert(after[i] == records[from_i]);
        assert(after[j] == records[from_j]);
    }
    assert forall|i: int| 0 <= i < after.len() implies (distinct_ids(records) ==> (
    #[trigger] after[i]).id != records[at].id) && (distinct_gids(records) ==> after[i].gid
        != records[at].gid) by {
        let from_i = if i < at { i } else { i + 1 };
        assert(after[i] == records[from_i]);
    }
}

} // verus!
