//! The outputs that the compositor currently advertises, each folding its own
//! stream of events.
//!
//! The registry announces globals of every kind. Only `wl_output` globals
//! matter here: an announced one is bound by the caller and then tracked, and
//! a retracted one is dropped, after which its events are no longer
//! processed.

use crate::outputs::{Output, OutputEvent, OutputState, Publication, Timestamp};
use crate::roster::{
    distinct_gids, distinct_ids, has_gid, has_id, key_is_unique, position, position_of_global,
    push_keeps_distinct, remove_keeps_distinct, states, update_keeps_distinct,
};
use calloop::channel::Sender;
use vstd::prelude::*;
use vstd::string::StringExecFns;

verus! {

/// The oldest version of the `wl_output` interface that is tracked, and the
/// version at which outputs are bound.
pub const MIN_OUTPUT_VERSION: u32 = 3;

/// The name of the output interface.
pub open spec fn output_interface() -> Seq<char> {
    "wl_output"@
}

/// What the registry announces.
#[derive(Debug, Clone, PartialEq, Eq)]
pub enum GlobalEvent {
    /// A global appeared under the name `id`.
    Added { id: u32, interface: String, version: u32 },
    /// The global with the name `id` is gone.
    Removed { id: u32, interface: String },
}

/// What a registry announcement means for the tracking of outputs.
#[derive(Debug, Clone, Copy, PartialEq, Eq, Structural)]
pub enum Interest {
    /// The global is no output: nothing to do.
    Ignore,
    /// A new output: bind the global `gid` at [`MIN_OUTPUT_VERSION`] and
    /// track it.
    Track { gid: u32 },
    /// The output of global `gid` is gone: stop tracking it.
    Retire { gid: u32 },
}

/// The compositor offers the output interface only in a version that is too
/// old to be tracked.
#[derive(Debug, Clone, Copy, PartialEq, Eq, Structural)]
pub struct UnsupportedOutputVersion {
    pub gid: u32,
    pub version: u32,
}

/// What a registry announcement asks for.
pub open spec fn inspected(event: GlobalEvent) -> Result<Interest, UnsupportedOutputVersion> {
    match event {
        GlobalEvent::Added { id, interface, version } => if interface@ != output_interface() {
            Ok(Interest::Ignore)
        } else if version < MIN_OUTPUT_VERSION {
            Err(UnsupportedOutputVersion { gid: id, version })
        } else {
            Ok(Interest::Track { gid: id })
        },
        GlobalEvent::Removed { id, interface } => if interface@ != output_interface() {
            Ok(Interest::Ignore)
        } else {
            Ok(Interest::Retire { gid: id })
        },
    }
}

/// Whether `interface` names the output interface.
pub fn is_output_interface(interface: &String) -> (is_output: bool)
    ensures
        is_output == (interface@ == output_interface()),
{
    let wanted = String::from_str("wl_output");
    *interface == wanted
}

/// Decides what a registry announcement asks for.
///
/// Globals of other interfaces are ignored. An output that is announced in a
/// version below [`MIN_OUTPUT_VERSION`] is refused with an error, which the
/// caller may treat as fatal.
pub fn inspect(event: &GlobalEvent) -> (verdict: Result<Interest, UnsupportedOutputVersion>)
    ensures
        verdict == inspected(*event),
{
    match event {
        GlobalEvent::Added { id, interface, version } => {
            if !is_output_interface(interface) {
                Ok(Interest::Ignore)
            } else if *version < MIN_OUTPUT_VERSION {
                Err(UnsupportedOutputVersion { gid: *id, version: *version })
            } else {
                Ok(Interest::Track { gid: *id })
            }
        },
        GlobalEvent::Removed { id, interface } => {
            if !is_output_interface(interface) {
                Ok(Interest::Ignore)
            } else {
                Ok(Interest::Retire { gid: *id })
            }
        },
    }
}

/// The outputs that are tracked, in the order in which they appeared.
///
/// Each is known by its protocol object id and stems from a global of its
/// own: no id and no global occurs twice.
pub struct Aggregator {
    outputs: Vec<Output>,
}

impl View for Aggregator {
    type V = Seq<OutputState>;

    closed spec fn view(&self) -> Seq<OutputState> {
        states(self.outputs@)
    }
}

impl Aggregator {
    #[verifier::type_invariant]
    spec fn inv(self) -> bool {
        distinct_ids(self@) && distinct_gids(self@)
    }

    /// An aggregator that tracks nothing yet.
    pub fn new() -> (aggregator: Aggregator)
        ensures
            aggregator@ == Seq::<OutputState>::empty(),
    {
        let aggregator = Aggregator { outputs: Vec::new() };
        assert(aggregator@ =~= Seq::<OutputState>::empty());
        aggregator
    }

    /// How many outputs are tracked.
    pub fn len(&self) -> (count: usize)
        ensures
            count == self@.len(),
            distinct_ids(self@),
            distinct_gids(self@),
    {
        proof {
            use_type_invariant(self);
        }
        self.outputs.len()
    }

    /// The tracked output with protocol object id `id`, as it is now. This is
    /// the aggregator's own record, which may be in the middle of an update;
    /// what consumers read is what was published.
    pub fn get(&self, id: u32) -> (found: Option<&Output>)
        ensures
            found is Some <==> has_id(self@, id),
            forall|i: int|
                0 <= i < self@.len() && (#[trigger] self@[i]).id == id ==> found is Some
                    && found->0@ == self@[i],
    {
        proof {
            use_type_invariant(self);
        }
        match position(&self.outputs, id) {
            None => None,
            Some(at) => {
                assert forall|i: int| 0 <= i < self@.len() && (#[trigger] self@[i]).id
                    == id implies i == at by {
                    key_is_unique(self@, i, at as int);
                }
                Some(&self.outputs[at])
            },
        }
    }

    /// Starts to track `output`, unless its protocol object id or its global
    /// is tracked already; then nothing changes.
    pub fn track(&mut self, output: Output) -> (accepted: bool)
        ensures
            accepted == (!has_id(old(self)@, output@.id) && !has_gid(old(self)@, output@.gid)),
            accepted ==> final(self)@ == old(self)@.push(output@),
            !accepted ==> final(self)@ == old(self)@,
    {
        proof {
            use_type_invariant(&*self);
        }
        if position(&self.outputs, output.id()).is_some() {
            return false;
        }
        if position_of_global(&self.outputs, output.gid).is_some() {
            return false;
        }
        let ghost before = self@;
        let ghost added = output@;
        let mut outputs = Vec::new();
        core::mem::swap(&mut self.outputs, &mut outputs);
        outputs.push(output);
        proof {
            assert(states(outputs@) =~= before.push(added));
            push_keeps_distinct(before, added);
        }
        self.outputs = outputs;
        true
    }

    /// Stops tracking the output that stems from the global `gid` and hands
    /// it out. Events for it are dropped from now on.
    pub fn retire(&mut self, gid: u32) -> (retired: Option<Output>)
        ensures
            retired is Some <==> has_gid(old(self)@, gid),
            !has_gid(final(self)@, gid),
            !has_gid(old(self)@, gid) ==> final(self)@ == old(self)@,
            forall|i: int|
                0 <= i < old(self)@.len() && (#[trigger] old(self)@[i]).gid == gid ==> final(self)@
                    == old(self)@.remove(i) && retired is Some && retired->0@ == old(self)@[i],
    {
        proof {
            use_type_invariant(&*self);
        }
        match position_of_global(&self.outputs, gid) {
            None => None,
            Some(at) => {
                let ghost before = self@;
                assert(before[at as int].gid == gid);
                let mut outputs = Vec::new();
                core::mem::swap(&mut self.outputs, &mut outputs);
                let output = outputs.remove(at);
                proof {
                    assert(states(outputs@) =~= before.remove(at as int));
                    remove_keeps_distinct(before, at as int);
                    assert forall|i: int|
                        0 <= i < before.len() && (#[trigger] before[i]).gid
                            == gid implies i == at by {
                        key_is_unique(before, i, at as int);
                    }
                }
                self.outputs = outputs;
                Some(output)
            },
        }
    }

    /// Hands `evt`, delivered at `now`, to the output with protocol object id
    /// `id`, which folds it and publishes on `tx` as
    /// [`Output::process_event`] says. Returns `None`, and changes nothing,
    /// if no such output is tracked.
    pub fn dispatch(
        &mut self,
        id: u32,
        evt: OutputEvent,
        now: Timestamp,
        tx: &Sender<Output>,
    ) -> (publication: Option<Publication>)
        ensures
            publication is Some <==> has_id(old(self)@, id),
            !has_id(old(self)@, id) ==> final(self)@ == old(self)@,
            forall|i: int|
                0 <= i < old(self)@.len() && (#[trigger] old(self)@[i]).id == id ==> {
                    &&& final(self)@ == old(self)@.update(i, old(self)@[i].step(evt@, now))
                    &&& publication is Some
                    &&& publication->0 is NotDue <==> !(evt@ is Done)
                    &&& publication->0 matches Publication::Undelivered(unsent) ==> unsent@
                        == final(self)@[i]
                },
    {
        proof {
            use_type_invariant(&*self);
        }
        match position(&self.outputs, id) {
            None => None,
            Some(at) => {
                let ghost before = self@;
                assert(before[at as int].id == id);
                let mut outputs = Vec::new();
                core::mem::swap(&mut self.outputs, &mut outputs);
                let outcome = outputs[at].process_event(evt, now, tx);
                proof {
                    let stepped = before[at as int].step(evt@, now);
                    assert(states(outputs@) =~= before.update(at as int, stepped));
                    update_keeps_distinct(before, at as int, stepped);
                    assert forall|i: int|
                        0 <= i < before.len() && (#[trigger] before[i]).id
                            == id implies i == at by {
                        key_is_unique(before, i, at as int);
                    }
                }
                self.outputs = outputs;
                Some(outcome)
            },
        }
    }
}

} // verus!
