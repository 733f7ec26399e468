//! What holds of an output after a whole run of events.
//!
//! [`OutputState::step`] says what one event does. The proofs here say what
//! that amounts to over any sequence of events: which value each field ends
//! up with, and when a consumer is told that something changed.

use crate::outputs::{
    EventModel, Mode, OutputState, Timestamp, DEFAULT_SCALE, MODE_CURRENT, MODE_PREFERRED,
};
use vstd::prelude::*;

verus! {

/// An event together with the time at which it was delivered.
pub struct Delivery {
    pub event: EventModel,
    pub at: Timestamp,
}

/// The groups of fields that an event can write. An event writes a group as a
/// whole or not at all.
pub enum Property {
    /// Position, physical size, subpixel layout, make, model and transform.
    Geometry,
    /// The mode in use.
    CurrentMode,
    /// The mode that the output prefers.
    PreferredMode,
    /// The scale factor.
    Scale,
}

impl EventModel {
    /// Whether the event overwrites the fields of `property`.
    pub open spec fn writes(self, property: Property) -> bool {
        match property {
            Property::Geometry => self is Geometry,
            Property::CurrentMode => self matches EventModel::Mode { flags, .. } && flags.has(
                MODE_CURRENT,
            ),
            Property::PreferredMode => self matches EventModel::Mode { flags, .. } && flags.has(
                MODE_PREFERRED,
            ),
            Property::Scale => self is Scale,
        }
    }
}

impl OutputState {
    /// The record after all of `deliveries`, first to last.
    pub open spec fn run(self, deliveries: Seq<Delivery>) -> OutputState
        decreases deliveries.len(),
    {
        if deliveries.len() == 0 {
            self
        } else {
            self.run(deliveries.drop_last()).step(deliveries.last().event, deliveries.last().at)
        }
    }

    /// Whether the fields of `property` hold what `event` carries for them.
    pub open spec fn holds(self, event: EventModel, property: Property) -> bool {
        match property {
            Property::Geometry => event matches EventModel::Geometry {
                x,
                y,
                physical_width,
                physical_height,
                subpixel,
                make,
                model,
                transform,
            } && self.x == x && self.y == y && self.physical_width == physical_width
                && self.physical_height == physical_height && self.subpixel == subpixel
                && self.make == make && self.model == model && self.transform == transform,
            Property::CurrentMode => event matches EventModel::Mode { width, height, refresh, .. }
                && self.current_mode == Some(Mode { width, height, refresh }),
            Property::PreferredMode => event matches EventModel::Mode {
                width,
                height,
                refresh,
                ..
            } && self.preferred_mode == Some(Mode { width, height, refresh }),
            Property::Scale => event matches EventModel::Scale { factor } && self.scale == factor,
        }
    }

    /// Whether the fields of `property` are the same in both records.
    pub open spec fn agrees(self, other: OutputState, property: Property) -> bool {
        match property {
            Property::Geometry => self.x == other.x && self.y == other.y && self.physical_width
                == other.physical_width && self.physical_height == other.physical_height
                && self.subpixel == other.subpixel && self.make == other.make && self.model
                == other.model && self.transform == other.transform,
            Property::CurrentMode => self.current_mode == other.current_mode,
            Property::PreferredMode => self.preferred_mode == other.preferred_mode,
            Property::Scale => self.scale == other.scale,
        }
    }
}

/// Whether delivery `i` is the last one in `deliveries` that writes `property`.
pub open spec fn is_last_write(deliveries: Seq<Delivery>, i: int, property: Property) -> bool {
    &&& 0 <= i < deliveries.len()
    &&& deliveries[i].event.writes(property)
    &&& forall|j: int|
        i < j < deliveries.len() ==> !(#[trigger] deliveries[j]).event.writes(property)
}

/// Whether no delivery in `deliveries` writes `property`.
pub open spec fn never_written(deliveries: Seq<Delivery>, property: Property) -> bool {
    forall|j: int| 0 <= j < deliveries.len() ==> !(#[trigger] deliveries[j]).event.writes(property)
}

/// After any run of events, each group of fields holds what the last event
/// that wrote it carried, and a group that no event wrote is as it was
/// before. The identity of the output never changes.
pub proof fn run_keeps_last_writes(start: OutputState, deliveries: Seq<Delivery>)
    ensures
        forall|property: Property, i: int| #[trigger]
            is_last_write(deliveries, i, property) ==> start.run(deliveries).holds(
                deliveries[i].event,
                property,
            ),
        forall|property: Property| #[trigger]
            never_written(deliveries, property) ==> start.run(deliveries).agrees(start, property),
        start.run(deliveries).gid == start.gid,
        start.run(deliveries).id == start.id,
    decreases deliveries.len(),
{
    if deliveries.len() > 0 {
        let earlier = deliveries.drop_last();
        let last = deliveries.last();
        let before = start.run(earlier);
        let after = start.run(deliveries);
        run_keeps_last_writes(start, earlier);
        assert(after == before.step(last.event, last.at));
        assert forall|property: Property, i: int| #[trigger]
            is_last_write(deliveries, i, property) implies after.holds(
            deliveries[i].event,
            property,
        ) by {
            if i == deliveries.len() - 1 {
            } else {
                assert(!deliveries[deliveries.len() - 1].event.writes(property));
                assert(is_last_write(earlier, i, property)) by {
                    assert forall|j: int| i < j < earlier.len() implies !(
                    #[trigger] earlier[j]).event.writes(property) by {
                        assert(earlier[j] == deliveries[j]);
                    }
                }
                assert(before.holds(earlier[i].event, property));
            }
        }
        assert forall|property: Property| #[trigger]
            never_written(deliveries, property) implies after.agrees(start, property) by {
            assert(!deliveries[deliveries.len() - 1].event.writes(property));
            assert(never_written(earlier, property)) by {
                assert forall|j: int| 0 <= j < earlier.len() implies !(
                #[trigger] earlier[j]).event.writes(property) by {
                    assert(earlier[j] == deliveries[j]);
                }
            }
            assert(before.agrees(start, property));
        }
    }
}

/// A burst of property events that ends with `Done` publishes, for each
/// group of fields, the value that the last event of the burst wrote to it,
/// and for a group that the burst did not touch the value it had before. The
/// published record is complete and stamped with the time of the `Done`.
pub proof fn burst_publishes_last_values(
    start: OutputState,
    burst: Seq<Delivery>,
    done_at: Timestamp,
)
    requires
        forall|i: int| 0 <= i < burst.len() ==> (#[trigger] burst[i]).event.is_property(),
    ensures
        ({
            let published = start.run(burst).step(EventModel::Done, done_at);
            &&& !published.update_in_progress
            &&& published.last_update == done_at
            &&& published.gid == start.gid
            &&& published.id == start.id
            &&& forall|property: Property, i: int| #[trigger]
                is_last_write(burst, i, property) ==> published.holds(burst[i].event, property)
            &&& forall|property: Property| #[trigger]
                never_written(burst, property) ==> published.agrees(start, property)
        }),
{
    run_keeps_last_writes(start, burst);
    let collected = start.run(burst);
    let published = collected.step(EventModel::Done, done_at);
    assert forall|property: Property, i: int| #[trigger]
        is_last_write(burst, i, property) implies published.holds(burst[i].event, property) by {
        assert(collected.holds(burst[i].event, property));
    }
    assert forall|property: Property| #[trigger]
        never_written(burst, property) implies published.agrees(start, property) by {
        assert(collected.agrees(start, property));
    }
}

/// Between a property event and the `Done` that follows it, an output is in
/// the middle of an update, and no query is told that it changed, whatever
/// time the query compares with.
pub proof fn no_change_reported_mid_update(
    start: OutputState,
    deliveries: Seq<Delivery>,
    i: int,
    since: Timestamp,
)
    requires
        0 <= i < deliveries.len(),
        deliveries[i].event.is_property(),
        forall|j: int| i < j < deliveries.len() ==> !((#[trigger] deliveries[j]).event is Done),
    ensures
        start.run(deliveries).update_in_progress,
        !start.run(deliveries).changed(since),
    decreases deliveries.len(),
{
    let earlier = deliveries.drop_last();
    if i < deliveries.len() - 1 {
        assert(earlier[i] == deliveries[i]);
        assert forall|j: int| i < j < earlier.len() implies !((
        #[trigger] earlier[j]).event is Done) by {
            assert(earlier[j] == deliveries[j]);
        }
        no_change_reported_mid_update(start, earlier, i, since);
        assert(!(deliveries[deliveries.len() - 1].event is Done));
    }
}

/// Two `Done` events in a row give two complete records that differ in
/// nothing but their stamps, and the second stamp is the later one if the
/// clock moved between the two events.
pub proof fn repeated_done_restamps(state: OutputState, first_at: Timestamp, second_at: Timestamp)
    requires
        first_at < second_at,
    ensures
        ({
            let first = state.step(EventModel::Done, first_at);
            let second = first.step(EventModel::Done, second_at);
            &&& !first.update_in_progress
            &&& !second.update_in_progress
            &&& second == OutputState { last_update: second.last_update, ..first }
            &&& first.last_update == first_at
            &&& second.last_update == second_at
            &&& first.last_update < second.last_update
        }),
{
}

/// An output that was never sent a scale keeps the default scale, whatever
/// else it was sent.
pub proof fn scale_defaults_to_one(
    gid: u32,
    id: u32,
    created_at: Timestamp,
    deliveries: Seq<Delivery>,
)
    requires
        never_written(deliveries, Property::Scale),
    ensures
        OutputState::fresh(gid, id, created_at).run(deliveries).scale == DEFAULT_SCALE,
        DEFAULT_SCALE == 1,
{
    let start = OutputState::fresh(gid, id, created_at);
    run_keeps_last_writes(start, deliveries);
    assert(start.run(deliveries).agrees(start, Property::Scale));
}

} // verus!
