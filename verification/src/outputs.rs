//! Per-output aggregation of `wl_output` events.
//!
//! The compositor describes an output with a burst of small events that ends
//! with `done`. An [`Output`] folds each event into its fields and hands out a
//! snapshot only when the burst is complete.

use crate::publisher::send;
use calloop::channel::Sender;
use vstd::prelude::*;

verus! {

/// A point on the caller's monotonic clock.
pub type Timestamp = u64;

/// A resolution and refresh rate that an output can run at.
#[derive(Debug, Clone, Copy, PartialEq, Eq, Structural)]
pub struct Mode {
    pub width: i32,
    pub height: i32,
    pub refresh: i32,
}

/// How the physical pixels of an output are laid out.
#[derive(Debug, Clone, Copy, PartialEq, Eq, Structural)]
pub enum Subpixel {
    Unknown,
    NoGeometry,
    HorizontalRgb,
    HorizontalBgr,
    VerticalRgb,
    VerticalBgr,
}

/// The transform that the compositor applies to the output's contents.
#[derive(Debug, Clone, Copy, PartialEq, Eq, Structural)]
pub enum Transform {
    Normal,
    Rotated90,
    Rotated180,
    Rotated270,
    Flipped,
    Flipped90,
    Flipped180,
    Flipped270,
}

/// The bit of a mode event's flags that marks the mode in use.
pub const MODE_CURRENT: u32 = 0x1;

/// The bit of a mode event's flags that marks the mode the output prefers.
pub const MODE_PREFERRED: u32 = 0x2;

/// The flags of a mode event, as the bits sent on the wire.
#[derive(Debug, Clone, Copy, PartialEq, Eq, Structural)]
pub struct ModeFlags {
    pub bits: u32,
}

impl ModeFlags {
    /// Whether every bit of `flag` is set in `self`.
    pub open spec fn has(self, flag: u32) -> bool {
        self.bits & flag == flag
    }

    /// Flags with exactly the given bits.
    pub fn from_bits(bits: u32) -> (flags: ModeFlags)
        ensures
            flags.bits == bits,
    {
        ModeFlags { bits }
    }

    /// Whether every bit of `flag` is set.
    pub fn contains(&self, flag: u32) -> (found: bool)
        ensures
            found == self.has(flag),
    {
        self.bits & flag == flag
    }

    /// Whether the mode is the one in use.
    pub fn is_current(&self) -> (found: bool)
        ensures
            found == self.has(MODE_CURRENT),
    {
        self.contains(MODE_CURRENT)
    }

    /// Whether the mode is the one the output prefers.
    pub fn is_preferred(&self) -> (found: bool)
        ensures
            found == self.has(MODE_PREFERRED),
    {
        self.contains(MODE_PREFERRED)
    }
}

/// One event of the `wl_output` protocol, as delivered for a single output.
#[derive(Debug, Clone, PartialEq, Eq)]
pub enum OutputEvent {
    /// Where the output lies in the compositor's space, and what it is.
    Geometry {
        x: i32,
        y: i32,
        physical_width: i32,
        physical_height: i32,
        subpixel: Subpixel,
        make: String,
        model: String,
        transform: Transform,
    },
    /// A mode that the output can run at.
    Mode { flags: ModeFlags, width: i32, height: i32, refresh: i32 },
    /// The burst of events that describes the output is complete.
    Done,
    /// The factor by which the compositor scales the output's contents.
    Scale { factor: i32 },
    /// An event of a later protocol version, which carries nothing we track.
    Unknown,
}

/// What an [`OutputEvent`] says, with its strings as sequences of characters.
pub enum EventModel {
    Geometry {
        x: i32,
        y: i32,
        physical_width: i32,
        physical_height: i32,
        subpixel: Subpixel,
        make: Seq<char>,
        model: Seq<char>,
        transform: Transform,
    },
    Mode { flags: ModeFlags, width: i32, height: i32, refresh: i32 },
    Done,
    Scale { factor: i32 },
    Unknown,
}

impl View for OutputEvent {
    type V = EventModel;

    open spec fn view(&self) -> EventModel {
        match *self {
            OutputEvent::Geometry {
                x,
                y,
                physical_width,
                physical_height,
                subpixel,
                make,
                model,
                transform,
            } => EventModel::Geometry {
                x,
                y,
                physical_width,
                physical_height,
                subpixel,
                make: make@,
                model: model@,
                transform,
            },
            OutputEvent::Mode { flags, width, height, refresh } => EventModel::Mode {
                flags,
                width,
                height,
                refresh,
            },
            OutputEvent::Done => EventModel::Done,
            OutputEvent::Scale { factor } => EventModel::Scale { factor },
            OutputEvent::Unknown => EventModel::Unknown,
        }
    }
}

impl EventModel {
    /// Whether the event writes a property of the output: every event but
    /// `Done` and the unknown ones.
    pub open spec fn is_property(self) -> bool {
        self is Geometry || self is Mode || self is Scale
    }
}

/// Everything that is known of one output, as a mathematical record.
pub struct OutputState {
    pub gid: u32,
    pub id: u32,
    pub x: i32,
    pub y: i32,
    pub physical_width: i32,
    pub physical_height: i32,
    pub subpixel: Subpixel,
    pub make: Seq<char>,
    pub model: Seq<char>,
    pub transform: Transform,
    pub scale: i32,
    pub current_mode: Option<Mode>,
    pub preferred_mode: Option<Mode>,
    pub update_in_progress: bool,
    pub last_update: Timestamp,
}

/// The scale of an output that was never told its scale.
pub const DEFAULT_SCALE: i32 = 1;

impl OutputState {
    /// The record of an output that was just advertised: nothing is known of
    /// it yet, and its first burst of events is awaited.
    pub open spec fn fresh(gid: u32, id: u32, now: Timestamp) -> OutputState {
        OutputState {
            gid,
            id,
            x: 0,
            y: 0,
            physical_width: 0,
            physical_height: 0,
            subpixel: Subpixel::Unknown,
            make: Seq::empty(),
            model: Seq::empty(),
            transform: Transform::Normal,
            scale: DEFAULT_SCALE,
            current_mode: Option::None,
            preferred_mode: Option::None,
            update_in_progress: true,
            last_update: now,
        }
    }

    /// The record after one more event, delivered at `now`.
    ///
    /// A property event overwrites the fields it carries and opens (or keeps
    /// open) an update. `Done` closes the update and stamps it. An unknown
    /// event changes nothing.
    pub open spec fn step(self, event: EventModel, now: Timestamp) -> OutputState {
        match event {
            EventModel::Geometry {
                x,
                y,
                physical_width,
                physical_height,
                subpixel,
                make,
                model,
                transform,
            } => OutputState {
                x,
                y,
                physical_width,
                physical_height,
                subpixel,
                make,
                model,
                transform,
                update_in_progress: true,
                ..self
            },
            EventModel::Mode { flags, width, height, refresh } => OutputState {
                current_mode: if flags.has(MODE_CURRENT) {
                    Some(Mode { width, height, refresh })
                } else {
                    self.current_mode
                },
                preferred_mode: if flags.has(MODE_PREFERRED) {
                    Some(Mode { width, height, refresh })
                } else {
                    self.preferred_mode
                },
                update_in_progress: true,
                ..self
            },
            EventModel::Done => OutputState { update_in_progress: false, last_update: now, ..self },
            EventModel::Scale { factor } => OutputState {
                scale: factor,
                update_in_progress: true,
                ..self
            },
            EventModel::Unknown => self,
        }
    }

    /// Whether a consumer who last looked at `since` has something new to
    /// read: the record is complete, and it was completed after `since`.
    pub open spec fn changed(self, since: Timestamp) -> bool {
        !self.update_in_progress && since < self.last_update
    }
}

/// What became of the snapshot that an event may have completed.
#[derive(Debug, Clone, PartialEq, Eq)]
pub enum Publication {
    /// The event completed nothing, so there was nothing to publish.
    NotDue,
    /// The snapshot is in the channel.
    Delivered,
    /// Nobody listens on the channel any more; this is the snapshot that
    /// could not be sent.
    Undelivered(Output),
}

/// One physical display, as the compositor has described it so far.
#[derive(Debug, Clone, PartialEq, Eq)]
pub struct Output {
    /// The protocol object id of the bound `wl_output`.
    pub id: u32,
    /// The name under which the registry advertised the output.
    pub gid: u32,
    pub x: i32,
    pub y: i32,
    pub physical_width: i32,
    pub physical_height: i32,
    pub subpixel: Subpixel,
    pub make: String,
    pub model: String,
    pub transform: Transform,
    pub scale: i32,
    pub current_mode: Option<Mode>,
    pub preferred_mode: Option<Mode>,
    /// Whether some events of a burst have arrived but not yet its `Done`.
    /// [`Output::apply`] keeps it; a snapshot always holds `false`.
    pub update_in_progress: bool,
    /// When the last burst was completed; [`Output::apply`] keeps it.
    pub last_update: Timestamp,
}

impl View for Output {
    type V = OutputState;

    open spec fn view(&self) -> OutputState {
        OutputState {
            gid: self.gid,
            id: self.id,
            x: self.x,
            y: self.y,
            physical_width: self.physical_width,
            physical_height: self.physical_height,
            subpixel: self.subpixel,
            make: self.make@,
            model: self.model@,
            transform: self.transform,
            scale: self.scale,
            current_mode: self.current_mode,
            preferred_mode: self.preferred_mode,
            update_in_progress: self.update_in_progress,
            last_update: self.last_update,
        }
    }
}

impl Output {
    /// An output that the registry has just advertised under `gid` and that
    /// was bound as protocol object `id` at `now`.
    ///
    /// The compositor sends the first burst right after the bind, so the
    /// placeholder values are never published: the output starts mid-update.
    pub fn new(gid: u32, id: u32, now: Timestamp) -> (output: Output)
        ensures
            output@ == OutputState::fresh(gid, id, now),
    {
        Output {
            id,
            gid,
            x: 0,
            y: 0,
            physical_width: 0,
            physical_height: 0,
            subpixel: Subpixel::Unknown,
            make: String::new(),
            model: String::new(),
            transform: Transform::Normal,
            scale: DEFAULT_SCALE,
            current_mode: None,
            preferred_mode: None,
            update_in_progress: true,
            last_update: now,
        }
    }

    /// The protocol object id of this output, by which outputs are keyed.
    pub fn id(&self) -> (id: u32)
        ensures
            id == self@.id,
    {
        self.id
    }

    /// Whether the output has changed since `since`.
    ///
    /// While an update is in progress this is `false`, however old the last
    /// complete state is: a burst is read as a whole or not at all.
    pub fn changed(&self, since: Timestamp) -> (changed: bool)
        ensures
            changed == self@.changed(since),
    {
        !self.update_in_progress && since < self.last_update
    }

    /// A copy of the output as it is now.
    pub fn snapshot(&self) -> (copy: Output)
        ensures
            copy@ == self@,
    {
        Output {
            id: self.id,
            gid: self.gid,
            x: self.x,
            y: self.y,
            physical_width: self.physical_width,
            physical_height: self.physical_height,
            subpixel: self.subpixel,
            make: self.make.clone(),
            model: self.model.clone(),
            transform: self.transform,
            scale: self.scale,
            current_mode: self.current_mode,
            preferred_mode: self.preferred_mode,
            update_in_progress: self.update_in_progress,
            last_update: self.last_update,
        }
    }

    /// Folds one event, delivered at `now`, into the output.
    ///
    /// Returns a snapshot exactly when the event is `Done`: the copy of the
    /// fields as the completed burst left them. Any other event only changes
    /// the output and returns nothing, so that no reader sees half a burst.
    pub fn apply(&mut self, event: OutputEvent, now: Timestamp) -> (snapshot: Option<Output>)
        ensures
            final(self)@ == old(self)@.step(event@, now),
            snapshot is Some <==> event@ is Done,
            snapshot matches Some(published) ==> published@ == final(self)@
                && !published@.update_in_progress && published@.last_update == now,
    {
        match event {
            OutputEvent::Geometry {
                x,
                y,
                physical_width,
                physical_height,
                subpixel,
                make,
                model,
                transform,
            } => {
                self.x = x;
                self.y = y;
                self.physical_width = physical_width;
                self.physical_height = physical_height;
                self.subpixel = subpixel;
                self.make = make;
                self.model = model;
                self.transform = transform;
                self.update_in_progress = true;
                None
            },
            OutputEvent::Mode { flags, width, height, refresh } => {
                if flags.is_current() {
                    self.current_mode = Some(Mode { width, height, refresh });
                }
                if flags.is_preferred() {
                    self.preferred_mode = Some(Mode { width, height, refresh });
                }
                self.update_in_progress = true;
                None
            },
            OutputEvent::Done => {
                self.update_in_progress = false;
                self.last_update = now;
                Some(self.snapshot())
            },
            OutputEvent::Scale { factor } => {
                self.scale = factor;
                self.update_in_progress = true;
                None
            },
            OutputEvent::Unknown => None,
        }
    }

    /// Folds one event, delivered at `now`, into the output, and publishes
    /// the snapshot on `tx` if the event completed a burst.
    ///
    /// The output changes as in [`Output::apply`]. A snapshot is sent exactly
    /// when the event is `Done`. A failed send is no error of the output: the
    /// unsent snapshot comes back in the result and the output keeps its new
    /// state.
    pub fn process_event(
        &mut self,
        evt: OutputEvent,
        now: Timestamp,
        tx: &Sender<Output>,
    ) -> (publication: Publication)
        ensures
            final(self)@ == old(self)@.step(evt@, now),
            publication is NotDue <==> !(evt@ is Done),
            publication matches Publication::Undelivered(unsent) ==> unsent@ == final(self)@
                && !unsent@.update_in_progress,
    {
        match self.apply(evt, now) {
            None => Publication::NotDue,
            Some(snapshot) => match send(tx, snapshot) {
                Ok(()) => Publication::Delivered,
                Err(unsent) => Publication::Undelivered(unsent),
            },
        }
    }
}

} // verus!
