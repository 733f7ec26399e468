//! The configuration of a layer-shell window and the builder that collects
//! it.
//!
//! The builder decides nothing about the compositor: it gathers the options,
//! and [`Builder::build`] hands them on whole, together with the application
//! and the handler, to whoever creates the surface.

use vstd::prelude::*;

verus! {

/// The layer of the compositor's stack that a surface is rendered on, from
/// the one furthest back to the one in front.
#[derive(Debug, Clone, Copy, PartialEq, Eq, Structural)]
pub enum Layer {
    Background,
    Bottom,
    Top,
    Overlay,
}

/// How a surface takes part in keyboard focus.
#[derive(Debug, Clone, Copy, PartialEq, Eq, Structural)]
pub enum KeyboardInteractivity {
    /// The surface never has the keyboard focus.
    Never,
    /// The surface holds the keyboard focus for as long as it is mapped.
    Exclusive,
    /// The surface takes and loses the focus as ordinary windows do.
    OnDemand,
}

/// The bit of an anchor that stands for the top edge.
pub const ANCHOR_TOP: u32 = 1;

/// The bit of an anchor that stands for the bottom edge.
pub const ANCHOR_BOTTOM: u32 = 2;

/// The bit of an anchor that stands for the left edge.
pub const ANCHOR_LEFT: u32 = 4;

/// The bit of an anchor that stands for the right edge.
pub const ANCHOR_RIGHT: u32 = 8;

/// The bits of all four edges.
pub const ANCHOR_ALL: u32 = 15;

/// The edges of the output that a surface is anchored to, one bit for each.
#[derive(Debug, Clone, Copy, PartialEq, Eq, Structural)]
pub struct Anchor {
    pub bits: u32,
}

impl Anchor {
    /// Whether every edge of `edges` is among the edges of `self`.
    pub open spec fn has(self, edges: u32) -> bool {
        self.bits & edges == edges
    }

    /// The anchor to no edge.
    pub fn empty() -> (anchor: Anchor)
        ensures
            anchor.bits == 0,
    {
        Anchor { bits: 0 }
    }

    /// The anchor to all four edges.
    pub fn all() -> (anchor: Anchor)
        ensures
            anchor.bits == ANCHOR_ALL,
    {
        Anchor { bits: ANCHOR_ALL }
    }

    /// The anchor to the edges whose bits are set in `bits`. Bits that stand
    /// for no edge are dropped.
    pub fn from_bits_truncate(bits: u32) -> (anchor: Anchor)
        ensures
            anchor.bits == bits & ANCHOR_ALL,
            anchor.bits <= ANCHOR_ALL,
    {
        assert(bits & 15 <= 15) by (bit_vector);
        Anchor { bits: bits & ANCHOR_ALL }
    }

    /// Whether every edge of `edges` is among the edges of `self`.
    pub fn contains(&self, edges: u32) -> (found: bool)
        ensures
            found == self.has(edges),
    {
        self.bits & edges == edges
    }

    /// The anchor to the edges of both.
    pub fn union(self, other: Anchor) -> (both: Anchor)
        ensures
            both.bits == self.bits | other.bits,
            forall|edges: u32| self.has(edges) || other.has(edges) ==> both.has(edges),
    {
        let both = Anchor { bits: self.bits | other.bits };
        assert forall|edges: u32| self.has(edges) || other.has(edges) implies both.has(edges) by {
            let a = self.bits;
            let b = other.bits;
            assert(a & edges == edges || b & edges == edges ==> (a | b) & edges == edges)
                by (bit_vector);
        }
        both
    }
}

/// The distance that a surface keeps from each edge it is anchored to.
#[derive(Debug, Clone, Copy, PartialEq, Eq, Structural)]
pub struct Margin {
    pub top: i32,
    pub right: i32,
    pub bottom: i32,
    pub left: i32,
}

impl Margin {
    /// The margin with the given distance on each side.
    pub fn new(top: i32, right: i32, bottom: i32, left: i32) -> (margin: Margin)
        ensures
            margin == (Margin { top, right, bottom, left }),
    {
        Margin { top, right, bottom, left }
    }

    /// The margin with the same distance on all four sides.
    pub fn uniform(distance: i32) -> (margin: Margin)
        ensures
            margin == (Margin { top: distance, right: distance, bottom: distance, left: distance }),
    {
        Margin { top: distance, right: distance, bottom: distance, left: distance }
    }
}

/// A width and a height in surface-local pixels.
#[derive(Debug, Clone, Copy, PartialEq, Eq, Structural)]
pub struct Size {
    pub width: u32,
    pub height: u32,
}

impl Size {
    /// The size with the given width and height.
    pub fn new(width: u32, height: u32) -> (size: Size)
        ensures
            size == (Size { width, height }),
    {
        Size { width, height }
    }
}

/// The options of a layer-shell window.
#[derive(Debug, Clone, Copy, PartialEq, Eq, Structural)]
pub struct Config {
    pub layer: Layer,
    pub keyboard_interactivity: KeyboardInteractivity,
    pub anchor: Anchor,
    /// The room that the compositor keeps free of other surfaces along the
    /// anchored edge.
    pub exclusive_zone: i32,
    /// The size asked for at first. A width or height of zero leaves that
    /// dimension to the compositor.
    pub initial_size: Size,
    pub margin: Margin,
}

impl Config {
    /// The options of a window for which none was set: an overlay over the
    /// whole output that takes no keyboard focus, reserves no room, has no
    /// margin and leaves its size to the compositor.
    pub open spec fn initial() -> Config {
        Config {
            layer: Layer::Overlay,
            keyboard_interactivity: KeyboardInteractivity::Never,
            anchor: Anchor { bits: ANCHOR_ALL },
            exclusive_zone: 0,
            initial_size: Size { width: 0, height: 0 },
            margin: Margin { top: 0, right: 0, bottom: 0, left: 0 },
        }
    }
}

impl Default for Config {
    fn default() -> (config: Config)
        ensures
            config == Config::initial(),
    {
        Config {
            layer: Layer::Overlay,
            keyboard_interactivity: KeyboardInteractivity::Never,
            anchor: Anchor::all(),
            exclusive_zone: 0,
            initial_size: Size::new(0, 0),
            margin: Margin::uniform(0),
        }
    }
}

/// Why a window cannot be built.
#[derive(Debug, Clone, Copy, PartialEq, Eq, Structural)]
pub enum BuildError {
    /// No handler was set, so nothing could receive the window's callbacks.
    MissingHandler,
}

/// Everything that is needed to create a layer-shell window.
#[derive(Debug)]
pub struct Window<A, W> {
    /// The application that the window belongs to.
    pub app: A,
    /// The object that receives the window's callbacks.
    pub handler: W,
    pub config: Config,
}

/// A builder for layer-shell windows.
///
/// `A` is the application's handle and `W` the handler of the window's
/// callbacks. Both are carried along and never looked into.
pub struct Builder<A, W> {
    app: A,
    handler: Option<W>,
    config: Config,
}

impl<A, W> Builder<A, W> {
    /// The application that the window is for.
    pub closed spec fn app(&self) -> A {
        self.app
    }

    /// The handler that was set, if any.
    pub closed spec fn handler(&self) -> Option<W> {
        self.handler
    }

    /// The options as set so far.
    pub closed spec fn config(&self) -> Config {
        self.config
    }

    /// A builder for a window of `app`, with no handler and with the options
    /// of [`Config::initial`].
    pub fn new(app: A) -> (builder: Builder<A, W>)
        ensures
            builder.app() == app,
            builder.handler() == None::<W>,
            builder.config() == Config::initial(),
    {
        Builder { app, handler: None, config: Config::default() }
    }

    /// Sets the handler that will receive the callbacks of the window, in
    /// place of any that was set before.
    pub fn set_handler(self, handler: W) -> (builder: Builder<A, W>)
        ensures
            builder.app() == self.app(),
            builder.handler() == Some(handler),
            builder.config() == self.config(),
    {
        let mut builder = self;
        builder.handler = Some(handler);
        builder
    }

    /// Sets the layer that the window is rendered on.
    pub fn layer(self, layer: Layer) -> (builder: Builder<A, W>)
        ensures
            builder.app() == self.app(),
            builder.handler() == self.handler(),
            builder.config() == (Config { layer, ..self.config() }),
    {
        let mut builder = self;
        builder.config.layer = layer;
        builder
    }

    /// Sets how the window takes part in keyboard focus.
    pub fn keyboard_interactivity(self, mode: KeyboardInteractivity) -> (builder: Builder<A, W>)
        ensures
            builder.app() == self.app(),
            builder.handler() == self.handler(),
            builder.config() == (Config { keyboard_interactivity: mode, ..self.config() }),
    {
        let mut builder = self;
        builder.config.keyboard_interactivity = mode;
        builder
    }

    /// Sets the edges that the window is anchored to.
    pub fn anchor(self, anchor: Anchor) -> (builder: Builder<A, W>)
        ensures
            builder.app() == self.app(),
            builder.handler() == self.handler(),
            builder.config() == (Config { anchor, ..self.config() }),
    {
        let mut builder = self;
        builder.config.anchor = anchor;
        builder
    }

    /// Sets the room that the compositor keeps free along the anchored edge.
    pub fn exclusive_zone(self, n: i32) -> (builder: Builder<A, W>)
        ensures
            builder.app() == self.app(),
            builder.handler() == self.handler(),
            builder.config() == (Config { exclusive_zone: n, ..self.config() }),
    {
        let mut builder = self;
        builder.config.exclusive_zone = n;
        builder
    }

    /// Sets the size that the window asks for at first.
    pub fn size(self, dim: Size) -> (builder: Builder<A, W>)
        ensures
            builder.app() == self.app(),
            builder.handler() == self.handler(),
            builder.config() == (Config { initial_size: dim, ..self.config() }),
    {
        let mut builder = self;
        builder.config.initial_size = dim;
        builder
    }

    /// Sets the margin that the window keeps from the edges it is anchored
    /// to.
    pub fn margin(self, margin: Margin) -> (builder: Builder<A, W>)
        ensures
            builder.app() == self.app(),
            builder.handler() == self.handler(),
            builder.config() == (Config { margin, ..self.config() }),
    {
        let mut builder = self;
        builder.config.margin = margin;
        builder
    }

    /// Puts together what is needed to create the window.
    ///
    /// This succeeds exactly when a handler was set, and then hands on the
    /// application, the handler and the options unchanged.
    pub fn build(self) -> (window: Result<Window<A, W>, BuildError>)
        ensures
            match self.handler() {
                Some(handler) => window == Ok::<Window<A, W>, BuildError>(
                    Window { app: self.app(), handler, config: self.config() },
                ),
                None => window == Err::<Window<A, W>, BuildError>(BuildError::MissingHandler),
            },
    {
        match self.handler {
            Some(handler) => Ok(Window { app: self.app, handler, config: self.config }),
            None => Err(BuildError::MissingHandler),
        }
    }
}

} // verus!
