//! Client-side tracking of Wayland displays.
//!
//! The crate holds the decisions of a Wayland client that concern displays:
//! how the bursts of `wl_output` events are folded into consistent snapshots,
//! how the connection and its required globals are resolved once and cached,
//! and how a layer-shell window is configured.

pub mod aggregator;
pub mod bursts;
pub mod displays;
pub mod layershell;
pub mod outputs;
pub mod publisher;
pub mod roster;
pub mod screen;
