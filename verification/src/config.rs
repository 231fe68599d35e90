//! Settings of the edge-snapping behaviour.

use crate::geometry::reinterpret;
#[allow(unused_imports)]
use crate::geometry::reinterpreted;
use vstd::prelude::*;

verus! {

/// The part of an application's window settings that edge snapping reads.
#[derive(Clone, Copy, Debug)]
pub struct WindowConfig {
    pub edge_snap_enabled: bool,
    pub edge_snap_threshold: u32,
    pub edge_snap_peek_width: u32,
    pub edge_snap_delay: u32,
}

/// What edge snapping goes by.
#[derive(Clone, Copy, Debug)]
pub struct EdgeSnapConfig {
    /// Whether windows snap at all.
    pub enabled: bool,
    /// How close to an edge, in pixels, a window counts as being at it.
    pub threshold: i32,
    /// How many pixels of a hidden window keep showing.
    pub peek_width: i32,
    /// How long, in milliseconds, a window rests at an edge before it hides.
    pub snap_delay_ms: u64,
}

impl EdgeSnapConfig {
    /// Takes the settings over. The two pixel counts keep their 32 bits: one
    /// above `i32::MAX` comes out negative.
    pub fn from_window_config(config: &WindowConfig) -> (taken: Self)
        ensures
            taken.enabled == config.edge_snap_enabled,
            taken.threshold == reinterpreted(config.edge_snap_threshold),
            taken.peek_width == reinterpreted(config.edge_snap_peek_width),
            taken.snap_delay_ms == config.edge_snap_delay,
    {
        Self {
            enabled: config.edge_snap_enabled,
            threshold: reinterpret(config.edge_snap_threshold),
            peek_width: reinterpret(config.edge_snap_peek_width),
            snap_delay_ms: config.edge_snap_delay as u64,
        }
    }
}

} // verus!
