//! The slides that hide a window and bring it back.

use crate::config::EdgeSnapConfig;
#[allow(unused_imports)]
use crate::geometry::{
    expanded_corner, expanded_in_range, fits_i32, snapped_corner, snapped_in_range,
};
use crate::geometry::{expanded_target_position, snapped_target_position, Edge, RectI32};
use vstd::prelude::*;

verus! {

/// How long a window takes to come out, in milliseconds.
pub const EXPAND_ANIMATION_MS: u64 = 200;

/// How long a window takes to hide, in milliseconds.
pub const SNAP_ANIMATION_MS: u64 = 150;

/// The pause between two frames, in milliseconds.
pub const ANIMATION_TICK_MS: u64 = 16;

/// Nanoseconds in a millisecond.
pub const NANOS_PER_MS: u128 = 1_000_000;

/// How a slide spends its time: slow at the start, or slow at the end.
#[derive(Clone, Copy, Debug, PartialEq, Eq, Structural)]
pub enum Ease {
    In,
    Out,
}

/// One slide of a window's upper left corner.
#[derive(Clone, Copy, Debug, PartialEq, Eq, Structural)]
pub struct WindowAnimation {
    pub from_x: i32,
    pub from_y: i32,
    pub to_x: i32,
    pub to_y: i32,
    pub duration_ms: u64,
    pub ease: Ease,
    /// Whether the window is shown and focused once it has arrived.
    pub raises: bool,
}

/// What a running slide does next.
#[derive(Clone, Copy, Debug, PartialEq, Eq, Structural)]
pub enum Frame {
    /// Put the window on its way, at the eased part of `(dx, dy)` from the
    /// start, and look again after `wait_ms`.
    Between { dx: i32, dy: i32, wait_ms: u64 },
    /// Put the window at `(x, y)`: the slide is over.
    Last { x: i32, y: i32 },
}

impl WindowAnimation {
    /// Whether the slide is no slide: it takes no time or leads nowhere.
    pub open spec fn jumps(self) -> bool {
        self.duration_ms == 0 || (self.from_x == self.to_x && self.from_y == self.to_y)
    }

    /// Whether the way to go is an `i32` in both directions.
    pub open spec fn span_in_range(self) -> bool {
        fits_i32(self.to_x - self.from_x) && fits_i32(self.to_y - self.from_y)
    }

    /// Whether the slide is over `elapsed` nanoseconds after its start.
    pub open spec fn is_over(self, elapsed: int) -> bool {
        elapsed >= self.duration_ms * NANOS_PER_MS
    }

    /// What the slide does `elapsed` nanoseconds after its start.
    pub open spec fn frame_at(self, elapsed: int) -> Frame {
        if self.is_over(elapsed) {
            Frame::Last { x: self.to_x, y: self.to_y }
        } else {
            Frame::Between {
                dx: (self.to_x - self.from_x) as i32,
                dy: (self.to_y - self.from_y) as i32,
                wait_ms: ANIMATION_TICK_MS,
            }
        }
    }

    /// Tests whether the window is put at its target at once, without frames.
    pub fn is_jump(&self) -> (jump: bool)
        ensures
            jump == self.jumps(),
    {
        self.duration_ms == 0 || (self.from_x == self.to_x && self.from_y == self.to_y)
    }

    /// Tests, for a caller outside the prover, what `frame` requires.
    pub fn can_run(&self) -> (ok: bool)
        ensures
            ok == self.span_in_range(),
    {
        self.to_x.checked_sub(self.from_x).is_some() && self.to_y.checked_sub(
            self.from_y,
        ).is_some()
    }

    /// What to do when `elapsed` nanoseconds of the slide have passed.
    pub fn frame(&self, elapsed: u128) -> (frame: Frame)
        requires
            self.span_in_range(),
        ensures
            frame == self.frame_at(elapsed as int),
    {
        assert(self.duration_ms * NANOS_PER_MS <= u64::MAX * 1_000_000) by (nonlinear_arith)
            requires
                NANOS_PER_MS == 1_000_000,
                self.duration_ms <= u64::MAX,
        ;
        if elapsed >= self.duration_ms as u128 * NANOS_PER_MS {
            Frame::Last { x: self.to_x, y: self.to_y }
        } else {
            Frame::Between {
                dx: self.to_x - self.from_x,
                dy: self.to_y - self.from_y,
                wait_ms: ANIMATION_TICK_MS,
            }
        }
    }
}

/// Whether `plan` hides `window` at `edge` of `work` with `peek` pixels showing.
pub open spec fn hides(
    plan: WindowAnimation,
    window: RectI32,
    work: RectI32,
    peek: int,
    edge: Edge,
) -> bool {
    &&& plan.from_x == window.left
    &&& plan.from_y == window.top
    &&& plan.to_x == snapped_corner(window, work, peek, edge).0
    &&& plan.to_y == snapped_corner(window, work, peek, edge).1
    &&& plan.duration_ms == SNAP_ANIMATION_MS
    &&& plan.ease is In
    &&& !plan.raises
}

/// Whether `plan` brings `window` out at `edge` of `work`.
pub open spec fn reveals(
    plan: WindowAnimation,
    window: RectI32,
    work: RectI32,
    edge: Edge,
) -> bool {
    &&& plan.from_x == window.left
    &&& plan.from_y == window.top
    &&& plan.to_x == expanded_corner(window, work, edge).0
    &&& plan.to_y == expanded_corner(window, work, edge).1
    &&& plan.duration_ms == EXPAND_ANIMATION_MS
    &&& plan.ease is Out
    &&& plan.raises
}

/// Plans the slide that hides the window. `geometry` is the window's rectangle
/// and its work area; without them there is nothing to plan.
pub fn snap_to_edge(
    geometry: Option<(RectI32, RectI32)>,
    config: &EdgeSnapConfig,
    edge: Edge,
) -> (plan: Result<WindowAnimation, ()>)
    requires
        geometry matches Some((window, work)) ==> snapped_in_range(
            window,
            work,
            config.peek_width as int,
            edge,
        ),
    ensures
        plan is Ok <==> geometry is Some,
        geometry matches Some((window, work)) ==> hides(
            plan->Ok_0,
            window,
            work,
            config.peek_width as int,
            edge,
        ),
{
    match geometry {
        None => Err(()),
        Some((window_rect, work)) => {
            let (target_x, target_y): (i32, i32) = snapped_target_position(
                &window_rect,
                &work,
                config.peek_width,
                edge,
            );
            Ok(
                WindowAnimation {
                    from_x: window_rect.left,
                    from_y: window_rect.top,
                    to_x: target_x,
                    to_y: target_y,
                    duration_ms: SNAP_ANIMATION_MS,
                    ease: Ease::In,
                    raises: false,
                },
            )
        },
    }
}

/// Plans the slide that brings the window out and to the front.
pub fn expand_from_edge(edge: Edge, window_rect: &RectI32, work: &RectI32) -> (plan:
    WindowAnimation)
    requires
        expanded_in_range(*window_rect, *work, edge),
    ensures
        reveals(plan, *window_rect, *work, edge),
{
    let (target_x, target_y): (i32, i32) = expanded_target_position(window_rect, work, edge);
    WindowAnimation {
        from_x: window_rect.left,
        from_y: window_rect.top,
        to_x: target_x,
        to_y: target_y,
        duration_ms: EXPAND_ANIMATION_MS,
        ease: Ease::Out,
        raises: true,
    }
}

} // verus!
