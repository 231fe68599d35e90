//! The phases of a snapping window, and what moves it from one to the next.

use crate::animation::NANOS_PER_MS;
use crate::config::EdgeSnapConfig;
use crate::geometry::{can_detect_edge, can_test_hot_zone, cursor_in_hot_zone, detect_edge};
#[allow(unused_imports)]
use crate::geometry::{detected_edge, detection_in_range, hot_zone_in_range, in_hot_zone};
use crate::geometry::{Edge, RectI32};
use vstd::prelude::*;

verus! {

/// How long the cursor stays away from a window that came out before the
/// window hides again, in milliseconds.
pub const MOUSE_LEAVE_DELAY_MS: u64 = 500;

/// The pause between two looks at the cursor, in milliseconds.
pub const CURSOR_POLL_INTERVAL_MS: u64 = 33;

/// A slide to perform.
#[derive(Clone, Copy, Debug, PartialEq, Eq, Structural)]
pub enum Action {
    /// Bring the window out at the edge.
    Expand { edge: Edge },
    /// Hide the window at the edge.
    Snap { edge: Edge },
}

/// Where a window stands in its life at the edge.
#[derive(Clone, Copy, Debug, PartialEq, Eq)]
pub enum Phase {
    /// Away from the edges.
    Normal,
    /// Resting at an edge, to be hidden once the delay is over.
    Pending { edge: Edge, generation: u64 },
    /// Hidden at an edge.
    Snapped { edge: Edge },
    /// Out at an edge. `mouse_left_at` is the clock reading, in nanoseconds,
    /// at which the cursor was first seen away from the window.
    Expanded { edge: Edge, mouse_left_at: Option<u128> },
    /// On a slide.
    Animating,
}

/// What the window system reports of a window.
#[derive(Clone, Copy, Debug, PartialEq, Eq, Structural)]
pub enum WindowEvent {
    Moved,
    Resized,
    /// Anything else.
    Other,
}

/// The state of edge snapping for one window.
#[derive(Clone, Copy, Debug)]
pub struct EdgeSnapManager {
    pub config: EdgeSnapConfig,
    pub phase: Phase,
    /// How many times a snap was pending so far; the latest one bears this number.
    pub pending_gen: u64,
}

/// Whether a cursor away since `left_at` has stayed away long enough by
/// `checked_at`, both in nanoseconds.
pub open spec fn away_long_enough(left_at: int, checked_at: int) -> bool {
    checked_at - left_at >= MOUSE_LEAVE_DELAY_MS * NANOS_PER_MS
}

/// Since when the cursor is away: the recorded reading, or else `now`.
pub open spec fn away_since(mouse_left_at: Option<u128>, now: u128) -> u128 {
    match mouse_left_at {
        Some(left_at) => left_at,
        None => now,
    }
}

impl EdgeSnapManager {
    /// A pending snap is the latest one.
    pub open spec fn well_formed(self) -> bool {
        self.phase is Pending ==> self.phase->generation == self.pending_gen
    }

    /// `self` in another phase.
    pub open spec fn in_phase(self, phase: Phase) -> EdgeSnapManager {
        EdgeSnapManager { phase, ..self }
    }

    /// Whether a window event asks for a look at where the window is.
    pub open spec fn heeds(self, event: WindowEvent) -> bool {
        self.config.enabled && !(event is Other)
    }

    /// Whether a window seen at `edge` becomes pending.
    pub open spec fn arms(self, edge: Option<Edge>) -> bool {
        self.phase is Normal && edge is Some
    }

    /// The state after the window was seen at `edge`, or at none: one at rest
    /// becomes pending at an edge, and is back at rest away from all of them,
    /// except on a slide.
    pub open spec fn after_move(self, edge: Option<Edge>) -> EdgeSnapManager {
        if self.arms(edge) {
            let generation = (self.pending_gen + 1) as u64;
            EdgeSnapManager {
                phase: Phase::Pending { edge: edge->0, generation },
                pending_gen: generation,
                ..self
            }
        } else if edge is None && !(self.phase is Animating) {
            self.in_phase(Phase::Normal)
        } else {
            self
        }
    }

    /// The slide to perform when a delay is over.
    pub open spec fn delay_action(self) -> Option<Action> {
        match self.phase {
            Phase::Pending { edge, generation } if generation == self.pending_gen => Some(
                Action::Snap { edge },
            ),
            _ => None,
        }
    }

    /// The state after a delay is over.
    pub open spec fn after_delay(self) -> EdgeSnapManager {
        if self.delay_action() is Some {
            self.in_phase(Phase::Animating)
        } else {
            self
        }
    }

    /// The slide to perform with the cursor at `(x, y)`: a hidden window comes
    /// out when the cursor is in its hot zone; one that is out hides when the
    /// cursor has been away from it long enough.
    pub open spec fn tick_action(
        self,
        x: int,
        y: int,
        window: RectI32,
        work: RectI32,
        now: u128,
        checked_at: u128,
    ) -> Option<Action> {
        match self.phase {
            Phase::Snapped { edge } if in_hot_zone(edge, x, y, window, work) => Some(
                Action::Expand { edge },
            ),
            Phase::Expanded { edge, mouse_left_at } if !window.has_point(x, y) && away_long_enough(
                away_since(mouse_left_at, now) as int,
                checked_at as int,
            ) => Some(Action::Snap { edge }),
            _ => None,
        }
    }

    /// The state after a look at the cursor. A window that is out records when
    /// the cursor left it, and forgets it when the cursor is back.
    pub open spec fn after_tick(
        self,
        x: int,
        y: int,
        window: RectI32,
        work: RectI32,
        now: u128,
        checked_at: u128,
    ) -> EdgeSnapManager {
        if self.tick_action(x, y, window, work, now, checked_at) is Some {
            self.in_phase(Phase::Animating)
        } else if self.phase is Expanded {
            let mouse_left_at = if window.has_point(x, y) {
                None
            } else {
                Some(away_since(self.phase->mouse_left_at, now))
            };
            self.in_phase(Phase::Expanded { edge: self.phase->Expanded_edge, mouse_left_at })
        } else {
            self
        }
    }

    /// The state after a slide.
    pub open spec fn after_slide(self, action: Action) -> EdgeSnapManager {
        match action {
            Action::Expand { edge } => self.in_phase(
                Phase::Expanded { edge, mouse_left_at: None },
            ),
            Action::Snap { edge } => self.in_phase(Phase::Snapped { edge }),
        }
    }

    /// A window away from the edges.
    pub fn new(config: EdgeSnapConfig) -> (manager: Self)
        ensures
            manager.config == config,
            manager.phase is Normal,
            manager.pending_gen == 0,
            manager.well_formed(),
    {
        Self { config, phase: Phase::Normal, pending_gen: 0 }
    }

    /// Whether the mouse is to be hooked, so that the cursor's position is known.
    pub fn hooks_mouse(&self) -> (hooks: bool)
        ensures
            hooks == self.config.enabled,
    {
        self.config.enabled
    }

    /// How often, in milliseconds, the cursor is to be looked at with
    /// `on_cursor_tick`, if at all.
    pub fn start_cursor_watcher(&self) -> (interval: Option<u64>)
        ensures
            interval == if self.config.enabled {
                Some(CURSOR_POLL_INTERVAL_MS)
            } else {
                None
            },
    {
        if !self.config.enabled {
            return None;
        }
        Some(CURSOR_POLL_INTERVAL_MS)
    }

    /// Whether the event asks for a look at where the window is, the outcome
    /// of which goes to `on_window_moved_or_resized`.
    pub fn handle_window_event(&self, event: &WindowEvent) -> (looks: bool)
        ensures
            looks == self.heeds(*event),
    {
        if !self.config.enabled {
            return false;
        }
        match event {
            WindowEvent::Moved | WindowEvent::Resized => true,
            WindowEvent::Other => false,
        }
    }

    /// Whether a look at the window asks for no number beyond its type.
    pub open spec fn move_in_range(self, geometry: Option<(RectI32, RectI32)>) -> bool {
        geometry matches Some((window, work)) ==> {
            let threshold = self.config.threshold as int;
            &&& detection_in_range(window, work, threshold)
            &&& self.arms(detected_edge(window, work, threshold)) ==> self.pending_gen < u64::MAX
        }
    }

    /// Tests, for a caller outside the prover, what `on_window_moved_or_resized`
    /// requires.
    pub fn can_take_move(&self, geometry: &Option<(RectI32, RectI32)>) -> (ok: bool)
        ensures
            ok == self.move_in_range(*geometry),
    {
        match geometry {
            None => true,
            Some((window_rect, work_area)) => {
                if !can_detect_edge(window_rect, work_area, self.config.threshold) {
                    return false;
                }
                match self.phase {
                    Phase::Normal => {
                        self.pending_gen < u64::MAX || detect_edge(
                            window_rect,
                            work_area,
                            self.config.threshold,
                        ).is_none()
                    },
                    _ => true,
                }
            },
        }
    }

    /// Takes in where the window is: its rectangle and its work area, or
    /// nothing where they could not be had. A result is the delay, in
    /// milliseconds, after which `on_delay_elapsed` is to be called.
    pub fn on_window_moved_or_resized(&mut self, geometry: Option<(RectI32, RectI32)>) -> (delay:
        Option<u64>)
        requires
            old(self).move_in_range(geometry),
        ensures
            geometry is None ==> *final(self) == *old(self) && delay is None,
            geometry matches Some((window, work)) ==> {
                let edge = detected_edge(window, work, old(self).config.threshold as int);
                &&& *final(self) == old(self).after_move(edge)
                &&& delay == if old(self).arms(edge) {
                    Some(old(self).config.snap_delay_ms)
                } else {
                    None
                }
            },
            old(self).well_formed() ==> final(self).well_formed(),
    {
        let (window_rect, work_area): (RectI32, RectI32) = match geometry {
            None => {
                return None;
            },
            Some(both) => both,
        };
        let edge: Option<Edge> = detect_edge(&window_rect, &work_area, self.config.threshold);
        match self.phase {
            Phase::Animating => {
                return None;
            },
            Phase::Snapped { .. } | Phase::Expanded { .. } | Phase::Pending { .. } => {
                if edge.is_none() {
                    self.phase = Phase::Normal;
                }
                return None;
            },
            Phase::Normal => {},
        }
        match edge {
            None => None,
            Some(edge) => {
                self.pending_gen = self.pending_gen + 1;
                self.phase = Phase::Pending { edge, generation: self.pending_gen };
                Some(self.config.snap_delay_ms)
            },
        }
    }

    /// Takes in that a delay is over. The window is hidden if it is pending
    /// now, whichever delay it was; the slide is then to be performed.
    pub fn on_delay_elapsed(&mut self) -> (action: Option<Action>)
        ensures
            action == old(self).delay_action(),
            *final(self) == old(self).after_delay(),
            old(self).well_formed() ==> final(self).well_formed(),
    {
        match self.phase {
            Phase::Pending { edge, generation } => {
                if generation != self.pending_gen {
                    return None;
                }
                self.phase = Phase::Animating;
                Some(Action::Snap { edge })
            },
            _ => None,
        }
    }

    /// Whether a look at the cursor asks for no number beyond its type.
    pub open spec fn tick_in_range(self, x: int, geometry: Option<(RectI32, RectI32)>) -> bool {
        geometry matches Some((window, work)) ==> (self.phase matches Phase::Snapped { edge }
            ==> hot_zone_in_range(edge, x, window, work))
    }

    /// Tests, for a caller outside the prover, what `on_cursor_tick` requires.
    pub fn can_take_tick(&self, x: i32, geometry: &Option<(RectI32, RectI32)>) -> (ok: bool)
        ensures
            ok == self.tick_in_range(x as int, *geometry),
    {
        match geometry {
            None => true,
            Some((window_rect, work_area)) => match self.phase {
                Phase::Snapped { edge } => can_test_hot_zone(edge, x, window_rect, work_area),
                _ => true,
            },
        }
    }

    /// Takes in a look at the cursor at `(x, y)` and at where the window is:
    /// its rectangle and its work area, or nothing where they could not be had.
    /// `now` is the clock reading, in nanoseconds, to record for a cursor just
    /// gone; `checked_at` is a later one, by which its absence is measured.
    /// A result is the slide to perform.
    pub fn on_cursor_tick(
        &mut self,
        x: i32,
        y: i32,
        geometry: Option<(RectI32, RectI32)>,
        now: u128,
        checked_at: u128,
    ) -> (action: Option<Action>)
        requires
            old(self).tick_in_range(x as int, geometry),
        ensures
            geometry is None ==> *final(self) == *old(self) && action is None,
            geometry matches Some((window, work)) ==> {
                &&& action == old(self).tick_action(
                    x as int,
                    y as int,
                    window,
                    work,
                    now,
                    checked_at,
                )
                &&& *final(self) == old(self).after_tick(
                    x as int,
                    y as int,
                    window,
                    work,
                    now,
                    checked_at,
                )
            },
            old(self).well_formed() ==> final(self).well_formed(),
    {
        let (window_rect, work_area): (RectI32, RectI32) = match geometry {
            None => {
                return None;
            },
            Some(both) => both,
        };
        match self.phase {
            Phase::Snapped { edge } => {
                if cursor_in_hot_zone(edge, x, y, &window_rect, &work_area) {
                    self.phase = Phase::Animating;
                    Some(Action::Expand { edge })
                } else {
                    None
                }
            },
            Phase::Expanded { edge, mouse_left_at } => {
                if window_rect.contains_point(x, y) {
                    self.phase = Phase::Expanded { edge, mouse_left_at: None };
                    None
                } else {
                    let left_at: u128 = match mouse_left_at {
                        Some(left_at) => left_at,
                        None => now,
                    };
                    if checked_at >= left_at && checked_at - left_at >= MOUSE_LEAVE_DELAY_MS as u128
                        * NANOS_PER_MS {
                        self.phase = Phase::Animating;
                        Some(Action::Snap { edge })
                    } else {
                        self.phase = Phase::Expanded { edge, mouse_left_at: Some(left_at) };
                        None
                    }
                }
            },
            _ => None,
        }
    }

    /// Takes in that a slide is over, whether or not the window got moved.
    pub fn on_action_done(&mut self, action: Action)
        ensures
            *final(self) == old(self).after_slide(action),
            final(self).well_formed(),
    {
        match action {
            Action::Expand { edge } => {
                self.phase = Phase::Expanded { edge, mouse_left_at: None };
            },
            Action::Snap { edge } => {
                self.phase = Phase::Snapped { edge };
            },
        }
    }
}

} // verus!
