//! What holds of the library as a whole.
//!
//! The submodules say of each call what it does, in coordinates, phases and
//! clock readings, and how calls relate; `call_ensures(f, args, result)` there
//! reads "a call of `f` on `args` may return `result`". The laws below are over
//! the transitions themselves and over whole runs of them.

pub mod geometry;
pub mod phases;
pub mod slides;
pub mod system;

#[allow(unused_imports)]
use crate::animation::{hides, reveals, Frame, WindowAnimation};
#[allow(unused_imports)]
use crate::geometry::{detected_edge, in_hot_zone, near_edge, Edge, RectI32, HOT_ZONE_PX};
#[allow(unused_imports)]
use crate::manager::{away_long_enough, Action, EdgeSnapManager, Phase, WindowEvent};
use vstd::prelude::*;

verus! {

/// The extent of a rectangle across the given edge.
pub open spec fn extent_across(rect: RectI32, edge: Edge) -> int {
    match edge {
        Edge::Top => rect.extent_y(),
        _ => rect.extent_x(),
    }
}

/// How far a rectangle reaches from the given edge into `work`.
pub open spec fn depth_inside(rect: RectI32, work: RectI32, edge: Edge) -> int {
    match edge {
        Edge::Left => rect.right - work.left,
        Edge::Right => work.right - rect.left,
        Edge::Top => rect.bottom - work.top,
    }
}

/// Whether `after` is `before` slid to where it is hidden at `edge`.
pub open spec fn hidden_from(
    after: RectI32,
    before: RectI32,
    work: RectI32,
    peek: int,
    edge: Edge,
) -> bool {
    exists|plan: WindowAnimation| #[trigger]
        hides(plan, before, work, peek, edge) && after.is_moved(before, (plan.to_x, plan.to_y))
}

/// Whether `after` is `before` slid to where it is out at `edge`.
pub open spec fn revealed_from(after: RectI32, before: RectI32, work: RectI32, edge: Edge) -> bool {
    exists|plan: WindowAnimation| #[trigger]
        reveals(plan, before, work, edge) && after.is_moved(before, (plan.to_x, plan.to_y))
}

/// An edge is detected exactly where the window is near some edge; it is one
/// that the window is near, and left goes before right, right before top.
pub proof fn law_detects_first_near_edge(window: RectI32, work: RectI32, threshold: int)
    ensures
        detected_edge(window, work, threshold) is None <==> forall|edge: Edge|
            !near_edge(edge, window, work, threshold),
        detected_edge(window, work, threshold) matches Some(edge) ==> {
            &&& near_edge(edge, window, work, threshold)
            &&& near_edge(Edge::Left, window, work, threshold) ==> edge is Left
            &&& near_edge(Edge::Right, window, work, threshold) ==> !(edge is Top)
        },
{
    if detected_edge(window, work, threshold) is None {
        assert forall|edge: Edge| !near_edge(edge, window, work, threshold) by {
            match edge {
                Edge::Left => {},
                Edge::Right => {},
                Edge::Top => {},
            }
        }
    }
}

/// A larger threshold detects an edge wherever a smaller one does, and one no
/// later in the order: left stays left, and right does not become top.
pub proof fn law_detection_grows_with_threshold(
    window: RectI32,
    work: RectI32,
    smaller: int,
    larger: int,
)
    requires
        smaller <= larger,
    ensures
        detected_edge(window, work, smaller) is Some ==> detected_edge(
            window,
            work,
            larger,
        ) is Some,
        detected_edge(window, work, smaller) == Some(Edge::Left) ==> detected_edge(
            window,
            work,
            larger,
        ) == Some(Edge::Left),
        detected_edge(window, work, smaller) == Some(Edge::Right) ==> detected_edge(
            window,
            work,
            larger,
        ) != Some(Edge::Top),
        forall|edge: Edge| #[trigger]
            near_edge(edge, window, work, smaller) ==> near_edge(edge, window, work, larger),
{
}

/// A hidden window reaches exactly the peek width into the work area, and has
/// not moved along the edge.
pub proof fn law_hidden_window_peeks(
    after: RectI32,
    before: RectI32,
    work: RectI32,
    peek: int,
    edge: Edge,
)
    requires
        hidden_from(after, before, work, peek, edge),
    ensures
        depth_inside(after, work, edge) == peek,
        edge is Top ==> after.left == before.left && after.right == before.right,
        !(edge is Top) ==> after.top == before.top && after.bottom == before.bottom,
{
}

/// A window that is out reaches its whole extent into the work area, and has
/// not moved along the edge.
pub proof fn law_revealed_window_is_flush(
    after: RectI32,
    before: RectI32,
    work: RectI32,
    edge: Edge,
)
    requires
        revealed_from(after, before, work, edge),
    ensures
        depth_inside(after, work, edge) == extent_across(before, edge),
        edge is Top ==> after.left == before.left && after.right == before.right,
        !(edge is Top) ==> after.top == before.top && after.bottom == before.bottom,
{
}

/// Hiding a window and bringing it out puts it where bringing it out at once
/// would have: hiding loses nothing.
pub proof fn law_reveal_undoes_hide(
    start: RectI32,
    hidden: RectI32,
    out: RectI32,
    work: RectI32,
    peek: int,
    edge: Edge,
)
    requires
        hidden_from(hidden, start, work, peek, edge),
        revealed_from(out, hidden, work, edge),
    ensures
        revealed_from(out, start, work, edge),
{
    let plan = choose|plan: WindowAnimation| #[trigger]
        reveals(plan, hidden, work, edge) && out.is_moved(hidden, (plan.to_x, plan.to_y));
    let direct = WindowAnimation { from_x: start.left, from_y: start.top, ..plan };
    assert(reveals(direct, start, work, edge));
}

/// Bringing a window out and hiding it again puts it back where it was hidden.
pub proof fn law_hide_undoes_reveal(
    start: RectI32,
    hidden: RectI32,
    out: RectI32,
    again: RectI32,
    work: RectI32,
    peek: int,
    edge: Edge,
)
    requires
        hidden_from(hidden, start, work, peek, edge),
        revealed_from(out, hidden, work, edge),
        hidden_from(again, out, work, peek, edge),
    ensures
        again == hidden,
{
}

/// A hidden window is still near its edge exactly where the peek width is at
/// most its extent and the threshold together. It then stays hidden, however
/// often it is reported moved to that place.
pub proof fn law_hidden_window_stays_hidden(
    manager: EdgeSnapManager,
    after: RectI32,
    before: RectI32,
    work: RectI32,
    edge: Edge,
)
    requires
        manager.phase == (Phase::Snapped { edge }),
        hidden_from(after, before, work, manager.config.peek_width as int, edge),
    ensures
        near_edge(edge, after, work, manager.config.threshold as int)
            <==> manager.config.peek_width <= extent_across(before, edge)
            + manager.config.threshold,
        near_edge(edge, after, work, manager.config.threshold as int) ==> manager.after_move(
            detected_edge(after, work, manager.config.threshold as int),
        ) == manager,
{
}

/// A window that is out is still near its edge exactly where the threshold is
/// not negative. It then stays out, however often it is reported moved to that
/// place.
pub proof fn law_revealed_window_stays_out(
    manager: EdgeSnapManager,
    mouse_left_at: Option<u128>,
    after: RectI32,
    before: RectI32,
    work: RectI32,
    edge: Edge,
)
    requires
        manager.phase == (Phase::Expanded { edge, mouse_left_at }),
        revealed_from(after, before, work, edge),
    ensures
        near_edge(edge, after, work, manager.config.threshold as int)
            <==> manager.config.threshold >= 0,
        near_edge(edge, after, work, manager.config.threshold as int) ==> manager.after_move(
            detected_edge(after, work, manager.config.threshold as int),
        ) == manager,
{
}

/// The whole of a hidden window, and so the strip that peeks out, wakes it
/// exactly where the peek width does not exceed the depth of the hot zone.
pub proof fn law_strip_wakes_window(
    after: RectI32,
    before: RectI32,
    work: RectI32,
    peek: int,
    edge: Edge,
)
    requires
        hidden_from(after, before, work, peek, edge),
        after.has_point(after.left as int, after.top as int),
    ensures
        (forall|x: int, y: int| #[trigger]
            after.has_point(x, y) ==> in_hot_zone(edge, x, y, after, work)) <==> peek
            <= HOT_ZONE_PX,
{
    if peek > HOT_ZONE_PX {
        let (x, y) = match edge {
            Edge::Left => (after.right as int, after.top as int),
            Edge::Right => (after.left as int, after.top as int),
            Edge::Top => (after.left as int, after.bottom as int),
        };
        assert(after.has_point(x, y) && !in_hot_zone(edge, x, y, after, work));
    }
}

/// With snapping switched off, no window event is heeded.
pub proof fn law_disabled_heeds_nothing(manager: EdgeSnapManager, event: WindowEvent)
    requires
        !manager.config.enabled,
    ensures
        !manager.heeds(event),
{
}

/// A slide that is over stays over, and its window is put exactly at the target.
pub proof fn law_slide_ends_at_target(plan: WindowAnimation, elapsed: int, later: int)
    requires
        plan.is_over(elapsed),
        elapsed <= later,
    ensures
        plan.frame_at(elapsed) == (Frame::Last { x: plan.to_x, y: plan.to_y }),
        plan.frame_at(later) == plan.frame_at(elapsed),
{
}

/// Before its time a slide is never over: it goes on from frame to frame.
pub proof fn law_slide_takes_its_time(plan: WindowAnimation, elapsed: int)
    requires
        !plan.is_over(elapsed),
    ensures
        plan.frame_at(elapsed) is Between,
{
}

/// One look at the cursor and the window.
pub struct Look {
    pub x: int,
    pub y: int,
    pub window: RectI32,
    pub work: RectI32,
    pub now: u128,
    pub checked_at: u128,
}

impl Look {
    /// Whether the cursor is over the window.
    pub open spec fn is_over_window(self) -> bool {
        self.window.has_point(self.x, self.y)
    }

    /// The slide that the manager asks for on this look.
    pub open spec fn action(self, manager: EdgeSnapManager) -> Option<Action> {
        manager.tick_action(self.x, self.y, self.window, self.work, self.now, self.checked_at)
    }

    /// The manager's state after this look.
    pub open spec fn after(self, manager: EdgeSnapManager) -> EdgeSnapManager {
        manager.after_tick(self.x, self.y, self.window, self.work, self.now, self.checked_at)
    }
}

/// Something that a manager takes in.
pub enum Event {
    /// The window was seen at an edge, or at none.
    Moved { edge: Option<Edge> },
    /// A delay is over.
    DelayElapsed,
    /// The cursor was looked at.
    Tick { look: Look },
    /// A slide is over.
    ActionDone { action: Action },
}

/// The manager's state after an event.
pub open spec fn next(manager: EdgeSnapManager, event: Event) -> EdgeSnapManager {
    match event {
        Event::Moved { edge } => manager.after_move(edge),
        Event::DelayElapsed => manager.after_delay(),
        Event::Tick { look } => look.after(manager),
        Event::ActionDone { action } => manager.after_slide(action),
    }
}

/// The slide that the manager asks for on an event.
pub open spec fn asks(manager: EdgeSnapManager, event: Event) -> Option<Action> {
    match event {
        Event::DelayElapsed => manager.delay_action(),
        Event::Tick { look } => look.action(manager),
        _ => None,
    }
}

/// The manager's state after a run of events.
pub open spec fn run(start: EdgeSnapManager, events: Seq<Event>) -> EdgeSnapManager
    decreases events.len(),
{
    if events.len() == 0 {
        start
    } else {
        next(run(start, events.drop_last()), events.last())
    }
}

/// How many slides asked for in a run of events are not over at its end.
pub open spec fn slides_under_way(start: EdgeSnapManager, events: Seq<Event>) -> int
    decreases events.len(),
{
    if events.len() == 0 {
        0
    } else {
        let before = slides_under_way(start, events.drop_last());
        if events.last() is ActionDone {
            before - 1
        } else if asks(run(start, events.drop_last()), events.last()) is Some {
            before + 1
        } else {
            before
        }
    }
}

/// Whether in a run of events a slide is reported over only while one is under way.
pub open spec fn reports_only_real_slides(start: EdgeSnapManager, events: Seq<Event>) -> bool
    decreases events.len(),
{
    events.len() == 0 || {
        &&& reports_only_real_slides(start, events.drop_last())
        &&& events.last() is ActionDone ==> slides_under_way(start, events.drop_last()) >= 1
    }
}

/// However a manager is driven from a fresh start, a pending snap is the latest
/// one, and the settings stay as they were.
pub proof fn law_every_state_is_well_formed(start: EdgeSnapManager, events: Seq<Event>)
    requires
        start.phase is Normal,
    ensures
        run(start, events).well_formed(),
        run(start, events).config == start.config,
    decreases events.len(),
{
    if events.len() > 0 {
        law_every_state_is_well_formed(start, events.drop_last());
    }
}

/// On a slide, nothing but its end is heeded: no move, delay or cursor changes
/// the state, and no second slide is asked for.
pub proof fn law_slide_is_undisturbed(manager: EdgeSnapManager, event: Event)
    requires
        manager.phase is Animating,
        !(event is ActionDone),
    ensures
        next(manager, event) == manager,
        asks(manager, event) is None,
{
}

/// However a manager is driven from a fresh start, at most one slide is under
/// way at any time, and one is under way exactly in the phase for it.
pub proof fn law_one_slide_at_a_time(start: EdgeSnapManager, events: Seq<Event>)
    requires
        start.phase is Normal,
        reports_only_real_slides(start, events),
    ensures
        slides_under_way(start, events) == if run(start, events).phase is Animating {
            1int
        } else {
            0int
        },
    decreases events.len(),
{
    if events.len() > 0 {
        law_one_slide_at_a_time(start, events.drop_last());
    }
}

/// The edge of a phase that has one.
pub open spec fn edge_of(phase: Phase) -> Option<Edge> {
    match phase {
        Phase::Pending { edge, .. } => Some(edge),
        Phase::Snapped { edge } => Some(edge),
        Phase::Expanded { edge, .. } => Some(edge),
        _ => None,
    }
}

/// A window comes out only when hidden, and hides only when pending or out; it
/// does so at the edge where it is.
pub proof fn law_slide_is_at_own_edge(manager: EdgeSnapManager, event: Event)
    ensures
        asks(manager, event) matches Some(Action::Expand { edge }) ==> {
            &&& manager.phase is Snapped
            &&& edge_of(manager.phase) == Some(edge)
        },
        asks(manager, event) matches Some(Action::Snap { edge }) ==> {
            &&& manager.phase is Pending || manager.phase is Expanded
            &&& edge_of(manager.phase) == Some(edge)
        },
        asks(manager, event) is Some ==> next(manager, event).phase is Animating,
{
}

/// Only a window at rest becomes pending, each time under a new number.
pub proof fn law_numbers_grow(manager: EdgeSnapManager, event: Event)
    requires
        manager.pending_gen < u64::MAX,
    ensures
        next(manager, event).pending_gen == if event matches Event::Moved { edge }
            && manager.arms(edge) {
            manager.pending_gen + 1
        } else {
            manager.pending_gen as int
        },
{
}

/// A window still pending when a delay is over is hidden at the edge it is
/// pending at; a second delay that is over then changes nothing.
pub proof fn law_pending_window_is_hidden(manager: EdgeSnapManager)
    requires
        manager.well_formed(),
        manager.phase is Pending,
    ensures
        manager.delay_action() == Some(Action::Snap { edge: manager.phase->Pending_edge }),
        manager.after_delay().phase is Animating,
        manager.after_delay().delay_action() is None,
        manager.after_delay().after_delay() == manager.after_delay(),
        manager.after_delay().after_slide(manager.delay_action()->0).phase == (Phase::Snapped {
            edge: manager.phase->Pending_edge,
        }),
{
}

/// A pending window moved away from the edges is not hidden by its delay.
pub proof fn law_moving_away_cancels(manager: EdgeSnapManager)
    requires
        manager.phase is Pending,
    ensures
        manager.after_move(None).phase is Normal,
        manager.after_move(None).delay_action() is None,
        manager.after_move(None).after_delay() == manager.after_move(None),
{
}

/// A pending window that is seen again at an edge keeps waiting for the edge it
/// was first seen at, and no further delay is started.
pub proof fn law_pending_edge_is_kept(manager: EdgeSnapManager, edge: Edge)
    requires
        manager.phase is Pending,
    ensures
        manager.after_move(Some(edge)) == manager,
        !manager.arms(Some(edge)),
{
}

/// Whether the event at `i` is a look that found the window out at `edge` and
/// the cursor away from it.
pub open spec fn found_away(start: EdgeSnapManager, events: Seq<Event>, i: int, edge: Edge) -> bool {
    &&& 0 <= i < events.len()
    &&& events[i] is Tick
    &&& !events[i]->look.is_over_window()
    &&& run(start, events.take(i)).phase matches Phase::Expanded { edge: at, .. } && at == edge
}

/// Whether no look from the event at `i` on found the cursor over the window.
pub open spec fn never_over_window_since(events: Seq<Event>, i: int) -> bool {
    forall|j: int|
        i <= j < events.len() && (#[trigger] events[j]) is Tick
            ==> !events[j]->look.is_over_window()
}

/// Whether the window was out at `edge` after each event from the one at `i`
/// on, up to the first `end` of them.
pub open spec fn out_since(
    start: EdgeSnapManager,
    events: Seq<Event>,
    i: int,
    end: int,
    edge: Edge,
) -> bool {
    forall|k: int|
        i < k <= end ==> ((#[trigger] run(start, events.take(k))).phase matches Phase::Expanded {
            edge: at,
            ..
        } && at == edge)
}

/// A reading recorded in the phase is that of a look which found the cursor
/// away; since then the window was out, and the cursor never over it.
proof fn lemma_recorded_leave_was_seen(
    start: EdgeSnapManager,
    events: Seq<Event>,
    edge: Edge,
    left_at: u128,
) -> (i: int)
    requires
        start.phase is Normal,
        run(start, events).phase == (Phase::Expanded { edge, mouse_left_at: Some(left_at) }),
    ensures
        found_away(start, events, i, edge),
        events[i]->look.now == left_at,
        never_over_window_since(events, i),
        out_since(start, events, i, events.len() as int, edge),
    decreases events.len(),
{
    let earlier = events.drop_last();
    let before = run(start, earlier);
    let last = events.len() - 1;
    assert(events.take(last) =~= earlier);
    assert(events.take(events.len() as int) =~= events);
    if before.phase == (Phase::Expanded { edge, mouse_left_at: Some(left_at) }) {
        let i = lemma_recorded_leave_was_seen(start, earlier, edge, left_at);
        assert(events.take(i) =~= earlier.take(i));
        assert(never_over_window_since(events, i)) by {
            assert forall|j: int| i <= j < events.len() && (#[trigger] events[j]) is Tick implies
                !events[j]->look.is_over_window() by {
                if j < last {
                    assert(events[j] == earlier[j]);
                }
            }
        }
        assert forall|k: int| i < k <= events.len() implies ((#[trigger] run(
            start,
            events.take(k),
        )).phase matches Phase::Expanded { edge: at, .. } && at == edge) by {
            if k <= last {
                assert(events.take(k) =~= earlier.take(k));
            }
        }
        i
    } else {
        last
    }
}

/// However a manager is driven from a fresh start, a window that is out hides
/// only after an absence: some look, the hiding one or an earlier one, found
/// the cursor away the leave delay before; from then on the window was out at
/// that edge and no look found the cursor over it. It was an earlier look
/// unless the two readings of the hiding one are themselves the delay apart.
pub proof fn law_window_hides_only_after_absence(
    start: EdgeSnapManager,
    events: Seq<Event>,
    look: Look,
    edge: Edge,
)
    requires
        start.phase is Normal,
        look.action(run(start, events)) == Some(Action::Snap { edge }),
    ensures
        ({
            let all = events.push(Event::Tick { look });
            exists|i: int|
                {
                    &&& #[trigger] found_away(start, all, i, edge)
                    &&& away_long_enough(all[i]->look.now as int, look.checked_at as int)
                    &&& never_over_window_since(all, i)
                    &&& out_since(start, all, i, events.len() as int, edge)
                    &&& i == events.len() ==> away_long_enough(
                        look.now as int,
                        look.checked_at as int,
                    )
                }
        }),
{
    let all = events.push(Event::Tick { look });
    let n = events.len() as int;
    assert(all.take(n) =~= events);
    match run(start, events).phase->mouse_left_at {
        None => {
            assert(found_away(start, all, n, edge));
        },
        Some(left_at) => {
            let i = lemma_recorded_leave_was_seen(start, events, edge, left_at);
            assert(all.take(i) =~= events.take(i));
            assert(all[i] == events[i]);
            assert forall|j: int| i <= j < all.len() && (#[trigger] all[j]) is Tick implies
                !all[j]->look.is_over_window() by {
                if j < n {
                    assert(all[j] == events[j]);
                }
            }
            assert forall|k: int| i < k <= n implies ((#[trigger] run(
                start,
                all.take(k),
            )).phase matches Phase::Expanded { edge: at, .. } && at == edge) by {
                assert(all.take(k) =~= events.take(k));
            }
            assert(found_away(start, all, i, edge));
        },
    }
}

/// Whether the look at `i` is the first to find the cursor away from a window
/// out at `edge`, and the window stayed out and the cursor away ever since.
pub open spec fn away_ever_since(
    start: EdgeSnapManager,
    events: Seq<Event>,
    i: int,
    edge: Edge,
) -> bool {
    &&& found_away(start, events, i, edge)
    &&& run(start, events.take(i)).phase->mouse_left_at is None
    &&& never_over_window_since(events, i)
    &&& out_since(start, events, i, events.len() as int, edge)
    &&& forall|j: int| i <= j < events.len() ==> !((#[trigger] events[j]) is ActionDone)
}

/// While the cursor stays away, the reading of the look that first found it
/// away stays recorded.
proof fn lemma_leave_stays_recorded(
    start: EdgeSnapManager,
    events: Seq<Event>,
    i: int,
    edge: Edge,
)
    requires
        away_ever_since(start, events, i, edge),
    ensures
        run(start, events).phase == (Phase::Expanded {
            edge,
            mouse_left_at: Some(events[i]->look.now),
        }),
    decreases events.len(),
{
    let earlier = events.drop_last();
    let last = events.len() - 1;
    assert(events.take(last) =~= earlier);
    assert(events.take(events.len() as int) =~= events);
    assert(run(start, events.take(events.len() as int)).phase is Expanded);
    if i < last {
        assert(earlier.take(i) =~= events.take(i));
        assert(earlier[i] == events[i]);
        assert forall|j: int| i <= j < last && (#[trigger] earlier[j]) is Tick implies
            !earlier[j]->look.is_over_window() by {
            assert(earlier[j] == events[j]);
        }
        assert forall|j: int| i <= j < last implies !((#[trigger] earlier[j]) is ActionDone) by {
            assert(earlier[j] == events[j]);
        }
        assert forall|k: int| i < k <= last implies ((#[trigger] run(
            start,
            earlier.take(k),
        )).phase matches Phase::Expanded { edge: at, .. } && at == edge) by {
            assert(earlier.take(k) =~= events.take(k));
        }
        lemma_leave_stays_recorded(start, earlier, i, edge);
        assert(events[last] == events.last());
    }
}

/// Once a look has found the cursor away from a window that is out, and while
/// the window stays out and the cursor away, the next look that finds it away
/// hides the window exactly if the leave delay has passed since that first one.
pub proof fn law_window_hides_after_leave_delay(
    start: EdgeSnapManager,
    events: Seq<Event>,
    i: int,
    edge: Edge,
    look: Look,
)
    requires
        away_ever_since(start, events, i, edge),
        !look.is_over_window(),
    ensures
        look.action(run(start, events)) == if away_long_enough(
            events[i]->look.now as int,
            look.checked_at as int,
        ) {
            Some(Action::Snap { edge })
        } else {
            None
        },
{
    lemma_leave_stays_recorded(start, events, i, edge);
}

/// A cursor that is back over a window that is out makes it forget that the
/// cursor was ever away.
pub proof fn law_return_resets_leave_delay(
    manager: EdgeSnapManager,
    edge: Edge,
    mouse_left_at: Option<u128>,
    look: Look,
)
    requires
        manager.phase == (Phase::Expanded { edge, mouse_left_at }),
        look.is_over_window(),
    ensures
        look.action(manager) is None,
        look.after(manager).phase == (Phase::Expanded { edge, mouse_left_at: None }),
{
}

} // verus!
