//! What the manager does with what it takes in, in coordinates and phases.

#[allow(unused_imports)]
use crate::animation::{snap_to_edge, Frame, WindowAnimation};
#[allow(unused_imports)]
use crate::config::EdgeSnapConfig;
#[allow(unused_imports)]
use crate::geometry::{Edge, RectI32, HOT_ZONE_PX};
#[allow(unused_imports)]
use crate::manager::{
    Action, EdgeSnapManager, Phase, WindowEvent, CURSOR_POLL_INTERVAL_MS, MOUSE_LEAVE_DELAY_MS,
};
use vstd::prelude::*;

verus! {

/// A new manager has its settings, is away from the edges, and has had no
/// pending snap.
pub proof fn law_new_manager_is_at_rest(config: EdgeSnapConfig, manager: EdgeSnapManager)
    requires
        call_ensures(EdgeSnapManager::new, (config,), manager),
    ensures
        manager == (EdgeSnapManager { config, phase: Phase::Normal, pending_gen: 0 }),
{
}

/// Switched on, the mouse is hooked, the cursor watched at its set interval,
/// and moves and resizes are heeded; switched off, nothing is. No other window
/// event ever counts, and the phase does not matter.
pub proof fn law_switch_decides(
    manager: EdgeSnapManager,
    event: WindowEvent,
    hooks: bool,
    interval: Option<u64>,
    looks: bool,
)
    ensures
        call_ensures(EdgeSnapManager::hooks_mouse, (&manager,), hooks) ==> (hooks
            <==> manager.config.enabled),
        call_ensures(EdgeSnapManager::start_cursor_watcher, (&manager,), interval) ==> {
            &&& interval is Some <==> manager.config.enabled
            &&& interval matches Some(ms) ==> ms == CURSOR_POLL_INTERVAL_MS
        },
        call_ensures(EdgeSnapManager::handle_window_event, (&manager, &event), looks) ==> {
            &&& looks && manager.config.enabled <==> looks
            &&& event is Other ==> !looks
            &&& (event is Moved || event is Resized) && manager.config.enabled ==> looks
        },
{
}

/// A window away from the edges that is seen near one becomes pending at that
/// very edge, the first of left, right and top at most the threshold away, under
/// the next number, and a delay is started. Seen near none it stays as it is.
pub proof fn law_dragging_to_an_edge_arms_it(
    manager: &mut EdgeSnapManager,
    window: RectI32,
    work: RectI32,
    delay: Option<u64>,
)
    requires
        old(manager).phase is Normal,
        call_ensures(
            EdgeSnapManager::on_window_moved_or_resized,
            (manager, Some((window, work))),
            delay,
        ),
    ensures
        ({
            let threshold = old(manager).config.threshold;
            let number = old(manager).pending_gen + 1;
            let at_left = window.left - work.left <= threshold;
            let at_right = work.right - window.right <= threshold;
            let at_top = window.top - work.top <= threshold;
            &&& at_left || at_right || at_top ==> {
                &&& final(manager).phase is Pending
                &&& number <= u64::MAX ==> final(manager).phase->generation == number
                &&& number <= u64::MAX ==> final(manager).pending_gen == number
                &&& final(manager).phase->Pending_edge is Left <==> at_left
                &&& final(manager).phase->Pending_edge is Right <==> !at_left && at_right
                &&& final(manager).phase->Pending_edge is Top <==> !at_left && !at_right
                &&& delay == Some(old(manager).config.snap_delay_ms)
            }
            &&& !at_left && !at_right && !at_top ==> {
                &&& *final(manager) == *old(manager)
                &&& delay is None
            }
            &&& final(manager).config == old(manager).config
        }),
{
}

/// Dragged to an edge and left there until a delay is over, a window is hidden
/// at the edge it was dragged to, and is on that slide until it is over.
pub proof fn law_dragged_window_is_hidden_there(
    dragged: &mut EdgeSnapManager,
    window: RectI32,
    work: RectI32,
    delay: Option<u64>,
    waited: &mut EdgeSnapManager,
    action: Option<Action>,
    done: &mut EdgeSnapManager,
    nothing: (),
)
    requires
        old(dragged).phase is Normal,
        call_ensures(
            EdgeSnapManager::on_window_moved_or_resized,
            (dragged, Some((window, work))),
            delay,
        ),
        delay is Some,
        *old(waited) == *final(dragged),
        call_ensures(EdgeSnapManager::on_delay_elapsed, (waited,), action),
        action is Some ==> *old(done) == *final(waited) && call_ensures(
            EdgeSnapManager::on_action_done,
            (done, action->0),
            nothing,
        ),
    ensures
        ({
            let threshold = old(dragged).config.threshold;
            let edge = if window.left - work.left <= threshold {
                Edge::Left
            } else if work.right - window.right <= threshold {
                Edge::Right
            } else {
                Edge::Top
            };
            &&& action == Some(Action::Snap { edge })
            &&& final(waited).phase is Animating
            &&& final(done).phase == (Phase::Snapped { edge })
        }),
{
}

/// A window at an edge, or about to be hidden there, that is seen near no edge
/// is away from the edges again. Seen near one, whichever it is, nothing
/// changes. On a slide nothing changes either way. No delay is started.
pub proof fn law_dragging_away_ends_it(
    manager: &mut EdgeSnapManager,
    window: RectI32,
    work: RectI32,
    delay: Option<u64>,
)
    requires
        !(old(manager).phase is Normal),
        call_ensures(
            EdgeSnapManager::on_window_moved_or_resized,
            (manager, Some((window, work))),
            delay,
        ),
    ensures
        delay is None,
        final(manager).config == old(manager).config,
        final(manager).pending_gen == old(manager).pending_gen,
        ({
            let threshold = old(manager).config.threshold;
            let away = {
                &&& window.left - work.left > threshold
                &&& work.right - window.right > threshold
                &&& window.top - work.top > threshold
            };
            &&& away && !(old(manager).phase is Animating) ==> final(manager).phase is Normal
            &&& !away || old(manager).phase is Animating ==> final(manager).phase == old(
                manager,
            ).phase
        }),
{
}

/// Where it is not known where the window is, neither a report of it nor a look
/// at the cursor changes or asks for anything.
pub proof fn law_unknown_place_changes_nothing(
    moved: &mut EdgeSnapManager,
    delay: Option<u64>,
    ticked: &mut EdgeSnapManager,
    x: i32,
    y: i32,
    now: u128,
    checked_at: u128,
    action: Option<Action>,
)
    ensures
        call_ensures(
            EdgeSnapManager::on_window_moved_or_resized,
            (moved, None::<(RectI32, RectI32)>),
            delay,
        ) ==> *final(moved) == *old(moved) && delay is None,
        call_ensures(
            EdgeSnapManager::on_cursor_tick,
            (ticked, x, y, None::<(RectI32, RectI32)>, now, checked_at),
            action,
        ) ==> *final(ticked) == *old(ticked) && action is None,
{
}

/// A delay that is over hides a window that is pending under the latest number,
/// at the edge where it is pending, and changes nothing otherwise.
pub proof fn law_delay_hides_pending_window(manager: &mut EdgeSnapManager, action: Option<Action>)
    requires
        call_ensures(EdgeSnapManager::on_delay_elapsed, (manager,), action),
    ensures
        action is Some <==> old(manager).phase is Pending && old(manager).phase->generation == old(
            manager,
        ).pending_gen,
        action is None ==> *final(manager) == *old(manager),
        action is Some ==> {
            &&& action == Some(Action::Snap { edge: old(manager).phase->Pending_edge })
            &&& final(manager).phase is Animating
            &&& final(manager).config == old(manager).config
            &&& final(manager).pending_gen == old(manager).pending_gen
        },
{
}

/// A hidden window comes out exactly when the cursor touches its edge: it is at
/// most the depth of the hot zone inside that edge of the work area, or beyond
/// it, and between the window's two ends along the edge. Otherwise nothing
/// changes.
pub proof fn law_touching_the_edge_reveals(
    manager: &mut EdgeSnapManager,
    x: i32,
    y: i32,
    window: RectI32,
    work: RectI32,
    now: u128,
    checked_at: u128,
    action: Option<Action>,
)
    requires
        old(manager).phase is Snapped,
        call_ensures(
            EdgeSnapManager::on_cursor_tick,
            (manager, x, y, Some((window, work)), now, checked_at),
            action,
        ),
    ensures
        ({
            let edge = old(manager).phase->Snapped_edge;
            let touched = match edge {
                Edge::Left => x - work.left <= HOT_ZONE_PX && window.top <= y <= window.bottom,
                Edge::Right => work.right - x <= HOT_ZONE_PX && window.top <= y <= window.bottom,
                Edge::Top => y - work.top <= HOT_ZONE_PX && window.left <= x <= window.right,
            };
            &&& touched ==> {
                &&& action == Some(Action::Expand { edge })
                &&& final(manager).phase is Animating
            }
            &&& !touched ==> {
                &&& action is None
                &&& final(manager).phase == old(manager).phase
            }
            &&& final(manager).config == old(manager).config
            &&& final(manager).pending_gen == old(manager).pending_gen
        }),
{
}

/// A window that is out hides exactly when the cursor is beyond one of its
/// sides and has been away for the leave delay; the absence counts from the
/// recorded reading, or from this look if none is recorded. Until then the
/// beginning of the absence is recorded; with the cursor back, none is.
pub proof fn law_leaving_the_window_hides_it(
    manager: &mut EdgeSnapManager,
    x: i32,
    y: i32,
    window: RectI32,
    work: RectI32,
    now: u128,
    checked_at: u128,
    action: Option<Action>,
)
    requires
        old(manager).phase is Expanded,
        call_ensures(
            EdgeSnapManager::on_cursor_tick,
            (manager, x, y, Some((window, work)), now, checked_at),
            action,
        ),
    ensures
        ({
            let edge = old(manager).phase->Expanded_edge;
            let away = x < window.left || x > window.right || y < window.top || y > window.bottom;
            let since = match old(manager).phase->mouse_left_at {
                Some(left_at) => left_at,
                None => now,
            };
            let over = away && checked_at - since >= MOUSE_LEAVE_DELAY_MS * 1_000_000;
            &&& over ==> {
                &&& action == Some(Action::Snap { edge })
                &&& final(manager).phase is Animating
            }
            &&& !over ==> action is None
            &&& !over && away ==> final(manager).phase == (Phase::Expanded {
                edge,
                mouse_left_at: Some(since),
            })
            &&& !away ==> final(manager).phase == (Phase::Expanded { edge, mouse_left_at: None })
            &&& final(manager).config == old(manager).config
            &&& final(manager).pending_gen == old(manager).pending_gen
        }),
{
}

/// The cursor does nothing to a window that is neither hidden nor out.
pub proof fn law_cursor_leaves_other_phases_alone(
    manager: &mut EdgeSnapManager,
    x: i32,
    y: i32,
    geometry: Option<(RectI32, RectI32)>,
    now: u128,
    checked_at: u128,
    action: Option<Action>,
)
    requires
        !(old(manager).phase is Snapped),
        !(old(manager).phase is Expanded),
        call_ensures(
            EdgeSnapManager::on_cursor_tick,
            (manager, x, y, geometry, now, checked_at),
            action,
        ),
    ensures
        *final(manager) == *old(manager),
        action is None,
{
}

/// After a slide the window is where the slide led, at the edge of the slide;
/// out, no absence of the cursor is recorded yet.
pub proof fn law_slide_settles_the_phase(
    manager: &mut EdgeSnapManager,
    action: Action,
    nothing: (),
)
    requires
        call_ensures(EdgeSnapManager::on_action_done, (manager, action), nothing),
    ensures
        action matches Action::Snap { edge } ==> final(manager).phase == (Phase::Snapped { edge }),
        action matches Action::Expand { edge } ==> final(manager).phase == (Phase::Expanded {
            edge,
            mouse_left_at: None,
        }),
        final(manager).config == old(manager).config,
        final(manager).pending_gen == old(manager).pending_gen,
{
}

/// A window whose edge is touched comes out and, with the cursor then away from
/// it for the leave delay, hides again at the same edge.
pub proof fn law_revealed_window_hides_where_it_came_from(
    touched: &mut EdgeSnapManager,
    x: i32,
    y: i32,
    geometry: Option<(RectI32, RectI32)>,
    now: u128,
    checked_at: u128,
    reveal: Option<Action>,
    out: &mut EdgeSnapManager,
    nothing: (),
    left: &mut EdgeSnapManager,
    x2: i32,
    y2: i32,
    geometry2: Option<(RectI32, RectI32)>,
    now2: u128,
    checked_at2: u128,
    hide: Option<Action>,
)
    requires
        old(touched).phase is Snapped,
        call_ensures(
            EdgeSnapManager::on_cursor_tick,
            (touched, x, y, geometry, now, checked_at),
            reveal,
        ),
        reveal is Some,
        *old(out) == *final(touched),
        call_ensures(EdgeSnapManager::on_action_done, (out, reveal->0), nothing),
        *old(left) == *final(out),
        call_ensures(
            EdgeSnapManager::on_cursor_tick,
            (left, x2, y2, geometry2, now2, checked_at2),
            hide,
        ),
    ensures
        hide is None || hide == Some(Action::Snap { edge: old(touched).phase->Snapped_edge }),
        hide is Some ==> checked_at2 - now2 >= MOUSE_LEAVE_DELAY_MS * 1_000_000,
{
}

/// Where the window is can be taken in exactly as far as the limits compared
/// with are `i32`, and a window becoming pending finds a number left for it.
pub proof fn law_move_range(
    manager: EdgeSnapManager,
    moved: &mut EdgeSnapManager,
    window: RectI32,
    work: RectI32,
    ok: bool,
    unknown_ok: bool,
)
    requires
        *old(moved) == manager,
        call_ensures(EdgeSnapManager::can_take_move, (&manager, &Some((window, work))), ok),
        call_ensures(
            EdgeSnapManager::can_take_move,
            (&manager, &None::<(RectI32, RectI32)>),
            unknown_ok,
        ),
    ensures
        unknown_ok,
        call_requires(
            EdgeSnapManager::on_window_moved_or_resized,
            (moved, None::<(RectI32, RectI32)>),
        ),
        ok ==> call_requires(
            EdgeSnapManager::on_window_moved_or_resized,
            (moved, Some((window, work))),
        ),
        ({
            let threshold = manager.config.threshold;
            let at_left = window.left - work.left <= threshold;
            let at_right = work.right - window.right <= threshold;
            let at_top = window.top - work.top <= threshold;
            ok <==> {
                &&& i32::MIN <= work.left + threshold <= i32::MAX
                &&& at_left || i32::MIN <= work.right - threshold <= i32::MAX
                &&& at_left || at_right || i32::MIN <= work.top + threshold <= i32::MAX
                &&& manager.phase is Normal && (at_left || at_right || at_top)
                    ==> manager.pending_gen < u64::MAX
            }
        }),
{
}

/// A look at the cursor can be taken in in every phase but that of a hidden
/// window, and in that one exactly as far as the limit of the hot zone is an
/// `i32`; at the top only a cursor level with the window is compared with it.
pub proof fn law_tick_range(
    manager: EdgeSnapManager,
    ticked: &mut EdgeSnapManager,
    x: i32,
    y: i32,
    window: RectI32,
    work: RectI32,
    now: u128,
    checked_at: u128,
    ok: bool,
    unknown_ok: bool,
)
    requires
        *old(ticked) == manager,
        call_ensures(EdgeSnapManager::can_take_tick, (&manager, x, &Some((window, work))), ok),
        call_ensures(
            EdgeSnapManager::can_take_tick,
            (&manager, x, &None::<(RectI32, RectI32)>),
            unknown_ok,
        ),
    ensures
        unknown_ok,
        call_requires(
            EdgeSnapManager::on_cursor_tick,
            (ticked, x, y, None::<(RectI32, RectI32)>, now, checked_at),
        ),
        ok ==> call_requires(
            EdgeSnapManager::on_cursor_tick,
            (ticked, x, y, Some((window, work)), now, checked_at),
        ),
        !(manager.phase is Snapped) ==> ok,
        manager.phase matches Phase::Snapped { edge } ==> (ok <==> match edge {
            Edge::Left => work.left + HOT_ZONE_PX <= i32::MAX,
            Edge::Right => work.right - HOT_ZONE_PX >= i32::MIN,
            Edge::Top => x < window.left || x > window.right || work.top + HOT_ZONE_PX
                <= i32::MAX,
        }),
{
}

/// The delay is over, the hiding slide runs its time, and its last frame leaves
/// exactly the peek width of the window in the work area, at the edge where the
/// window was pending.
pub proof fn law_pending_window_ends_up_peeking(
    manager: &mut EdgeSnapManager,
    action: Option<Action>,
    window: RectI32,
    work: RectI32,
    plan: Result<WindowAnimation, ()>,
    elapsed: u128,
    frame: Frame,
    edge: Edge,
)
    requires
        call_ensures(EdgeSnapManager::on_delay_elapsed, (manager,), action),
        action == Some(Action::Snap { edge }),
        call_ensures(snap_to_edge, (Some((window, work)), &old(manager).config, edge), plan),
        plan is Ok,
        call_ensures(WindowAnimation::frame, (&plan->Ok_0, elapsed), frame),
        elapsed >= plan->Ok_0.duration_ms * 1_000_000,
    ensures
        old(manager).phase is Pending,
        old(manager).phase->Pending_edge == edge,
        frame matches Frame::Last { x, y } && {
            let peek = old(manager).config.peek_width;
            &&& edge is Left ==> x + (window.right - window.left) - work.left == peek
            &&& edge is Right ==> work.right - x == peek
            &&& edge is Top ==> y + (window.bottom - window.top) - work.top == peek
            &&& edge is Top ==> x == window.left
            &&& !(edge is Top) ==> y == window.top
        },
{
}

} // verus!
