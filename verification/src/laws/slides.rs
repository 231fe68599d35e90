//! What the plan of a slide and its frames lead to.

#[allow(unused_imports)]
use crate::animation::{
    expand_from_edge, snap_to_edge, Ease, Frame, WindowAnimation, ANIMATION_TICK_MS,
    EXPAND_ANIMATION_MS, SNAP_ANIMATION_MS,
};
#[allow(unused_imports)]
use crate::config::EdgeSnapConfig;
#[allow(unused_imports)]
use crate::geometry::{can_expand, can_snap, Edge, RectI32};
use vstd::prelude::*;

verus! {

/// A slide has frames exactly if it takes time and leads somewhere.
pub proof fn law_slide_has_frames(plan: WindowAnimation, jump: bool)
    requires
        call_ensures(WindowAnimation::is_jump, (&plan,), jump),
    ensures
        !jump <==> {
            &&& plan.duration_ms > 0
            &&& plan.from_x != plan.to_x || plan.from_y != plan.to_y
        },
{
}

/// A slide can run exactly where the way to go is an `i32` in both directions.
pub proof fn law_slide_range(plan: WindowAnimation, ok: bool, elapsed: u128)
    requires
        call_ensures(WindowAnimation::can_run, (&plan,), ok),
    ensures
        ok <==> {
            &&& i32::MIN <= plan.to_x - plan.from_x <= i32::MAX
            &&& i32::MIN <= plan.to_y - plan.from_y <= i32::MAX
        },
        ok ==> call_requires(WindowAnimation::frame, (&plan, elapsed)),
{
}

/// The last frame comes exactly when the slide's time is over, and is at its
/// target. Every frame before it spans the way from start to target in both
/// directions, and is followed by another after the usual pause.
pub proof fn law_frames_lead_to_target(plan: WindowAnimation, elapsed: u128, frame: Frame)
    requires
        i32::MIN <= plan.to_x - plan.from_x <= i32::MAX,
        i32::MIN <= plan.to_y - plan.from_y <= i32::MAX,
        call_ensures(WindowAnimation::frame, (&plan, elapsed), frame),
    ensures
        frame is Last <==> elapsed >= plan.duration_ms * 1_000_000,
        frame matches Frame::Last { x, y } ==> x == plan.to_x && y == plan.to_y,
        frame matches Frame::Between { dx, dy, wait_ms } ==> {
            &&& plan.from_x + dx == plan.to_x
            &&& plan.from_y + dy == plan.to_y
            &&& wait_ms == ANIMATION_TICK_MS
        },
{
}

/// Two frames of one slide agree if both are before its end or both after it,
/// and a later one is never before the end if an earlier one is not.
pub proof fn law_frames_agree(
    plan: WindowAnimation,
    elapsed: u128,
    later: u128,
    frame: Frame,
    next: Frame,
)
    requires
        elapsed <= later,
        call_ensures(WindowAnimation::frame, (&plan, elapsed), frame),
        call_ensures(WindowAnimation::frame, (&plan, later), next),
    ensures
        frame is Last ==> next is Last,
        frame is Last == next is Last ==> frame == next,
{
}

/// The hiding slide starts where the window is and ends where it reaches
/// exactly the peek width into the work area; it does not go along the edge. It
/// starts slowly, takes its set time, and does not raise the window. There is
/// one exactly if it is known where the window is.
pub proof fn law_hiding_slide(
    geometry: Option<(RectI32, RectI32)>,
    config: EdgeSnapConfig,
    edge: Edge,
    plan: Result<WindowAnimation, ()>,
)
    requires
        call_ensures(snap_to_edge, (geometry, &config, edge), plan),
    ensures
        plan is Ok <==> geometry is Some,
        geometry matches Some((window, work)) ==> {
            let slide = plan->Ok_0;
            &&& slide.from_x == window.left && slide.from_y == window.top
            &&& edge is Left ==> {
                &&& slide.to_x + (window.right - window.left) - work.left == config.peek_width
                &&& slide.to_y == window.top
            }
            &&& edge is Right ==> {
                &&& work.right - slide.to_x == config.peek_width
                &&& slide.to_y == window.top
            }
            &&& edge is Top ==> {
                &&& slide.to_x == window.left
                &&& slide.to_y + (window.bottom - window.top) - work.top == config.peek_width
            }
            &&& slide.duration_ms == SNAP_ANIMATION_MS
            &&& slide.ease is In
            &&& !slide.raises
        },
{
}

/// The revealing slide starts where the window is and ends where its side meets
/// the edge; it does not go along the edge. It ends slowly, takes its set time,
/// and raises the window.
pub proof fn law_revealing_slide(
    edge: Edge,
    window: RectI32,
    work: RectI32,
    slide: WindowAnimation,
)
    requires
        call_ensures(expand_from_edge, (edge, &window, &work), slide),
    ensures
        slide.from_x == window.left && slide.from_y == window.top,
        edge is Left ==> slide.to_x == work.left && slide.to_y == window.top,
        edge is Right ==> {
            &&& slide.to_x + (window.right - window.left) == work.right
            &&& slide.to_y == window.top
        },
        edge is Top ==> slide.to_x == window.left && slide.to_y == work.top,
        slide.duration_ms == EXPAND_ANIMATION_MS,
        slide.ease is Out,
        slide.raises,
{
}

/// A slide can be planned wherever its target can be computed, and the hiding
/// one also where it is not known where the window is.
pub proof fn law_slides_can_be_planned(
    window: RectI32,
    work: RectI32,
    config: EdgeSnapConfig,
    edge: Edge,
    ok: bool,
)
    ensures
        call_requires(snap_to_edge, (None::<(RectI32, RectI32)>, &config, edge)),
        call_ensures(can_snap, (&window, &work, config.peek_width, edge), ok) && ok
            ==> call_requires(snap_to_edge, (Some((window, work)), &config, edge)),
        call_ensures(can_expand, (&window, &work, edge), ok) && ok ==> call_requires(
            expand_from_edge,
            (edge, &window, &work),
        ),
{
}

/// Where the hiding slide of a window at rest leaves it, a revealing slide and
/// another hiding one lead back to: revealing loses nothing of where it hides.
pub proof fn law_hiding_place_is_found_again(
    window: RectI32,
    hidden: RectI32,
    out: RectI32,
    work: RectI32,
    config: EdgeSnapConfig,
    edge: Edge,
    hiding: Result<WindowAnimation, ()>,
    revealing: WindowAnimation,
    again: Result<WindowAnimation, ()>,
)
    requires
        call_ensures(snap_to_edge, (Some((window, work)), &config, edge), hiding),
        hidden.left == hiding->Ok_0.to_x,
        hidden.top == hiding->Ok_0.to_y,
        hidden.right - hidden.left == window.right - window.left,
        hidden.bottom - hidden.top == window.bottom - window.top,
        call_ensures(expand_from_edge, (edge, &hidden, &work), revealing),
        out.left == revealing.to_x,
        out.top == revealing.to_y,
        out.right - out.left == window.right - window.left,
        out.bottom - out.top == window.bottom - window.top,
        call_ensures(snap_to_edge, (Some((out, work)), &config, edge), again),
    ensures
        again is Ok,
        again->Ok_0.to_x == hiding->Ok_0.to_x,
        again->Ok_0.to_y == hiding->Ok_0.to_y,
{
}

} // verus!
