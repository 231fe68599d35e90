//! What the calls on rectangles do, in coordinates.

#[allow(unused_imports)]
use crate::geometry::{
    can_detect_edge, can_expand, can_snap, can_test_hot_zone, cursor_in_hot_zone, detect_edge,
    expanded_target_position, snapped_target_position, Edge, RectI32, HOT_ZONE_PX,
};
use vstd::prelude::*;

verus! {

/// Whether `b` is `a` moved by `(dx, dy)`.
pub open spec fn shifted(a: RectI32, b: RectI32, dx: int, dy: int) -> bool {
    &&& b.left == a.left + dx
    &&& b.right == a.right + dx
    &&& b.top == a.top + dy
    &&& b.bottom == a.bottom + dy
}

/// Whether `b` is `a` seen in a mirror that swaps left and right: `x` becomes
/// `c - x`.
pub open spec fn mirrored(a: RectI32, b: RectI32, c: int) -> bool {
    &&& b.left == c - a.right
    &&& b.right == c - a.left
    &&& b.top == a.top
    &&& b.bottom == a.bottom
}

/// Whether `b` is `a` with the two axes swapped.
pub open spec fn transposed(a: RectI32, b: RectI32) -> bool {
    &&& b.left == a.top
    &&& b.right == a.bottom
    &&& b.top == a.left
    &&& b.bottom == a.right
}

/// The width leads from the left side to the right one, the height from the
/// top to the bottom. Each can be asked for where it is an `i32`.
pub proof fn law_sides_are_an_extent_apart(rect: RectI32, w: i32, h: i32)
    ensures
        call_ensures(RectI32::width, (&rect,), w) ==> rect.left + w == rect.right,
        call_ensures(RectI32::height, (&rect,), h) ==> rect.top + h == rect.bottom,
        i32::MIN <= rect.right - rect.left <= i32::MAX ==> call_requires(
            RectI32::width,
            (&rect,),
        ),
        i32::MIN <= rect.bottom - rect.top <= i32::MAX ==> call_requires(
            RectI32::height,
            (&rect,),
        ),
{
}

/// A rectangle contains a point exactly if the point is beyond none of its sides.
pub proof fn law_contains_what_no_side_shuts_out(rect: RectI32, x: i32, y: i32, inside: bool)
    requires
        call_ensures(RectI32::contains_point, (&rect, x, y), inside),
    ensures
        !inside <==> x < rect.left || x > rect.right || y < rect.top || y > rect.bottom,
{
}

/// Which edge is detected goes by how far each side of the window is inside the
/// work area: the first of left, right and top at most the threshold away.
pub proof fn law_detects_by_distance(
    window: RectI32,
    work: RectI32,
    threshold: i32,
    edge: Option<Edge>,
)
    requires
        call_ensures(detect_edge, (&window, &work, threshold), edge),
    ensures
        edge == Some(Edge::Left) <==> window.left - work.left <= threshold,
        edge == Some(Edge::Right) <==> {
            &&& window.left - work.left > threshold
            &&& work.right - window.right <= threshold
        },
        edge == Some(Edge::Top) <==> {
            &&& window.left - work.left > threshold
            &&& work.right - window.right > threshold
            &&& window.top - work.top <= threshold
        },
        edge is None <==> {
            &&& window.left - work.left > threshold
            &&& work.right - window.right > threshold
            &&& window.top - work.top > threshold
        },
{
}

/// Detection goes by relative position: with window and work area moved alike,
/// the same edge is detected.
pub proof fn law_detection_is_relative(
    window: RectI32,
    work: RectI32,
    window2: RectI32,
    work2: RectI32,
    dx: int,
    dy: int,
    threshold: i32,
    edge: Option<Edge>,
    edge2: Option<Edge>,
)
    requires
        shifted(window, window2, dx, dy),
        shifted(work, work2, dx, dy),
        call_ensures(detect_edge, (&window, &work, threshold), edge),
        call_ensures(detect_edge, (&window2, &work2, threshold), edge2),
    ensures
        edge == edge2,
{
}

/// An edge can be asked for exactly as far as the limits compared with are
/// `i32`: the left one always, the right one for a window not near the left
/// edge, the top one for a window near neither.
pub proof fn law_detection_range(window: RectI32, work: RectI32, threshold: i32, ok: bool)
    requires
        call_ensures(can_detect_edge, (&window, &work, threshold), ok),
    ensures
        ok ==> call_requires(detect_edge, (&window, &work, threshold)),
        ok <==> {
            &&& i32::MIN <= work.left + threshold <= i32::MAX
            &&& window.left - work.left > threshold ==> {
                &&& i32::MIN <= work.right - threshold <= i32::MAX
                &&& work.right - window.right > threshold ==> i32::MIN <= work.top + threshold
                    <= i32::MAX
            }
        },
{
}

/// A point wakes a window hidden at a side edge exactly if it is neither above
/// nor below the window and at most the depth of the hot zone inside that edge,
/// and one hidden at the top exactly if it is neither left nor right of the
/// window and at most that depth inside the top.
pub proof fn law_hot_points(
    edge: Edge,
    x: i32,
    y: i32,
    window: RectI32,
    work: RectI32,
    hot: bool,
)
    requires
        call_ensures(cursor_in_hot_zone, (edge, x, y, &window, &work), hot),
    ensures
        hot && !(edge is Top) ==> window.top <= y <= window.bottom,
        hot && edge is Top ==> window.left <= x <= window.right,
        edge is Left && window.top <= y <= window.bottom ==> (hot <==> x - work.left
            <= HOT_ZONE_PX),
        edge is Right && window.top <= y <= window.bottom ==> (hot <==> work.right - x
            <= HOT_ZONE_PX),
        edge is Top && window.left <= x <= window.right ==> (hot <==> y - work.top
            <= HOT_ZONE_PX),
{
}

/// The hot zone goes by relative position: with cursor, window and work area
/// moved alike, the answer is the same.
pub proof fn law_hot_zone_is_relative(
    edge: Edge,
    x: i32,
    y: i32,
    window: RectI32,
    work: RectI32,
    hot: bool,
    x2: i32,
    y2: i32,
    window2: RectI32,
    work2: RectI32,
    hot2: bool,
)
    requires
        shifted(window, window2, x2 - x, y2 - y),
        shifted(work, work2, x2 - x, y2 - y),
        call_ensures(cursor_in_hot_zone, (edge, x, y, &window, &work), hot),
        call_ensures(cursor_in_hot_zone, (edge, x2, y2, &window2, &work2), hot2),
    ensures
        hot == hot2,
{
}

/// The hot zone of the right edge is the mirror image of that of the left edge.
pub proof fn law_hot_zones_mirror(
    x: i32,
    y: i32,
    window: RectI32,
    work: RectI32,
    hot: bool,
    x2: i32,
    window2: RectI32,
    work2: RectI32,
    hot2: bool,
)
    requires
        mirrored(window, window2, x + x2),
        mirrored(work, work2, x + x2),
        call_ensures(cursor_in_hot_zone, (Edge::Left, x, y, &window, &work), hot),
        call_ensures(cursor_in_hot_zone, (Edge::Right, x2, y, &window2, &work2), hot2),
    ensures
        hot == hot2,
{
}

/// The hot zone of the top edge is that of the left edge with the axes swapped.
pub proof fn law_hot_zones_transpose(
    x: i32,
    y: i32,
    window: RectI32,
    work: RectI32,
    hot: bool,
    window2: RectI32,
    work2: RectI32,
    hot2: bool,
)
    requires
        transposed(window, window2),
        transposed(work, work2),
        call_ensures(cursor_in_hot_zone, (Edge::Left, x, y, &window, &work), hot),
        call_ensures(cursor_in_hot_zone, (Edge::Top, y, x, &window2, &work2), hot2),
    ensures
        hot == hot2,
{
}

/// The hot zone can be tested exactly as far as its limit is an `i32`; at the
/// top only for a cursor neither left nor right of the window.
pub proof fn law_hot_zone_range(
    edge: Edge,
    x: i32,
    y: i32,
    window: RectI32,
    work: RectI32,
    ok: bool,
)
    requires
        call_ensures(can_test_hot_zone, (edge, x, &window, &work), ok),
    ensures
        ok ==> call_requires(cursor_in_hot_zone, (edge, x, y, &window, &work)),
        edge is Left ==> (ok <==> work.left + HOT_ZONE_PX <= i32::MAX),
        edge is Right ==> (ok <==> work.right - HOT_ZONE_PX >= i32::MIN),
        edge is Top ==> (ok <==> x < window.left || x > window.right || work.top + HOT_ZONE_PX
            <= i32::MAX),
{
}

/// A window put at its hidden position reaches exactly the peek width into the
/// work area, whether or not its far side is an `i32` there, and has not moved
/// along the edge.
pub proof fn law_hidden_position_leaves_peek(
    window: RectI32,
    work: RectI32,
    peek: i32,
    edge: Edge,
    target: (i32, i32),
)
    requires
        call_ensures(snapped_target_position, (&window, &work, peek, edge), target),
    ensures
        edge is Left ==> {
            &&& target.0 + (window.right - window.left) - work.left == peek
            &&& target.1 == window.top
        },
        edge is Right ==> {
            &&& work.right - target.0 == peek
            &&& target.1 == window.top
        },
        edge is Top ==> {
            &&& target.0 == window.left
            &&& target.1 + (window.bottom - window.top) - work.top == peek
        },
{
}

/// A window put at its flush position has its side on that edge of the work
/// area, and has not moved along the edge.
pub proof fn law_flush_position_meets_edge(
    window: RectI32,
    work: RectI32,
    edge: Edge,
    target: (i32, i32),
)
    requires
        call_ensures(expanded_target_position, (&window, &work, edge), target),
    ensures
        edge is Left ==> target.0 == work.left && target.1 == window.top,
        edge is Right ==> {
            &&& target.0 + (window.right - window.left) == work.right
            &&& target.1 == window.top
        },
        edge is Top ==> target.0 == window.left && target.1 == work.top,
{
}

/// Both positions go by relative position: with window and work area moved
/// alike, they move along.
pub proof fn law_positions_are_relative(
    window: RectI32,
    work: RectI32,
    window2: RectI32,
    work2: RectI32,
    dx: int,
    dy: int,
    peek: i32,
    edge: Edge,
    target: (i32, i32),
    target2: (i32, i32),
)
    requires
        shifted(window, window2, dx, dy),
        shifted(work, work2, dx, dy),
    ensures
        call_ensures(snapped_target_position, (&window, &work, peek, edge), target) && call_ensures(
            snapped_target_position,
            (&window2, &work2, peek, edge),
            target2,
        ) ==> target2.0 == target.0 + dx && target2.1 == target.1 + dy,
        call_ensures(expanded_target_position, (&window, &work, edge), target) && call_ensures(
            expanded_target_position,
            (&window2, &work2, edge),
            target2,
        ) ==> target2.0 == target.0 + dx && target2.1 == target.1 + dy,
{
}

/// Both positions at the right edge are the mirror images of those at the left.
pub proof fn law_positions_mirror(
    window: RectI32,
    work: RectI32,
    window2: RectI32,
    work2: RectI32,
    c: int,
    peek: i32,
    target: (i32, i32),
    target2: (i32, i32),
)
    requires
        mirrored(window, window2, c),
        mirrored(work, work2, c),
    ensures
        call_ensures(snapped_target_position, (&window, &work, peek, Edge::Left), target) && call_ensures(
            snapped_target_position,
            (&window2, &work2, peek, Edge::Right),
            target2,
        ) ==> target2.0 + target.0 + window.right - window.left == c && target2.1 == target.1,
        call_ensures(expanded_target_position, (&window, &work, Edge::Left), target) && call_ensures(
            expanded_target_position,
            (&window2, &work2, Edge::Right),
            target2,
        ) ==> target2.0 + target.0 + window.right - window.left == c && target2.1 == target.1,
{
}

/// Both positions at the top edge are those at the left with the axes swapped.
pub proof fn law_positions_transpose(
    window: RectI32,
    work: RectI32,
    window2: RectI32,
    work2: RectI32,
    peek: i32,
    target: (i32, i32),
    target2: (i32, i32),
)
    requires
        transposed(window, window2),
        transposed(work, work2),
    ensures
        call_ensures(snapped_target_position, (&window, &work, peek, Edge::Left), target) && call_ensures(
            snapped_target_position,
            (&window2, &work2, peek, Edge::Top),
            target2,
        ) ==> target2.0 == target.1 && target2.1 == target.0,
        call_ensures(expanded_target_position, (&window, &work, Edge::Left), target) && call_ensures(
            expanded_target_position,
            (&window2, &work2, Edge::Top),
            target2,
        ) ==> target2.0 == target.1 && target2.1 == target.0,
{
}

/// The hidden position can be asked for exactly as far as each value on the way
/// is an `i32`: the extent, the part of it to hide, and the coordinate.
pub proof fn law_hidden_position_range(
    window: RectI32,
    work: RectI32,
    peek: i32,
    edge: Edge,
    ok: bool,
)
    requires
        call_ensures(can_snap, (&window, &work, peek, edge), ok),
    ensures
        ok ==> call_requires(snapped_target_position, (&window, &work, peek, edge)),
        edge is Left ==> (ok <==> {
            &&& i32::MIN <= window.right - window.left <= i32::MAX
            &&& i32::MIN <= window.right - window.left - peek <= i32::MAX
            &&& i32::MIN <= work.left - (window.right - window.left) + peek <= i32::MAX
        }),
        edge is Right ==> (ok <==> i32::MIN <= work.right - peek <= i32::MAX),
        edge is Top ==> (ok <==> {
            &&& i32::MIN <= window.bottom - window.top <= i32::MAX
            &&& i32::MIN <= window.bottom - window.top - peek <= i32::MAX
            &&& i32::MIN <= work.top - (window.bottom - window.top) + peek <= i32::MAX
        }),
{
}

/// The flush position can be asked for at the left and the top always, and at
/// the right exactly as far as the width and the coordinate are `i32`.
pub proof fn law_flush_position_range(window: RectI32, work: RectI32, edge: Edge, ok: bool)
    requires
        call_ensures(can_expand, (&window, &work, edge), ok),
    ensures
        ok ==> call_requires(expanded_target_position, (&window, &work, edge)),
        !(edge is Right) ==> ok,
        edge is Right ==> (ok <==> {
            &&& i32::MIN <= window.right - window.left <= i32::MAX
            &&& i32::MIN <= work.right - (window.right - window.left) <= i32::MAX
        }),
{
}

} // verus!
