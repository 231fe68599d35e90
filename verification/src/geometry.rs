//! Rectangles in physical pixels, edge detection and slide targets.

use vstd::prelude::*;

verus! {

/// Depth, in pixels, of the strip along an edge that wakes a hidden window.
pub const HOT_ZONE_PX: i32 = 10;

/// An edge of the work area at which a window can hide.
#[derive(Clone, Copy, Debug, PartialEq, Eq, Structural)]
pub enum Edge {
    Left,
    Right,
    Top,
}

/// A rectangle in physical pixels; `right` and `bottom` belong to it.
#[derive(Clone, Copy, Debug, PartialEq, Eq, Structural)]
pub struct RectI32 {
    pub left: i32,
    pub top: i32,
    pub right: i32,
    pub bottom: i32,
}

/// Whether the integer `v` is the value of some `i32`.
pub open spec fn fits_i32(v: int) -> bool {
    i32::MIN <= v <= i32::MAX
}

/// The `i32` with the same 32 bits as `v`, as an integer.
pub open spec fn reinterpreted(v: u32) -> int {
    if v <= i32::MAX {
        v as int
    } else {
        v - 0x1_0000_0000
    }
}

/// Reads the 32 bits of `v` as an `i32`.
pub(crate) fn reinterpret(v: u32) -> (r: i32)
    ensures
        r == reinterpreted(v),
{
    assert(v <= 0x7fff_ffff ==> v as i32 == v) by (bit_vector);
    assert(v > 0x7fff_ffff ==> v as i32 == v - 0x1_0000_0000) by (bit_vector);
    v as i32
}

impl RectI32 {
    /// The horizontal extent of the rectangle.
    pub open spec fn extent_x(self) -> int {
        self.right - self.left
    }

    /// The vertical extent of the rectangle.
    pub open spec fn extent_y(self) -> int {
        self.bottom - self.top
    }

    /// Whether the point `(x, y)` lies in the rectangle, its border included.
    pub open spec fn has_point(self, x: int, y: int) -> bool {
        self.left <= x <= self.right && self.top <= y <= self.bottom
    }

    /// Whether `self` is `other` moved, with its size kept, so that its upper
    /// left corner is at `corner`.
    pub open spec fn is_moved(self, other: RectI32, corner: (i32, i32)) -> bool {
        &&& self.left == corner.0
        &&& self.top == corner.1
        &&& self.extent_x() == other.extent_x()
        &&& self.extent_y() == other.extent_y()
    }

    /// The width, `right - left`.
    pub fn width(&self) -> (w: i32)
        requires
            fits_i32(self.extent_x()),
        ensures
            w == self.extent_x(),
    {
        self.right - self.left
    }

    /// The height, `bottom - top`.
    pub fn height(&self) -> (h: i32)
        requires
            fits_i32(self.extent_y()),
        ensures
            h == self.extent_y(),
    {
        self.bottom - self.top
    }

    /// Tests whether `(x, y)` lies in the rectangle, its border included.
    pub fn contains_point(&self, x: i32, y: i32) -> (inside: bool)
        ensures
            inside == self.has_point(x as int, y as int),
    {
        x >= self.left && x <= self.right && y >= self.top && y <= self.bottom
    }
}

/// Whether `window` reaches within `threshold` of the given edge of `work`.
pub open spec fn near_edge(edge: Edge, window: RectI32, work: RectI32, threshold: int) -> bool {
    match edge {
        Edge::Left => window.left <= work.left + threshold,
        Edge::Right => window.right >= work.right - threshold,
        Edge::Top => window.top <= work.top + threshold,
    }
}

/// The first of left, right and top that `window` is near, if any.
pub open spec fn detected_edge(window: RectI32, work: RectI32, threshold: int) -> Option<Edge> {
    if near_edge(Edge::Left, window, work, threshold) {
        Some(Edge::Left)
    } else if near_edge(Edge::Right, window, work, threshold) {
        Some(Edge::Right)
    } else if near_edge(Edge::Top, window, work, threshold) {
        Some(Edge::Top)
    } else {
        None
    }
}

/// Whether each limit that `detect_edge` comes to compare with is an `i32`.
/// An edge is looked at only where no earlier one was near.
pub open spec fn detection_in_range(window: RectI32, work: RectI32, threshold: int) -> bool {
    &&& fits_i32(work.left + threshold)
    &&& near_edge(Edge::Left, window, work, threshold) || {
        &&& fits_i32(work.right - threshold)
        &&& near_edge(Edge::Right, window, work, threshold) || fits_i32(work.top + threshold)
    }
}

/// The edge of `work` that `window` is near: left before right before top.
pub fn detect_edge(window_rect: &RectI32, work: &RectI32, threshold: i32) -> (edge: Option<Edge>)
    requires
        detection_in_range(*window_rect, *work, threshold as int),
    ensures
        edge == detected_edge(*window_rect, *work, threshold as int),
{
    if window_rect.left <= work.left + threshold {
        return Some(Edge::Left);
    }
    if window_rect.right >= work.right - threshold {
        return Some(Edge::Right);
    }
    if window_rect.top <= work.top + threshold {
        return Some(Edge::Top);
    }
    None
}

/// Tests, for a caller outside the prover, what `detect_edge` requires.
pub fn can_detect_edge(window_rect: &RectI32, work: &RectI32, threshold: i32) -> (ok: bool)
    ensures
        ok == detection_in_range(*window_rect, *work, threshold as int),
{
    match work.left.checked_add(threshold) {
        None => false,
        Some(limit) => window_rect.left <= limit || match work.right.checked_sub(threshold) {
            None => false,
            Some(limit) => window_rect.right >= limit || work.top.checked_add(threshold).is_some(),
        },
    }
}

/// Whether the point `(x, y)` wakes a window hidden at `edge`: it is within
/// `HOT_ZONE_PX` of that edge of `work`, or beyond it, and level with the window.
pub open spec fn in_hot_zone(edge: Edge, x: int, y: int, window: RectI32, work: RectI32) -> bool {
    match edge {
        Edge::Left => x <= work.left + HOT_ZONE_PX && window.top <= y <= window.bottom,
        Edge::Right => x >= work.right - HOT_ZONE_PX && window.top <= y <= window.bottom,
        Edge::Top => y <= work.top + HOT_ZONE_PX && window.left <= x <= window.right,
    }
}

/// Whether the limit that `cursor_in_hot_zone` comes to compare with is an
/// `i32`. At the top it is computed only for a point level with the window.
pub open spec fn hot_zone_in_range(edge: Edge, x: int, window: RectI32, work: RectI32) -> bool {
    match edge {
        Edge::Left => fits_i32(work.left + HOT_ZONE_PX),
        Edge::Right => fits_i32(work.right - HOT_ZONE_PX),
        Edge::Top => window.left <= x <= window.right ==> fits_i32(work.top + HOT_ZONE_PX),
    }
}

/// Tests whether the cursor at `(x, y)` wakes a window hidden at `edge`.
pub fn cursor_in_hot_zone(
    edge: Edge,
    x: i32,
    y: i32,
    window_rect: &RectI32,
    work: &RectI32,
) -> (hot: bool)
    requires
        hot_zone_in_range(edge, x as int, *window_rect, *work),
    ensures
        hot == in_hot_zone(edge, x as int, y as int, *window_rect, *work),
{
    match edge {
        Edge::Left => {
            x <= work.left + HOT_ZONE_PX && y >= window_rect.top && y <= window_rect.bottom
        },
        Edge::Right => {
            x >= work.right - HOT_ZONE_PX && y >= window_rect.top && y <= window_rect.bottom
        },
        Edge::Top => {
            x <= window_rect.right && x >= window_rect.left && y <= work.top + HOT_ZONE_PX
        },
    }
}

/// Tests, for a caller outside the prover, what `cursor_in_hot_zone` requires.
pub fn can_test_hot_zone(edge: Edge, x: i32, window_rect: &RectI32, work: &RectI32) -> (ok: bool)
    ensures
        ok == hot_zone_in_range(edge, x as int, *window_rect, *work),
{
    match edge {
        Edge::Left => work.left.checked_add(HOT_ZONE_PX).is_some(),
        Edge::Right => work.right.checked_sub(HOT_ZONE_PX).is_some(),
        Edge::Top => {
            x > window_rect.right || x < window_rect.left || work.top.checked_add(
                HOT_ZONE_PX,
            ).is_some()
        },
    }
}

/// Where the upper left corner of `window` goes when it hides at `edge`: out
/// of `work` until `peek` pixels are left in it. The other coordinate stays.
pub open spec fn snapped_corner(window: RectI32, work: RectI32, peek: int, edge: Edge) -> (
    int,
    int,
) {
    match edge {
        Edge::Left => (work.left + peek - window.extent_x(), window.top as int),
        Edge::Right => (work.right - peek, window.top as int),
        Edge::Top => (window.left as int, work.top + peek - window.extent_y()),
    }
}

/// Whether each value on the way to the hidden position is an `i32`.
pub open spec fn snapped_in_range(window: RectI32, work: RectI32, peek: int, edge: Edge) -> bool {
    match edge {
        Edge::Left => {
            &&& fits_i32(window.extent_x())
            &&& fits_i32(window.extent_x() - peek)
            &&& fits_i32(work.left - (window.extent_x() - peek))
        },
        Edge::Right => fits_i32(work.right - peek),
        Edge::Top => {
            &&& fits_i32(window.extent_y())
            &&& fits_i32(window.extent_y() - peek)
            &&& fits_i32(work.top - (window.extent_y() - peek))
        },
    }
}

/// The position at which `window` is hidden at `edge` with `peek` pixels showing.
pub fn snapped_target_position(
    window_rect: &RectI32,
    work: &RectI32,
    peek: i32,
    edge: Edge,
) -> (target: (i32, i32))
    requires
        snapped_in_range(*window_rect, *work, peek as int, edge),
    ensures
        target.0 == snapped_corner(*window_rect, *work, peek as int, edge).0,
        target.1 == snapped_corner(*window_rect, *work, peek as int, edge).1,
{
    match edge {
        Edge::Left => (work.left - (window_rect.width() - peek), window_rect.top),
        Edge::Right => (work.right - peek, window_rect.top),
        Edge::Top => (window_rect.left, work.top - (window_rect.height() - peek)),
    }
}

/// Tests that `base - ((far - near) - peek)` is computed without overflow.
fn can_tuck(near: i32, far: i32, base: i32, peek: i32) -> (ok: bool)
    ensures
        ok == {
            &&& fits_i32(far - near)
            &&& fits_i32(far - near - peek)
            &&& fits_i32(base - (far - near - peek))
        },
{
    match far.checked_sub(near) {
        None => false,
        Some(extent) => match extent.checked_sub(peek) {
            None => false,
            Some(hidden) => base.checked_sub(hidden).is_some(),
        },
    }
}

/// Tests, for a caller outside the prover, what `snapped_target_position` requires.
pub fn can_snap(window_rect: &RectI32, work: &RectI32, peek: i32, edge: Edge) -> (ok: bool)
    ensures
        ok == snapped_in_range(*window_rect, *work, peek as int, edge),
{
    match edge {
        Edge::Left => can_tuck(window_rect.left, window_rect.right, work.left, peek),
        Edge::Right => work.right.checked_sub(peek).is_some(),
        Edge::Top => can_tuck(window_rect.top, window_rect.bottom, work.top, peek),
    }
}

/// Where the upper left corner of `window` goes when it comes out at `edge`:
/// flush with that edge of `work`. The other coordinate stays.
pub open spec fn expanded_corner(window: RectI32, work: RectI32, edge: Edge) -> (int, int) {
    match edge {
        Edge::Left => (work.left as int, window.top as int),
        Edge::Right => (work.right - window.extent_x(), window.top as int),
        Edge::Top => (window.left as int, work.top as int),
    }
}

/// Whether each value on the way to the flush position is an `i32`.
pub open spec fn expanded_in_range(window: RectI32, work: RectI32, edge: Edge) -> bool {
    edge is Right ==> fits_i32(window.extent_x()) && fits_i32(work.right - window.extent_x())
}

/// The position at which `window` stands flush with `edge`, wholly showing there.
pub fn expanded_target_position(window_rect: &RectI32, work: &RectI32, edge: Edge) -> (target: (
    i32,
    i32,
))
    requires
        expanded_in_range(*window_rect, *work, edge),
    ensures
        target.0 == expanded_corner(*window_rect, *work, edge).0,
        target.1 == expanded_corner(*window_rect, *work, edge).1,
{
    match edge {
        Edge::Left => (work.left, window_rect.top),
        Edge::Right => (work.right - window_rect.width(), window_rect.top),
        Edge::Top => (window_rect.left, work.top),
    }
}

/// Tests, for a caller outside the prover, what `expanded_target_position` requires.
pub fn can_expand(window_rect: &RectI32, work: &RectI32, edge: Edge) -> (ok: bool)
    ensures
        ok == expanded_in_range(*window_rect, *work, edge),
{
    match edge {
        Edge::Right => can_tuck(window_rect.left, window_rect.right, work.right, 0),
        _ => true,
    }
}

} // verus!
