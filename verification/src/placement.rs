//! Where a window is, and on what work area, from what the system answered.

#[allow(unused_imports)]
use crate::geometry::fits_i32;
use crate::geometry::reinterpret;
#[allow(unused_imports)]
use crate::geometry::reinterpreted;
use crate::geometry::RectI32;
#[allow(unused_imports)]
use vstd::string::StringExecFns;
use vstd::prelude::*;

verus! {

/// A window's rectangle, and the point by which its monitor is looked up.
#[derive(Clone, Copy, Debug, PartialEq, Eq, Structural)]
pub struct WindowPlacement {
    pub rect: RectI32,
    pub center_x: i32,
    pub center_y: i32,
}

/// Half of `v`, rounded toward zero.
pub open spec fn half(v: int) -> int {
    if v >= 0 {
        v / 2
    } else {
        -((-v) / 2)
    }
}

/// Whether a window at `position` of the given size ends at an `i32` both ways.
pub open spec fn placement_in_range(position: (i32, i32), size: (u32, u32)) -> bool {
    &&& fits_i32(position.0 + reinterpreted(size.0))
    &&& fits_i32(position.1 + reinterpreted(size.1))
}

/// Whether `placement` is that of a window at `position` of the given size.
/// The size counts by its bits, read as `i32`.
pub open spec fn is_placed(
    placement: WindowPlacement,
    position: (i32, i32),
    size: (u32, u32),
) -> bool {
    &&& placement.rect.left == position.0
    &&& placement.rect.top == position.1
    &&& placement.rect.extent_x() == reinterpreted(size.0)
    &&& placement.rect.extent_y() == reinterpreted(size.1)
    &&& placement.center_x == position.0 + half(reinterpreted(size.0))
    &&& placement.center_y == position.1 + half(reinterpreted(size.1))
}

/// Tests, for a caller outside the prover, what `locate_window` requires.
pub fn can_place(position: (i32, i32), size: (u32, u32)) -> (ok: bool)
    ensures
        ok == placement_in_range(position, size),
{
    position.0.checked_add(reinterpret(size.0)).is_some() && position.1.checked_add(
        reinterpret(size.1),
    ).is_some()
}

/// The placement of a window at `position` of the given size.
fn place(position: (i32, i32), size: (u32, u32)) -> (placement: WindowPlacement)
    requires
        placement_in_range(position, size),
    ensures
        is_placed(placement, position, size),
{
    let width: i32 = reinterpret(size.0);
    let height: i32 = reinterpret(size.1);
    WindowPlacement {
        rect: RectI32 {
            left: position.0,
            top: position.1,
            right: position.0 + width,
            bottom: position.1 + height,
        },
        center_x: position.0 + width / 2,
        center_y: position.1 + height / 2,
    }
}

/// Puts a window's outer position and outer size, or what went wrong in asking
/// for them, together. A failed position is reported before a failed size.
pub fn locate_window(
    position: Result<(i32, i32), String>,
    size: Result<(u32, u32), String>,
) -> (located: Result<WindowPlacement, String>)
    requires
        position is Ok && size is Ok ==> placement_in_range(position->Ok_0, size->Ok_0),
    ensures
        position is Err ==> {
            &&& located is Err
            &&& located->Err_0@ == "Failed to get outer position: "@ + position->Err_0@
        },
        position is Ok && size is Err ==> {
            &&& located is Err
            &&& located->Err_0@ == "Failed to get outer size: "@ + size->Err_0@
        },
        position is Ok && size is Ok ==> {
            &&& located is Ok
            &&& is_placed(located->Ok_0, position->Ok_0, size->Ok_0)
        },
{
    match position {
        Err(e) => Err("Failed to get outer position: ".to_owned().concat(e.as_str())),
        Ok(position) => match size {
            Err(e) => Err("Failed to get outer size: ".to_owned().concat(e.as_str())),
            Ok(size) => Ok(place(position, size)),
        },
    }
}

/// Pairs a located window's rectangle with the work area of its monitor, or
/// reports what went wrong in asking for the monitor.
pub fn get_window_and_work_area(
    placement: &WindowPlacement,
    work_area: Result<RectI32, String>,
) -> (both: Result<(RectI32, RectI32), String>)
    ensures
        work_area is Ok ==> both == Ok::<(RectI32, RectI32), String>(
            (placement.rect, work_area->Ok_0),
        ),
        work_area is Err ==> {
            &&& both is Err
            &&& both->Err_0@ == "GetMonitorInfoW failed: "@ + work_area->Err_0@
        },
{
    match work_area {
        Ok(work) => Ok((placement.rect, work)),
        Err(e) => Err("GetMonitorInfoW failed: ".to_owned().concat(e.as_str())),
    }
}

} // verus!
