//! What becomes of the settings, and of what the system answered.

#[allow(unused_imports)]
use crate::config::{EdgeSnapConfig, WindowConfig};
#[allow(unused_imports)]
use crate::cursor::{carries_position, hook_start, pumps_on, HookStart};
#[allow(unused_imports)]
use crate::geometry::{reinterpreted, RectI32};
#[allow(unused_imports)]
use crate::placement::{can_place, get_window_and_work_area, locate_window, WindowPlacement};
use vstd::prelude::*;

verus! {

/// Reading 32 bits as an `i32` keeps small numbers and takes two to the power
/// of 32 off the others, which leaves them negative.
pub proof fn law_bits_are_kept(v: u32)
    ensures
        i32::MIN <= reinterpreted(v) <= i32::MAX,
        v - reinterpreted(v) == 0 || v - reinterpreted(v) == 0x1_0000_0000,
        reinterpreted(v) == v as i32,
{
    assert(v <= 0x7fff_ffff ==> v as i32 == v) by (bit_vector);
    assert(v > 0x7fff_ffff ==> v as i32 == v - 0x1_0000_0000) by (bit_vector);
}

/// The settings are taken over one by one: the switch and the delay as they
/// are, the two pixel counts by their bits, and so as they are up to `i32::MAX`.
pub proof fn law_settings_are_taken_over(config: WindowConfig, taken: EdgeSnapConfig)
    requires
        call_ensures(EdgeSnapConfig::from_window_config, (&config,), taken),
    ensures
        taken.enabled == config.edge_snap_enabled,
        taken.snap_delay_ms == config.edge_snap_delay,
        config.edge_snap_threshold - taken.threshold == 0 || config.edge_snap_threshold
            - taken.threshold == 0x1_0000_0000,
        config.edge_snap_peek_width - taken.peek_width == 0 || config.edge_snap_peek_width
            - taken.peek_width == 0x1_0000_0000,
{
}

/// A located window stands at its position with its size, the size read as
/// `i32`, and its monitor is looked up by its middle: the two halves differ by
/// at most one pixel, the larger being the far one.
pub proof fn law_located_window_has_position_and_size(
    position: (i32, i32),
    size: (u32, u32),
    located: Result<WindowPlacement, String>,
)
    requires
        call_ensures(
            locate_window,
            (Ok::<(i32, i32), String>(position), Ok::<(u32, u32), String>(size)),
            located,
        ),
    ensures
        located is Ok,
        ({
            let rect = located->Ok_0.rect;
            let width = rect.right - rect.left;
            let height = rect.bottom - rect.top;
            let far_x = rect.right - located->Ok_0.center_x;
            let near_x = located->Ok_0.center_x - rect.left;
            let far_y = rect.bottom - located->Ok_0.center_y;
            let near_y = located->Ok_0.center_y - rect.top;
            &&& rect.left == position.0
            &&& rect.top == position.1
            &&& size.0 - width == 0 || size.0 - width == 0x1_0000_0000
            &&& size.1 - height == 0 || size.1 - height == 0x1_0000_0000
            &&& width >= 0 ==> 0 <= far_x - near_x <= 1
            &&& width < 0 ==> -1 <= far_x - near_x <= 0
            &&& height >= 0 ==> 0 <= far_y - near_y <= 1
            &&& height < 0 ==> -1 <= far_y - near_y <= 0
            &&& i32::MIN <= width <= i32::MAX
            &&& i32::MIN <= height <= i32::MAX
        }),
{
}

/// A window cannot be located if its position or its size is not known; the
/// message says which, the position before the size, and why.
pub proof fn law_unlocated_window_is_explained(
    position: Result<(i32, i32), String>,
    size: Result<(u32, u32), String>,
    located: Result<WindowPlacement, String>,
)
    requires
        call_ensures(locate_window, (position, size), located),
    ensures
        located is Err <==> position is Err || size is Err,
        position matches Err(why) ==> located->Err_0@ == "Failed to get outer position: "@ + why@,
        position is Ok && size is Err ==> located->Err_0@ == "Failed to get outer size: "@
            + size->Err_0@,
{
}

/// A window can be located exactly where its right and its bottom side are
/// `i32`, or where its position or size is not known anyway.
pub proof fn law_placement_range(
    position: (i32, i32),
    size: (u32, u32),
    ok: bool,
    any_position: Result<(i32, i32), String>,
    any_size: Result<(u32, u32), String>,
)
    requires
        call_ensures(can_place, (position, size), ok),
    ensures
        ok <==> {
            &&& i32::MIN <= position.0 + (size.0 as i32) <= i32::MAX
            &&& i32::MIN <= position.1 + (size.1 as i32) <= i32::MAX
        },
        ok ==> call_requires(
            locate_window,
            (Ok::<(i32, i32), String>(position), Ok::<(u32, u32), String>(size)),
        ),
        any_position is Err || any_size is Err ==> call_requires(
            locate_window,
            (any_position, any_size),
        ),
{
    law_bits_are_kept(size.0);
    law_bits_are_kept(size.1);
}

/// A located window keeps its rectangle and gets the work area as it is; a
/// monitor that cannot be had is reported with the reason.
pub proof fn law_work_area_is_paired(
    placement: WindowPlacement,
    work_area: Result<RectI32, String>,
    both: Result<(RectI32, RectI32), String>,
)
    requires
        call_ensures(get_window_and_work_area, (&placement, work_area), both),
    ensures
        both is Ok <==> work_area is Ok,
        both matches Ok((window, work)) ==> {
            &&& window == placement.rect
            &&& work == work_area->Ok_0
        },
        both matches Err(message) ==> message@ == "GetMonitorInfoW failed: "@
            + work_area->Err_0@,
{
}

/// A hook is in place exactly if the thread answered with a handle that is not
/// zero, and it is the one answered; the thread is to be joined exactly if it
/// answered with zero.
pub proof fn law_hook_is_what_was_answered(answer: Option<isize>, start: HookStart)
    requires
        call_ensures(hook_start, (answer,), start),
    ensures
        start is Lost <==> answer is None,
        start is Refused <==> answer == Some(0isize),
        start matches HookStart::Installed { hook } ==> answer == Some(hook) && hook != 0,
{
}

/// The hook thread ends exactly when it got no message or was asked to quit,
/// and a hook call is read exactly if its code is not negative.
pub proof fn law_hook_thread_reads(
    received: bool,
    asks_to_quit: bool,
    goes_on: bool,
    code: i32,
    carries: bool,
)
    ensures
        call_ensures(pumps_on, (received, asks_to_quit), goes_on) ==> (!goes_on <==> !received
            || asks_to_quit),
        call_ensures(carries_position, (code,), carries) ==> (!carries <==> code < 0),
{
}

} // verus!
