//! Placement of the shell's windows on the primary display.
//!
//! Each window is centered independently: its top-left corner sits at
//! `(display_dimension - window_dimension) / 2` on each axis, computed from
//! the window's own current size. The coordinate may be negative when the
//! window is larger than the display; the division then truncates toward
//! zero, as the shell's integer arithmetic does.

use vstd::prelude::*;

verus! {

/// The centered top-left coordinate along one axis: half the leftover
/// space, truncated toward zero when the window overhangs the display.
pub open spec fn centered_offset(display: int, window: int) -> int {
    if window <= display {
        (display - window) / 2
    } else {
        0 - ((window - display) / 2)
    }
}

/// Centered coordinate along a single axis.
pub fn centered_axis(display: u32, window: u32) -> (r: i32)
    requires
        display <= i32::MAX,
        window <= i32::MAX,
    ensures
        r == centered_offset(display as int, window as int),
{
    if window <= display {
        let gap: u32 = display - window;
        (gap / 2) as i32
    } else {
        let overhang: u32 = window - display;
        0 - ((overhang / 2) as i32)
    }
}

/// Centered top-left position of a window on a display, x then y.
pub fn centered_position(
    display_width: u32,
    display_height: u32,
    window_width: u32,
    window_height: u32,
) -> (r: (i32, i32))
    requires
        display_width <= i32::MAX,
        display_height <= i32::MAX,
        window_width <= i32::MAX,
        window_height <= i32::MAX,
    ensures
        r.0 == centered_offset(display_width as int, window_width as int),
        r.1 == centered_offset(display_height as int, window_height as int),
{
    (centered_axis(display_width, window_width), centered_axis(display_height, window_height))
}

} // verus!
