use vstd::prelude::*;

verus! {

/// Width assumed for the capture window, in logical pixels.
pub const WINDOW_WIDTH: i64 = 520;

/// Margin kept between the window and the monitor's edges.
pub const PADDING: i64 = 16;

/// Where the capture window goes on a monitor `monitor_width` pixels wide:
/// against the top right corner, `PADDING` away from both edges.
pub fn top_right_position(monitor_width: u32) -> (r: (i64, i64))
    ensures
        r.0 == monitor_width - WINDOW_WIDTH - PADDING,
        r.1 == PADDING,
{
    (monitor_width as i64 - WINDOW_WIDTH - PADDING, PADDING)
}

} // verus!
