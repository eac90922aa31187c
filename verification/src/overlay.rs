//! Placement of the overlay window on its screen.

use vstd::prelude::*;

verus! {

/// The distance kept between the overlay and the edges of the screen.
pub const OVERLAY_MARGIN: u32 = 16;

/// The horizontal distance of the overlay from the left edge: the window
/// stands one margin away from the right edge, or at the left edge where the
/// screen is too narrow for that.
pub open spec fn overlay_left(screen_width: u32, window_width: u32) -> int {
    if screen_width >= window_width + OVERLAY_MARGIN {
        screen_width - (window_width + OVERLAY_MARGIN)
    } else {
        0
    }
}

/// The value of an unsigned 32-bit number read as a signed one.
pub open spec fn as_signed(v: int) -> int {
    if v <= i32::MAX {
        v
    } else {
        v - 0x1_0000_0000
    }
}

/// The position of the overlay's upper left corner: near the upper right
/// corner of the screen, one margin away from both edges.
pub fn overlay_position(screen_width: u32, window_width: u32) -> (r: (i32, i32))
    requires
        window_width + OVERLAY_MARGIN <= u32::MAX,
    ensures
        r.0 == as_signed(overlay_left(screen_width, window_width)),
        r.1 == OVERLAY_MARGIN,
{
    let taken: u32 = window_width + OVERLAY_MARGIN;
    let left: u32 = if screen_width >= taken {
        screen_width - taken
    } else {
        0
    };
    let x: i32 = if left <= 0x7fff_ffff {
        left as i32
    } else {
        (left - 0x8000_0000) as i32 + i32::MIN
    };
    (x, 16)
}

/// On every screen that is wide enough, and no wider than a signed
/// coordinate can say, the overlay ends exactly one margin before the right edge.
pub proof fn lemma_overlay_keeps_margin(screen_width: u32, window_width: u32)
    requires
        screen_width >= window_width + OVERLAY_MARGIN,
        screen_width <= i32::MAX,
    ensures
        as_signed(overlay_left(screen_width, window_width)) + window_width + OVERLAY_MARGIN
            == screen_width,
        as_signed(overlay_left(screen_width, window_width)) >= 0,
{
}

} // verus!
