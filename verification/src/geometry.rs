//! Frames and sizes in logical pixels, and the placement rule for a new
//! floating window.

use vstd::prelude::*;

verus! {

/// Coordinate magnitudes stay within this bound so that placement arithmetic
/// on `i64` coordinates cannot overflow.
pub const COORD_LIMIT: i64 = 0x4000_0000;

/// Inward offset, on both axes, from the top-left corner of the screen's
/// frame at which a new floating window is placed, so that the window does
/// not sit exactly on the screen edge.
pub const SCREEN_MARGIN: i64 = 100;

/// An axis-aligned rectangle in logical pixels, with the origin at its
/// bottom-left corner (the native coordinate convention).
#[derive(Clone, Copy, PartialEq, Eq, Structural, Debug)]
pub struct FrameRect {
    pub x: i64,
    pub y: i64,
    pub width: i64,
    pub height: i64,
}

/// A requested window size in logical pixels.
#[derive(Clone, Copy, PartialEq, Eq, Structural, Debug)]
pub struct WindowSize {
    pub width: i64,
    pub height: i64,
}

impl FrameRect {
    /// Every coordinate is small enough for placement arithmetic.
    pub open spec fn bounded(self) -> bool {
        &&& -COORD_LIMIT <= self.x <= COORD_LIMIT
        &&& -COORD_LIMIT <= self.y <= COORD_LIMIT
        &&& -COORD_LIMIT <= self.width <= COORD_LIMIT
        &&& -COORD_LIMIT <= self.height <= COORD_LIMIT
    }
}

impl WindowSize {
    /// Both extents are small enough for placement arithmetic.
    pub open spec fn bounded(self) -> bool {
        &&& -COORD_LIMIT <= self.width <= COORD_LIMIT
        &&& -COORD_LIMIT <= self.height <= COORD_LIMIT
    }
}

/// `frame` is where a window of `size` is first placed on a screen whose
/// frame is `screen`: inset by [`SCREEN_MARGIN`] from the screen's top-left
/// corner (in bottom-left-origin coordinates the vertical inset is measured
/// down from the screen's top edge), with exactly the requested size.
pub open spec fn is_placed_frame(frame: FrameRect, screen: FrameRect, size: WindowSize) -> bool {
    &&& frame.x == screen.x + SCREEN_MARGIN
    &&& frame.y == screen.y + screen.height - size.height - SCREEN_MARGIN
    &&& frame.width == size.width
    &&& frame.height == size.height
}

/// Computes the initial frame of a floating window of `size` on `screen`.
///
/// The size is taken as requested, whether or not it is positive; only the
/// coordinate bound is required, so the arithmetic cannot overflow.
pub fn initial_frame(screen: FrameRect, size: WindowSize) -> (frame: FrameRect)
    requires
        screen.bounded(),
        size.bounded(),
    ensures
        is_placed_frame(frame, screen, size),
{
    FrameRect {
        x: screen.x + SCREEN_MARGIN,
        y: screen.y + screen.height - size.height - SCREEN_MARGIN,
        width: size.width,
        height: size.height,
    }
}

} // verus!
