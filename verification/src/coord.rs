use vstd::prelude::*;

verus! {

/// A pair of zero-based cell coordinates addressing one character cell in
/// the console's 2-D screen buffer.  The device's native coordinate fields
/// are signed 16-bit, so both components are `i16`; the addressable range
/// is the non-negative part.
#[derive(Clone, Copy, Debug, PartialEq, Eq, Structural)]
pub struct Coord {
    /// Column, counted from the left edge of the screen buffer.
    pub x: i16,
    /// Row, counted from the top edge of the screen buffer.
    pub y: i16,
}

impl Coord {
    /// Builds the coordinate (`x`, `y`).
    pub fn new(x: i16, y: i16) -> (c: Coord)
        ensures
            c == (Coord { x, y }),
    {
        Coord { x, y }
    }
}

/// A rectangle of four edge coordinates describing the visible window
/// region within the larger screen buffer.  The invariant `left <= right`,
/// `top <= bottom` is not enforced here: a violating rectangle is handed to
/// the device, which rejects it.
#[derive(Clone, Copy, Debug, PartialEq, Eq, Structural)]
pub struct WindowPositions {
    /// Column of the left edge.
    pub left: i16,
    /// Row of the top edge.
    pub top: i16,
    /// Column of the right edge.
    pub right: i16,
    /// Row of the bottom edge.
    pub bottom: i16,
}

impl WindowPositions {
    /// Builds the rectangle with the given edges.
    pub fn new(left: i16, top: i16, right: i16, bottom: i16) -> (w: WindowPositions)
        ensures
            w == (WindowPositions { left, top, right, bottom }),
    {
        WindowPositions { left, top, right, bottom }
    }
}

} // verus!
