//! Plain geometry records that parameterize the rectangle draw call.

use vstd::prelude::*;

verus! {

/// A two-dimensional coordinate in the drawing surface's integer grid.
#[derive(Debug, Clone, Copy, PartialEq, Eq, Structural)]
pub struct Point {
    pub x: i64,
    pub y: i64,
}

/// A rectangle's extent: width and height.
///
/// Both are expected non-negative for a sensible rectangle, but this is
/// deliberately unchecked: a negative extent yields a degenerate or
/// inverted shape, never an error.
#[derive(Debug, Clone, Copy, PartialEq, Eq, Structural)]
pub struct Size {
    pub width: i64,
    pub height: i64,
}

impl Size {
    /// A square: the height equals the given width.
    pub fn new(width: i64) -> (s: Size)
        ensures
            s.width == width,
            s.height == width,
    {
        Size { width, height: width }
    }
}

} // verus!
