//! Points on the touch panel and on the screen.

use vstd::prelude::*;

verus! {

/// A point with integer coordinates.
#[derive(Debug, Clone, Copy, PartialEq, Eq, Structural)]
pub struct Point {
    /// The x coordinate.
    pub x: i32,
    /// The y coordinate.
    pub y: i32,
}

/// The point (0, 0).
pub open spec fn origin() -> Point {
    Point { x: 0, y: 0 }
}

impl Point {
    /// Creates a point from its coordinates.
    pub fn new(x: i32, y: i32) -> (point: Self)
        ensures
            point == (Point { x, y }),
    {
        Point { x, y }
    }

    /// The point (0, 0).
    pub fn zero() -> (point: Self)
        ensures
            point == origin(),
    {
        Point { x: 0, y: 0 }
    }
}

} // verus!
