use vstd::prelude::*;

verus! {

/// A location in the plane: a pair of integer components.
///
/// Coordinates are bounded values so that every arithmetic operation of the
/// library (widths, heights, signed areas) is total: the doubled signed area
/// of any ring of such coordinates fits in an `i128` accumulator.
#[derive(Clone, Copy, Debug, PartialEq, Eq, Structural)]
pub struct Coordinate {
    pub x: i32,
    pub y: i32,
}

/// A single point in the plane, wrapping one `Coordinate`.
#[derive(Clone, Copy, Debug, PartialEq, Eq, Structural)]
pub struct Point(pub Coordinate);

impl Point {
    /// Builds a point from its two components.
    pub fn new(x: i32, y: i32) -> (r: Point)
        ensures
            r == Point(Coordinate { x, y }),
    {
        Point(Coordinate { x, y })
    }

    /// The horizontal component of this point.
    pub fn x(&self) -> (r: i32)
        ensures
            r == self.0.x,
    {
        self.0.x
    }

    /// The vertical component of this point.
    pub fn y(&self) -> (r: i32)
        ensures
            r == self.0.y,
    {
        self.0.y
    }
}

} // verus!
