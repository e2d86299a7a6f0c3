use vstd::prelude::*;

use crate::coordinate::Coordinate;

verus! {

/// A bounded 2D quadrilateral whose area is defined by a minimum and a
/// maximum `Coordinate`.
///
/// Callers are expected to keep `min` component-wise at most `max`; the
/// library does not enforce this, and a violating rectangle simply has a
/// negative width or height.
#[derive(Clone, Copy, Debug, PartialEq, Eq, Structural)]
pub struct Rect {
    pub min: Coordinate,
    pub max: Coordinate,
}

/// The smaller of two components, taking the left one on ties.
pub open spec fn coord_min(a: i32, b: i32) -> i32 {
    if a <= b {
        a
    } else {
        b
    }
}

/// The larger of two components, taking the left one on ties.
pub open spec fn coord_max(a: i32, b: i32) -> i32 {
    if a >= b {
        a
    } else {
        b
    }
}

impl Rect {
    /// The bounding box of the union of two rectangles' extents: the
    /// component-wise minimum of the `min` corners paired with the
    /// component-wise maximum of the `max` corners.
    pub open spec fn combined_spec(self, other: Rect) -> Rect {
        Rect {
            min: Coordinate {
                x: coord_min(self.min.x, other.min.x),
                y: coord_min(self.min.y, other.min.y),
            },
            max: Coordinate {
                x: coord_max(self.max.x, other.max.x),
                y: coord_max(self.max.y, other.max.y),
            },
        }
    }

    /// True when the extent of `other` lies inside the extent of `self`,
    /// component-wise.
    pub open spec fn contains_rect(self, other: Rect) -> bool {
        &&& self.min.x <= other.min.x
        &&& self.min.y <= other.min.y
        &&& other.max.x <= self.max.x
        &&& other.max.y <= self.max.y
    }

    /// Creates a new `Rect` with this `min` and `max` coordinate.
    ///
    /// No validation is done: `min` may exceed `max` component-wise, which
    /// makes `width` or `height` negative.
    pub fn new(min: Coordinate, max: Coordinate) -> (r: Rect)
        ensures
            r == (Rect { min, max }),
    {
        Rect { min, max }
    }

    /// Width of this `Rect`; negative when `min.x` exceeds `max.x`.
    pub fn width(self) -> (r: i64)
        ensures
            r == self.max.x - self.min.x,
    {
        (self.max.x as i64) - (self.min.x as i64)
    }

    /// Height of this `Rect`; negative when `min.y` exceeds `max.y`.
    pub fn height(self) -> (r: i64)
        ensures
            r == self.max.y - self.min.y,
    {
        (self.max.y as i64) - (self.min.y as i64)
    }

    /// Returns a new `Rect` that covers both `self` and `other`.
    ///
    /// The result may include points covered by neither input: for two
    /// disjoint, diagonally offset rectangles it is strictly larger than
    /// their union.
    pub fn combined(&self, other: &Rect) -> (r: Rect)
        ensures
            r == self.combined_spec(*other),
    {
        Rect {
            min: Coordinate {
                x: simple_min(self.min.x, other.min.x),
                y: simple_min(self.min.y, other.min.y),
            },
            max: Coordinate {
                x: simple_max(self.max.x, other.max.x),
                y: simple_max(self.max.y, other.max.y),
            },
        }
    }
}

/// Branch-based minimum of two components.
fn simple_min(a: i32, b: i32) -> (r: i32)
    ensures
        r == coord_min(a, b),
{
    if a <= b {
        a
    } else {
        b
    }
}

/// Branch-based maximum of two components.
fn simple_max(a: i32, b: i32) -> (r: i32)
    ensures
        r == coord_max(a, b),
{
    if a >= b {
        a
    } else {
        b
    }
}

/// Merging two rectangles is commutative: the order of the arguments does
/// not matter.
pub proof fn lemma_combined_commutative(a: Rect, b: Rect)
    ensures
        a.combined_spec(b) == b.combined_spec(a),
{
}

/// Merging two rectangles is inflationary: the result contains the extent
/// of both inputs.
pub proof fn lemma_combined_inflationary(a: Rect, b: Rect)
    ensures
        a.combined_spec(b).contains_rect(a),
        a.combined_spec(b).contains_rect(b),
{
}

/// Merging a rectangle with itself changes nothing.
pub proof fn lemma_combined_self(r: Rect)
    ensures
        r.combined_spec(r) == r,
{
}

} // verus!
