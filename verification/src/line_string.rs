use vstd::prelude::*;

use crate::coordinate::Coordinate;

verus! {

/// An ordered, mutable sequence of coordinates.
///
/// A `LineString` conventionally represents a polygon ring when its first
/// and last coordinates coincide; the library does not enforce closure.
#[derive(Debug)]
pub struct LineString(pub Vec<Coordinate>);

impl View for LineString {
    type V = Seq<Coordinate>;

    open spec fn view(&self) -> Seq<Coordinate> {
        self.0@
    }
}

impl LineString {
    /// Builds a linestring from a vector of coordinates, in order.
    pub fn new(coords: Vec<Coordinate>) -> (r: LineString)
        ensures
            r@ == coords@,
    {
        LineString(coords)
    }

    /// The number of coordinates in this linestring.
    pub fn num_coords(&self) -> (r: usize)
        ensures
            r == self@.len(),
    {
        self.0.len()
    }

    /// Reverses the order of the coordinates in place.
    pub fn reverse_points(&mut self)
        ensures
            final(self)@ == old(self)@.reverse(),
    {
        let n = self.0.len();
        let mut rev: Vec<Coordinate> = Vec::new();
        let mut j: usize = 0;
        while j < n
            invariant
                n == old(self)@.len(),
                self@ == old(self)@,
                j <= n,
                rev@.len() == j,
                forall|k: int| 0 <= k < j ==> rev@[k] == old(self)@[n - 1 - k],
            decreases n - j,
        {
            rev.push(self.0[n - 1 - j]);
            j = j + 1;
        }
        self.0 = rev;
        proof {
            assert(self@ =~= old(self)@.reverse());
        }
    }
}

impl Clone for LineString {
    /// A clone holds the same coordinates in the same order.
    fn clone(&self) -> (r: Self)
        ensures
            r@ == self@,
    {
        let n = self.0.len();
        let mut coords: Vec<Coordinate> = Vec::new();
        let mut j: usize = 0;
        while j < n
            invariant
                n == self@.len(),
                j <= n,
                coords@.len() == j,
                forall|k: int| 0 <= k < j ==> coords@[k] == self@[k],
            decreases n - j,
        {
            coords.push(self.0[j]);
            j = j + 1;
        }
        proof {
            assert(coords@ =~= self@);
        }
        LineString(coords)
    }
}

impl PartialEq for LineString {
    /// Two linestrings are equal when they hold the same coordinates in the
    /// same order.
    fn eq(&self, other: &LineString) -> (r: bool) {
        let n = self.0.len();
        if n != other.0.len() {
            return false;
        }
        let mut j: usize = 0;
        while j < n
            invariant
                n == self@.len(),
                n == other@.len(),
                j <= n,
                forall|k: int| 0 <= k < j ==> self@[k] == other@[k],
            decreases n - j,
        {
            if self.0[j] != other.0[j] {
                return false;
            }
            j = j + 1;
        }
        proof {
            assert(self@ =~= other@);
        }
        true
    }
}

impl vstd::std_specs::cmp::PartialEqSpecImpl for LineString {
    open spec fn obeys_eq_spec() -> bool {
        true
    }

    open spec fn eq_spec(&self, other: &LineString) -> bool {
        self@ == other@
    }
}

impl From<Vec<Coordinate>> for LineString {
    /// Wraps a vector of coordinates, keeping its order.
    fn from(coords: Vec<Coordinate>) -> (r: LineString) {
        LineString(coords)
    }
}

impl vstd::std_specs::convert::FromSpecImpl<Vec<Coordinate>> for LineString {
    open spec fn obeys_from_spec() -> bool {
        true
    }

    open spec fn from_spec(coords: Vec<Coordinate>) -> LineString {
        LineString(coords)
    }
}

} // verus!
