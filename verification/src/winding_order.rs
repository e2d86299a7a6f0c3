use vstd::prelude::*;

use crate::coordinate::Coordinate;
use crate::coordinate::Point;
use crate::line_string::LineString;

verus! {

/// The 2D cross product (determinant) of the edge from `a` to `b`:
/// the doubled signed area the edge contributes to the shoelace sum.
pub open spec fn edge_cross(a: Coordinate, b: Coordinate) -> int {
    a.x * b.y - b.x * a.y
}

/// Twice the signed area of the ring traced by `s`: the shoelace formula,
/// summing the cross product of every consecutive pair of coordinates.
/// Zero for sequences of fewer than two coordinates.
pub open spec fn shoelace_sum(s: Seq<Coordinate>) -> int
    decreases s.len(),
{
    if s.len() < 2 {
        0
    } else {
        edge_cross(s[0], s[1]) + shoelace_sum(s.drop_first())
    }
}

/// How a ring is wound, when its doubled signed area is not zero:
/// negative area means clockwise, positive means counter-clockwise.
#[derive(Clone, Debug, PartialEq, Eq, Structural)]
pub enum WindingOrder {
    Clockwise,
    CounterClockwise,
}

/// The classification of a point sequence by the sign of its doubled signed
/// area; `None` when the area is exactly zero (a degenerate ring).
pub open spec fn winding_of(s: Seq<Coordinate>) -> Option<WindingOrder> {
    if shoelace_sum(s) < 0 {
        Some(WindingOrder::Clockwise)
    } else if shoelace_sum(s) > 0 {
        Some(WindingOrder::CounterClockwise)
    } else {
        None
    }
}

/// The order in which a clockwise traversal visits the coordinates of `s`:
/// reversed when `s` is wound counter-clockwise, unchanged otherwise.
/// This is also the point order after clockwise canonicalization.
pub open spec fn cw_points_of(s: Seq<Coordinate>) -> Seq<Coordinate> {
    if winding_of(s) == Some(WindingOrder::CounterClockwise) {
        s.reverse()
    } else {
        s
    }
}

/// The order in which a counter-clockwise traversal visits the coordinates
/// of `s`: reversed when `s` is wound clockwise, unchanged otherwise.
/// This is also the point order after counter-clockwise canonicalization.
pub open spec fn ccw_points_of(s: Seq<Coordinate>) -> Seq<Coordinate> {
    if winding_of(s) == Some(WindingOrder::Clockwise) {
        s.reverse()
    } else {
        s
    }
}

/// The point order after canonicalization to the requested winding.
pub open spec fn points_in_order(order: WindingOrder, s: Seq<Coordinate>) -> Seq<Coordinate> {
    match order {
        WindingOrder::Clockwise => cw_points_of(s),
        WindingOrder::CounterClockwise => ccw_points_of(s),
    }
}

/// The cross product of an edge of bounded coordinates lies within twice the
/// square of the coordinate magnitude bound.
proof fn lemma_edge_cross_bounds(a: Coordinate, b: Coordinate)
    ensures
        -0x8000_0000_0000_0000 <= edge_cross(a, b) <= 0x8000_0000_0000_0000,
        -0x4000_0000_0000_0000 <= a.x * b.y <= 0x4000_0000_0000_0000,
        -0x4000_0000_0000_0000 <= b.x * a.y <= 0x4000_0000_0000_0000,
{
    assert(-0x4000_0000_0000_0000 <= a.x * b.y <= 0x4000_0000_0000_0000) by (nonlinear_arith)
        requires
            -0x8000_0000 <= a.x <= 0x7fff_ffff,
            -0x8000_0000 <= b.y <= 0x7fff_ffff,
    ;
    assert(-0x4000_0000_0000_0000 <= b.x * a.y <= 0x4000_0000_0000_0000) by (nonlinear_arith)
        requires
            -0x8000_0000 <= b.x <= 0x7fff_ffff,
            -0x8000_0000 <= a.y <= 0x7fff_ffff,
    ;
}

/// Computes twice the signed area of the ring traced by the linestring's
/// consecutive coordinates; zero for fewer than two coordinates.
pub fn twice_signed_ring_area(linestring: &LineString) -> (r: i128)
    ensures
        r == shoelace_sum(linestring@),
{
    let n = linestring.0.len();
    if n < 2 {
        return 0;
    }
    let mut tmp: i128 = 0;
    let mut i: usize = 0;
    proof {
        assert(linestring@.subrange(0, n as int) =~= linestring@);
    }
    while i < n - 1
        invariant
            n == linestring@.len(),
            2 <= n,
            i <= n - 1,
            shoelace_sum(linestring@) == tmp + shoelace_sum(
                linestring@.subrange(i as int, n as int),
            ),
            -(i as int) * 0x8000_0000_0000_0000 <= tmp <= (i as int) * 0x8000_0000_0000_0000,
        decreases n - 1 - i,
    {
        let a = linestring.0[i];
        let b = linestring.0[i + 1];
        proof {
            lemma_edge_cross_bounds(a, b);
            let rest = linestring@.subrange(i as int, n as int);
            assert(rest[0] == a && rest[1] == b);
            assert(rest.drop_first() =~= linestring@.subrange(i as int + 1, n as int));
        }
        let c: i128 = (a.x as i128) * (b.y as i128) - (b.x as i128) * (a.y as i128);
        tmp = tmp + c;
        i = i + 1;
    }
    proof {
        assert(shoelace_sum(linestring@.subrange(n as int - 1, n as int)) == 0);
    }
    tmp
}

/// A view of a linestring's coordinates in a fixed rotational direction,
/// yielded one point at a time without mutating the linestring.
pub struct Points<'a> {
    line: &'a LineString,
    reversed: bool,
    position: usize,
}

impl<'a> Points<'a> {
    /// The full sequence of coordinates, in the order this view yields them.
    pub closed spec fn order(&self) -> Seq<Coordinate> {
        if self.reversed {
            self.line@.reverse()
        } else {
            self.line@
        }
    }

    /// How many points this view has yielded so far.
    pub closed spec fn cursor(&self) -> int {
        self.position as int
    }

    /// Yields the next point of the view, or `None` once every point has
    /// been yielded.
    pub fn next(&mut self) -> (r: Option<Point>)
        ensures
            final(self).order() == old(self).order(),
            old(self).cursor() < old(self).order().len() ==> (r == Some(
                Point(old(self).order()[old(self).cursor()]),
            ) && final(self).cursor() == old(self).cursor() + 1),
            old(self).cursor() >= old(self).order().len() ==> (r == None::<Point>
                && final(self).cursor() == old(self).cursor()),
    {
        let n = self.line.0.len();
        if self.position < n {
            let c = if self.reversed {
                self.line.0[n - 1 - self.position]
            } else {
                self.line.0[self.position]
            };
            self.position = self.position + 1;
            Some(Point(c))
        } else {
            None
        }
    }
}

/// Computing, viewing and canonicalizing the winding order of a closed
/// point sequence.
pub trait Winding {
    /// The coordinate sequence that this object classifies.
    spec fn coords(&self) -> Seq<Coordinate>;

    /// The winding order of this object, or `None` when its doubled signed
    /// area is exactly zero.
    fn winding_order(&self) -> (r: Option<WindingOrder>)
        ensures
            r == winding_of(self.coords()),
    ;

    /// True exactly when this object is wound clockwise.
    fn is_cw(&self) -> (r: bool)
        ensures
            r == (winding_of(self.coords()) == Some(WindingOrder::Clockwise)),
    {
        match self.winding_order() {
            Some(WindingOrder::Clockwise) => true,
            _ => false,
        }
    }

    /// True exactly when this object is wound counter-clockwise.
    fn is_ccw(&self) -> (r: bool)
        ensures
            r == (winding_of(self.coords()) == Some(WindingOrder::CounterClockwise)),
    {
        match self.winding_order() {
            Some(WindingOrder::CounterClockwise) => true,
            _ => false,
        }
    }

    /// Iterates over the points in a clockwise order.
    ///
    /// The object is not changed; the points come either in order or in
    /// reverse order, so that the result appears clockwise.
    fn points_cw<'a>(&'a self) -> (r: Points<'a>)
        ensures
            r.order() == cw_points_of(self.coords()),
            r.cursor() == 0,
    ;

    /// Iterates over the points in a counter-clockwise order.
    ///
    /// The object is not changed; the points come either in order or in
    /// reverse order, so that the result appears counter-clockwise.
    fn points_ccw<'a>(&'a self) -> (r: Points<'a>)
        ensures
            r.order() == ccw_points_of(self.coords()),
            r.cursor() == 0,
    ;

    /// Reorders this object's points into clockwise winding, reversing them
    /// exactly when the current winding is counter-clockwise.
    fn make_cw_winding(&mut self)
        ensures
            final(self).coords() == cw_points_of(old(self).coords()),
    ;

    /// Reorders this object's points into counter-clockwise winding,
    /// reversing them exactly when the current winding is clockwise.
    fn make_ccw_winding(&mut self)
        ensures
            final(self).coords() == ccw_points_of(old(self).coords()),
    ;

    /// Returns a clone of this object, canonicalized to the requested
    /// winding order.
    fn clone_to_winding_order(&self, winding_order: WindingOrder) -> (r: Self) where Self: Sized
        ensures
            r.coords() == points_in_order(winding_order, self.coords()),
    ;

    /// Canonicalizes this object to the requested winding order.
    fn make_winding_order(&mut self, winding_order: WindingOrder)
        ensures
            final(self).coords() == points_in_order(winding_order, old(self).coords()),
    {
        match winding_order {
            WindingOrder::Clockwise => self.make_cw_winding(),
            WindingOrder::CounterClockwise => self.make_ccw_winding(),
        }
    }
}

impl Winding for LineString {
    open spec fn coords(&self) -> Seq<Coordinate> {
        self@
    }

    /// Classifies this linestring by the sign of its doubled signed area.
    fn winding_order(&self) -> (r: Option<WindingOrder>) {
        let shoelace = twice_signed_ring_area(self);
        if shoelace < 0 {
            Some(WindingOrder::Clockwise)
        } else if shoelace > 0 {
            Some(WindingOrder::CounterClockwise)
        } else {
            None
        }
    }

    fn points_cw<'a>(&'a self) -> (r: Points<'a>) {
        match self.winding_order() {
            Some(WindingOrder::CounterClockwise) => Points {
                line: self,
                reversed: true,
                position: 0,
            },
            _ => Points { line: self, reversed: false, position: 0 },
        }
    }

    fn points_ccw<'a>(&'a self) -> (r: Points<'a>) {
        match self.winding_order() {
            Some(WindingOrder::Clockwise) => Points { line: self, reversed: true, position: 0 },
            _ => Points { line: self, reversed: false, position: 0 },
        }
    }

    fn make_cw_winding(&mut self) {
        let reverse = match self.winding_order() {
            Some(WindingOrder::CounterClockwise) => true,
            _ => false,
        };
        if reverse {
            self.reverse_points();
        }
    }

    fn make_ccw_winding(&mut self) {
        let reverse = match self.winding_order() {
            Some(WindingOrder::Clockwise) => true,
            _ => false,
        };
        if reverse {
            self.reverse_points();
        }
    }

    fn clone_to_winding_order(&self, winding_order: WindingOrder) -> (r: LineString) {
        let mut new_line = self.clone();
        new_line.make_winding_order(winding_order);
        new_line
    }
}

/// Appending one coordinate to a sequence adds exactly the cross product of
/// the closing edge to its shoelace sum.
proof fn lemma_shoelace_push(s: Seq<Coordinate>, a: Coordinate)
    ensures
        shoelace_sum(s.push(a)) == shoelace_sum(s) + if s.len() >= 1 {
            edge_cross(s.last(), a)
        } else {
            0
        },
    decreases s.len(),
{
    if s.len() == 0 {
        assert(s.push(a).len() == 1);
    } else if s.len() == 1 {
        assert(s.push(a)[0] == s[0]);
        assert(s.push(a)[1] == a);
        assert(s.push(a).drop_first() =~= seq![a]);
        assert(shoelace_sum(seq![a]) == 0);
    } else {
        assert(s.push(a)[0] == s[0]);
        assert(s.push(a)[1] == s[1]);
        assert(s.push(a).drop_first() =~= s.drop_first().push(a));
        lemma_shoelace_push(s.drop_first(), a);
        assert(s.drop_first().last() == s.last());
    }
}

/// Reversing a sequence negates its shoelace sum.
pub proof fn lemma_shoelace_reverse(s: Seq<Coordinate>)
    ensures
        shoelace_sum(s.reverse()) == -shoelace_sum(s),
    decreases s.len(),
{
    if s.len() >= 2 {
        let t = s.drop_first();
        assert(s.reverse() =~= t.reverse().push(s[0]));
        lemma_shoelace_push(t.reverse(), s[0]);
        assert(t.reverse().last() == s[1]);
        lemma_shoelace_reverse(t);
    }
}

/// Reversing a ring's point order flips its winding exactly once:
/// clockwise and counter-clockwise swap, and undefined stays undefined.
pub proof fn lemma_winding_flips_under_reversal(s: Seq<Coordinate>)
    ensures
        winding_of(s.reverse()) == match winding_of(s) {
            Some(WindingOrder::Clockwise) => Some(WindingOrder::CounterClockwise),
            Some(WindingOrder::CounterClockwise) => Some(WindingOrder::Clockwise),
            None => None::<WindingOrder>,
        },
{
    lemma_shoelace_reverse(s);
}

/// One cyclic rotation of a closed ring: drop the leading coordinate and
/// close the ring again at the new starting coordinate.
pub open spec fn rotate_ring_once(s: Seq<Coordinate>) -> Seq<Coordinate>
    recommends
        s.len() >= 2,
        s[0] == s[s.len() - 1],
{
    s.drop_first().push(s[1])
}

/// `k` cyclic rotations of a closed ring.
pub open spec fn rotate_ring(s: Seq<Coordinate>, k: nat) -> Seq<Coordinate>
    decreases k,
{
    if k == 0 {
        s
    } else {
        rotate_ring_once(rotate_ring(s, (k - 1) as nat))
    }
}

/// One cyclic rotation of a closed ring keeps it closed, keeps its length,
/// and keeps its shoelace sum.
proof fn lemma_shoelace_rotate_once(s: Seq<Coordinate>)
    requires
        s.len() >= 2,
        s[0] == s[s.len() - 1],
    ensures
        rotate_ring_once(s).len() == s.len(),
        rotate_ring_once(s)[0] == rotate_ring_once(s)[s.len() - 1],
        shoelace_sum(rotate_ring_once(s)) == shoelace_sum(s),
{
    let t = s.drop_first();
    lemma_shoelace_push(t, s[1]);
    assert(t.last() == s[0]);
}

/// Cyclic rotation of the starting vertex of a closed ring leaves its
/// winding classification unchanged, for any number of rotations.
pub proof fn lemma_winding_invariant_under_rotation(s: Seq<Coordinate>, k: nat)
    requires
        s.len() >= 2,
        s[0] == s[s.len() - 1],
    ensures
        rotate_ring(s, k).len() == s.len(),
        rotate_ring(s, k)[0] == rotate_ring(s, k)[s.len() - 1],
        winding_of(rotate_ring(s, k)) == winding_of(s),
    decreases k,
{
    if k > 0 {
        lemma_winding_invariant_under_rotation(s, (k - 1) as nat);
        lemma_shoelace_rotate_once(rotate_ring(s, (k - 1) as nat));
    }
}

/// When the winding of a ring is defined, it is not both clockwise and
/// counter-clockwise; when it is undefined, it is neither.
pub proof fn lemma_cw_ccw_exclusive(s: Seq<Coordinate>)
    ensures
        !(winding_of(s) == Some(WindingOrder::Clockwise) && winding_of(s) == Some(
            WindingOrder::CounterClockwise,
        )),
        winding_of(s) is None ==> winding_of(s) != Some(WindingOrder::Clockwise) && winding_of(s)
            != Some(WindingOrder::CounterClockwise),
{
}

/// Canonicalizing to clockwise winding twice gives what one canonicalization
/// gives: the second pass is a no-op.
pub proof fn lemma_make_cw_idempotent(s: Seq<Coordinate>)
    ensures
        cw_points_of(cw_points_of(s)) == cw_points_of(s),
{
    if winding_of(s) == Some(WindingOrder::CounterClockwise) {
        lemma_shoelace_reverse(s);
    }
}

/// Canonicalizing to counter-clockwise winding twice gives what one
/// canonicalization gives: the second pass is a no-op.
pub proof fn lemma_make_ccw_idempotent(s: Seq<Coordinate>)
    ensures
        ccw_points_of(ccw_points_of(s)) == ccw_points_of(s),
{
    if winding_of(s) == Some(WindingOrder::Clockwise) {
        lemma_shoelace_reverse(s);
    }
}

/// Canonicalizing a counter-clockwise ring to clockwise winding and then
/// back to counter-clockwise winding restores the original point order.
pub proof fn lemma_cw_then_ccw_restores(s: Seq<Coordinate>)
    requires
        winding_of(s) == Some(WindingOrder::CounterClockwise),
    ensures
        ccw_points_of(cw_points_of(s)) == s,
{
    lemma_shoelace_reverse(s);
    assert(s.reverse().reverse() =~= s);
}

} // verus!

