//! The orientation carrier of vector quantities.
//!
//! A `Direction` is a three-component vector of exact magnitudes.  The
//! formula layer only ever adds, subtracts and rescales directions, which
//! are exact componentwise operations; taking a direction's Euclidean
//! length or normalising it needs square roots and stays with the
//! floating-point front end outside this library.

use vstd::prelude::*;

use crate::magnitude::{
    can_divide, can_minus, can_plus, can_times, div_rep, lemma_view_wf, minus_rep, plus_rep,
    times_rep, Magnitude,
};
use crate::rat::{
    lemma_minus_of_equal, lemma_plus_of_equal, lemma_rat_plus_wf, rat_div, rat_eq, rat_minus,
    rat_mul, rat_plus,
};

verus! {

/// A change of position in space: three exact components.
#[derive(Clone, Copy, Debug, PartialEq, Eq, Structural)]
pub struct Direction {
    pub x: Magnitude,
    pub y: Magnitude,
    pub z: Magnitude,
}

/// A unique location in space; the same data as a [`Direction`], read as a
/// change of position from the origin.
pub type Position = Direction;

impl Direction {
    /// All three components well-formed.
    pub open spec fn wf(self) -> bool {
        self.x.wf() && self.y.wf() && self.z.wf()
    }

    /// New `Direction` from its components.
    pub fn new(x: Magnitude, y: Magnitude, z: Magnitude) -> (r: Direction)
        requires
            x.wf(),
            y.wf(),
            z.wf(),
        ensures
            r == (Direction { x, y, z }),
            r.wf(),
    {
        Direction { x, y, z }
    }

    /// The origin: all zeros.
    pub fn zero() -> (r: Direction)
        ensures
            r.wf(),
            r.x@.n == 0 && r.y@.n == 0 && r.z@.n == 0,
    {
        let z = Magnitude::from_int(0);
        Direction { x: z, y: z, z: z }
    }

    /// All ones.
    pub fn one() -> (r: Direction)
        ensures
            r.wf(),
            r.x@ == crate::rat::rat_int(1),
            r.y@ == crate::rat::rat_int(1),
            r.z@ == crate::rat::rat_int(1),
    {
        let o = Magnitude::from_int(1);
        Direction { x: o, y: o, z: o }
    }

    /// The first component.
    pub fn x(&self) -> (r: Magnitude)
        ensures
            r == self.x,
    {
        self.x
    }

    /// The second component.
    pub fn y(&self) -> (r: Magnitude)
        ensures
            r == self.y,
    {
        self.y
    }

    /// The third component.
    pub fn z(&self) -> (r: Magnitude)
        ensures
            r == self.z,
    {
        self.z
    }

    /// Componentwise vector addition, exact.
    pub fn plus(&self, other: &Direction) -> (r: Direction)
        requires
            self.wf(),
            other.wf(),
            can_plus(self.x, other.x),
            can_plus(self.y, other.y),
            can_plus(self.z, other.z),
        ensures
            r.wf(),
            rat_eq(r.x@, rat_plus(self.x@, other.x@)),
            rat_eq(r.y@, rat_plus(self.y@, other.y@)),
            rat_eq(r.z@, rat_plus(self.z@, other.z@)),
            r == (Direction {
                x: plus_rep(self.x, other.x),
                y: plus_rep(self.y, other.y),
                z: plus_rep(self.z, other.z),
            }),
    {
        Direction {
            x: self.x.plus(&other.x),
            y: self.y.plus(&other.y),
            z: self.z.plus(&other.z),
        }
    }

    /// Componentwise vector subtraction, exact.
    pub fn minus(&self, other: &Direction) -> (r: Direction)
        requires
            self.wf(),
            other.wf(),
            can_minus(self.x, other.x),
            can_minus(self.y, other.y),
            can_minus(self.z, other.z),
        ensures
            r.wf(),
            rat_eq(r.x@, rat_minus(self.x@, other.x@)),
            rat_eq(r.y@, rat_minus(self.y@, other.y@)),
            rat_eq(r.z@, rat_minus(self.z@, other.z@)),
            r == (Direction {
                x: minus_rep(self.x, other.x),
                y: minus_rep(self.y, other.y),
                z: minus_rep(self.z, other.z),
            }),
    {
        Direction {
            x: self.x.minus(&other.x),
            y: self.y.minus(&other.y),
            z: self.z.minus(&other.z),
        }
    }

    /// The vector scaled by `k`, exact.
    pub fn scaled_by(&self, k: &Magnitude) -> (r: Direction)
        requires
            self.wf(),
            k.wf(),
            can_times(self.x, *k),
            can_times(self.y, *k),
            can_times(self.z, *k),
        ensures
            r.wf(),
            rat_eq(r.x@, rat_mul(self.x@, k@)),
            rat_eq(r.y@, rat_mul(self.y@, k@)),
            rat_eq(r.z@, rat_mul(self.z@, k@)),
            r == (Direction {
                x: times_rep(self.x, *k),
                y: times_rep(self.y, *k),
                z: times_rep(self.z, *k),
            }),
    {
        Direction { x: self.x.times(k), y: self.y.times(k), z: self.z.times(k) }
    }

    /// The three components as an array.
    pub fn to_array(&self) -> (r: [Magnitude; 3])
        ensures
            r@ == seq![self.x, self.y, self.z],
    {
        let r = [self.x, self.y, self.z];
        proof {
            assert(r@ =~= seq![self.x, self.y, self.z]);
        }
        r
    }

    /// The dot product of two directions, exact.
    pub fn dot(&self, other: &Direction) -> (r: Magnitude)
        requires
            self.wf(),
            other.wf(),
            can_times(self.x, other.x),
            can_times(self.y, other.y),
            can_times(self.z, other.z),
            can_plus(times_rep(self.x, other.x), times_rep(self.y, other.y)),
            can_plus(
                plus_rep(times_rep(self.x, other.x), times_rep(self.y, other.y)),
                times_rep(self.z, other.z),
            ),
        ensures
            r.wf(),
            rat_eq(
                r@,
                rat_plus(
                    rat_plus(rat_mul(self.x@, other.x@), rat_mul(self.y@, other.y@)),
                    rat_mul(self.z@, other.z@),
                ),
            ),
            r == plus_rep(
                plus_rep(times_rep(self.x, other.x), times_rep(self.y, other.y)),
                times_rep(self.z, other.z),
            ),
    {
        let xx = self.x.times(&other.x);
        let yy = self.y.times(&other.y);
        let zz = self.z.times(&other.z);
        let s1 = xx.plus(&yy);
        let r = s1.plus(&zz);
        proof {
            lemma_view_wf(self.x);
            lemma_view_wf(self.y);
            lemma_view_wf(self.z);
            lemma_view_wf(other.x);
            lemma_view_wf(other.y);
            lemma_view_wf(other.z);
            lemma_view_wf(xx);
            lemma_view_wf(yy);
            lemma_view_wf(zz);
            lemma_view_wf(s1);
            lemma_view_wf(r);
            let mx = rat_mul(self.x@, other.x@);
            let my = rat_mul(self.y@, other.y@);
            let mz = rat_mul(self.z@, other.z@);
            lemma_rat_plus_wf(self.x@, other.x@);
            lemma_rat_plus_wf(self.y@, other.y@);
            lemma_rat_plus_wf(self.z@, other.z@);
            lemma_plus_of_equal(s1@, xx@, yy@, mx, my);
            lemma_rat_plus_wf(mx, my);
            lemma_plus_of_equal(r@, s1@, zz@, rat_plus(mx, my), mz);
        }
        r
    }

    /// The cross product of two directions, exact: the vector orthogonal
    /// to both.
    pub fn cross(&self, other: &Direction) -> (r: Direction)
        requires
            self.wf(),
            other.wf(),
            can_times(self.y, other.z),
            can_times(self.z, other.y),
            can_times(self.z, other.x),
            can_times(self.x, other.z),
            can_times(self.x, other.y),
            can_times(self.y, other.x),
            can_minus(times_rep(self.y, other.z), times_rep(self.z, other.y)),
            can_minus(times_rep(self.z, other.x), times_rep(self.x, other.z)),
            can_minus(times_rep(self.x, other.y), times_rep(self.y, other.x)),
        ensures
            r.wf(),
            rat_eq(r.x@, rat_minus(rat_mul(self.y@, other.z@), rat_mul(self.z@, other.y@))),
            rat_eq(r.y@, rat_minus(rat_mul(self.z@, other.x@), rat_mul(self.x@, other.z@))),
            rat_eq(r.z@, rat_minus(rat_mul(self.x@, other.y@), rat_mul(self.y@, other.x@))),
            r.x == minus_rep(times_rep(self.y, other.z), times_rep(self.z, other.y)),
            r.y == minus_rep(times_rep(self.z, other.x), times_rep(self.x, other.z)),
            r.z == minus_rep(times_rep(self.x, other.y), times_rep(self.y, other.x)),
    {
        let rx = self.y.times(&other.z).minus(&self.z.times(&other.y));
        let ry = self.z.times(&other.x).minus(&self.x.times(&other.z));
        let rz = self.x.times(&other.y).minus(&self.y.times(&other.x));
        let r = Direction { x: rx, y: ry, z: rz };
        proof {
            lemma_cross_component(self.y, other.z, self.z, other.y, rx);
            lemma_cross_component(self.z, other.x, self.x, other.z, ry);
            lemma_cross_component(self.x, other.y, self.y, other.x, rz);
        }
        r
    }

    /// The square of the vector's Euclidean length, exact; the length
    /// itself needs a square root and stays with the floating-point front
    /// end.
    pub fn magnitude_squared(&self) -> (r: Magnitude)
        requires
            self.wf(),
            can_times(self.x, self.x),
            can_times(self.y, self.y),
            can_times(self.z, self.z),
            can_plus(times_rep(self.x, self.x), times_rep(self.y, self.y)),
            can_plus(
                plus_rep(times_rep(self.x, self.x), times_rep(self.y, self.y)),
                times_rep(self.z, self.z),
            ),
        ensures
            r.wf(),
            rat_eq(
                r@,
                rat_plus(
                    rat_plus(rat_mul(self.x@, self.x@), rat_mul(self.y@, self.y@)),
                    rat_mul(self.z@, self.z@),
                ),
            ),
            r == plus_rep(
                plus_rep(times_rep(self.x, self.x), times_rep(self.y, self.y)),
                times_rep(self.z, self.z),
            ),
    {
        self.dot(self)
    }

    /// The vector divided by a nonzero scalar `k`, exact.
    pub fn divided_by(&self, k: &Magnitude) -> (r: Direction)
        requires
            self.wf(),
            k.wf(),
            can_divide(self.x, *k),
            can_divide(self.y, *k),
            can_divide(self.z, *k),
        ensures
            r.wf(),
            rat_eq(r.x@, rat_div(self.x@, k@)),
            rat_eq(r.y@, rat_div(self.y@, k@)),
            rat_eq(r.z@, rat_div(self.z@, k@)),
            r == (Direction {
                x: div_rep(self.x, *k),
                y: div_rep(self.y, *k),
                z: div_rep(self.z, *k),
            }),
    {
        Direction {
            x: self.x.divided_by(k),
            y: self.y.divided_by(k),
            z: self.z.divided_by(k),
        }
    }
}

/// One component of a cross product: the computed difference of two
/// computed products denotes the difference of the mathematical products.
proof fn lemma_cross_component(a: Magnitude, b: Magnitude, c: Magnitude, d: Magnitude, r: Magnitude)
    requires
        a.wf(),
        b.wf(),
        c.wf(),
        d.wf(),
        r.wf(),
        times_rep(a, b).wf(),
        times_rep(c, d).wf(),
        rat_eq(times_rep(a, b)@, rat_mul(a@, b@)),
        rat_eq(times_rep(c, d)@, rat_mul(c@, d@)),
        rat_eq(r@, rat_minus(times_rep(a, b)@, times_rep(c, d)@)),
    ensures
        rat_eq(r@, rat_minus(rat_mul(a@, b@), rat_mul(c@, d@))),
{
    lemma_view_wf(a);
    lemma_view_wf(b);
    lemma_view_wf(c);
    lemma_view_wf(d);
    lemma_view_wf(r);
    lemma_view_wf(times_rep(a, b));
    lemma_view_wf(times_rep(c, d));
    lemma_rat_plus_wf(a@, b@);
    lemma_rat_plus_wf(c@, d@);
    lemma_minus_of_equal(r@, times_rep(a, b)@, times_rep(c, d)@, rat_mul(a@, b@), rat_mul(c@, d@));
}

} // verus!
