//! The vector quantities: force, acceleration, moment, momentum, velocity
//! and gravitational field strength.
//!
//! A vector quantity carries its magnitude and a [`Direction`] side by
//! side.  When a formula combines a scalar operand with a vector operand,
//! the result takes the direction of the vector-bearing operand; each
//! formula's contract states which operand that is.

use vstd::prelude::*;

use crate::display::{long_form, pluralized, short_form};
use crate::magnitude::{
    can_divide, can_minus, can_shift, can_times, decimal_mag, div_rep, lemma_view_nonzero, lemma_view_wf, Magnitude, minus_rep, shift_rep, times_rep, whole_mag,
};
use crate::prefix::{canonical_to_prefixed, prefix_shift, prefixed_to_canonical, Prefix};
use crate::rat::{
    lemma_div_of_equal, lemma_rat_plus_wf, rat_div, rat_eq, rat_minus, rat_mul, rat_scale10,
};
use crate::unit::Unit;
use crate::direction::Direction;
use crate::units::{Distance, Length, Mass, Time};

verus! {

/// Any interaction that, when unopposed, will change the motion of an object, stored in newtons (`N`).
#[derive(Clone, Copy, Debug, PartialEq, Eq, Structural)]
pub struct Force {
    pub m: Magnitude,
    pub d: Direction,
}

impl Force {
    /// The stored magnitude and direction are well-formed.
    pub open spec fn wf(self) -> bool {
        self.m.wf() && self.d.wf()
    }

    /// New `Force` from a magnitude in newtons (`N`) and a direction.
    pub fn new(m: Magnitude, d: Direction) -> (r: Self)
        requires
            m.wf(),
            d.wf(),
        ensures
            r.m == m,
            r.d == d,
    {
        Force { m, d }
    }

    /// New `Force` with an undefined direction.
    pub fn without_direction(m: Magnitude) -> (r: Self)
        requires
            m.wf(),
        ensures
            r.m == m,
            r.wf(),
            r.d.x@.n == 0 && r.d.y@.n == 0 && r.d.z@.n == 0,
    {
        Force { m, d: Direction::zero() }
    }

    /// Returns the magnitude, in newtons (`N`).
    pub fn m(&self) -> (r: Magnitude)
        ensures
            r == self.m,
    {
        self.m
    }

    /// Returns the direction.
    pub fn d(&self) -> (r: Direction)
        ensures
            r == self.d,
    {
        self.d
    }

    /// New `Force` of `x` prefixed units, with a direction.
    pub fn in_unit(p: Prefix, x: Magnitude, d: Direction) -> (r: Self)
        requires
            x.wf(),
            d.wf(),
            can_shift(x, prefix_shift(p, 1, 0)),
        ensures
            r.wf(),
            rat_eq(r.m@, rat_scale10(x@, prefix_shift(p, 1, 0))),
            r.m == shift_rep(x, prefix_shift(p, 1, 0)),
            r.d == d,
    {
        Force { m: prefixed_to_canonical(&x, p, 1, 0), d }
    }

    /// This quantity read in the given prefixed unit, with its direction.
    pub fn as_unit(&self, p: Prefix) -> (r: (Magnitude, Direction))
        requires
            self.wf(),
            can_shift(self.m, -prefix_shift(p, 1, 0)),
        ensures
            r.0.wf(),
            rat_eq(r.0@, rat_scale10(self.m@, -prefix_shift(p, 1, 0))),
            r.0 == shift_rep(self.m, -prefix_shift(p, 1, 0)),
            r.1 == self.d,
    {
        (canonical_to_prefixed(&self.m, p, 1, 0), self.d)
    }
}

/// (== [`Force`]) The pull of gravity on an object.
pub type Weight = Force;

/// # `Force` formulas
impl Force {
    /// Derives the `Force` from the given mass and acceleration (`F = m * a`); the result takes the direction of the acceleration.
    pub fn from_mass_acceleration(m: Mass, a: Acceleration) -> (r: Self)
        requires
            m.wf(),
            a.wf(),
            can_times(m.m, a.m),
        ensures
            r.wf(),
            rat_eq(r.m@, rat_mul(m.m@, a.m@)),
            r.m == times_rep(m.m, a.m),
            r.d == a.d,
    {
        Force { m: m.m.times(&a.m), d: a.d }
    }

    /// (Alias of [`from_mass_acceleration`][Force::from_mass_acceleration].)
    pub fn from_acceleration_mass(a: Acceleration, m: Mass) -> (r: Self)
        requires
            m.wf(),
            a.wf(),
            can_times(m.m, a.m),
        ensures
            r.wf(),
            rat_eq(r.m@, rat_mul(m.m@, a.m@)),
            r.m == times_rep(m.m, a.m),
            r.d == a.d,
    {
        Self::from_mass_acceleration(m, a)
    }

    /// Calculates the mass given the acceleration (`m = F / a`).
    pub fn calc_mass(&self, a: Acceleration) -> (r: Mass)
        requires
            self.wf(),
            a.wf(),
            can_divide(self.m, a.m),
        ensures
            r.wf(),
            rat_eq(r.m@, rat_div(self.m@, a.m@)),
            r.m == div_rep(self.m, a.m),
    {
        Mass::new(self.m.divided_by(&a.m))
    }

    /// Calculates the acceleration given the mass (`a = F / m`); the result takes the direction of the force.
    pub fn calc_acceleration(&self, m: Mass) -> (r: Acceleration)
        requires
            self.wf(),
            m.wf(),
            can_divide(self.m, m.m),
        ensures
            r.wf(),
            rat_eq(r.m@, rat_div(self.m@, m.m@)),
            r.m == div_rep(self.m, m.m),
            r.d == self.d,
    {
        Acceleration::new(self.m.divided_by(&m.m), self.d)
    }

    /// Derives the `Force` from the given moment and distance (`F = M / d`); the result takes the direction of the moment.
    pub fn from_moment_distance(m: Moment, d: Distance) -> (r: Self)
        requires
            m.wf(),
            d.wf(),
            can_divide(m.m, d.m),
        ensures
            r.wf(),
            rat_eq(r.m@, rat_div(m.m@, d.m@)),
            r.m == div_rep(m.m, d.m),
            r.d == m.d,
    {
        Force { m: m.m.divided_by(&d.m), d: m.d }
    }

    /// (Alias of [`from_moment_distance`][Force::from_moment_distance].)
    pub fn from_distance_moment(d: Distance, m: Moment) -> (r: Self)
        requires
            m.wf(),
            d.wf(),
            can_divide(m.m, d.m),
        ensures
            r.wf(),
            rat_eq(r.m@, rat_div(m.m@, d.m@)),
            r.m == div_rep(m.m, d.m),
            r.d == m.d,
    {
        Self::from_moment_distance(m, d)
    }

    /// Calculates the moment given the distance (`M = F * d`); the result takes the direction of the force.
    pub fn calc_moment(&self, d: Distance) -> (r: Moment)
        requires
            self.wf(),
            d.wf(),
            can_times(self.m, d.m),
        ensures
            r.wf(),
            rat_eq(r.m@, rat_mul(self.m@, d.m@)),
            r.m == times_rep(self.m, d.m),
            r.d == self.d,
    {
        Moment::new(self.m.times(&d.m), self.d)
    }

    /// Calculates the distance given the moment (`d = M / F`).
    pub fn calc_distance(&self, m: Moment) -> (r: Distance)
        requires
            self.wf(),
            m.wf(),
            can_divide(m.m, self.m),
        ensures
            r.wf(),
            rat_eq(r.m@, rat_div(m.m@, self.m@)),
            r.m == div_rep(m.m, self.m),
    {
        Length::new(m.m.divided_by(&self.m))
    }

}

/// # [`Weight`] formulas
impl Weight {
    /// Derives the `Weight` from the given mass and gravitational field strength (`W = m * g`); the result takes the direction of the field.
    pub fn from_mass_gfs(m: Mass, g: GravitationalFieldStrength) -> (r: Self)
        requires
            m.wf(),
            g.wf(),
            can_times(m.m, g.m),
        ensures
            r.wf(),
            rat_eq(r.m@, rat_mul(m.m@, g.m@)),
            r.m == times_rep(m.m, g.m),
            r.d == g.d,
    {
        Force { m: m.m.times(&g.m), d: g.d }
    }

    /// Calculates the mass given the gravitational field strength (`m = W / g`).
    pub fn calc_mass_from_gfs(&self, g: GravitationalFieldStrength) -> (r: Mass)
        requires
            self.wf(),
            g.wf(),
            can_divide(self.m, g.m),
        ensures
            r.wf(),
            rat_eq(r.m@, rat_div(self.m@, g.m@)),
            r.m == div_rep(self.m, g.m),
    {
        Mass::new(self.m.divided_by(&g.m))
    }

    /// Calculates the gravitational field strength given the mass (`g = W / m`); the result takes the direction of the weight.
    pub fn calc_gfs(&self, m: Mass) -> (r: GravitationalFieldStrength)
        requires
            self.wf(),
            m.wf(),
            can_divide(self.m, m.m),
        ensures
            r.wf(),
            rat_eq(r.m@, rat_div(self.m@, m.m@)),
            r.m == div_rep(self.m, m.m),
            r.d == self.d,
    {
        Gfs::new(self.m.divided_by(&m.m), self.d)
    }

}

impl Unit for Force {
    open spec fn mag_rep(&self) -> Magnitude {
        self.m
    }

    open spec fn symbol_spec() -> Seq<char> {
        "N"@
    }

    open spec fn singular_spec() -> Seq<char> {
        "newton"@
    }

    open spec fn plural_spec() -> Seq<char> {
        "newtons"@
    }

    fn unit() -> (s: String) {
        String::from_str("N")
    }

    fn unit_long_s(&self) -> (s: String) {
        String::from_str("newton")
    }

    fn unit_long_p(&self) -> (s: String) {
        String::from_str("newtons")
    }

    fn unit_long(&self) -> (s: String) {
        pluralized(&self.m, "newton", "newtons")
    }

    fn long(&self) -> (s: String) {
        long_form(&self.m, "newton", "newtons")
    }

    fn short(&self) -> (s: String) {
        short_form(&self.m, "N")
    }
}

/// The rate of change of velocity of an object with respect to time, stored in metres per second squared (`m/s²`).
#[derive(Clone, Copy, Debug, PartialEq, Eq, Structural)]
pub struct Acceleration {
    pub m: Magnitude,
    pub d: Direction,
}

impl Acceleration {
    /// The stored magnitude and direction are well-formed.
    pub open spec fn wf(self) -> bool {
        self.m.wf() && self.d.wf()
    }

    /// New `Acceleration` from a magnitude in metres per second squared (`m/s²`) and a direction.
    pub fn new(m: Magnitude, d: Direction) -> (r: Self)
        requires
            m.wf(),
            d.wf(),
        ensures
            r.m == m,
            r.d == d,
    {
        Acceleration { m, d }
    }

    /// New `Acceleration` with an undefined direction.
    pub fn without_direction(m: Magnitude) -> (r: Self)
        requires
            m.wf(),
        ensures
            r.m == m,
            r.wf(),
            r.d.x@.n == 0 && r.d.y@.n == 0 && r.d.z@.n == 0,
    {
        Acceleration { m, d: Direction::zero() }
    }

    /// Returns the magnitude, in metres per second squared (`m/s²`).
    pub fn m(&self) -> (r: Magnitude)
        ensures
            r == self.m,
    {
        self.m
    }

    /// Returns the direction.
    pub fn d(&self) -> (r: Direction)
        ensures
            r == self.d,
    {
        self.d
    }

    /// New `Acceleration` of `x` prefixed units, with a direction.
    pub fn in_unit(p: Prefix, x: Magnitude, d: Direction) -> (r: Self)
        requires
            x.wf(),
            d.wf(),
            can_shift(x, prefix_shift(p, 1, 0)),
        ensures
            r.wf(),
            rat_eq(r.m@, rat_scale10(x@, prefix_shift(p, 1, 0))),
            r.m == shift_rep(x, prefix_shift(p, 1, 0)),
            r.d == d,
    {
        Acceleration { m: prefixed_to_canonical(&x, p, 1, 0), d }
    }

    /// This quantity read in the given prefixed unit, with its direction.
    pub fn as_unit(&self, p: Prefix) -> (r: (Magnitude, Direction))
        requires
            self.wf(),
            can_shift(self.m, -prefix_shift(p, 1, 0)),
        ensures
            r.0.wf(),
            rat_eq(r.0@, rat_scale10(self.m@, -prefix_shift(p, 1, 0))),
            r.0 == shift_rep(self.m, -prefix_shift(p, 1, 0)),
            r.1 == self.d,
    {
        (canonical_to_prefixed(&self.m, p, 1, 0), self.d)
    }
}

/// # `Acceleration` formulas
impl Acceleration {
    /// Derives the `Acceleration` from the given velocity and time (`a = v / t`); the result takes the direction of the velocity.
    pub fn from_velocity_time(v: Velocity, t: Time) -> (r: Self)
        requires
            v.wf(),
            t.wf(),
            can_divide(v.m, t.m),
        ensures
            r.wf(),
            rat_eq(r.m@, rat_div(v.m@, t.m@)),
            r.m == div_rep(v.m, t.m),
            r.d == v.d,
    {
        Acceleration { m: v.m.divided_by(&t.m), d: v.d }
    }

    /// (Alias of [`from_velocity_time`][Acceleration::from_velocity_time].)
    pub fn from_time_velocity(t: Time, v: Velocity) -> (r: Self)
        requires
            v.wf(),
            t.wf(),
            can_divide(v.m, t.m),
        ensures
            r.wf(),
            rat_eq(r.m@, rat_div(v.m@, t.m@)),
            r.m == div_rep(v.m, t.m),
            r.d == v.d,
    {
        Self::from_velocity_time(v, t)
    }

    /// Derives the `Acceleration` from a change of velocity over time
    /// (`a = (v1 - v0) / t`): the magnitude is the change of speed over the
    /// time, the direction the vector difference of the two velocities over
    /// the time.
    pub fn from_velocities_time(v_initial: Velocity, v_final: Velocity, t: Time) -> (r: Self)
        requires
            v_initial.wf(),
            v_final.wf(),
            t.wf(),
            can_minus(v_final.m, v_initial.m),
            can_divide(minus_rep(v_final.m, v_initial.m), t.m),
            can_minus(v_final.d.x, v_initial.d.x),
            can_minus(v_final.d.y, v_initial.d.y),
            can_minus(v_final.d.z, v_initial.d.z),
            can_divide(minus_rep(v_final.d.x, v_initial.d.x), t.m),
            can_divide(minus_rep(v_final.d.y, v_initial.d.y), t.m),
            can_divide(minus_rep(v_final.d.z, v_initial.d.z), t.m),
        ensures
            r.wf(),
            rat_eq(r.m@, rat_div(rat_minus(v_final.m@, v_initial.m@), t.m@)),
            rat_eq(r.d.x@, rat_div(rat_minus(v_final.d.x@, v_initial.d.x@), t.m@)),
            rat_eq(r.d.y@, rat_div(rat_minus(v_final.d.y@, v_initial.d.y@), t.m@)),
            rat_eq(r.d.z@, rat_div(rat_minus(v_final.d.z@, v_initial.d.z@), t.m@)),
            r.m == div_rep(minus_rep(v_final.m, v_initial.m), t.m),
            r.d.x == div_rep(minus_rep(v_final.d.x, v_initial.d.x), t.m),
            r.d.y == div_rep(minus_rep(v_final.d.y, v_initial.d.y), t.m),
            r.d.z == div_rep(minus_rep(v_final.d.z, v_initial.d.z), t.m),
    {
        let dm = v_final.m.minus(&v_initial.m);
        let dd = v_final.d.minus(&v_initial.d);
        let r = Acceleration { m: dm.divided_by(&t.m), d: dd.divided_by(&t.m) };
        proof {
            lemma_view_wf(v_initial.m);
            lemma_view_wf(v_final.m);
            lemma_view_wf(v_initial.d.x);
            lemma_view_wf(v_final.d.x);
            lemma_view_wf(v_initial.d.y);
            lemma_view_wf(v_final.d.y);
            lemma_view_wf(v_initial.d.z);
            lemma_view_wf(v_final.d.z);
            lemma_view_wf(t.m);
            lemma_view_wf(dm);
            lemma_view_wf(dd.x);
            lemma_view_wf(dd.y);
            lemma_view_wf(dd.z);
            lemma_view_wf(r.m);
            lemma_view_wf(r.d.x);
            lemma_view_wf(r.d.y);
            lemma_view_wf(r.d.z);
            lemma_view_nonzero(t.m);
            lemma_rat_plus_wf(v_final.m@, v_initial.m@);
            lemma_rat_plus_wf(v_final.d.x@, v_initial.d.x@);
            lemma_rat_plus_wf(v_final.d.y@, v_initial.d.y@);
            lemma_rat_plus_wf(v_final.d.z@, v_initial.d.z@);
            lemma_div_of_equal(r.m@, dm@, rat_minus(v_final.m@, v_initial.m@), t.m@);
            lemma_div_of_equal(r.d.x@, dd.x@, rat_minus(v_final.d.x@, v_initial.d.x@), t.m@);
            lemma_div_of_equal(r.d.y@, dd.y@, rat_minus(v_final.d.y@, v_initial.d.y@), t.m@);
            lemma_div_of_equal(r.d.z@, dd.z@, rat_minus(v_final.d.z@, v_initial.d.z@), t.m@);
        }
        r
    }

    /// (Alias of [`from_velocities_time`][Acceleration::from_velocities_time].)
    pub fn from_time_velocities(t: Time, v_initial: Velocity, v_final: Velocity) -> (r: Self)
        requires
            v_initial.wf(),
            v_final.wf(),
            t.wf(),
            can_minus(v_final.m, v_initial.m),
            can_divide(minus_rep(v_final.m, v_initial.m), t.m),
            can_minus(v_final.d.x, v_initial.d.x),
            can_minus(v_final.d.y, v_initial.d.y),
            can_minus(v_final.d.z, v_initial.d.z),
            can_divide(minus_rep(v_final.d.x, v_initial.d.x), t.m),
            can_divide(minus_rep(v_final.d.y, v_initial.d.y), t.m),
            can_divide(minus_rep(v_final.d.z, v_initial.d.z), t.m),
        ensures
            r.wf(),
            rat_eq(r.m@, rat_div(rat_minus(v_final.m@, v_initial.m@), t.m@)),
            rat_eq(r.d.x@, rat_div(rat_minus(v_final.d.x@, v_initial.d.x@), t.m@)),
            rat_eq(r.d.y@, rat_div(rat_minus(v_final.d.y@, v_initial.d.y@), t.m@)),
            rat_eq(r.d.z@, rat_div(rat_minus(v_final.d.z@, v_initial.d.z@), t.m@)),
            r.m == div_rep(minus_rep(v_final.m, v_initial.m), t.m),
            r.d.x == div_rep(minus_rep(v_final.d.x, v_initial.d.x), t.m),
            r.d.y == div_rep(minus_rep(v_final.d.y, v_initial.d.y), t.m),
            r.d.z == div_rep(minus_rep(v_final.d.z, v_initial.d.z), t.m),
    {
        Self::from_velocities_time(v_initial, v_final, t)
    }

    /// Derives the `Acceleration` from the given mass and force (`a = F / m`); the result takes the direction of the force.
    pub fn from_mass_force(m: Mass, f: Force) -> (r: Self)
        requires
            m.wf(),
            f.wf(),
            can_divide(f.m, m.m),
        ensures
            r.wf(),
            rat_eq(r.m@, rat_div(f.m@, m.m@)),
            r.m == div_rep(f.m, m.m),
            r.d == f.d,
    {
        Acceleration { m: f.m.divided_by(&m.m), d: f.d }
    }

    /// (Alias of [`from_mass_force`][Acceleration::from_mass_force].)
    pub fn from_force_mass(f: Force, m: Mass) -> (r: Self)
        requires
            m.wf(),
            f.wf(),
            can_divide(f.m, m.m),
        ensures
            r.wf(),
            rat_eq(r.m@, rat_div(f.m@, m.m@)),
            r.m == div_rep(f.m, m.m),
            r.d == f.d,
    {
        Self::from_mass_force(m, f)
    }

    /// Calculates the mass given the force (`m = F / a`).
    pub fn calc_mass(&self, f: Force) -> (r: Mass)
        requires
            self.wf(),
            f.wf(),
            can_divide(f.m, self.m),
        ensures
            r.wf(),
            rat_eq(r.m@, rat_div(f.m@, self.m@)),
            r.m == div_rep(f.m, self.m),
    {
        Mass::new(f.m.divided_by(&self.m))
    }

    /// Calculates the force given the mass (`F = m * a`); the result takes the direction of the acceleration.
    pub fn calc_force(&self, m: Mass) -> (r: Force)
        requires
            self.wf(),
            m.wf(),
            can_times(self.m, m.m),
        ensures
            r.wf(),
            rat_eq(r.m@, rat_mul(self.m@, m.m@)),
            r.m == times_rep(self.m, m.m),
            r.d == self.d,
    {
        Force::new(self.m.times(&m.m), self.d)
    }

}

impl Unit for Acceleration {
    open spec fn mag_rep(&self) -> Magnitude {
        self.m
    }

    open spec fn symbol_spec() -> Seq<char> {
        "m/s²"@
    }

    open spec fn singular_spec() -> Seq<char> {
        "metre per second squared"@
    }

    open spec fn plural_spec() -> Seq<char> {
        "metres per second squared"@
    }

    fn unit() -> (s: String) {
        String::from_str("m/s²")
    }

    fn unit_long_s(&self) -> (s: String) {
        String::from_str("metre per second squared")
    }

    fn unit_long_p(&self) -> (s: String) {
        String::from_str("metres per second squared")
    }

    fn unit_long(&self) -> (s: String) {
        pluralized(&self.m, "metre per second squared", "metres per second squared")
    }

    fn long(&self) -> (s: String) {
        long_form(&self.m, "metre per second squared", "metres per second squared")
    }

    fn short(&self) -> (s: String) {
        short_form(&self.m, "m/s²")
    }
}

/// The turning effect of a force, stored in newton metres (`Nm`).
#[derive(Clone, Copy, Debug, PartialEq, Eq, Structural)]
pub struct Moment {
    pub m: Magnitude,
    pub d: Direction,
}

impl Moment {
    /// The stored magnitude and direction are well-formed.
    pub open spec fn wf(self) -> bool {
        self.m.wf() && self.d.wf()
    }

    /// New `Moment` from a magnitude in newton metres (`Nm`) and a direction.
    pub fn new(m: Magnitude, d: Direction) -> (r: Self)
        requires
            m.wf(),
            d.wf(),
        ensures
            r.m == m,
            r.d == d,
    {
        Moment { m, d }
    }

    /// New `Moment` with an undefined direction.
    pub fn without_direction(m: Magnitude) -> (r: Self)
        requires
            m.wf(),
        ensures
            r.m == m,
            r.wf(),
            r.d.x@.n == 0 && r.d.y@.n == 0 && r.d.z@.n == 0,
    {
        Moment { m, d: Direction::zero() }
    }

    /// Returns the magnitude, in newton metres (`Nm`).
    pub fn m(&self) -> (r: Magnitude)
        ensures
            r == self.m,
    {
        self.m
    }

    /// Returns the direction.
    pub fn d(&self) -> (r: Direction)
        ensures
            r == self.d,
    {
        self.d
    }

    /// New `Moment` of `x` prefixed units, with a direction.
    pub fn in_unit(p: Prefix, x: Magnitude, d: Direction) -> (r: Self)
        requires
            x.wf(),
            d.wf(),
            can_shift(x, prefix_shift(p, 1, 0)),
        ensures
            r.wf(),
            rat_eq(r.m@, rat_scale10(x@, prefix_shift(p, 1, 0))),
            r.m == shift_rep(x, prefix_shift(p, 1, 0)),
            r.d == d,
    {
        Moment { m: prefixed_to_canonical(&x, p, 1, 0), d }
    }

    /// This quantity read in the given prefixed unit, with its direction.
    pub fn as_unit(&self, p: Prefix) -> (r: (Magnitude, Direction))
        requires
            self.wf(),
            can_shift(self.m, -prefix_shift(p, 1, 0)),
        ensures
            r.0.wf(),
            rat_eq(r.0@, rat_scale10(self.m@, -prefix_shift(p, 1, 0))),
            r.0 == shift_rep(self.m, -prefix_shift(p, 1, 0)),
            r.1 == self.d,
    {
        (canonical_to_prefixed(&self.m, p, 1, 0), self.d)
    }
}

/// (== [`Moment`]) The tendency of a force to rotate an object.
pub type Torque = Moment;

/// # `Moment` formulas
impl Moment {
    /// Derives the `Moment` from the given force and distance (`M = F * d`); the result takes the direction of the force.
    pub fn from_force_distance(f: Force, d: Distance) -> (r: Self)
        requires
            f.wf(),
            d.wf(),
            can_times(f.m, d.m),
        ensures
            r.wf(),
            rat_eq(r.m@, rat_mul(f.m@, d.m@)),
            r.m == times_rep(f.m, d.m),
            r.d == f.d,
    {
        Moment { m: f.m.times(&d.m), d: f.d }
    }

    /// (Alias of [`from_force_distance`][Moment::from_force_distance].)
    pub fn from_distance_force(d: Distance, f: Force) -> (r: Self)
        requires
            f.wf(),
            d.wf(),
            can_times(f.m, d.m),
        ensures
            r.wf(),
            rat_eq(r.m@, rat_mul(f.m@, d.m@)),
            r.m == times_rep(f.m, d.m),
            r.d == f.d,
    {
        Self::from_force_distance(f, d)
    }

    /// Calculates the distance given the force (`d = M / F`).
    pub fn calc_distance(&self, f: Force) -> (r: Distance)
        requires
            self.wf(),
            f.wf(),
            can_divide(self.m, f.m),
        ensures
            r.wf(),
            rat_eq(r.m@, rat_div(self.m@, f.m@)),
            r.m == div_rep(self.m, f.m),
    {
        Length::new(self.m.divided_by(&f.m))
    }

    /// Calculates the force given the distance (`F = M / d`); the result takes the direction of the moment.
    pub fn calc_force(&self, d: Distance) -> (r: Force)
        requires
            self.wf(),
            d.wf(),
            can_divide(self.m, d.m),
        ensures
            r.wf(),
            rat_eq(r.m@, rat_div(self.m@, d.m@)),
            r.m == div_rep(self.m, d.m),
            r.d == self.d,
    {
        Force::new(self.m.divided_by(&d.m), self.d)
    }

}

impl Unit for Moment {
    open spec fn mag_rep(&self) -> Magnitude {
        self.m
    }

    open spec fn symbol_spec() -> Seq<char> {
        "Nm"@
    }

    open spec fn singular_spec() -> Seq<char> {
        "newton per metre"@
    }

    open spec fn plural_spec() -> Seq<char> {
        "newtons per metre"@
    }

    fn unit() -> (s: String) {
        String::from_str("Nm")
    }

    fn unit_long_s(&self) -> (s: String) {
        String::from_str("newton per metre")
    }

    fn unit_long_p(&self) -> (s: String) {
        String::from_str("newtons per metre")
    }

    fn unit_long(&self) -> (s: String) {
        pluralized(&self.m, "newton per metre", "newtons per metre")
    }

    fn long(&self) -> (s: String) {
        long_form(&self.m, "newton per metre", "newtons per metre")
    }

    fn short(&self) -> (s: String) {
        short_form(&self.m, "Nm")
    }
}

/// The product of the mass and velocity of an object, stored in kilogram metres per second: base-shifted like mass, so the prefix accessors refer to gram metres per second.
#[derive(Clone, Copy, Debug, PartialEq, Eq, Structural)]
pub struct Momentum {
    pub m: Magnitude,
    pub d: Direction,
}

impl Momentum {
    /// The stored magnitude and direction are well-formed.
    pub open spec fn wf(self) -> bool {
        self.m.wf() && self.d.wf()
    }

    /// New `Momentum` from a magnitude in kilogram metres per second (`kg m/s`) and a direction.
    pub fn new(m: Magnitude, d: Direction) -> (r: Self)
        requires
            m.wf(),
            d.wf(),
        ensures
            r.m == m,
            r.d == d,
    {
        Momentum { m, d }
    }

    /// New `Momentum` with an undefined direction.
    pub fn without_direction(m: Magnitude) -> (r: Self)
        requires
            m.wf(),
        ensures
            r.m == m,
            r.wf(),
            r.d.x@.n == 0 && r.d.y@.n == 0 && r.d.z@.n == 0,
    {
        Momentum { m, d: Direction::zero() }
    }

    /// Returns the magnitude, in kilogram metres per second (`kg m/s`).
    pub fn m(&self) -> (r: Magnitude)
        ensures
            r == self.m,
    {
        self.m
    }

    /// Returns the direction.
    pub fn d(&self) -> (r: Direction)
        ensures
            r == self.d,
    {
        self.d
    }

    /// New `Momentum` of `x` prefixed units, with a direction.
    pub fn in_unit(p: Prefix, x: Magnitude, d: Direction) -> (r: Self)
        requires
            x.wf(),
            d.wf(),
            can_shift(x, prefix_shift(p, 1, 3)),
        ensures
            r.wf(),
            rat_eq(r.m@, rat_scale10(x@, prefix_shift(p, 1, 3))),
            r.m == shift_rep(x, prefix_shift(p, 1, 3)),
            r.d == d,
    {
        Momentum { m: prefixed_to_canonical(&x, p, 1, 3), d }
    }

    /// This quantity read in the given prefixed unit, with its direction.
    pub fn as_unit(&self, p: Prefix) -> (r: (Magnitude, Direction))
        requires
            self.wf(),
            can_shift(self.m, -prefix_shift(p, 1, 3)),
        ensures
            r.0.wf(),
            rat_eq(r.0@, rat_scale10(self.m@, -prefix_shift(p, 1, 3))),
            r.0 == shift_rep(self.m, -prefix_shift(p, 1, 3)),
            r.1 == self.d,
    {
        (canonical_to_prefixed(&self.m, p, 1, 3), self.d)
    }
}

impl Unit for Momentum {
    open spec fn mag_rep(&self) -> Magnitude {
        self.m
    }

    open spec fn symbol_spec() -> Seq<char> {
        "kg m/s"@
    }

    open spec fn singular_spec() -> Seq<char> {
        "kilogram metre per second"@
    }

    open spec fn plural_spec() -> Seq<char> {
        "kilograms metres per second"@
    }

    fn unit() -> (s: String) {
        String::from_str("kg m/s")
    }

    fn unit_long_s(&self) -> (s: String) {
        String::from_str("kilogram metre per second")
    }

    fn unit_long_p(&self) -> (s: String) {
        String::from_str("kilograms metres per second")
    }

    fn unit_long(&self) -> (s: String) {
        pluralized(&self.m, "kilogram metre per second", "kilograms metres per second")
    }

    fn long(&self) -> (s: String) {
        long_form(&self.m, "kilogram metre per second", "kilograms metres per second")
    }

    fn short(&self) -> (s: String) {
        short_form(&self.m, "kg m/s")
    }
}

/// The speed of an object together with its direction of motion, stored in metres per second (`m/s`).
#[derive(Clone, Copy, Debug, PartialEq, Eq, Structural)]
pub struct Velocity {
    pub m: Magnitude,
    pub d: Direction,
}

impl Velocity {
    /// The stored magnitude and direction are well-formed.
    pub open spec fn wf(self) -> bool {
        self.m.wf() && self.d.wf()
    }

    /// New `Velocity` from a magnitude in metres per second (`m/s`) and a direction.
    pub fn new(m: Magnitude, d: Direction) -> (r: Self)
        requires
            m.wf(),
            d.wf(),
        ensures
            r.m == m,
            r.d == d,
    {
        Velocity { m, d }
    }

    /// New `Velocity` with an undefined direction.
    pub fn without_direction(m: Magnitude) -> (r: Self)
        requires
            m.wf(),
        ensures
            r.m == m,
            r.wf(),
            r.d.x@.n == 0 && r.d.y@.n == 0 && r.d.z@.n == 0,
    {
        Velocity { m, d: Direction::zero() }
    }

    /// Returns the magnitude, in metres per second (`m/s`).
    pub fn m(&self) -> (r: Magnitude)
        ensures
            r == self.m,
    {
        self.m
    }

    /// Returns the direction.
    pub fn d(&self) -> (r: Direction)
        ensures
            r == self.d,
    {
        self.d
    }

    /// New `Velocity` of `x` prefixed units, with a direction.
    pub fn in_unit(p: Prefix, x: Magnitude, d: Direction) -> (r: Self)
        requires
            x.wf(),
            d.wf(),
            can_shift(x, prefix_shift(p, 1, 0)),
        ensures
            r.wf(),
            rat_eq(r.m@, rat_scale10(x@, prefix_shift(p, 1, 0))),
            r.m == shift_rep(x, prefix_shift(p, 1, 0)),
            r.d == d,
    {
        Velocity { m: prefixed_to_canonical(&x, p, 1, 0), d }
    }

    /// This quantity read in the given prefixed unit, with its direction.
    pub fn as_unit(&self, p: Prefix) -> (r: (Magnitude, Direction))
        requires
            self.wf(),
            can_shift(self.m, -prefix_shift(p, 1, 0)),
        ensures
            r.0.wf(),
            rat_eq(r.0@, rat_scale10(self.m@, -prefix_shift(p, 1, 0))),
            r.0 == shift_rep(self.m, -prefix_shift(p, 1, 0)),
            r.1 == self.d,
    {
        (canonical_to_prefixed(&self.m, p, 1, 0), self.d)
    }
}

impl Unit for Velocity {
    open spec fn mag_rep(&self) -> Magnitude {
        self.m
    }

    open spec fn symbol_spec() -> Seq<char> {
        "m/s"@
    }

    open spec fn singular_spec() -> Seq<char> {
        "metre per second"@
    }

    open spec fn plural_spec() -> Seq<char> {
        "metres per second"@
    }

    fn unit() -> (s: String) {
        String::from_str("m/s")
    }

    fn unit_long_s(&self) -> (s: String) {
        String::from_str("metre per second")
    }

    fn unit_long_p(&self) -> (s: String) {
        String::from_str("metres per second")
    }

    fn unit_long(&self) -> (s: String) {
        pluralized(&self.m, "metre per second", "metres per second")
    }

    fn long(&self) -> (s: String) {
        long_form(&self.m, "metre per second", "metres per second")
    }

    fn short(&self) -> (s: String) {
        short_form(&self.m, "m/s")
    }
}

/// The gravitational force exerted per unit of mass, stored in newtons per kilogram (`N/kg`).
#[derive(Clone, Copy, Debug, PartialEq, Eq, Structural)]
pub struct GravitationalFieldStrength {
    pub m: Magnitude,
    pub d: Direction,
}

impl GravitationalFieldStrength {
    /// The stored magnitude and direction are well-formed.
    pub open spec fn wf(self) -> bool {
        self.m.wf() && self.d.wf()
    }

    /// New `GravitationalFieldStrength` from a magnitude in newtons per kilogram (`N/kg`) and a direction.
    pub fn new(m: Magnitude, d: Direction) -> (r: Self)
        requires
            m.wf(),
            d.wf(),
        ensures
            r.m == m,
            r.d == d,
    {
        GravitationalFieldStrength { m, d }
    }

    /// New `GravitationalFieldStrength` with an undefined direction.
    pub fn without_direction(m: Magnitude) -> (r: Self)
        requires
            m.wf(),
        ensures
            r.m == m,
            r.wf(),
            r.d.x@.n == 0 && r.d.y@.n == 0 && r.d.z@.n == 0,
    {
        GravitationalFieldStrength { m, d: Direction::zero() }
    }

    /// Returns the magnitude, in newtons per kilogram (`N/kg`).
    pub fn m(&self) -> (r: Magnitude)
        ensures
            r == self.m,
    {
        self.m
    }

    /// Returns the direction.
    pub fn d(&self) -> (r: Direction)
        ensures
            r == self.d,
    {
        self.d
    }

    /// New `GravitationalFieldStrength` of `x` prefixed units, with a direction.
    pub fn in_unit(p: Prefix, x: Magnitude, d: Direction) -> (r: Self)
        requires
            x.wf(),
            d.wf(),
            can_shift(x, prefix_shift(p, 1, 0)),
        ensures
            r.wf(),
            rat_eq(r.m@, rat_scale10(x@, prefix_shift(p, 1, 0))),
            r.m == shift_rep(x, prefix_shift(p, 1, 0)),
            r.d == d,
    {
        GravitationalFieldStrength { m: prefixed_to_canonical(&x, p, 1, 0), d }
    }

    /// This quantity read in the given prefixed unit, with its direction.
    pub fn as_unit(&self, p: Prefix) -> (r: (Magnitude, Direction))
        requires
            self.wf(),
            can_shift(self.m, -prefix_shift(p, 1, 0)),
        ensures
            r.0.wf(),
            rat_eq(r.0@, rat_scale10(self.m@, -prefix_shift(p, 1, 0))),
            r.0 == shift_rep(self.m, -prefix_shift(p, 1, 0)),
            r.1 == self.d,
    {
        (canonical_to_prefixed(&self.m, p, 1, 0), self.d)
    }
}

/// (== [`GravitationalFieldStrength`])
pub type Gfs = GravitationalFieldStrength;

/// # Per-body field strengths
///
/// Each is a vertical field of the body's surface strength.
impl GravitationalFieldStrength {
    /// The gravitational field strength at the surface of Mercury (3.8 N/kg).
    pub fn in_mercury() -> (r: Self)
        ensures
            r.wf(),
            r.m == decimal_mag(38, -1),
            r.d.y == decimal_mag(38, -1),
            r.d.x@.n == 0 && r.d.z@.n == 0,
    {
        let g = Magnitude::from_decimal(38, -1);
        let zero = Magnitude::from_int(0);
        GravitationalFieldStrength { m: g, d: Direction { x: zero, y: g, z: zero } }
    }

    /// The gravitational field strength at the surface of Venus (8.8 N/kg).
    pub fn in_venus() -> (r: Self)
        ensures
            r.wf(),
            r.m == decimal_mag(88, -1),
            r.d.y == decimal_mag(88, -1),
            r.d.x@.n == 0 && r.d.z@.n == 0,
    {
        let g = Magnitude::from_decimal(88, -1);
        let zero = Magnitude::from_int(0);
        GravitationalFieldStrength { m: g, d: Direction { x: zero, y: g, z: zero } }
    }

    /// The gravitational field strength at the surface of Earth (9.8 N/kg).
    pub fn in_earth() -> (r: Self)
        ensures
            r.wf(),
            r.m == decimal_mag(98, -1),
            r.d.y == decimal_mag(98, -1),
            r.d.x@.n == 0 && r.d.z@.n == 0,
    {
        let g = Magnitude::from_decimal(98, -1);
        let zero = Magnitude::from_int(0);
        GravitationalFieldStrength { m: g, d: Direction { x: zero, y: g, z: zero } }
    }

    /// The gravitational field strength at the surface of Mars (3.8 N/kg).
    pub fn in_mars() -> (r: Self)
        ensures
            r.wf(),
            r.m == decimal_mag(38, -1),
            r.d.y == decimal_mag(38, -1),
            r.d.x@.n == 0 && r.d.z@.n == 0,
    {
        let g = Magnitude::from_decimal(38, -1);
        let zero = Magnitude::from_int(0);
        GravitationalFieldStrength { m: g, d: Direction { x: zero, y: g, z: zero } }
    }

    /// The gravitational field strength at the surface of Jupiter (25 N/kg).
    pub fn in_jupiter() -> (r: Self)
        ensures
            r.wf(),
            r.m == whole_mag(25),
            r.d.y == whole_mag(25),
            r.d.x@.n == 0 && r.d.z@.n == 0,
    {
        let g = Magnitude::from_int(25);
        let zero = Magnitude::from_int(0);
        GravitationalFieldStrength { m: g, d: Direction { x: zero, y: g, z: zero } }
    }

    /// The gravitational field strength at the surface of Saturn (10.4 N/kg).
    pub fn in_saturn() -> (r: Self)
        ensures
            r.wf(),
            r.m == decimal_mag(104, -1),
            r.d.y == decimal_mag(104, -1),
            r.d.x@.n == 0 && r.d.z@.n == 0,
    {
        let g = Magnitude::from_decimal(104, -1);
        let zero = Magnitude::from_int(0);
        GravitationalFieldStrength { m: g, d: Direction { x: zero, y: g, z: zero } }
    }

    /// The gravitational field strength at the surface of Uranus (10.4 N/kg).
    pub fn in_uranus() -> (r: Self)
        ensures
            r.wf(),
            r.m == decimal_mag(104, -1),
            r.d.y == decimal_mag(104, -1),
            r.d.x@.n == 0 && r.d.z@.n == 0,
    {
        let g = Magnitude::from_decimal(104, -1);
        let zero = Magnitude::from_int(0);
        GravitationalFieldStrength { m: g, d: Direction { x: zero, y: g, z: zero } }
    }

    /// The gravitational field strength at the surface of Neptune (13.8 N/kg).
    pub fn in_neptune() -> (r: Self)
        ensures
            r.wf(),
            r.m == decimal_mag(138, -1),
            r.d.y == decimal_mag(138, -1),
            r.d.x@.n == 0 && r.d.z@.n == 0,
    {
        let g = Magnitude::from_decimal(138, -1);
        let zero = Magnitude::from_int(0);
        GravitationalFieldStrength { m: g, d: Direction { x: zero, y: g, z: zero } }
    }

    /// The gravitational field strength at the surface of the Moon (1.6 N/kg).
    pub fn in_moon() -> (r: Self)
        ensures
            r.wf(),
            r.m == decimal_mag(16, -1),
            r.d.y == decimal_mag(16, -1),
            r.d.x@.n == 0 && r.d.z@.n == 0,
    {
        let g = Magnitude::from_decimal(16, -1);
        let zero = Magnitude::from_int(0);
        GravitationalFieldStrength { m: g, d: Direction { x: zero, y: g, z: zero } }
    }

    /// The gravitational field strength at the surface of Pluto (0.49 N/kg).
    pub fn in_pluto() -> (r: Self)
        ensures
            r.wf(),
            r.m == decimal_mag(49, -2),
            r.d.y == decimal_mag(49, -2),
            r.d.x@.n == 0 && r.d.z@.n == 0,
    {
        let g = Magnitude::from_decimal(49, -2);
        let zero = Magnitude::from_int(0);
        GravitationalFieldStrength { m: g, d: Direction { x: zero, y: g, z: zero } }
    }

    /// The gravitational field strength at the surface of Ceres (0.27 N/kg).
    pub fn in_ceres() -> (r: Self)
        ensures
            r.wf(),
            r.m == decimal_mag(27, -2),
            r.d.y == decimal_mag(27, -2),
            r.d.x@.n == 0 && r.d.z@.n == 0,
    {
        let g = Magnitude::from_decimal(27, -2);
        let zero = Magnitude::from_int(0);
        GravitationalFieldStrength { m: g, d: Direction { x: zero, y: g, z: zero } }
    }

    /// The gravitational field strength at the surface of the Sun (293 N/kg).
    pub fn in_sun() -> (r: Self)
        ensures
            r.wf(),
            r.m == whole_mag(293),
            r.d.y == whole_mag(293),
            r.d.x@.n == 0 && r.d.z@.n == 0,
    {
        let g = Magnitude::from_int(293);
        let zero = Magnitude::from_int(0);
        GravitationalFieldStrength { m: g, d: Direction { x: zero, y: g, z: zero } }
    }

}

impl Unit for GravitationalFieldStrength {
    open spec fn mag_rep(&self) -> Magnitude {
        self.m
    }

    open spec fn symbol_spec() -> Seq<char> {
        "N/kg"@
    }

    open spec fn singular_spec() -> Seq<char> {
        "newton per kilogram"@
    }

    open spec fn plural_spec() -> Seq<char> {
        "newtons per kilogram"@
    }

    fn unit() -> (s: String) {
        String::from_str("N/kg")
    }

    fn unit_long_s(&self) -> (s: String) {
        String::from_str("newton per kilogram")
    }

    fn unit_long_p(&self) -> (s: String) {
        String::from_str("newtons per kilogram")
    }

    fn unit_long(&self) -> (s: String) {
        pluralized(&self.m, "newton per kilogram", "newtons per kilogram")
    }

    fn long(&self) -> (s: String) {
        long_form(&self.m, "newton per kilogram", "newtons per kilogram")
    }

    fn short(&self) -> (s: String) {
        short_form(&self.m, "N/kg")
    }
}

} // verus!
