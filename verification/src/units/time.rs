//! Time, in seconds.

use vstd::prelude::*;

use crate::display::{long_form, pluralized, short_form};
use crate::magnitude::{
    can_divide, can_shift, can_times, decimal_mag, div_rep, Magnitude, shift_rep, times_rep, whole_mag,
};
use crate::prefix::{canonical_to_prefixed, prefix_shift, prefixed_to_canonical, Prefix};
use crate::rat::{rat_div, rat_eq, rat_mul, rat_scale10};
use crate::unit::Unit;
use crate::units::{Distance, Energy, Length, Power, Speed};

verus! {

/// `Time`, stored in seconds (`s`).
#[derive(Clone, Copy, Debug, PartialEq, Eq, Structural)]
pub struct Time {
    pub m: Magnitude,
}

impl Time {
    /// The stored magnitude is well-formed.
    pub open spec fn wf(self) -> bool {
        self.m.wf()
    }

    /// New `Time` from a magnitude in seconds.
    pub fn new(m: Magnitude) -> (r: Self)
        requires
            m.wf(),
        ensures
            r.m == m,
    {
        Time { m }
    }

    /// Returns the magnitude, in seconds.
    pub fn m(&self) -> (r: Magnitude)
        ensures
            r == self.m,
    {
        self.m
    }

    /// New `Time` of `x` prefixed seconds.
    pub fn in_unit(p: Prefix, x: Magnitude) -> (r: Self)
        requires
            x.wf(),
            can_shift(x, prefix_shift(p, 1, 0)),
        ensures
            r.wf(),
            rat_eq(r.m@, rat_scale10(x@, prefix_shift(p, 1, 0))),
            r.m == shift_rep(x, prefix_shift(p, 1, 0)),
    {
        Time { m: prefixed_to_canonical(&x, p, 1, 0) }
    }

    /// This time read in prefixed seconds.
    pub fn as_unit(&self, p: Prefix) -> (r: Magnitude)
        requires
            self.wf(),
            can_shift(self.m, -prefix_shift(p, 1, 0)),
        ensures
            r.wf(),
            rat_eq(r@, rat_scale10(self.m@, -prefix_shift(p, 1, 0))),
            r == shift_rep(self.m, -prefix_shift(p, 1, 0)),
    {
        canonical_to_prefixed(&self.m, p, 1, 0)
    }

    /// New `Time` in seconds: the base unit, an exact identity.
    pub fn in_s(x: Magnitude) -> (r: Self)
        requires
            x.wf(),
        ensures
            r.m == x,
    {
        Time { m: x }
    }

    /// New `Time` in seconds: the base unit, an exact identity.
    pub fn in_seconds(x: Magnitude) -> (r: Self)
        requires
            x.wf(),
        ensures
            r.m == x,
    {
        Time { m: x }
    }

    /// This time in seconds: the base unit, an exact identity.
    pub fn as_s(&self) -> (r: Magnitude)
        ensures
            r == self.m,
    {
        self.m
    }

    /// This time in seconds: the base unit, an exact identity.
    pub fn as_seconds(&self) -> (r: Magnitude)
        ensures
            r == self.m,
    {
        self.m
    }
}

/// # Non-SI units
///
/// Each is one multiplicative factor against the second, exact.
impl Time {
    /// New `Time` in minutes (60 s).
    pub fn in_min(x: Magnitude) -> (r: Self)
        requires
            x.wf(),
            can_times(x, whole_mag(60)),
        ensures
            r.wf(),
            rat_eq(r.m@, rat_mul(x@, whole_mag(60)@)),
            r.m == times_rep(x, whole_mag(60)),
    {
        Time { m: x.times(&Magnitude::from_int(60)) }
    }

    /// New `Time` in minutes (60 s).
    pub fn in_minutes(x: Magnitude) -> (r: Self)
        requires
            x.wf(),
            can_times(x, whole_mag(60)),
        ensures
            r.wf(),
            rat_eq(r.m@, rat_mul(x@, whole_mag(60)@)),
            r.m == times_rep(x, whole_mag(60)),
    {
        Time::in_min(x)
    }

    /// This time in minutes (60 s).
    pub fn as_min(&self) -> (r: Magnitude)
        requires
            self.wf(),
            can_divide(self.m, whole_mag(60)),
        ensures
            r.wf(),
            rat_eq(r@, rat_div(self.m@, whole_mag(60)@)),
            r == div_rep(self.m, whole_mag(60)),
    {
        self.m.divided_by(&Magnitude::from_int(60))
    }

    /// This time in minutes (60 s).
    pub fn as_minutes(&self) -> (r: Magnitude)
        requires
            self.wf(),
            can_divide(self.m, whole_mag(60)),
        ensures
            r.wf(),
            rat_eq(r@, rat_div(self.m@, whole_mag(60)@)),
            r == div_rep(self.m, whole_mag(60)),
    {
        self.as_min()
    }

    /// New `Time` in hours (3600 s).
    pub fn in_h(x: Magnitude) -> (r: Self)
        requires
            x.wf(),
            can_times(x, whole_mag(3600)),
        ensures
            r.wf(),
            rat_eq(r.m@, rat_mul(x@, whole_mag(3600)@)),
            r.m == times_rep(x, whole_mag(3600)),
    {
        Time { m: x.times(&Magnitude::from_int(3600)) }
    }

    /// New `Time` in hours (3600 s).
    pub fn in_hours(x: Magnitude) -> (r: Self)
        requires
            x.wf(),
            can_times(x, whole_mag(3600)),
        ensures
            r.wf(),
            rat_eq(r.m@, rat_mul(x@, whole_mag(3600)@)),
            r.m == times_rep(x, whole_mag(3600)),
    {
        Time::in_h(x)
    }

    /// This time in hours (3600 s).
    pub fn as_h(&self) -> (r: Magnitude)
        requires
            self.wf(),
            can_divide(self.m, whole_mag(3600)),
        ensures
            r.wf(),
            rat_eq(r@, rat_div(self.m@, whole_mag(3600)@)),
            r == div_rep(self.m, whole_mag(3600)),
    {
        self.m.divided_by(&Magnitude::from_int(3600))
    }

    /// This time in hours (3600 s).
    pub fn as_hours(&self) -> (r: Magnitude)
        requires
            self.wf(),
            can_divide(self.m, whole_mag(3600)),
        ensures
            r.wf(),
            rat_eq(r@, rat_div(self.m@, whole_mag(3600)@)),
            r == div_rep(self.m, whole_mag(3600)),
    {
        self.as_h()
    }

    /// New `Time` in days (86400 s).
    pub fn in_d(x: Magnitude) -> (r: Self)
        requires
            x.wf(),
            can_times(x, whole_mag(86_400)),
        ensures
            r.wf(),
            rat_eq(r.m@, rat_mul(x@, whole_mag(86_400)@)),
            r.m == times_rep(x, whole_mag(86_400)),
    {
        Time { m: x.times(&Magnitude::from_int(86_400)) }
    }

    /// New `Time` in days (86400 s).
    pub fn in_days(x: Magnitude) -> (r: Self)
        requires
            x.wf(),
            can_times(x, whole_mag(86_400)),
        ensures
            r.wf(),
            rat_eq(r.m@, rat_mul(x@, whole_mag(86_400)@)),
            r.m == times_rep(x, whole_mag(86_400)),
    {
        Time::in_d(x)
    }

    /// This time in days (86400 s).
    pub fn as_d(&self) -> (r: Magnitude)
        requires
            self.wf(),
            can_divide(self.m, whole_mag(86_400)),
        ensures
            r.wf(),
            rat_eq(r@, rat_div(self.m@, whole_mag(86_400)@)),
            r == div_rep(self.m, whole_mag(86_400)),
    {
        self.m.divided_by(&Magnitude::from_int(86_400))
    }

    /// This time in days (86400 s).
    pub fn as_days(&self) -> (r: Magnitude)
        requires
            self.wf(),
            can_divide(self.m, whole_mag(86_400)),
        ensures
            r.wf(),
            rat_eq(r@, rat_div(self.m@, whole_mag(86_400)@)),
            r == div_rep(self.m, whole_mag(86_400)),
    {
        self.as_d()
    }

    /// New `Time` in weeks (604800 s).
    pub fn in_w(x: Magnitude) -> (r: Self)
        requires
            x.wf(),
            can_times(x, whole_mag(604_800)),
        ensures
            r.wf(),
            rat_eq(r.m@, rat_mul(x@, whole_mag(604_800)@)),
            r.m == times_rep(x, whole_mag(604_800)),
    {
        Time { m: x.times(&Magnitude::from_int(604_800)) }
    }

    /// New `Time` in weeks (604800 s).
    pub fn in_weeks(x: Magnitude) -> (r: Self)
        requires
            x.wf(),
            can_times(x, whole_mag(604_800)),
        ensures
            r.wf(),
            rat_eq(r.m@, rat_mul(x@, whole_mag(604_800)@)),
            r.m == times_rep(x, whole_mag(604_800)),
    {
        Time::in_w(x)
    }

    /// This time in weeks (604800 s).
    pub fn as_w(&self) -> (r: Magnitude)
        requires
            self.wf(),
            can_divide(self.m, whole_mag(604_800)),
        ensures
            r.wf(),
            rat_eq(r@, rat_div(self.m@, whole_mag(604_800)@)),
            r == div_rep(self.m, whole_mag(604_800)),
    {
        self.m.divided_by(&Magnitude::from_int(604_800))
    }

    /// This time in weeks (604800 s).
    pub fn as_weeks(&self) -> (r: Magnitude)
        requires
            self.wf(),
            can_divide(self.m, whole_mag(604_800)),
        ensures
            r.wf(),
            rat_eq(r@, rat_div(self.m@, whole_mag(604_800)@)),
            r == div_rep(self.m, whole_mag(604_800)),
    {
        self.as_w()
    }

    /// New `Time` in years of 365 days (31536000 s).
    pub fn in_y(x: Magnitude) -> (r: Self)
        requires
            x.wf(),
            can_times(x, whole_mag(31_536_000)),
        ensures
            r.wf(),
            rat_eq(r.m@, rat_mul(x@, whole_mag(31_536_000)@)),
            r.m == times_rep(x, whole_mag(31_536_000)),
    {
        Time { m: x.times(&Magnitude::from_int(31_536_000)) }
    }

    /// New `Time` in years of 365 days (31536000 s).
    pub fn in_years(x: Magnitude) -> (r: Self)
        requires
            x.wf(),
            can_times(x, whole_mag(31_536_000)),
        ensures
            r.wf(),
            rat_eq(r.m@, rat_mul(x@, whole_mag(31_536_000)@)),
            r.m == times_rep(x, whole_mag(31_536_000)),
    {
        Time::in_y(x)
    }

    /// This time in years of 365 days (31536000 s).
    pub fn as_y(&self) -> (r: Magnitude)
        requires
            self.wf(),
            can_divide(self.m, whole_mag(31_536_000)),
        ensures
            r.wf(),
            rat_eq(r@, rat_div(self.m@, whole_mag(31_536_000)@)),
            r == div_rep(self.m, whole_mag(31_536_000)),
    {
        self.m.divided_by(&Magnitude::from_int(31_536_000))
    }

    /// This time in years of 365 days (31536000 s).
    pub fn as_years(&self) -> (r: Magnitude)
        requires
            self.wf(),
            can_divide(self.m, whole_mag(31_536_000)),
        ensures
            r.wf(),
            rat_eq(r@, rat_div(self.m@, whole_mag(31_536_000)@)),
            r == div_rep(self.m, whole_mag(31_536_000)),
    {
        self.as_y()
    }

    /// New `Time` in Julian years of 365.25 days (31557600 s).
    pub fn in_jy(x: Magnitude) -> (r: Self)
        requires
            x.wf(),
            can_times(x, whole_mag(31_557_600)),
        ensures
            r.wf(),
            rat_eq(r.m@, rat_mul(x@, whole_mag(31_557_600)@)),
            r.m == times_rep(x, whole_mag(31_557_600)),
    {
        Time { m: x.times(&Magnitude::from_int(31_557_600)) }
    }

    /// New `Time` in Julian years of 365.25 days (31557600 s).
    pub fn in_julian_years(x: Magnitude) -> (r: Self)
        requires
            x.wf(),
            can_times(x, whole_mag(31_557_600)),
        ensures
            r.wf(),
            rat_eq(r.m@, rat_mul(x@, whole_mag(31_557_600)@)),
            r.m == times_rep(x, whole_mag(31_557_600)),
    {
        Time::in_jy(x)
    }

    /// This time in Julian years of 365.25 days (31557600 s).
    pub fn as_jy(&self) -> (r: Magnitude)
        requires
            self.wf(),
            can_divide(self.m, whole_mag(31_557_600)),
        ensures
            r.wf(),
            rat_eq(r@, rat_div(self.m@, whole_mag(31_557_600)@)),
            r == div_rep(self.m, whole_mag(31_557_600)),
    {
        self.m.divided_by(&Magnitude::from_int(31_557_600))
    }

    /// This time in Julian years of 365.25 days (31557600 s).
    pub fn as_julian_years(&self) -> (r: Magnitude)
        requires
            self.wf(),
            can_divide(self.m, whole_mag(31_557_600)),
        ensures
            r.wf(),
            rat_eq(r@, rat_div(self.m@, whole_mag(31_557_600)@)),
            r == div_rep(self.m, whole_mag(31_557_600)),
    {
        self.as_jy()
    }
}

/// # `Time` formulas
impl Time {
    /// Derives the `Time` from the given distance and speed (`t = d / s`).
    pub fn from_distance_speed(d: Distance, s: Speed) -> (r: Self)
        requires
            d.wf(),
            s.wf(),
            can_divide(d.m, s.m),
        ensures
            r.wf(),
            rat_eq(r.m@, rat_div(d.m@, s.m@)),
            r.m == div_rep(d.m, s.m),
    {
        Time { m: d.m.divided_by(&s.m) }
    }

    /// (Alias of [`from_distance_speed`][Time::from_distance_speed].)
    pub fn from_speed_distance(s: Speed, d: Distance) -> (r: Self)
        requires
            d.wf(),
            s.wf(),
            can_divide(d.m, s.m),
        ensures
            r.wf(),
            rat_eq(r.m@, rat_div(d.m@, s.m@)),
            r.m == div_rep(d.m, s.m),
    {
        Time::from_distance_speed(d, s)
    }

    /// Calculates the speed from the given distance (`s = d / t`).
    pub fn calc_speed(&self, d: Distance) -> (r: Speed)
        requires
            self.wf(),
            d.wf(),
            can_divide(d.m, self.m),
        ensures
            r.wf(),
            rat_eq(r.m@, rat_div(d.m@, self.m@)),
            r.m == div_rep(d.m, self.m),
    {
        Speed::new(d.m.divided_by(&self.m))
    }

    /// Calculates the distance given the speed (`d = s * t`).
    pub fn calc_distance(&self, s: Speed) -> (r: Distance)
        requires
            self.wf(),
            s.wf(),
            can_times(self.m, s.m),
        ensures
            r.wf(),
            rat_eq(r.m@, rat_mul(self.m@, s.m@)),
            r.m == times_rep(self.m, s.m),
    {
        Length::new(self.m.times(&s.m))
    }

    /// Derives the `Time` from the given energy and power (`t = E / P`).
    pub fn from_energy_power(e: Energy, p: Power) -> (r: Self)
        requires
            e.wf(),
            p.wf(),
            can_divide(e.m, p.m),
        ensures
            r.wf(),
            rat_eq(r.m@, rat_div(e.m@, p.m@)),
            r.m == div_rep(e.m, p.m),
    {
        Time { m: e.m.divided_by(&p.m) }
    }

    /// (Alias of [`from_energy_power`][Time::from_energy_power].)
    pub fn from_power_energy(p: Power, e: Energy) -> (r: Self)
        requires
            e.wf(),
            p.wf(),
            can_divide(e.m, p.m),
        ensures
            r.wf(),
            rat_eq(r.m@, rat_div(e.m@, p.m@)),
            r.m == div_rep(e.m, p.m),
    {
        Time::from_energy_power(e, p)
    }

    /// Calculates the power given the energy (`P = E / t`).
    pub fn calc_power(&self, e: Energy) -> (r: Power)
        requires
            self.wf(),
            e.wf(),
            can_divide(e.m, self.m),
        ensures
            r.wf(),
            rat_eq(r.m@, rat_div(e.m@, self.m@)),
            r.m == div_rep(e.m, self.m),
    {
        Power::new(e.m.divided_by(&self.m))
    }

    /// Calculates the energy given the power (`E = P * t`).
    pub fn calc_energy(&self, p: Power) -> (r: Energy)
        requires
            self.wf(),
            p.wf(),
            can_times(self.m, p.m),
        ensures
            r.wf(),
            rat_eq(r.m@, rat_mul(self.m@, p.m@)),
            r.m == times_rep(self.m, p.m),
    {
        Energy::new(self.m.times(&p.m))
    }
}

/// # `Time` constants
impl Time {
    /// Julian year, used in astronomy (365.25 days).
    pub fn julian_year() -> (r: Self)
        ensures
            r.wf(),
            r.m == whole_mag(31_557_600),
    {
        Time { m: Magnitude::from_int(31_557_600) }
    }

    /// Full moon cycle (411 days 18 hours 49 minutes 35 seconds).
    pub fn full_moon_cycle() -> (r: Self)
        ensures
            r.wf(),
            r.m == decimal_mag(35_578_174_777_056, -6),
    {
        Time { m: Magnitude::from_decimal(35_578_174_777_056, -6) }
    }

    /// Draconic year (346 days 14 hours 52 minutes 54 seconds).
    pub fn draconic_year() -> (r: Self)
        ensures
            r.wf(),
            r.m == decimal_mag(299_479_745_562_912, -7),
    {
        Time { m: Magnitude::from_decimal(299_479_745_562_912, -7) }
    }

    /// Lunar year (354 days 8 hours 48 minutes 34 seconds).
    pub fn lunar_year() -> (r: Self)
        ensures
            r.wf(),
            r.m == decimal_mag(30_617_314_848, -3),
    {
        Time { m: Magnitude::from_decimal(30_617_314_848, -3) }
    }
}

impl Unit for Time {
    open spec fn mag_rep(&self) -> Magnitude {
        self.m
    }

    open spec fn symbol_spec() -> Seq<char> {
        "s"@
    }

    open spec fn singular_spec() -> Seq<char> {
        "second"@
    }

    open spec fn plural_spec() -> Seq<char> {
        "seconds"@
    }

    fn unit() -> (s: String) {
        String::from_str("s")
    }

    fn unit_long_s(&self) -> (s: String) {
        String::from_str("second")
    }

    fn unit_long_p(&self) -> (s: String) {
        String::from_str("seconds")
    }

    fn unit_long(&self) -> (s: String) {
        pluralized(&self.m, "second", "seconds")
    }

    fn long(&self) -> (s: String) {
        long_form(&self.m, "second", "seconds")
    }

    fn short(&self) -> (s: String) {
        short_form(&self.m, "s")
    }
}

} // verus!
