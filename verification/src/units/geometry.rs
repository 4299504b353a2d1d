//! Area and volume: the square and cubic lengths.

use vstd::prelude::*;

use crate::display::{long_form, pluralized, short_form};
use crate::magnitude::{
    can_divide, can_shift, can_times, decimal_mag, div_rep, Magnitude, shift_rep, times_rep,
};
use crate::prefix::{canonical_to_prefixed, prefix_shift, prefixed_to_canonical, Prefix};
use crate::rat::{rat_div, rat_eq, rat_mul, rat_scale10};
use crate::unit::Unit;

verus! {

/// Area (length squared), stored in square metres: every prefix factor is squared.
#[derive(Clone, Copy, Debug, PartialEq, Eq, Structural)]
pub struct Area {
    pub m: Magnitude,
}

impl Area {
    /// The stored magnitude is well-formed.
    pub open spec fn wf(self) -> bool {
        self.m.wf()
    }

    /// New `Area` from a magnitude in square metres (`m²`).
    pub fn new(m: Magnitude) -> (r: Self)
        requires
            m.wf(),
        ensures
            r.m == m,
    {
        Area { m }
    }

    /// Returns the magnitude, in square metres (`m²`).
    pub fn m(&self) -> (r: Magnitude)
        ensures
            r == self.m,
    {
        self.m
    }

    /// New `Area` of `x` prefixed units.
    pub fn in_unit(p: Prefix, x: Magnitude) -> (r: Self)
        requires
            x.wf(),
            can_shift(x, prefix_shift(p, 2, 0)),
        ensures
            r.wf(),
            rat_eq(r.m@, rat_scale10(x@, prefix_shift(p, 2, 0))),
            r.m == shift_rep(x, prefix_shift(p, 2, 0)),
    {
        Area { m: prefixed_to_canonical(&x, p, 2, 0) }
    }

    /// This quantity read in the given prefixed unit.
    pub fn as_unit(&self, p: Prefix) -> (r: Magnitude)
        requires
            self.wf(),
            can_shift(self.m, -prefix_shift(p, 2, 0)),
        ensures
            r.wf(),
            rat_eq(r@, rat_scale10(self.m@, -prefix_shift(p, 2, 0))),
            r == shift_rep(self.m, -prefix_shift(p, 2, 0)),
    {
        canonical_to_prefixed(&self.m, p, 2, 0)
    }
}

/// # Base and common prefixed units
impl Area {
    /// New `Area` in square metres (`m²`): the base unit, an exact identity.
    pub fn in_m2(x: Magnitude) -> (r: Self)
        requires
            x.wf(),
        ensures
            r.m == x,
    {
        Area { m: x }
    }

    /// This quantity in square metres (`m²`): the base unit, an exact identity.
    pub fn as_m2(&self) -> (r: Magnitude)
        ensures
            r == self.m,
    {
        self.m
    }

    /// New `Area` in square metres (`m²`): the base unit, an exact identity.
    pub fn in_square_metres(x: Magnitude) -> (r: Self)
        requires
            x.wf(),
        ensures
            r.m == x,
    {
        Area { m: x }
    }

    /// This quantity in square metres (`m²`): the base unit, an exact identity.
    pub fn as_square_metres(&self) -> (r: Magnitude)
        ensures
            r == self.m,
    {
        self.m
    }

    /// New `Area` in square kilometres (`km²`, 1e6 m²).
    pub fn in_km2(x: Magnitude) -> (r: Self)
        requires
            x.wf(),
            can_shift(x, prefix_shift(Prefix::Kilo, 2, 0)),
        ensures
            r.wf(),
            rat_eq(r.m@, rat_scale10(x@, prefix_shift(Prefix::Kilo, 2, 0))),
            r.m == shift_rep(x, prefix_shift(Prefix::Kilo, 2, 0)),
    {
        Self::in_unit(Prefix::Kilo, x)
    }

    /// This quantity in square kilometres (`km²`, 1e6 m²).
    pub fn as_km2(&self) -> (r: Magnitude)
        requires
            self.wf(),
            can_shift(self.m, -(prefix_shift(Prefix::Kilo, 2, 0))),
        ensures
            r.wf(),
            rat_eq(r@, rat_scale10(self.m@, -(prefix_shift(Prefix::Kilo, 2, 0)))),
            r == shift_rep(self.m, -(prefix_shift(Prefix::Kilo, 2, 0))),
    {
        self.as_unit(Prefix::Kilo)
    }

    /// New `Area` in square kilometres (`km²`, 1e6 m²).
    pub fn in_square_kilometres(x: Magnitude) -> (r: Self)
        requires
            x.wf(),
            can_shift(x, prefix_shift(Prefix::Kilo, 2, 0)),
        ensures
            r.wf(),
            rat_eq(r.m@, rat_scale10(x@, prefix_shift(Prefix::Kilo, 2, 0))),
            r.m == shift_rep(x, prefix_shift(Prefix::Kilo, 2, 0)),
    {
        Self::in_unit(Prefix::Kilo, x)
    }

    /// This quantity in square kilometres (`km²`, 1e6 m²).
    pub fn as_square_kilometres(&self) -> (r: Magnitude)
        requires
            self.wf(),
            can_shift(self.m, -(prefix_shift(Prefix::Kilo, 2, 0))),
        ensures
            r.wf(),
            rat_eq(r@, rat_scale10(self.m@, -(prefix_shift(Prefix::Kilo, 2, 0)))),
            r == shift_rep(self.m, -(prefix_shift(Prefix::Kilo, 2, 0))),
    {
        self.as_unit(Prefix::Kilo)
    }

}

impl Unit for Area {
    open spec fn mag_rep(&self) -> Magnitude {
        self.m
    }

    open spec fn symbol_spec() -> Seq<char> {
        "m²"@
    }

    open spec fn singular_spec() -> Seq<char> {
        "square metre"@
    }

    open spec fn plural_spec() -> Seq<char> {
        "square metres"@
    }

    fn unit() -> (s: String) {
        String::from_str("m²")
    }

    fn unit_long_s(&self) -> (s: String) {
        String::from_str("square metre")
    }

    fn unit_long_p(&self) -> (s: String) {
        String::from_str("square metres")
    }

    fn unit_long(&self) -> (s: String) {
        pluralized(&self.m, "square metre", "square metres")
    }

    fn long(&self) -> (s: String) {
        long_form(&self.m, "square metre", "square metres")
    }

    fn short(&self) -> (s: String) {
        short_form(&self.m, "m²")
    }
}

/// Volume (length cubed), stored in cubic metres: every prefix factor is cubed.
#[derive(Clone, Copy, Debug, PartialEq, Eq, Structural)]
pub struct Volume {
    pub m: Magnitude,
}

impl Volume {
    /// The stored magnitude is well-formed.
    pub open spec fn wf(self) -> bool {
        self.m.wf()
    }

    /// New `Volume` from a magnitude in cubic metres (`m³`).
    pub fn new(m: Magnitude) -> (r: Self)
        requires
            m.wf(),
        ensures
            r.m == m,
    {
        Volume { m }
    }

    /// Returns the magnitude, in cubic metres (`m³`).
    pub fn m(&self) -> (r: Magnitude)
        ensures
            r == self.m,
    {
        self.m
    }

    /// New `Volume` of `x` prefixed units.
    pub fn in_unit(p: Prefix, x: Magnitude) -> (r: Self)
        requires
            x.wf(),
            can_shift(x, prefix_shift(p, 3, 0)),
        ensures
            r.wf(),
            rat_eq(r.m@, rat_scale10(x@, prefix_shift(p, 3, 0))),
            r.m == shift_rep(x, prefix_shift(p, 3, 0)),
    {
        Volume { m: prefixed_to_canonical(&x, p, 3, 0) }
    }

    /// This quantity read in the given prefixed unit.
    pub fn as_unit(&self, p: Prefix) -> (r: Magnitude)
        requires
            self.wf(),
            can_shift(self.m, -prefix_shift(p, 3, 0)),
        ensures
            r.wf(),
            rat_eq(r@, rat_scale10(self.m@, -prefix_shift(p, 3, 0))),
            r == shift_rep(self.m, -prefix_shift(p, 3, 0)),
    {
        canonical_to_prefixed(&self.m, p, 3, 0)
    }
}

/// # Base and common prefixed units
impl Volume {
    /// New `Volume` in cubic metres (`m³`): the base unit, an exact identity.
    pub fn in_m3(x: Magnitude) -> (r: Self)
        requires
            x.wf(),
        ensures
            r.m == x,
    {
        Volume { m: x }
    }

    /// This quantity in cubic metres (`m³`): the base unit, an exact identity.
    pub fn as_m3(&self) -> (r: Magnitude)
        ensures
            r == self.m,
    {
        self.m
    }

    /// New `Volume` in cubic metres (`m³`): the base unit, an exact identity.
    pub fn in_cubic_metres(x: Magnitude) -> (r: Self)
        requires
            x.wf(),
        ensures
            r.m == x,
    {
        Volume { m: x }
    }

    /// This quantity in cubic metres (`m³`): the base unit, an exact identity.
    pub fn as_cubic_metres(&self) -> (r: Magnitude)
        ensures
            r == self.m,
    {
        self.m
    }

    /// New `Volume` in cubic kilometres (`km³`, 1e9 m³).
    pub fn in_km3(x: Magnitude) -> (r: Self)
        requires
            x.wf(),
            can_shift(x, prefix_shift(Prefix::Kilo, 3, 0)),
        ensures
            r.wf(),
            rat_eq(r.m@, rat_scale10(x@, prefix_shift(Prefix::Kilo, 3, 0))),
            r.m == shift_rep(x, prefix_shift(Prefix::Kilo, 3, 0)),
    {
        Self::in_unit(Prefix::Kilo, x)
    }

    /// This quantity in cubic kilometres (`km³`, 1e9 m³).
    pub fn as_km3(&self) -> (r: Magnitude)
        requires
            self.wf(),
            can_shift(self.m, -(prefix_shift(Prefix::Kilo, 3, 0))),
        ensures
            r.wf(),
            rat_eq(r@, rat_scale10(self.m@, -(prefix_shift(Prefix::Kilo, 3, 0)))),
            r == shift_rep(self.m, -(prefix_shift(Prefix::Kilo, 3, 0))),
    {
        self.as_unit(Prefix::Kilo)
    }

    /// New `Volume` in cubic kilometres (`km³`, 1e9 m³).
    pub fn in_cubic_kilometres(x: Magnitude) -> (r: Self)
        requires
            x.wf(),
            can_shift(x, prefix_shift(Prefix::Kilo, 3, 0)),
        ensures
            r.wf(),
            rat_eq(r.m@, rat_scale10(x@, prefix_shift(Prefix::Kilo, 3, 0))),
            r.m == shift_rep(x, prefix_shift(Prefix::Kilo, 3, 0)),
    {
        Self::in_unit(Prefix::Kilo, x)
    }

    /// This quantity in cubic kilometres (`km³`, 1e9 m³).
    pub fn as_cubic_kilometres(&self) -> (r: Magnitude)
        requires
            self.wf(),
            can_shift(self.m, -(prefix_shift(Prefix::Kilo, 3, 0))),
        ensures
            r.wf(),
            rat_eq(r@, rat_scale10(self.m@, -(prefix_shift(Prefix::Kilo, 3, 0)))),
            r == shift_rep(self.m, -(prefix_shift(Prefix::Kilo, 3, 0))),
    {
        self.as_unit(Prefix::Kilo)
    }

    /// New `Volume` in cubic decimetres (`dm³`, 0.001 m³).
    pub fn in_dm3(x: Magnitude) -> (r: Self)
        requires
            x.wf(),
            can_shift(x, prefix_shift(Prefix::Deci, 3, 0)),
        ensures
            r.wf(),
            rat_eq(r.m@, rat_scale10(x@, prefix_shift(Prefix::Deci, 3, 0))),
            r.m == shift_rep(x, prefix_shift(Prefix::Deci, 3, 0)),
    {
        Self::in_unit(Prefix::Deci, x)
    }

    /// This quantity in cubic decimetres (`dm³`, 0.001 m³).
    pub fn as_dm3(&self) -> (r: Magnitude)
        requires
            self.wf(),
            can_shift(self.m, -(prefix_shift(Prefix::Deci, 3, 0))),
        ensures
            r.wf(),
            rat_eq(r@, rat_scale10(self.m@, -(prefix_shift(Prefix::Deci, 3, 0)))),
            r == shift_rep(self.m, -(prefix_shift(Prefix::Deci, 3, 0))),
    {
        self.as_unit(Prefix::Deci)
    }

    /// New `Volume` in cubic decimetres (`dm³`, 0.001 m³).
    pub fn in_cubic_decimetres(x: Magnitude) -> (r: Self)
        requires
            x.wf(),
            can_shift(x, prefix_shift(Prefix::Deci, 3, 0)),
        ensures
            r.wf(),
            rat_eq(r.m@, rat_scale10(x@, prefix_shift(Prefix::Deci, 3, 0))),
            r.m == shift_rep(x, prefix_shift(Prefix::Deci, 3, 0)),
    {
        Self::in_unit(Prefix::Deci, x)
    }

    /// This quantity in cubic decimetres (`dm³`, 0.001 m³).
    pub fn as_cubic_decimetres(&self) -> (r: Magnitude)
        requires
            self.wf(),
            can_shift(self.m, -(prefix_shift(Prefix::Deci, 3, 0))),
        ensures
            r.wf(),
            rat_eq(r@, rat_scale10(self.m@, -(prefix_shift(Prefix::Deci, 3, 0)))),
            r == shift_rep(self.m, -(prefix_shift(Prefix::Deci, 3, 0))),
    {
        self.as_unit(Prefix::Deci)
    }

}

/// # Non-SI units
impl Volume {
    /// New `Volume` in litres (1 dm³, 0.001 m³).
    pub fn in_l(x: Magnitude) -> (r: Self)
        requires
            x.wf(),
            can_times(x, decimal_mag(1, -3)),
        ensures
            r.wf(),
            rat_eq(r.m@, rat_mul(x@, decimal_mag(1, -3)@)),
            r.m == times_rep(x, decimal_mag(1, -3)),
    {
        Volume { m: x.times(&Magnitude::from_decimal(1, -3)) }
    }

    /// This quantity in litres (1 dm³, 0.001 m³).
    pub fn as_l(&self) -> (r: Magnitude)
        requires
            self.wf(),
            can_divide(self.m, decimal_mag(1, -3)),
        ensures
            r.wf(),
            rat_eq(r@, rat_div(self.m@, decimal_mag(1, -3)@)),
            r == div_rep(self.m, decimal_mag(1, -3)),
    {
        self.m.divided_by(&Magnitude::from_decimal(1, -3))
    }

    /// New `Volume` in litres (1 dm³, 0.001 m³).
    pub fn in_litres(x: Magnitude) -> (r: Self)
        requires
            x.wf(),
            can_times(x, decimal_mag(1, -3)),
        ensures
            r.wf(),
            rat_eq(r.m@, rat_mul(x@, decimal_mag(1, -3)@)),
            r.m == times_rep(x, decimal_mag(1, -3)),
    {
        Volume { m: x.times(&Magnitude::from_decimal(1, -3)) }
    }

    /// This quantity in litres (1 dm³, 0.001 m³).
    pub fn as_litres(&self) -> (r: Magnitude)
        requires
            self.wf(),
            can_divide(self.m, decimal_mag(1, -3)),
        ensures
            r.wf(),
            rat_eq(r@, rat_div(self.m@, decimal_mag(1, -3)@)),
            r == div_rep(self.m, decimal_mag(1, -3)),
    {
        self.m.divided_by(&Magnitude::from_decimal(1, -3))
    }

}

/// # `Volume` constants
impl Volume {
    /// One litre (0.001 m³).
    pub fn litre() -> (r: Self)
        ensures
            r.wf(),
            r.m == decimal_mag(1, -3),
    {
        Volume { m: Magnitude::from_decimal(1, -3) }
    }

}

impl Unit for Volume {
    open spec fn mag_rep(&self) -> Magnitude {
        self.m
    }

    open spec fn symbol_spec() -> Seq<char> {
        "m³"@
    }

    open spec fn singular_spec() -> Seq<char> {
        "cubic metre"@
    }

    open spec fn plural_spec() -> Seq<char> {
        "cubic metres"@
    }

    fn unit() -> (s: String) {
        String::from_str("m³")
    }

    fn unit_long_s(&self) -> (s: String) {
        String::from_str("cubic metre")
    }

    fn unit_long_p(&self) -> (s: String) {
        String::from_str("cubic metres")
    }

    fn unit_long(&self) -> (s: String) {
        pluralized(&self.m, "cubic metre", "cubic metres")
    }

    fn long(&self) -> (s: String) {
        long_form(&self.m, "cubic metre", "cubic metres")
    }

    fn short(&self) -> (s: String) {
        short_form(&self.m, "m³")
    }
}

} // verus!
