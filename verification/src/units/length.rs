//! Length, in metres.

use vstd::prelude::*;

use crate::display::{long_form, pluralized, short_form};
use crate::magnitude::{
    can_divide, can_shift, can_times, decimal_mag, div_rep, Magnitude, shift_rep, times_rep,
};
use crate::prefix::{canonical_to_prefixed, prefix_shift, prefixed_to_canonical, Prefix};
use crate::rat::{rat_div, rat_eq, rat_mul, rat_scale10};
use crate::unit::Unit;
use crate::units::{Force, Moment, Speed, Time};

verus! {

/// [*Length*][0] is the measure of one spatial dimension of an object, stored in metres (`m`).
///
/// [0]: https://en.wikipedia.org/wiki/Length
#[derive(Clone, Copy, Debug, PartialEq, Eq, Structural)]
pub struct Length {
    pub m: Magnitude,
}

impl Length {
    /// The stored magnitude is well-formed.
    pub open spec fn wf(self) -> bool {
        self.m.wf()
    }

    /// New `Length` from a magnitude in metres (`m`).
    pub fn new(m: Magnitude) -> (r: Self)
        requires
            m.wf(),
        ensures
            r.m == m,
    {
        Length { m }
    }

    /// Returns the magnitude, in metres (`m`).
    pub fn m(&self) -> (r: Magnitude)
        ensures
            r == self.m,
    {
        self.m
    }

    /// New `Length` of `x` prefixed units.
    pub fn in_unit(p: Prefix, x: Magnitude) -> (r: Self)
        requires
            x.wf(),
            can_shift(x, prefix_shift(p, 1, 0)),
        ensures
            r.wf(),
            rat_eq(r.m@, rat_scale10(x@, prefix_shift(p, 1, 0))),
            r.m == shift_rep(x, prefix_shift(p, 1, 0)),
    {
        Length { m: prefixed_to_canonical(&x, p, 1, 0) }
    }

    /// This quantity read in the given prefixed unit.
    pub fn as_unit(&self, p: Prefix) -> (r: Magnitude)
        requires
            self.wf(),
            can_shift(self.m, -prefix_shift(p, 1, 0)),
        ensures
            r.wf(),
            rat_eq(r@, rat_scale10(self.m@, -prefix_shift(p, 1, 0))),
            r == shift_rep(self.m, -prefix_shift(p, 1, 0)),
    {
        canonical_to_prefixed(&self.m, p, 1, 0)
    }
}

/// (== [`Length`]) How far apart objects are.
pub type Distance = Length;

/// (== [`Length`]) Vertical length.
pub type Height = Length;

/// # Base and common prefixed units
impl Length {
    /// New `Length` in metres (`m`): the base unit, an exact identity.
    pub fn in_m(x: Magnitude) -> (r: Self)
        requires
            x.wf(),
        ensures
            r.m == x,
    {
        Length { m: x }
    }

    /// This quantity in metres (`m`): the base unit, an exact identity.
    pub fn as_m(&self) -> (r: Magnitude)
        ensures
            r == self.m,
    {
        self.m
    }

    /// New `Length` in metres (`m`): the base unit, an exact identity.
    pub fn in_metres(x: Magnitude) -> (r: Self)
        requires
            x.wf(),
        ensures
            r.m == x,
    {
        Length { m: x }
    }

    /// This quantity in metres (`m`): the base unit, an exact identity.
    pub fn as_metres(&self) -> (r: Magnitude)
        ensures
            r == self.m,
    {
        self.m
    }

    /// New `Length` in kilometres (`km`, 1000 m).
    pub fn in_km(x: Magnitude) -> (r: Self)
        requires
            x.wf(),
            can_shift(x, prefix_shift(Prefix::Kilo, 1, 0)),
        ensures
            r.wf(),
            rat_eq(r.m@, rat_scale10(x@, prefix_shift(Prefix::Kilo, 1, 0))),
            r.m == shift_rep(x, prefix_shift(Prefix::Kilo, 1, 0)),
    {
        Self::in_unit(Prefix::Kilo, x)
    }

    /// This quantity in kilometres (`km`, 1000 m).
    pub fn as_km(&self) -> (r: Magnitude)
        requires
            self.wf(),
            can_shift(self.m, -(prefix_shift(Prefix::Kilo, 1, 0))),
        ensures
            r.wf(),
            rat_eq(r@, rat_scale10(self.m@, -(prefix_shift(Prefix::Kilo, 1, 0)))),
            r == shift_rep(self.m, -(prefix_shift(Prefix::Kilo, 1, 0))),
    {
        self.as_unit(Prefix::Kilo)
    }

    /// New `Length` in kilometres (`km`, 1000 m).
    pub fn in_kilometres(x: Magnitude) -> (r: Self)
        requires
            x.wf(),
            can_shift(x, prefix_shift(Prefix::Kilo, 1, 0)),
        ensures
            r.wf(),
            rat_eq(r.m@, rat_scale10(x@, prefix_shift(Prefix::Kilo, 1, 0))),
            r.m == shift_rep(x, prefix_shift(Prefix::Kilo, 1, 0)),
    {
        Self::in_unit(Prefix::Kilo, x)
    }

    /// This quantity in kilometres (`km`, 1000 m).
    pub fn as_kilometres(&self) -> (r: Magnitude)
        requires
            self.wf(),
            can_shift(self.m, -(prefix_shift(Prefix::Kilo, 1, 0))),
        ensures
            r.wf(),
            rat_eq(r@, rat_scale10(self.m@, -(prefix_shift(Prefix::Kilo, 1, 0)))),
            r == shift_rep(self.m, -(prefix_shift(Prefix::Kilo, 1, 0))),
    {
        self.as_unit(Prefix::Kilo)
    }

}

/// # The full named prefix ladder
///
/// One constructor/accessor pair per prefix, under the short and the long
/// name; each is the generic pair fixed to one prefix.
impl Length {
    /// New `Length` in yottametres (`Ym`, 1e24 m).
    #[allow(non_snake_case)]
    pub fn in_Ym(x: Magnitude) -> (r: Self)
        requires
            x.wf(),
            can_shift(x, prefix_shift(Prefix::Yotta, 1, 0)),
        ensures
            r.wf(),
            rat_eq(r.m@, rat_scale10(x@, prefix_shift(Prefix::Yotta, 1, 0))),
            r.m == shift_rep(x, prefix_shift(Prefix::Yotta, 1, 0)),
    {
        Self::in_unit(Prefix::Yotta, x)
    }

    /// This quantity in yottametres (`Ym`, 1e24 m).
    #[allow(non_snake_case)]
    pub fn as_Ym(&self) -> (r: Magnitude)
        requires
            self.wf(),
            can_shift(self.m, -prefix_shift(Prefix::Yotta, 1, 0)),
        ensures
            r.wf(),
            rat_eq(r@, rat_scale10(self.m@, -prefix_shift(Prefix::Yotta, 1, 0))),
            r == shift_rep(self.m, -prefix_shift(Prefix::Yotta, 1, 0)),
    {
        self.as_unit(Prefix::Yotta)
    }

    /// New `Length` in yottametres (`Ym`, 1e24 m).
    pub fn in_yottametres(x: Magnitude) -> (r: Self)
        requires
            x.wf(),
            can_shift(x, prefix_shift(Prefix::Yotta, 1, 0)),
        ensures
            r.wf(),
            rat_eq(r.m@, rat_scale10(x@, prefix_shift(Prefix::Yotta, 1, 0))),
            r.m == shift_rep(x, prefix_shift(Prefix::Yotta, 1, 0)),
    {
        Self::in_unit(Prefix::Yotta, x)
    }

    /// This quantity in yottametres (`Ym`, 1e24 m).
    pub fn as_yottametres(&self) -> (r: Magnitude)
        requires
            self.wf(),
            can_shift(self.m, -prefix_shift(Prefix::Yotta, 1, 0)),
        ensures
            r.wf(),
            rat_eq(r@, rat_scale10(self.m@, -prefix_shift(Prefix::Yotta, 1, 0))),
            r == shift_rep(self.m, -prefix_shift(Prefix::Yotta, 1, 0)),
    {
        self.as_unit(Prefix::Yotta)
    }

    /// New `Length` in zettametres (`Zm`, 1e21 m).
    #[allow(non_snake_case)]
    pub fn in_Zm(x: Magnitude) -> (r: Self)
        requires
            x.wf(),
            can_shift(x, prefix_shift(Prefix::Zetta, 1, 0)),
        ensures
            r.wf(),
            rat_eq(r.m@, rat_scale10(x@, prefix_shift(Prefix::Zetta, 1, 0))),
            r.m == shift_rep(x, prefix_shift(Prefix::Zetta, 1, 0)),
    {
        Self::in_unit(Prefix::Zetta, x)
    }

    /// This quantity in zettametres (`Zm`, 1e21 m).
    #[allow(non_snake_case)]
    pub fn as_Zm(&self) -> (r: Magnitude)
        requires
            self.wf(),
            can_shift(self.m, -prefix_shift(Prefix::Zetta, 1, 0)),
        ensures
            r.wf(),
            rat_eq(r@, rat_scale10(self.m@, -prefix_shift(Prefix::Zetta, 1, 0))),
            r == shift_rep(self.m, -prefix_shift(Prefix::Zetta, 1, 0)),
    {
        self.as_unit(Prefix::Zetta)
    }

    /// New `Length` in zettametres (`Zm`, 1e21 m).
    pub fn in_zettametres(x: Magnitude) -> (r: Self)
        requires
            x.wf(),
            can_shift(x, prefix_shift(Prefix::Zetta, 1, 0)),
        ensures
            r.wf(),
            rat_eq(r.m@, rat_scale10(x@, prefix_shift(Prefix::Zetta, 1, 0))),
            r.m == shift_rep(x, prefix_shift(Prefix::Zetta, 1, 0)),
    {
        Self::in_unit(Prefix::Zetta, x)
    }

    /// This quantity in zettametres (`Zm`, 1e21 m).
    pub fn as_zettametres(&self) -> (r: Magnitude)
        requires
            self.wf(),
            can_shift(self.m, -prefix_shift(Prefix::Zetta, 1, 0)),
        ensures
            r.wf(),
            rat_eq(r@, rat_scale10(self.m@, -prefix_shift(Prefix::Zetta, 1, 0))),
            r == shift_rep(self.m, -prefix_shift(Prefix::Zetta, 1, 0)),
    {
        self.as_unit(Prefix::Zetta)
    }

    /// New `Length` in exametres (`Em`, 1e18 m).
    #[allow(non_snake_case)]
    pub fn in_Em(x: Magnitude) -> (r: Self)
        requires
            x.wf(),
            can_shift(x, prefix_shift(Prefix::Exa, 1, 0)),
        ensures
            r.wf(),
            rat_eq(r.m@, rat_scale10(x@, prefix_shift(Prefix::Exa, 1, 0))),
            r.m == shift_rep(x, prefix_shift(Prefix::Exa, 1, 0)),
    {
        Self::in_unit(Prefix::Exa, x)
    }

    /// This quantity in exametres (`Em`, 1e18 m).
    #[allow(non_snake_case)]
    pub fn as_Em(&self) -> (r: Magnitude)
        requires
            self.wf(),
            can_shift(self.m, -prefix_shift(Prefix::Exa, 1, 0)),
        ensures
            r.wf(),
            rat_eq(r@, rat_scale10(self.m@, -prefix_shift(Prefix::Exa, 1, 0))),
            r == shift_rep(self.m, -prefix_shift(Prefix::Exa, 1, 0)),
    {
        self.as_unit(Prefix::Exa)
    }

    /// New `Length` in exametres (`Em`, 1e18 m).
    pub fn in_exametres(x: Magnitude) -> (r: Self)
        requires
            x.wf(),
            can_shift(x, prefix_shift(Prefix::Exa, 1, 0)),
        ensures
            r.wf(),
            rat_eq(r.m@, rat_scale10(x@, prefix_shift(Prefix::Exa, 1, 0))),
            r.m == shift_rep(x, prefix_shift(Prefix::Exa, 1, 0)),
    {
        Self::in_unit(Prefix::Exa, x)
    }

    /// This quantity in exametres (`Em`, 1e18 m).
    pub fn as_exametres(&self) -> (r: Magnitude)
        requires
            self.wf(),
            can_shift(self.m, -prefix_shift(Prefix::Exa, 1, 0)),
        ensures
            r.wf(),
            rat_eq(r@, rat_scale10(self.m@, -prefix_shift(Prefix::Exa, 1, 0))),
            r == shift_rep(self.m, -prefix_shift(Prefix::Exa, 1, 0)),
    {
        self.as_unit(Prefix::Exa)
    }

    /// New `Length` in petametres (`Pm`, 1e15 m).
    #[allow(non_snake_case)]
    pub fn in_Pm(x: Magnitude) -> (r: Self)
        requires
            x.wf(),
            can_shift(x, prefix_shift(Prefix::Peta, 1, 0)),
        ensures
            r.wf(),
            rat_eq(r.m@, rat_scale10(x@, prefix_shift(Prefix::Peta, 1, 0))),
            r.m == shift_rep(x, prefix_shift(Prefix::Peta, 1, 0)),
    {
        Self::in_unit(Prefix::Peta, x)
    }

    /// This quantity in petametres (`Pm`, 1e15 m).
    #[allow(non_snake_case)]
    pub fn as_Pm(&self) -> (r: Magnitude)
        requires
            self.wf(),
            can_shift(self.m, -prefix_shift(Prefix::Peta, 1, 0)),
        ensures
            r.wf(),
            rat_eq(r@, rat_scale10(self.m@, -prefix_shift(Prefix::Peta, 1, 0))),
            r == shift_rep(self.m, -prefix_shift(Prefix::Peta, 1, 0)),
    {
        self.as_unit(Prefix::Peta)
    }

    /// New `Length` in petametres (`Pm`, 1e15 m).
    pub fn in_petametres(x: Magnitude) -> (r: Self)
        requires
            x.wf(),
            can_shift(x, prefix_shift(Prefix::Peta, 1, 0)),
        ensures
            r.wf(),
            rat_eq(r.m@, rat_scale10(x@, prefix_shift(Prefix::Peta, 1, 0))),
            r.m == shift_rep(x, prefix_shift(Prefix::Peta, 1, 0)),
    {
        Self::in_unit(Prefix::Peta, x)
    }

    /// This quantity in petametres (`Pm`, 1e15 m).
    pub fn as_petametres(&self) -> (r: Magnitude)
        requires
            self.wf(),
            can_shift(self.m, -prefix_shift(Prefix::Peta, 1, 0)),
        ensures
            r.wf(),
            rat_eq(r@, rat_scale10(self.m@, -prefix_shift(Prefix::Peta, 1, 0))),
            r == shift_rep(self.m, -prefix_shift(Prefix::Peta, 1, 0)),
    {
        self.as_unit(Prefix::Peta)
    }

    /// New `Length` in terametres (`Tm`, 1e12 m).
    #[allow(non_snake_case)]
    pub fn in_Tm(x: Magnitude) -> (r: Self)
        requires
            x.wf(),
            can_shift(x, prefix_shift(Prefix::Tera, 1, 0)),
        ensures
            r.wf(),
            rat_eq(r.m@, rat_scale10(x@, prefix_shift(Prefix::Tera, 1, 0))),
            r.m == shift_rep(x, prefix_shift(Prefix::Tera, 1, 0)),
    {
        Self::in_unit(Prefix::Tera, x)
    }

    /// This quantity in terametres (`Tm`, 1e12 m).
    #[allow(non_snake_case)]
    pub fn as_Tm(&self) -> (r: Magnitude)
        requires
            self.wf(),
            can_shift(self.m, -prefix_shift(Prefix::Tera, 1, 0)),
        ensures
            r.wf(),
            rat_eq(r@, rat_scale10(self.m@, -prefix_shift(Prefix::Tera, 1, 0))),
            r == shift_rep(self.m, -prefix_shift(Prefix::Tera, 1, 0)),
    {
        self.as_unit(Prefix::Tera)
    }

    /// New `Length` in terametres (`Tm`, 1e12 m).
    pub fn in_terametres(x: Magnitude) -> (r: Self)
        requires
            x.wf(),
            can_shift(x, prefix_shift(Prefix::Tera, 1, 0)),
        ensures
            r.wf(),
            rat_eq(r.m@, rat_scale10(x@, prefix_shift(Prefix::Tera, 1, 0))),
            r.m == shift_rep(x, prefix_shift(Prefix::Tera, 1, 0)),
    {
        Self::in_unit(Prefix::Tera, x)
    }

    /// This quantity in terametres (`Tm`, 1e12 m).
    pub fn as_terametres(&self) -> (r: Magnitude)
        requires
            self.wf(),
            can_shift(self.m, -prefix_shift(Prefix::Tera, 1, 0)),
        ensures
            r.wf(),
            rat_eq(r@, rat_scale10(self.m@, -prefix_shift(Prefix::Tera, 1, 0))),
            r == shift_rep(self.m, -prefix_shift(Prefix::Tera, 1, 0)),
    {
        self.as_unit(Prefix::Tera)
    }

    /// New `Length` in gigametres (`Gm`, 1e9 m).
    #[allow(non_snake_case)]
    pub fn in_Gm(x: Magnitude) -> (r: Self)
        requires
            x.wf(),
            can_shift(x, prefix_shift(Prefix::Giga, 1, 0)),
        ensures
            r.wf(),
            rat_eq(r.m@, rat_scale10(x@, prefix_shift(Prefix::Giga, 1, 0))),
            r.m == shift_rep(x, prefix_shift(Prefix::Giga, 1, 0)),
    {
        Self::in_unit(Prefix::Giga, x)
    }

    /// This quantity in gigametres (`Gm`, 1e9 m).
    #[allow(non_snake_case)]
    pub fn as_Gm(&self) -> (r: Magnitude)
        requires
            self.wf(),
            can_shift(self.m, -prefix_shift(Prefix::Giga, 1, 0)),
        ensures
            r.wf(),
            rat_eq(r@, rat_scale10(self.m@, -prefix_shift(Prefix::Giga, 1, 0))),
            r == shift_rep(self.m, -prefix_shift(Prefix::Giga, 1, 0)),
    {
        self.as_unit(Prefix::Giga)
    }

    /// New `Length` in gigametres (`Gm`, 1e9 m).
    pub fn in_gigametres(x: Magnitude) -> (r: Self)
        requires
            x.wf(),
            can_shift(x, prefix_shift(Prefix::Giga, 1, 0)),
        ensures
            r.wf(),
            rat_eq(r.m@, rat_scale10(x@, prefix_shift(Prefix::Giga, 1, 0))),
            r.m == shift_rep(x, prefix_shift(Prefix::Giga, 1, 0)),
    {
        Self::in_unit(Prefix::Giga, x)
    }

    /// This quantity in gigametres (`Gm`, 1e9 m).
    pub fn as_gigametres(&self) -> (r: Magnitude)
        requires
            self.wf(),
            can_shift(self.m, -prefix_shift(Prefix::Giga, 1, 0)),
        ensures
            r.wf(),
            rat_eq(r@, rat_scale10(self.m@, -prefix_shift(Prefix::Giga, 1, 0))),
            r == shift_rep(self.m, -prefix_shift(Prefix::Giga, 1, 0)),
    {
        self.as_unit(Prefix::Giga)
    }

    /// New `Length` in megametres (`Mm`, 1e6 m).
    #[allow(non_snake_case)]
    pub fn in_Mm(x: Magnitude) -> (r: Self)
        requires
            x.wf(),
            can_shift(x, prefix_shift(Prefix::Mega, 1, 0)),
        ensures
            r.wf(),
            rat_eq(r.m@, rat_scale10(x@, prefix_shift(Prefix::Mega, 1, 0))),
            r.m == shift_rep(x, prefix_shift(Prefix::Mega, 1, 0)),
    {
        Self::in_unit(Prefix::Mega, x)
    }

    /// This quantity in megametres (`Mm`, 1e6 m).
    #[allow(non_snake_case)]
    pub fn as_Mm(&self) -> (r: Magnitude)
        requires
            self.wf(),
            can_shift(self.m, -prefix_shift(Prefix::Mega, 1, 0)),
        ensures
            r.wf(),
            rat_eq(r@, rat_scale10(self.m@, -prefix_shift(Prefix::Mega, 1, 0))),
            r == shift_rep(self.m, -prefix_shift(Prefix::Mega, 1, 0)),
    {
        self.as_unit(Prefix::Mega)
    }

    /// New `Length` in megametres (`Mm`, 1e6 m).
    pub fn in_megametres(x: Magnitude) -> (r: Self)
        requires
            x.wf(),
            can_shift(x, prefix_shift(Prefix::Mega, 1, 0)),
        ensures
            r.wf(),
            rat_eq(r.m@, rat_scale10(x@, prefix_shift(Prefix::Mega, 1, 0))),
            r.m == shift_rep(x, prefix_shift(Prefix::Mega, 1, 0)),
    {
        Self::in_unit(Prefix::Mega, x)
    }

    /// This quantity in megametres (`Mm`, 1e6 m).
    pub fn as_megametres(&self) -> (r: Magnitude)
        requires
            self.wf(),
            can_shift(self.m, -prefix_shift(Prefix::Mega, 1, 0)),
        ensures
            r.wf(),
            rat_eq(r@, rat_scale10(self.m@, -prefix_shift(Prefix::Mega, 1, 0))),
            r == shift_rep(self.m, -prefix_shift(Prefix::Mega, 1, 0)),
    {
        self.as_unit(Prefix::Mega)
    }

    /// New `Length` in hectometres (`hm`, 100 m).
    pub fn in_hm(x: Magnitude) -> (r: Self)
        requires
            x.wf(),
            can_shift(x, prefix_shift(Prefix::Hecto, 1, 0)),
        ensures
            r.wf(),
            rat_eq(r.m@, rat_scale10(x@, prefix_shift(Prefix::Hecto, 1, 0))),
            r.m == shift_rep(x, prefix_shift(Prefix::Hecto, 1, 0)),
    {
        Self::in_unit(Prefix::Hecto, x)
    }

    /// This quantity in hectometres (`hm`, 100 m).
    pub fn as_hm(&self) -> (r: Magnitude)
        requires
            self.wf(),
            can_shift(self.m, -prefix_shift(Prefix::Hecto, 1, 0)),
        ensures
            r.wf(),
            rat_eq(r@, rat_scale10(self.m@, -prefix_shift(Prefix::Hecto, 1, 0))),
            r == shift_rep(self.m, -prefix_shift(Prefix::Hecto, 1, 0)),
    {
        self.as_unit(Prefix::Hecto)
    }

    /// New `Length` in hectometres (`hm`, 100 m).
    pub fn in_hectometres(x: Magnitude) -> (r: Self)
        requires
            x.wf(),
            can_shift(x, prefix_shift(Prefix::Hecto, 1, 0)),
        ensures
            r.wf(),
            rat_eq(r.m@, rat_scale10(x@, prefix_shift(Prefix::Hecto, 1, 0))),
            r.m == shift_rep(x, prefix_shift(Prefix::Hecto, 1, 0)),
    {
        Self::in_unit(Prefix::Hecto, x)
    }

    /// This quantity in hectometres (`hm`, 100 m).
    pub fn as_hectometres(&self) -> (r: Magnitude)
        requires
            self.wf(),
            can_shift(self.m, -prefix_shift(Prefix::Hecto, 1, 0)),
        ensures
            r.wf(),
            rat_eq(r@, rat_scale10(self.m@, -prefix_shift(Prefix::Hecto, 1, 0))),
            r == shift_rep(self.m, -prefix_shift(Prefix::Hecto, 1, 0)),
    {
        self.as_unit(Prefix::Hecto)
    }

    /// New `Length` in dekametres (`dam`, 10 m).
    pub fn in_dam(x: Magnitude) -> (r: Self)
        requires
            x.wf(),
            can_shift(x, prefix_shift(Prefix::Deka, 1, 0)),
        ensures
            r.wf(),
            rat_eq(r.m@, rat_scale10(x@, prefix_shift(Prefix::Deka, 1, 0))),
            r.m == shift_rep(x, prefix_shift(Prefix::Deka, 1, 0)),
    {
        Self::in_unit(Prefix::Deka, x)
    }

    /// This quantity in dekametres (`dam`, 10 m).
    pub fn as_dam(&self) -> (r: Magnitude)
        requires
            self.wf(),
            can_shift(self.m, -prefix_shift(Prefix::Deka, 1, 0)),
        ensures
            r.wf(),
            rat_eq(r@, rat_scale10(self.m@, -prefix_shift(Prefix::Deka, 1, 0))),
            r == shift_rep(self.m, -prefix_shift(Prefix::Deka, 1, 0)),
    {
        self.as_unit(Prefix::Deka)
    }

    /// New `Length` in dekametres (`dam`, 10 m).
    pub fn in_dekametres(x: Magnitude) -> (r: Self)
        requires
            x.wf(),
            can_shift(x, prefix_shift(Prefix::Deka, 1, 0)),
        ensures
            r.wf(),
            rat_eq(r.m@, rat_scale10(x@, prefix_shift(Prefix::Deka, 1, 0))),
            r.m == shift_rep(x, prefix_shift(Prefix::Deka, 1, 0)),
    {
        Self::in_unit(Prefix::Deka, x)
    }

    /// This quantity in dekametres (`dam`, 10 m).
    pub fn as_dekametres(&self) -> (r: Magnitude)
        requires
            self.wf(),
            can_shift(self.m, -prefix_shift(Prefix::Deka, 1, 0)),
        ensures
            r.wf(),
            rat_eq(r@, rat_scale10(self.m@, -prefix_shift(Prefix::Deka, 1, 0))),
            r == shift_rep(self.m, -prefix_shift(Prefix::Deka, 1, 0)),
    {
        self.as_unit(Prefix::Deka)
    }

    /// New `Length` in decimetres (`dm`, 0.1 m).
    pub fn in_dm(x: Magnitude) -> (r: Self)
        requires
            x.wf(),
            can_shift(x, prefix_shift(Prefix::Deci, 1, 0)),
        ensures
            r.wf(),
            rat_eq(r.m@, rat_scale10(x@, prefix_shift(Prefix::Deci, 1, 0))),
            r.m == shift_rep(x, prefix_shift(Prefix::Deci, 1, 0)),
    {
        Self::in_unit(Prefix::Deci, x)
    }

    /// This quantity in decimetres (`dm`, 0.1 m).
    pub fn as_dm(&self) -> (r: Magnitude)
        requires
            self.wf(),
            can_shift(self.m, -prefix_shift(Prefix::Deci, 1, 0)),
        ensures
            r.wf(),
            rat_eq(r@, rat_scale10(self.m@, -prefix_shift(Prefix::Deci, 1, 0))),
            r == shift_rep(self.m, -prefix_shift(Prefix::Deci, 1, 0)),
    {
        self.as_unit(Prefix::Deci)
    }

    /// New `Length` in decimetres (`dm`, 0.1 m).
    pub fn in_decimetres(x: Magnitude) -> (r: Self)
        requires
            x.wf(),
            can_shift(x, prefix_shift(Prefix::Deci, 1, 0)),
        ensures
            r.wf(),
            rat_eq(r.m@, rat_scale10(x@, prefix_shift(Prefix::Deci, 1, 0))),
            r.m == shift_rep(x, prefix_shift(Prefix::Deci, 1, 0)),
    {
        Self::in_unit(Prefix::Deci, x)
    }

    /// This quantity in decimetres (`dm`, 0.1 m).
    pub fn as_decimetres(&self) -> (r: Magnitude)
        requires
            self.wf(),
            can_shift(self.m, -prefix_shift(Prefix::Deci, 1, 0)),
        ensures
            r.wf(),
            rat_eq(r@, rat_scale10(self.m@, -prefix_shift(Prefix::Deci, 1, 0))),
            r == shift_rep(self.m, -prefix_shift(Prefix::Deci, 1, 0)),
    {
        self.as_unit(Prefix::Deci)
    }

    /// New `Length` in centimetres (`cm`, 0.01 m).
    pub fn in_cm(x: Magnitude) -> (r: Self)
        requires
            x.wf(),
            can_shift(x, prefix_shift(Prefix::Centi, 1, 0)),
        ensures
            r.wf(),
            rat_eq(r.m@, rat_scale10(x@, prefix_shift(Prefix::Centi, 1, 0))),
            r.m == shift_rep(x, prefix_shift(Prefix::Centi, 1, 0)),
    {
        Self::in_unit(Prefix::Centi, x)
    }

    /// This quantity in centimetres (`cm`, 0.01 m).
    pub fn as_cm(&self) -> (r: Magnitude)
        requires
            self.wf(),
            can_shift(self.m, -prefix_shift(Prefix::Centi, 1, 0)),
        ensures
            r.wf(),
            rat_eq(r@, rat_scale10(self.m@, -prefix_shift(Prefix::Centi, 1, 0))),
            r == shift_rep(self.m, -prefix_shift(Prefix::Centi, 1, 0)),
    {
        self.as_unit(Prefix::Centi)
    }

    /// New `Length` in centimetres (`cm`, 0.01 m).
    pub fn in_centimetres(x: Magnitude) -> (r: Self)
        requires
            x.wf(),
            can_shift(x, prefix_shift(Prefix::Centi, 1, 0)),
        ensures
            r.wf(),
            rat_eq(r.m@, rat_scale10(x@, prefix_shift(Prefix::Centi, 1, 0))),
            r.m == shift_rep(x, prefix_shift(Prefix::Centi, 1, 0)),
    {
        Self::in_unit(Prefix::Centi, x)
    }

    /// This quantity in centimetres (`cm`, 0.01 m).
    pub fn as_centimetres(&self) -> (r: Magnitude)
        requires
            self.wf(),
            can_shift(self.m, -prefix_shift(Prefix::Centi, 1, 0)),
        ensures
            r.wf(),
            rat_eq(r@, rat_scale10(self.m@, -prefix_shift(Prefix::Centi, 1, 0))),
            r == shift_rep(self.m, -prefix_shift(Prefix::Centi, 1, 0)),
    {
        self.as_unit(Prefix::Centi)
    }

    /// New `Length` in millimetres (`mm`, 0.001 m).
    pub fn in_mm(x: Magnitude) -> (r: Self)
        requires
            x.wf(),
            can_shift(x, prefix_shift(Prefix::Milli, 1, 0)),
        ensures
            r.wf(),
            rat_eq(r.m@, rat_scale10(x@, prefix_shift(Prefix::Milli, 1, 0))),
            r.m == shift_rep(x, prefix_shift(Prefix::Milli, 1, 0)),
    {
        Self::in_unit(Prefix::Milli, x)
    }

    /// This quantity in millimetres (`mm`, 0.001 m).
    pub fn as_mm(&self) -> (r: Magnitude)
        requires
            self.wf(),
            can_shift(self.m, -prefix_shift(Prefix::Milli, 1, 0)),
        ensures
            r.wf(),
            rat_eq(r@, rat_scale10(self.m@, -prefix_shift(Prefix::Milli, 1, 0))),
            r == shift_rep(self.m, -prefix_shift(Prefix::Milli, 1, 0)),
    {
        self.as_unit(Prefix::Milli)
    }

    /// New `Length` in millimetres (`mm`, 0.001 m).
    pub fn in_millimetres(x: Magnitude) -> (r: Self)
        requires
            x.wf(),
            can_shift(x, prefix_shift(Prefix::Milli, 1, 0)),
        ensures
            r.wf(),
            rat_eq(r.m@, rat_scale10(x@, prefix_shift(Prefix::Milli, 1, 0))),
            r.m == shift_rep(x, prefix_shift(Prefix::Milli, 1, 0)),
    {
        Self::in_unit(Prefix::Milli, x)
    }

    /// This quantity in millimetres (`mm`, 0.001 m).
    pub fn as_millimetres(&self) -> (r: Magnitude)
        requires
            self.wf(),
            can_shift(self.m, -prefix_shift(Prefix::Milli, 1, 0)),
        ensures
            r.wf(),
            rat_eq(r@, rat_scale10(self.m@, -prefix_shift(Prefix::Milli, 1, 0))),
            r == shift_rep(self.m, -prefix_shift(Prefix::Milli, 1, 0)),
    {
        self.as_unit(Prefix::Milli)
    }

    /// New `Length` in micrometres (`um`, 1e-6 m).
    pub fn in_um(x: Magnitude) -> (r: Self)
        requires
            x.wf(),
            can_shift(x, prefix_shift(Prefix::Micro, 1, 0)),
        ensures
            r.wf(),
            rat_eq(r.m@, rat_scale10(x@, prefix_shift(Prefix::Micro, 1, 0))),
            r.m == shift_rep(x, prefix_shift(Prefix::Micro, 1, 0)),
    {
        Self::in_unit(Prefix::Micro, x)
    }

    /// This quantity in micrometres (`um`, 1e-6 m).
    pub fn as_um(&self) -> (r: Magnitude)
        requires
            self.wf(),
            can_shift(self.m, -prefix_shift(Prefix::Micro, 1, 0)),
        ensures
            r.wf(),
            rat_eq(r@, rat_scale10(self.m@, -prefix_shift(Prefix::Micro, 1, 0))),
            r == shift_rep(self.m, -prefix_shift(Prefix::Micro, 1, 0)),
    {
        self.as_unit(Prefix::Micro)
    }

    /// New `Length` in micrometres (`um`, 1e-6 m).
    pub fn in_micrometres(x: Magnitude) -> (r: Self)
        requires
            x.wf(),
            can_shift(x, prefix_shift(Prefix::Micro, 1, 0)),
        ensures
            r.wf(),
            rat_eq(r.m@, rat_scale10(x@, prefix_shift(Prefix::Micro, 1, 0))),
            r.m == shift_rep(x, prefix_shift(Prefix::Micro, 1, 0)),
    {
        Self::in_unit(Prefix::Micro, x)
    }

    /// This quantity in micrometres (`um`, 1e-6 m).
    pub fn as_micrometres(&self) -> (r: Magnitude)
        requires
            self.wf(),
            can_shift(self.m, -prefix_shift(Prefix::Micro, 1, 0)),
        ensures
            r.wf(),
            rat_eq(r@, rat_scale10(self.m@, -prefix_shift(Prefix::Micro, 1, 0))),
            r == shift_rep(self.m, -prefix_shift(Prefix::Micro, 1, 0)),
    {
        self.as_unit(Prefix::Micro)
    }

    /// New `Length` in nanometres (`nm`, 1e-9 m).
    pub fn in_nm(x: Magnitude) -> (r: Self)
        requires
            x.wf(),
            can_shift(x, prefix_shift(Prefix::Nano, 1, 0)),
        ensures
            r.wf(),
            rat_eq(r.m@, rat_scale10(x@, prefix_shift(Prefix::Nano, 1, 0))),
            r.m == shift_rep(x, prefix_shift(Prefix::Nano, 1, 0)),
    {
        Self::in_unit(Prefix::Nano, x)
    }

    /// This quantity in nanometres (`nm`, 1e-9 m).
    pub fn as_nm(&self) -> (r: Magnitude)
        requires
            self.wf(),
            can_shift(self.m, -prefix_shift(Prefix::Nano, 1, 0)),
        ensures
            r.wf(),
            rat_eq(r@, rat_scale10(self.m@, -prefix_shift(Prefix::Nano, 1, 0))),
            r == shift_rep(self.m, -prefix_shift(Prefix::Nano, 1, 0)),
    {
        self.as_unit(Prefix::Nano)
    }

    /// New `Length` in nanometres (`nm`, 1e-9 m).
    pub fn in_nanometres(x: Magnitude) -> (r: Self)
        requires
            x.wf(),
            can_shift(x, prefix_shift(Prefix::Nano, 1, 0)),
        ensures
            r.wf(),
            rat_eq(r.m@, rat_scale10(x@, prefix_shift(Prefix::Nano, 1, 0))),
            r.m == shift_rep(x, prefix_shift(Prefix::Nano, 1, 0)),
    {
        Self::in_unit(Prefix::Nano, x)
    }

    /// This quantity in nanometres (`nm`, 1e-9 m).
    pub fn as_nanometres(&self) -> (r: Magnitude)
        requires
            self.wf(),
            can_shift(self.m, -prefix_shift(Prefix::Nano, 1, 0)),
        ensures
            r.wf(),
            rat_eq(r@, rat_scale10(self.m@, -prefix_shift(Prefix::Nano, 1, 0))),
            r == shift_rep(self.m, -prefix_shift(Prefix::Nano, 1, 0)),
    {
        self.as_unit(Prefix::Nano)
    }

    /// New `Length` in picometres (`pm`, 1e-12 m).
    pub fn in_pm(x: Magnitude) -> (r: Self)
        requires
            x.wf(),
            can_shift(x, prefix_shift(Prefix::Pico, 1, 0)),
        ensures
            r.wf(),
            rat_eq(r.m@, rat_scale10(x@, prefix_shift(Prefix::Pico, 1, 0))),
            r.m == shift_rep(x, prefix_shift(Prefix::Pico, 1, 0)),
    {
        Self::in_unit(Prefix::Pico, x)
    }

    /// This quantity in picometres (`pm`, 1e-12 m).
    pub fn as_pm(&self) -> (r: Magnitude)
        requires
            self.wf(),
            can_shift(self.m, -prefix_shift(Prefix::Pico, 1, 0)),
        ensures
            r.wf(),
            rat_eq(r@, rat_scale10(self.m@, -prefix_shift(Prefix::Pico, 1, 0))),
            r == shift_rep(self.m, -prefix_shift(Prefix::Pico, 1, 0)),
    {
        self.as_unit(Prefix::Pico)
    }

    /// New `Length` in picometres (`pm`, 1e-12 m).
    pub fn in_picometres(x: Magnitude) -> (r: Self)
        requires
            x.wf(),
            can_shift(x, prefix_shift(Prefix::Pico, 1, 0)),
        ensures
            r.wf(),
            rat_eq(r.m@, rat_scale10(x@, prefix_shift(Prefix::Pico, 1, 0))),
            r.m == shift_rep(x, prefix_shift(Prefix::Pico, 1, 0)),
    {
        Self::in_unit(Prefix::Pico, x)
    }

    /// This quantity in picometres (`pm`, 1e-12 m).
    pub fn as_picometres(&self) -> (r: Magnitude)
        requires
            self.wf(),
            can_shift(self.m, -prefix_shift(Prefix::Pico, 1, 0)),
        ensures
            r.wf(),
            rat_eq(r@, rat_scale10(self.m@, -prefix_shift(Prefix::Pico, 1, 0))),
            r == shift_rep(self.m, -prefix_shift(Prefix::Pico, 1, 0)),
    {
        self.as_unit(Prefix::Pico)
    }

    /// New `Length` in femtometres (`fm`, 1e-15 m).
    pub fn in_fm(x: Magnitude) -> (r: Self)
        requires
            x.wf(),
            can_shift(x, prefix_shift(Prefix::Femto, 1, 0)),
        ensures
            r.wf(),
            rat_eq(r.m@, rat_scale10(x@, prefix_shift(Prefix::Femto, 1, 0))),
            r.m == shift_rep(x, prefix_shift(Prefix::Femto, 1, 0)),
    {
        Self::in_unit(Prefix::Femto, x)
    }

    /// This quantity in femtometres (`fm`, 1e-15 m).
    pub fn as_fm(&self) -> (r: Magnitude)
        requires
            self.wf(),
            can_shift(self.m, -prefix_shift(Prefix::Femto, 1, 0)),
        ensures
            r.wf(),
            rat_eq(r@, rat_scale10(self.m@, -prefix_shift(Prefix::Femto, 1, 0))),
            r == shift_rep(self.m, -prefix_shift(Prefix::Femto, 1, 0)),
    {
        self.as_unit(Prefix::Femto)
    }

    /// New `Length` in femtometres (`fm`, 1e-15 m).
    pub fn in_femtometres(x: Magnitude) -> (r: Self)
        requires
            x.wf(),
            can_shift(x, prefix_shift(Prefix::Femto, 1, 0)),
        ensures
            r.wf(),
            rat_eq(r.m@, rat_scale10(x@, prefix_shift(Prefix::Femto, 1, 0))),
            r.m == shift_rep(x, prefix_shift(Prefix::Femto, 1, 0)),
    {
        Self::in_unit(Prefix::Femto, x)
    }

    /// This quantity in femtometres (`fm`, 1e-15 m).
    pub fn as_femtometres(&self) -> (r: Magnitude)
        requires
            self.wf(),
            can_shift(self.m, -prefix_shift(Prefix::Femto, 1, 0)),
        ensures
            r.wf(),
            rat_eq(r@, rat_scale10(self.m@, -prefix_shift(Prefix::Femto, 1, 0))),
            r == shift_rep(self.m, -prefix_shift(Prefix::Femto, 1, 0)),
    {
        self.as_unit(Prefix::Femto)
    }

    /// New `Length` in attometres (`am`, 1e-18 m).
    pub fn in_am(x: Magnitude) -> (r: Self)
        requires
            x.wf(),
            can_shift(x, prefix_shift(Prefix::Atto, 1, 0)),
        ensures
            r.wf(),
            rat_eq(r.m@, rat_scale10(x@, prefix_shift(Prefix::Atto, 1, 0))),
            r.m == shift_rep(x, prefix_shift(Prefix::Atto, 1, 0)),
    {
        Self::in_unit(Prefix::Atto, x)
    }

    /// This quantity in attometres (`am`, 1e-18 m).
    pub fn as_am(&self) -> (r: Magnitude)
        requires
            self.wf(),
            can_shift(self.m, -prefix_shift(Prefix::Atto, 1, 0)),
        ensures
            r.wf(),
            rat_eq(r@, rat_scale10(self.m@, -prefix_shift(Prefix::Atto, 1, 0))),
            r == shift_rep(self.m, -prefix_shift(Prefix::Atto, 1, 0)),
    {
        self.as_unit(Prefix::Atto)
    }

    /// New `Length` in attometres (`am`, 1e-18 m).
    pub fn in_attometres(x: Magnitude) -> (r: Self)
        requires
            x.wf(),
            can_shift(x, prefix_shift(Prefix::Atto, 1, 0)),
        ensures
            r.wf(),
            rat_eq(r.m@, rat_scale10(x@, prefix_shift(Prefix::Atto, 1, 0))),
            r.m == shift_rep(x, prefix_shift(Prefix::Atto, 1, 0)),
    {
        Self::in_unit(Prefix::Atto, x)
    }

    /// This quantity in attometres (`am`, 1e-18 m).
    pub fn as_attometres(&self) -> (r: Magnitude)
        requires
            self.wf(),
            can_shift(self.m, -prefix_shift(Prefix::Atto, 1, 0)),
        ensures
            r.wf(),
            rat_eq(r@, rat_scale10(self.m@, -prefix_shift(Prefix::Atto, 1, 0))),
            r == shift_rep(self.m, -prefix_shift(Prefix::Atto, 1, 0)),
    {
        self.as_unit(Prefix::Atto)
    }

    /// New `Length` in zeptometres (`zm`, 1e-21 m).
    pub fn in_zm(x: Magnitude) -> (r: Self)
        requires
            x.wf(),
            can_shift(x, prefix_shift(Prefix::Zepto, 1, 0)),
        ensures
            r.wf(),
            rat_eq(r.m@, rat_scale10(x@, prefix_shift(Prefix::Zepto, 1, 0))),
            r.m == shift_rep(x, prefix_shift(Prefix::Zepto, 1, 0)),
    {
        Self::in_unit(Prefix::Zepto, x)
    }

    /// This quantity in zeptometres (`zm`, 1e-21 m).
    pub fn as_zm(&self) -> (r: Magnitude)
        requires
            self.wf(),
            can_shift(self.m, -prefix_shift(Prefix::Zepto, 1, 0)),
        ensures
            r.wf(),
            rat_eq(r@, rat_scale10(self.m@, -prefix_shift(Prefix::Zepto, 1, 0))),
            r == shift_rep(self.m, -prefix_shift(Prefix::Zepto, 1, 0)),
    {
        self.as_unit(Prefix::Zepto)
    }

    /// New `Length` in zeptometres (`zm`, 1e-21 m).
    pub fn in_zeptometres(x: Magnitude) -> (r: Self)
        requires
            x.wf(),
            can_shift(x, prefix_shift(Prefix::Zepto, 1, 0)),
        ensures
            r.wf(),
            rat_eq(r.m@, rat_scale10(x@, prefix_shift(Prefix::Zepto, 1, 0))),
            r.m == shift_rep(x, prefix_shift(Prefix::Zepto, 1, 0)),
    {
        Self::in_unit(Prefix::Zepto, x)
    }

    /// This quantity in zeptometres (`zm`, 1e-21 m).
    pub fn as_zeptometres(&self) -> (r: Magnitude)
        requires
            self.wf(),
            can_shift(self.m, -prefix_shift(Prefix::Zepto, 1, 0)),
        ensures
            r.wf(),
            rat_eq(r@, rat_scale10(self.m@, -prefix_shift(Prefix::Zepto, 1, 0))),
            r == shift_rep(self.m, -prefix_shift(Prefix::Zepto, 1, 0)),
    {
        self.as_unit(Prefix::Zepto)
    }

    /// New `Length` in yoctometres (`ym`, 1e-24 m).
    pub fn in_ym(x: Magnitude) -> (r: Self)
        requires
            x.wf(),
            can_shift(x, prefix_shift(Prefix::Yocto, 1, 0)),
        ensures
            r.wf(),
            rat_eq(r.m@, rat_scale10(x@, prefix_shift(Prefix::Yocto, 1, 0))),
            r.m == shift_rep(x, prefix_shift(Prefix::Yocto, 1, 0)),
    {
        Self::in_unit(Prefix::Yocto, x)
    }

    /// This quantity in yoctometres (`ym`, 1e-24 m).
    pub fn as_ym(&self) -> (r: Magnitude)
        requires
            self.wf(),
            can_shift(self.m, -prefix_shift(Prefix::Yocto, 1, 0)),
        ensures
            r.wf(),
            rat_eq(r@, rat_scale10(self.m@, -prefix_shift(Prefix::Yocto, 1, 0))),
            r == shift_rep(self.m, -prefix_shift(Prefix::Yocto, 1, 0)),
    {
        self.as_unit(Prefix::Yocto)
    }

    /// New `Length` in yoctometres (`ym`, 1e-24 m).
    pub fn in_yoctometres(x: Magnitude) -> (r: Self)
        requires
            x.wf(),
            can_shift(x, prefix_shift(Prefix::Yocto, 1, 0)),
        ensures
            r.wf(),
            rat_eq(r.m@, rat_scale10(x@, prefix_shift(Prefix::Yocto, 1, 0))),
            r.m == shift_rep(x, prefix_shift(Prefix::Yocto, 1, 0)),
    {
        Self::in_unit(Prefix::Yocto, x)
    }

    /// This quantity in yoctometres (`ym`, 1e-24 m).
    pub fn as_yoctometres(&self) -> (r: Magnitude)
        requires
            self.wf(),
            can_shift(self.m, -prefix_shift(Prefix::Yocto, 1, 0)),
        ensures
            r.wf(),
            rat_eq(r@, rat_scale10(self.m@, -prefix_shift(Prefix::Yocto, 1, 0))),
            r == shift_rep(self.m, -prefix_shift(Prefix::Yocto, 1, 0)),
    {
        self.as_unit(Prefix::Yocto)
    }

}

/// # Non-SI units
impl Length {
    /// New `Length` in astronomical units (`au`, 1.495978707e11 m).
    pub fn in_au(x: Magnitude) -> (r: Self)
        requires
            x.wf(),
            can_times(x, decimal_mag(1495978707, 2)),
        ensures
            r.wf(),
            rat_eq(r.m@, rat_mul(x@, decimal_mag(1495978707, 2)@)),
            r.m == times_rep(x, decimal_mag(1495978707, 2)),
    {
        Length { m: x.times(&Magnitude::from_decimal(1495978707, 2)) }
    }

    /// This quantity in astronomical units (`au`, 1.495978707e11 m).
    pub fn as_au(&self) -> (r: Magnitude)
        requires
            self.wf(),
            can_divide(self.m, decimal_mag(1495978707, 2)),
        ensures
            r.wf(),
            rat_eq(r@, rat_div(self.m@, decimal_mag(1495978707, 2)@)),
            r == div_rep(self.m, decimal_mag(1495978707, 2)),
    {
        self.m.divided_by(&Magnitude::from_decimal(1495978707, 2))
    }

    /// New `Length` in astronomical units (`au`, 1.495978707e11 m).
    pub fn in_astronomical_units(x: Magnitude) -> (r: Self)
        requires
            x.wf(),
            can_times(x, decimal_mag(1495978707, 2)),
        ensures
            r.wf(),
            rat_eq(r.m@, rat_mul(x@, decimal_mag(1495978707, 2)@)),
            r.m == times_rep(x, decimal_mag(1495978707, 2)),
    {
        Length { m: x.times(&Magnitude::from_decimal(1495978707, 2)) }
    }

    /// This quantity in astronomical units (`au`, 1.495978707e11 m).
    pub fn as_astronomical_units(&self) -> (r: Magnitude)
        requires
            self.wf(),
            can_divide(self.m, decimal_mag(1495978707, 2)),
        ensures
            r.wf(),
            rat_eq(r@, rat_div(self.m@, decimal_mag(1495978707, 2)@)),
            r == div_rep(self.m, decimal_mag(1495978707, 2)),
    {
        self.m.divided_by(&Magnitude::from_decimal(1495978707, 2))
    }

    /// New `Length` in angstroms (1e-10 m).
    pub fn in_angstroms(x: Magnitude) -> (r: Self)
        requires
            x.wf(),
            can_times(x, decimal_mag(1, -10)),
        ensures
            r.wf(),
            rat_eq(r.m@, rat_mul(x@, decimal_mag(1, -10)@)),
            r.m == times_rep(x, decimal_mag(1, -10)),
    {
        Length { m: x.times(&Magnitude::from_decimal(1, -10)) }
    }

    /// This quantity in angstroms (1e-10 m).
    pub fn as_angstroms(&self) -> (r: Magnitude)
        requires
            self.wf(),
            can_divide(self.m, decimal_mag(1, -10)),
        ensures
            r.wf(),
            rat_eq(r@, rat_div(self.m@, decimal_mag(1, -10)@)),
            r == div_rep(self.m, decimal_mag(1, -10)),
    {
        self.m.divided_by(&Magnitude::from_decimal(1, -10))
    }

}

/// # [`Distance`] formulas
impl Distance {
    /// Derives the `Distance` from the given time and speed (`d = s * t`).
    pub fn from_time_speed(t: Time, s: Speed) -> (r: Self)
        requires
            t.wf(),
            s.wf(),
            can_times(t.m, s.m),
        ensures
            r.wf(),
            rat_eq(r.m@, rat_mul(t.m@, s.m@)),
            r.m == times_rep(t.m, s.m),
    {
        Length { m: t.m.times(&s.m) }
    }

    /// (Alias of [`from_time_speed`][Length::from_time_speed].)
    pub fn from_speed_time(s: Speed, t: Time) -> (r: Self)
        requires
            t.wf(),
            s.wf(),
            can_times(t.m, s.m),
        ensures
            r.wf(),
            rat_eq(r.m@, rat_mul(t.m@, s.m@)),
            r.m == times_rep(t.m, s.m),
    {
        Self::from_time_speed(t, s)
    }

    /// Calculates the speed given the time (`s = d / t`).
    pub fn calc_speed(&self, t: Time) -> (r: Speed)
        requires
            self.wf(),
            t.wf(),
            can_divide(self.m, t.m),
        ensures
            r.wf(),
            rat_eq(r.m@, rat_div(self.m@, t.m@)),
            r.m == div_rep(self.m, t.m),
    {
        Speed::new(self.m.divided_by(&t.m))
    }

    /// Calculates the time given the speed (`t = d / s`).
    pub fn calc_time(&self, s: Speed) -> (r: Time)
        requires
            self.wf(),
            s.wf(),
            can_divide(self.m, s.m),
        ensures
            r.wf(),
            rat_eq(r.m@, rat_div(self.m@, s.m@)),
            r.m == div_rep(self.m, s.m),
    {
        Time::new(self.m.divided_by(&s.m))
    }

    /// Derives the `Distance` from the given moment and force (`d = M / F`).
    pub fn from_moment_force(m: Moment, f: Force) -> (r: Self)
        requires
            m.wf(),
            f.wf(),
            can_divide(m.m, f.m),
        ensures
            r.wf(),
            rat_eq(r.m@, rat_div(m.m@, f.m@)),
            r.m == div_rep(m.m, f.m),
    {
        Length { m: m.m.divided_by(&f.m) }
    }

    /// (Alias of [`from_moment_force`][Length::from_moment_force].)
    pub fn from_force_moment(f: Force, m: Moment) -> (r: Self)
        requires
            m.wf(),
            f.wf(),
            can_divide(m.m, f.m),
        ensures
            r.wf(),
            rat_eq(r.m@, rat_div(m.m@, f.m@)),
            r.m == div_rep(m.m, f.m),
    {
        Self::from_moment_force(m, f)
    }

    /// Calculates the moment given the force (`M = F * d`); the result takes the direction of the force.
    pub fn calc_moment(&self, f: Force) -> (r: Moment)
        requires
            self.wf(),
            f.wf(),
            can_times(f.m, self.m),
        ensures
            r.wf(),
            rat_eq(r.m@, rat_mul(f.m@, self.m@)),
            r.m == times_rep(f.m, self.m),
            r.d == f.d,
    {
        Moment::new(f.m.times(&self.m), f.d)
    }

    /// Calculates the force given the moment (`F = M / d`); the result takes the direction of the moment.
    pub fn calc_force(&self, m: Moment) -> (r: Force)
        requires
            self.wf(),
            m.wf(),
            can_divide(m.m, self.m),
        ensures
            r.wf(),
            rat_eq(r.m@, rat_div(m.m@, self.m@)),
            r.m == div_rep(m.m, self.m),
            r.d == m.d,
    {
        Force::new(m.m.divided_by(&self.m), m.d)
    }

}

/// # `Length` constants by order of magnitude
impl Length {
    /// The [*Planck length*][0] constant (1.616255e-35 m).
    ///
    /// [0]: https://en.wikipedia.org/wiki/Planck_length
    pub fn planck() -> (r: Self)
        ensures
            r.wf(),
            r.m == decimal_mag(1616255, -41),
    {
        Length { m: Magnitude::from_decimal(1616255, -41) }
    }

    /// Range of the [*weak force*][0] (10 am).
    ///
    /// [0]: https://en.wikipedia.org/wiki/Weak_interaction
    pub fn weak_force_range() -> (r: Self)
        ensures
            r.wf(),
            r.m == decimal_mag(1, -17),
    {
        Length { m: Magnitude::from_decimal(1, -17) }
    }

    /// Approximate [*proton*][0] radius (0.833 fm).
    ///
    /// [0]: https://en.wikipedia.org/wiki/Proton
    pub fn proton_radius() -> (r: Self)
        ensures
            r.wf(),
            r.m == decimal_mag(833, -18),
    {
        Length { m: Magnitude::from_decimal(833, -18) }
    }

    /// [*Classical electron radius*][0] (2.8179403227 fm).
    ///
    /// [0]: https://en.wikipedia.org/wiki/Classical_electron_radius
    pub fn electron_radius() -> (r: Self)
        ensures
            r.wf(),
            r.m == decimal_mag(28179403227, -25),
    {
        Length { m: Magnitude::from_decimal(28179403227, -25) }
    }

    /// Minimum diameter of the atomic nucleus (3 fm).
    pub fn atomic_nucleus_diameter_min() -> (r: Self)
        ensures
            r.wf(),
            r.m == decimal_mag(3, -15),
    {
        Length { m: Magnitude::from_decimal(3, -15) }
    }

    /// Maximum diameter of the atomic nucleus (15 fm).
    pub fn atomic_nucleus_diameter_max() -> (r: Self)
        ensures
            r.wf(),
            r.m == decimal_mag(15, -15),
    {
        Length { m: Magnitude::from_decimal(15, -15) }
    }

    /// Wavelength of shortest [*X-rays*][0] (5 pm).
    ///
    /// [0]: https://en.wikipedia.org/wiki/X-ray
    pub fn xray_shortest_wavelength() -> (r: Self)
        ensures
            r.wf(),
            r.m == decimal_mag(5, -12),
    {
        Length { m: Magnitude::from_decimal(5, -12) }
    }

    /// Covalent radius of a [*helium*][0] atom (28 pm).
    ///
    /// [0]: https://en.wikipedia.org/wiki/Helium
    pub fn helium_radius() -> (r: Self)
        ensures
            r.wf(),
            r.m == decimal_mag(28, -12),
    {
        Length { m: Magnitude::from_decimal(28, -12) }
    }

    /// [*Bohr radius*][0] (52.9177210903 pm).
    ///
    /// [0]: https://en.wikipedia.org/wiki/Bohr_radius
    pub fn bohr_radius() -> (r: Self)
        ensures
            r.wf(),
            r.m == decimal_mag(529177210903, -22),
    {
        Length { m: Magnitude::from_decimal(529177210903, -22) }
    }

    /// One [*angstrom*][0] (100 pm).
    ///
    /// [0]: https://en.wikipedia.org/wiki/Angstrom
    pub fn angstrom() -> (r: Self)
        ensures
            r.wf(),
            r.m == decimal_mag(1, -10),
    {
        Length { m: Magnitude::from_decimal(1, -10) }
    }

    /// Length of a carbon-carbon [*covalent bond*][0] in diamond (154 pm).
    ///
    /// [0]: https://en.wikipedia.org/wiki/Bond_length
    pub fn covalent_bond_diamond() -> (r: Self)
        ensures
            r.wf(),
            r.m == decimal_mag(154, -12),
    {
        Length { m: Magnitude::from_decimal(154, -12) }
    }

    /// Roughly the [*distance from the Earth to the Sun*][0] (1.495978707e11 m).
    ///
    /// [0]: https://en.wikipedia.org/wiki/Astronomical_unit
    pub fn astronomical_unit() -> (r: Self)
        ensures
            r.wf(),
            r.m == decimal_mag(1495978707, 2),
    {
        Length { m: Magnitude::from_decimal(1495978707, 2) }
    }

}

impl Unit for Length {
    open spec fn mag_rep(&self) -> Magnitude {
        self.m
    }

    open spec fn symbol_spec() -> Seq<char> {
        "m"@
    }

    open spec fn singular_spec() -> Seq<char> {
        "metre"@
    }

    open spec fn plural_spec() -> Seq<char> {
        "metres"@
    }

    fn unit() -> (s: String) {
        String::from_str("m")
    }

    fn unit_long_s(&self) -> (s: String) {
        String::from_str("metre")
    }

    fn unit_long_p(&self) -> (s: String) {
        String::from_str("metres")
    }

    fn unit_long(&self) -> (s: String) {
        pluralized(&self.m, "metre", "metres")
    }

    fn long(&self) -> (s: String) {
        long_form(&self.m, "metre", "metres")
    }

    fn short(&self) -> (s: String) {
        short_form(&self.m, "m")
    }
}

} // verus!
