//! Mass, stored in kilograms: the one base-shifted quantity.

use vstd::prelude::*;

use crate::display::{long_form, pluralized, short_form};
use crate::magnitude::{
    can_divide, can_shift, can_times, decimal_mag, div_rep, Magnitude, shift_rep, times_rep, whole_mag,
};
use crate::prefix::{canonical_to_prefixed, prefix_shift, prefixed_to_canonical, Prefix};
use crate::rat::{rat_div, rat_eq, rat_mul, rat_scale10};
use crate::unit::Unit;
use crate::units::{Acceleration, Energy, Force, Gfs, GravitationalFieldStrength, Weight};

verus! {

/// Mass, stored in kilograms (`kg`): the canonical unit sits three decimal steps above the gram, so every prefix accessor still refers to grams.
#[derive(Clone, Copy, Debug, PartialEq, Eq, Structural)]
pub struct Mass {
    pub m: Magnitude,
}

impl Mass {
    /// The stored magnitude is well-formed.
    pub open spec fn wf(self) -> bool {
        self.m.wf()
    }

    /// New `Mass` from a magnitude in kilograms (`kg`).
    pub fn new(m: Magnitude) -> (r: Self)
        requires
            m.wf(),
        ensures
            r.m == m,
    {
        Mass { m }
    }

    /// Returns the magnitude, in kilograms (`kg`).
    pub fn m(&self) -> (r: Magnitude)
        ensures
            r == self.m,
    {
        self.m
    }

    /// New `Mass` of `x` prefixed units.
    pub fn in_unit(p: Prefix, x: Magnitude) -> (r: Self)
        requires
            x.wf(),
            can_shift(x, prefix_shift(p, 1, 3)),
        ensures
            r.wf(),
            rat_eq(r.m@, rat_scale10(x@, prefix_shift(p, 1, 3))),
            r.m == shift_rep(x, prefix_shift(p, 1, 3)),
    {
        Mass { m: prefixed_to_canonical(&x, p, 1, 3) }
    }

    /// This quantity read in the given prefixed unit.
    pub fn as_unit(&self, p: Prefix) -> (r: Magnitude)
        requires
            self.wf(),
            can_shift(self.m, -prefix_shift(p, 1, 3)),
        ensures
            r.wf(),
            rat_eq(r@, rat_scale10(self.m@, -prefix_shift(p, 1, 3))),
            r == shift_rep(self.m, -prefix_shift(p, 1, 3)),
    {
        canonical_to_prefixed(&self.m, p, 1, 3)
    }
}

/// # Base and common prefixed units
///
/// The canonical unit is the kilogram, so `in_kg` is the exact identity and
/// the gram accessors shift by the canonical-unit offset.
impl Mass {
    /// New `Mass` in kilograms (`kg`): the base unit, an exact identity.
    pub fn in_kg(x: Magnitude) -> (r: Self)
        requires
            x.wf(),
        ensures
            r.m == x,
    {
        Mass { m: x }
    }

    /// This quantity in kilograms (`kg`): the base unit, an exact identity.
    pub fn as_kg(&self) -> (r: Magnitude)
        ensures
            r == self.m,
    {
        self.m
    }

    /// New `Mass` in kilograms (`kg`): the base unit, an exact identity.
    pub fn in_kilograms(x: Magnitude) -> (r: Self)
        requires
            x.wf(),
        ensures
            r.m == x,
    {
        Mass { m: x }
    }

    /// This quantity in kilograms (`kg`): the base unit, an exact identity.
    pub fn as_kilograms(&self) -> (r: Magnitude)
        ensures
            r == self.m,
    {
        self.m
    }

    /// New `Mass` in grams (`g`, 0.001 kg).
    pub fn in_g(x: Magnitude) -> (r: Self)
        requires
            x.wf(),
            can_shift(x, prefix_shift(Prefix::Base, 1, 3)),
        ensures
            r.wf(),
            rat_eq(r.m@, rat_scale10(x@, prefix_shift(Prefix::Base, 1, 3))),
            r.m == shift_rep(x, prefix_shift(Prefix::Base, 1, 3)),
    {
        Self::in_unit(Prefix::Base, x)
    }

    /// This quantity in grams (`g`, 0.001 kg).
    pub fn as_g(&self) -> (r: Magnitude)
        requires
            self.wf(),
            can_shift(self.m, -(prefix_shift(Prefix::Base, 1, 3))),
        ensures
            r.wf(),
            rat_eq(r@, rat_scale10(self.m@, -(prefix_shift(Prefix::Base, 1, 3)))),
            r == shift_rep(self.m, -(prefix_shift(Prefix::Base, 1, 3))),
    {
        self.as_unit(Prefix::Base)
    }

    /// New `Mass` in grams (`g`, 0.001 kg).
    pub fn in_grams(x: Magnitude) -> (r: Self)
        requires
            x.wf(),
            can_shift(x, prefix_shift(Prefix::Base, 1, 3)),
        ensures
            r.wf(),
            rat_eq(r.m@, rat_scale10(x@, prefix_shift(Prefix::Base, 1, 3))),
            r.m == shift_rep(x, prefix_shift(Prefix::Base, 1, 3)),
    {
        Self::in_unit(Prefix::Base, x)
    }

    /// This quantity in grams (`g`, 0.001 kg).
    pub fn as_grams(&self) -> (r: Magnitude)
        requires
            self.wf(),
            can_shift(self.m, -(prefix_shift(Prefix::Base, 1, 3))),
        ensures
            r.wf(),
            rat_eq(r@, rat_scale10(self.m@, -(prefix_shift(Prefix::Base, 1, 3)))),
            r == shift_rep(self.m, -(prefix_shift(Prefix::Base, 1, 3))),
    {
        self.as_unit(Prefix::Base)
    }

}

/// # The full named prefix ladder
///
/// One constructor/accessor pair per prefix, under the short and the long
/// name; each is the generic pair fixed to one prefix.
impl Mass {
    /// New `Mass` in yottagrams (`Yg`, 1e24 g).
    #[allow(non_snake_case)]
    pub fn in_Yg(x: Magnitude) -> (r: Self)
        requires
            x.wf(),
            can_shift(x, prefix_shift(Prefix::Yotta, 1, 3)),
        ensures
            r.wf(),
            rat_eq(r.m@, rat_scale10(x@, prefix_shift(Prefix::Yotta, 1, 3))),
            r.m == shift_rep(x, prefix_shift(Prefix::Yotta, 1, 3)),
    {
        Self::in_unit(Prefix::Yotta, x)
    }

    /// This quantity in yottagrams (`Yg`, 1e24 g).
    #[allow(non_snake_case)]
    pub fn as_Yg(&self) -> (r: Magnitude)
        requires
            self.wf(),
            can_shift(self.m, -prefix_shift(Prefix::Yotta, 1, 3)),
        ensures
            r.wf(),
            rat_eq(r@, rat_scale10(self.m@, -prefix_shift(Prefix::Yotta, 1, 3))),
            r == shift_rep(self.m, -prefix_shift(Prefix::Yotta, 1, 3)),
    {
        self.as_unit(Prefix::Yotta)
    }

    /// New `Mass` in yottagrams (`Yg`, 1e24 g).
    pub fn in_yottagrams(x: Magnitude) -> (r: Self)
        requires
            x.wf(),
            can_shift(x, prefix_shift(Prefix::Yotta, 1, 3)),
        ensures
            r.wf(),
            rat_eq(r.m@, rat_scale10(x@, prefix_shift(Prefix::Yotta, 1, 3))),
            r.m == shift_rep(x, prefix_shift(Prefix::Yotta, 1, 3)),
    {
        Self::in_unit(Prefix::Yotta, x)
    }

    /// This quantity in yottagrams (`Yg`, 1e24 g).
    pub fn as_yottagrams(&self) -> (r: Magnitude)
        requires
            self.wf(),
            can_shift(self.m, -prefix_shift(Prefix::Yotta, 1, 3)),
        ensures
            r.wf(),
            rat_eq(r@, rat_scale10(self.m@, -prefix_shift(Prefix::Yotta, 1, 3))),
            r == shift_rep(self.m, -prefix_shift(Prefix::Yotta, 1, 3)),
    {
        self.as_unit(Prefix::Yotta)
    }

    /// New `Mass` in zettagrams (`Zg`, 1e21 g).
    #[allow(non_snake_case)]
    pub fn in_Zg(x: Magnitude) -> (r: Self)
        requires
            x.wf(),
            can_shift(x, prefix_shift(Prefix::Zetta, 1, 3)),
        ensures
            r.wf(),
            rat_eq(r.m@, rat_scale10(x@, prefix_shift(Prefix::Zetta, 1, 3))),
            r.m == shift_rep(x, prefix_shift(Prefix::Zetta, 1, 3)),
    {
        Self::in_unit(Prefix::Zetta, x)
    }

    /// This quantity in zettagrams (`Zg`, 1e21 g).
    #[allow(non_snake_case)]
    pub fn as_Zg(&self) -> (r: Magnitude)
        requires
            self.wf(),
            can_shift(self.m, -prefix_shift(Prefix::Zetta, 1, 3)),
        ensures
            r.wf(),
            rat_eq(r@, rat_scale10(self.m@, -prefix_shift(Prefix::Zetta, 1, 3))),
            r == shift_rep(self.m, -prefix_shift(Prefix::Zetta, 1, 3)),
    {
        self.as_unit(Prefix::Zetta)
    }

    /// New `Mass` in zettagrams (`Zg`, 1e21 g).
    pub fn in_zettagrams(x: Magnitude) -> (r: Self)
        requires
            x.wf(),
            can_shift(x, prefix_shift(Prefix::Zetta, 1, 3)),
        ensures
            r.wf(),
            rat_eq(r.m@, rat_scale10(x@, prefix_shift(Prefix::Zetta, 1, 3))),
            r.m == shift_rep(x, prefix_shift(Prefix::Zetta, 1, 3)),
    {
        Self::in_unit(Prefix::Zetta, x)
    }

    /// This quantity in zettagrams (`Zg`, 1e21 g).
    pub fn as_zettagrams(&self) -> (r: Magnitude)
        requires
            self.wf(),
            can_shift(self.m, -prefix_shift(Prefix::Zetta, 1, 3)),
        ensures
            r.wf(),
            rat_eq(r@, rat_scale10(self.m@, -prefix_shift(Prefix::Zetta, 1, 3))),
            r == shift_rep(self.m, -prefix_shift(Prefix::Zetta, 1, 3)),
    {
        self.as_unit(Prefix::Zetta)
    }

    /// New `Mass` in exagrams (`Eg`, 1e18 g).
    #[allow(non_snake_case)]
    pub fn in_Eg(x: Magnitude) -> (r: Self)
        requires
            x.wf(),
            can_shift(x, prefix_shift(Prefix::Exa, 1, 3)),
        ensures
            r.wf(),
            rat_eq(r.m@, rat_scale10(x@, prefix_shift(Prefix::Exa, 1, 3))),
            r.m == shift_rep(x, prefix_shift(Prefix::Exa, 1, 3)),
    {
        Self::in_unit(Prefix::Exa, x)
    }

    /// This quantity in exagrams (`Eg`, 1e18 g).
    #[allow(non_snake_case)]
    pub fn as_Eg(&self) -> (r: Magnitude)
        requires
            self.wf(),
            can_shift(self.m, -prefix_shift(Prefix::Exa, 1, 3)),
        ensures
            r.wf(),
            rat_eq(r@, rat_scale10(self.m@, -prefix_shift(Prefix::Exa, 1, 3))),
            r == shift_rep(self.m, -prefix_shift(Prefix::Exa, 1, 3)),
    {
        self.as_unit(Prefix::Exa)
    }

    /// New `Mass` in exagrams (`Eg`, 1e18 g).
    pub fn in_exagrams(x: Magnitude) -> (r: Self)
        requires
            x.wf(),
            can_shift(x, prefix_shift(Prefix::Exa, 1, 3)),
        ensures
            r.wf(),
            rat_eq(r.m@, rat_scale10(x@, prefix_shift(Prefix::Exa, 1, 3))),
            r.m == shift_rep(x, prefix_shift(Prefix::Exa, 1, 3)),
    {
        Self::in_unit(Prefix::Exa, x)
    }

    /// This quantity in exagrams (`Eg`, 1e18 g).
    pub fn as_exagrams(&self) -> (r: Magnitude)
        requires
            self.wf(),
            can_shift(self.m, -prefix_shift(Prefix::Exa, 1, 3)),
        ensures
            r.wf(),
            rat_eq(r@, rat_scale10(self.m@, -prefix_shift(Prefix::Exa, 1, 3))),
            r == shift_rep(self.m, -prefix_shift(Prefix::Exa, 1, 3)),
    {
        self.as_unit(Prefix::Exa)
    }

    /// New `Mass` in petagrams (`Pg`, 1e15 g).
    #[allow(non_snake_case)]
    pub fn in_Pg(x: Magnitude) -> (r: Self)
        requires
            x.wf(),
            can_shift(x, prefix_shift(Prefix::Peta, 1, 3)),
        ensures
            r.wf(),
            rat_eq(r.m@, rat_scale10(x@, prefix_shift(Prefix::Peta, 1, 3))),
            r.m == shift_rep(x, prefix_shift(Prefix::Peta, 1, 3)),
    {
        Self::in_unit(Prefix::Peta, x)
    }

    /// This quantity in petagrams (`Pg`, 1e15 g).
    #[allow(non_snake_case)]
    pub fn as_Pg(&self) -> (r: Magnitude)
        requires
            self.wf(),
            can_shift(self.m, -prefix_shift(Prefix::Peta, 1, 3)),
        ensures
            r.wf(),
            rat_eq(r@, rat_scale10(self.m@, -prefix_shift(Prefix::Peta, 1, 3))),
            r == shift_rep(self.m, -prefix_shift(Prefix::Peta, 1, 3)),
    {
        self.as_unit(Prefix::Peta)
    }

    /// New `Mass` in petagrams (`Pg`, 1e15 g).
    pub fn in_petagrams(x: Magnitude) -> (r: Self)
        requires
            x.wf(),
            can_shift(x, prefix_shift(Prefix::Peta, 1, 3)),
        ensures
            r.wf(),
            rat_eq(r.m@, rat_scale10(x@, prefix_shift(Prefix::Peta, 1, 3))),
            r.m == shift_rep(x, prefix_shift(Prefix::Peta, 1, 3)),
    {
        Self::in_unit(Prefix::Peta, x)
    }

    /// This quantity in petagrams (`Pg`, 1e15 g).
    pub fn as_petagrams(&self) -> (r: Magnitude)
        requires
            self.wf(),
            can_shift(self.m, -prefix_shift(Prefix::Peta, 1, 3)),
        ensures
            r.wf(),
            rat_eq(r@, rat_scale10(self.m@, -prefix_shift(Prefix::Peta, 1, 3))),
            r == shift_rep(self.m, -prefix_shift(Prefix::Peta, 1, 3)),
    {
        self.as_unit(Prefix::Peta)
    }

    /// New `Mass` in teragrams (`Tg`, 1e12 g).
    #[allow(non_snake_case)]
    pub fn in_Tg(x: Magnitude) -> (r: Self)
        requires
            x.wf(),
            can_shift(x, prefix_shift(Prefix::Tera, 1, 3)),
        ensures
            r.wf(),
            rat_eq(r.m@, rat_scale10(x@, prefix_shift(Prefix::Tera, 1, 3))),
            r.m == shift_rep(x, prefix_shift(Prefix::Tera, 1, 3)),
    {
        Self::in_unit(Prefix::Tera, x)
    }

    /// This quantity in teragrams (`Tg`, 1e12 g).
    #[allow(non_snake_case)]
    pub fn as_Tg(&self) -> (r: Magnitude)
        requires
            self.wf(),
            can_shift(self.m, -prefix_shift(Prefix::Tera, 1, 3)),
        ensures
            r.wf(),
            rat_eq(r@, rat_scale10(self.m@, -prefix_shift(Prefix::Tera, 1, 3))),
            r == shift_rep(self.m, -prefix_shift(Prefix::Tera, 1, 3)),
    {
        self.as_unit(Prefix::Tera)
    }

    /// New `Mass` in teragrams (`Tg`, 1e12 g).
    pub fn in_teragrams(x: Magnitude) -> (r: Self)
        requires
            x.wf(),
            can_shift(x, prefix_shift(Prefix::Tera, 1, 3)),
        ensures
            r.wf(),
            rat_eq(r.m@, rat_scale10(x@, prefix_shift(Prefix::Tera, 1, 3))),
            r.m == shift_rep(x, prefix_shift(Prefix::Tera, 1, 3)),
    {
        Self::in_unit(Prefix::Tera, x)
    }

    /// This quantity in teragrams (`Tg`, 1e12 g).
    pub fn as_teragrams(&self) -> (r: Magnitude)
        requires
            self.wf(),
            can_shift(self.m, -prefix_shift(Prefix::Tera, 1, 3)),
        ensures
            r.wf(),
            rat_eq(r@, rat_scale10(self.m@, -prefix_shift(Prefix::Tera, 1, 3))),
            r == shift_rep(self.m, -prefix_shift(Prefix::Tera, 1, 3)),
    {
        self.as_unit(Prefix::Tera)
    }

    /// New `Mass` in gigagrams (`Gg`, 1e9 g).
    #[allow(non_snake_case)]
    pub fn in_Gg(x: Magnitude) -> (r: Self)
        requires
            x.wf(),
            can_shift(x, prefix_shift(Prefix::Giga, 1, 3)),
        ensures
            r.wf(),
            rat_eq(r.m@, rat_scale10(x@, prefix_shift(Prefix::Giga, 1, 3))),
            r.m == shift_rep(x, prefix_shift(Prefix::Giga, 1, 3)),
    {
        Self::in_unit(Prefix::Giga, x)
    }

    /// This quantity in gigagrams (`Gg`, 1e9 g).
    #[allow(non_snake_case)]
    pub fn as_Gg(&self) -> (r: Magnitude)
        requires
            self.wf(),
            can_shift(self.m, -prefix_shift(Prefix::Giga, 1, 3)),
        ensures
            r.wf(),
            rat_eq(r@, rat_scale10(self.m@, -prefix_shift(Prefix::Giga, 1, 3))),
            r == shift_rep(self.m, -prefix_shift(Prefix::Giga, 1, 3)),
    {
        self.as_unit(Prefix::Giga)
    }

    /// New `Mass` in gigagrams (`Gg`, 1e9 g).
    pub fn in_gigagrams(x: Magnitude) -> (r: Self)
        requires
            x.wf(),
            can_shift(x, prefix_shift(Prefix::Giga, 1, 3)),
        ensures
            r.wf(),
            rat_eq(r.m@, rat_scale10(x@, prefix_shift(Prefix::Giga, 1, 3))),
            r.m == shift_rep(x, prefix_shift(Prefix::Giga, 1, 3)),
    {
        Self::in_unit(Prefix::Giga, x)
    }

    /// This quantity in gigagrams (`Gg`, 1e9 g).
    pub fn as_gigagrams(&self) -> (r: Magnitude)
        requires
            self.wf(),
            can_shift(self.m, -prefix_shift(Prefix::Giga, 1, 3)),
        ensures
            r.wf(),
            rat_eq(r@, rat_scale10(self.m@, -prefix_shift(Prefix::Giga, 1, 3))),
            r == shift_rep(self.m, -prefix_shift(Prefix::Giga, 1, 3)),
    {
        self.as_unit(Prefix::Giga)
    }

    /// New `Mass` in megagrams (`Mg`, 1e6 g).
    #[allow(non_snake_case)]
    pub fn in_Mg(x: Magnitude) -> (r: Self)
        requires
            x.wf(),
            can_shift(x, prefix_shift(Prefix::Mega, 1, 3)),
        ensures
            r.wf(),
            rat_eq(r.m@, rat_scale10(x@, prefix_shift(Prefix::Mega, 1, 3))),
            r.m == shift_rep(x, prefix_shift(Prefix::Mega, 1, 3)),
    {
        Self::in_unit(Prefix::Mega, x)
    }

    /// This quantity in megagrams (`Mg`, 1e6 g).
    #[allow(non_snake_case)]
    pub fn as_Mg(&self) -> (r: Magnitude)
        requires
            self.wf(),
            can_shift(self.m, -prefix_shift(Prefix::Mega, 1, 3)),
        ensures
            r.wf(),
            rat_eq(r@, rat_scale10(self.m@, -prefix_shift(Prefix::Mega, 1, 3))),
            r == shift_rep(self.m, -prefix_shift(Prefix::Mega, 1, 3)),
    {
        self.as_unit(Prefix::Mega)
    }

    /// New `Mass` in megagrams (`Mg`, 1e6 g).
    pub fn in_megagrams(x: Magnitude) -> (r: Self)
        requires
            x.wf(),
            can_shift(x, prefix_shift(Prefix::Mega, 1, 3)),
        ensures
            r.wf(),
            rat_eq(r.m@, rat_scale10(x@, prefix_shift(Prefix::Mega, 1, 3))),
            r.m == shift_rep(x, prefix_shift(Prefix::Mega, 1, 3)),
    {
        Self::in_unit(Prefix::Mega, x)
    }

    /// This quantity in megagrams (`Mg`, 1e6 g).
    pub fn as_megagrams(&self) -> (r: Magnitude)
        requires
            self.wf(),
            can_shift(self.m, -prefix_shift(Prefix::Mega, 1, 3)),
        ensures
            r.wf(),
            rat_eq(r@, rat_scale10(self.m@, -prefix_shift(Prefix::Mega, 1, 3))),
            r == shift_rep(self.m, -prefix_shift(Prefix::Mega, 1, 3)),
    {
        self.as_unit(Prefix::Mega)
    }

    /// New `Mass` in hectograms (`hg`, 100 g).
    pub fn in_hg(x: Magnitude) -> (r: Self)
        requires
            x.wf(),
            can_shift(x, prefix_shift(Prefix::Hecto, 1, 3)),
        ensures
            r.wf(),
            rat_eq(r.m@, rat_scale10(x@, prefix_shift(Prefix::Hecto, 1, 3))),
            r.m == shift_rep(x, prefix_shift(Prefix::Hecto, 1, 3)),
    {
        Self::in_unit(Prefix::Hecto, x)
    }

    /// This quantity in hectograms (`hg`, 100 g).
    pub fn as_hg(&self) -> (r: Magnitude)
        requires
            self.wf(),
            can_shift(self.m, -prefix_shift(Prefix::Hecto, 1, 3)),
        ensures
            r.wf(),
            rat_eq(r@, rat_scale10(self.m@, -prefix_shift(Prefix::Hecto, 1, 3))),
            r == shift_rep(self.m, -prefix_shift(Prefix::Hecto, 1, 3)),
    {
        self.as_unit(Prefix::Hecto)
    }

    /// New `Mass` in hectograms (`hg`, 100 g).
    pub fn in_hectograms(x: Magnitude) -> (r: Self)
        requires
            x.wf(),
            can_shift(x, prefix_shift(Prefix::Hecto, 1, 3)),
        ensures
            r.wf(),
            rat_eq(r.m@, rat_scale10(x@, prefix_shift(Prefix::Hecto, 1, 3))),
            r.m == shift_rep(x, prefix_shift(Prefix::Hecto, 1, 3)),
    {
        Self::in_unit(Prefix::Hecto, x)
    }

    /// This quantity in hectograms (`hg`, 100 g).
    pub fn as_hectograms(&self) -> (r: Magnitude)
        requires
            self.wf(),
            can_shift(self.m, -prefix_shift(Prefix::Hecto, 1, 3)),
        ensures
            r.wf(),
            rat_eq(r@, rat_scale10(self.m@, -prefix_shift(Prefix::Hecto, 1, 3))),
            r == shift_rep(self.m, -prefix_shift(Prefix::Hecto, 1, 3)),
    {
        self.as_unit(Prefix::Hecto)
    }

    /// New `Mass` in dekagrams (`dag`, 10 g).
    pub fn in_dag(x: Magnitude) -> (r: Self)
        requires
            x.wf(),
            can_shift(x, prefix_shift(Prefix::Deka, 1, 3)),
        ensures
            r.wf(),
            rat_eq(r.m@, rat_scale10(x@, prefix_shift(Prefix::Deka, 1, 3))),
            r.m == shift_rep(x, prefix_shift(Prefix::Deka, 1, 3)),
    {
        Self::in_unit(Prefix::Deka, x)
    }

    /// This quantity in dekagrams (`dag`, 10 g).
    pub fn as_dag(&self) -> (r: Magnitude)
        requires
            self.wf(),
            can_shift(self.m, -prefix_shift(Prefix::Deka, 1, 3)),
        ensures
            r.wf(),
            rat_eq(r@, rat_scale10(self.m@, -prefix_shift(Prefix::Deka, 1, 3))),
            r == shift_rep(self.m, -prefix_shift(Prefix::Deka, 1, 3)),
    {
        self.as_unit(Prefix::Deka)
    }

    /// New `Mass` in dekagrams (`dag`, 10 g).
    pub fn in_dekagrams(x: Magnitude) -> (r: Self)
        requires
            x.wf(),
            can_shift(x, prefix_shift(Prefix::Deka, 1, 3)),
        ensures
            r.wf(),
            rat_eq(r.m@, rat_scale10(x@, prefix_shift(Prefix::Deka, 1, 3))),
            r.m == shift_rep(x, prefix_shift(Prefix::Deka, 1, 3)),
    {
        Self::in_unit(Prefix::Deka, x)
    }

    /// This quantity in dekagrams (`dag`, 10 g).
    pub fn as_dekagrams(&self) -> (r: Magnitude)
        requires
            self.wf(),
            can_shift(self.m, -prefix_shift(Prefix::Deka, 1, 3)),
        ensures
            r.wf(),
            rat_eq(r@, rat_scale10(self.m@, -prefix_shift(Prefix::Deka, 1, 3))),
            r == shift_rep(self.m, -prefix_shift(Prefix::Deka, 1, 3)),
    {
        self.as_unit(Prefix::Deka)
    }

    /// New `Mass` in decigrams (`dg`, 0.1 g).
    pub fn in_dg(x: Magnitude) -> (r: Self)
        requires
            x.wf(),
            can_shift(x, prefix_shift(Prefix::Deci, 1, 3)),
        ensures
            r.wf(),
            rat_eq(r.m@, rat_scale10(x@, prefix_shift(Prefix::Deci, 1, 3))),
            r.m == shift_rep(x, prefix_shift(Prefix::Deci, 1, 3)),
    {
        Self::in_unit(Prefix::Deci, x)
    }

    /// This quantity in decigrams (`dg`, 0.1 g).
    pub fn as_dg(&self) -> (r: Magnitude)
        requires
            self.wf(),
            can_shift(self.m, -prefix_shift(Prefix::Deci, 1, 3)),
        ensures
            r.wf(),
            rat_eq(r@, rat_scale10(self.m@, -prefix_shift(Prefix::Deci, 1, 3))),
            r == shift_rep(self.m, -prefix_shift(Prefix::Deci, 1, 3)),
    {
        self.as_unit(Prefix::Deci)
    }

    /// New `Mass` in decigrams (`dg`, 0.1 g).
    pub fn in_decigrams(x: Magnitude) -> (r: Self)
        requires
            x.wf(),
            can_shift(x, prefix_shift(Prefix::Deci, 1, 3)),
        ensures
            r.wf(),
            rat_eq(r.m@, rat_scale10(x@, prefix_shift(Prefix::Deci, 1, 3))),
            r.m == shift_rep(x, prefix_shift(Prefix::Deci, 1, 3)),
    {
        Self::in_unit(Prefix::Deci, x)
    }

    /// This quantity in decigrams (`dg`, 0.1 g).
    pub fn as_decigrams(&self) -> (r: Magnitude)
        requires
            self.wf(),
            can_shift(self.m, -prefix_shift(Prefix::Deci, 1, 3)),
        ensures
            r.wf(),
            rat_eq(r@, rat_scale10(self.m@, -prefix_shift(Prefix::Deci, 1, 3))),
            r == shift_rep(self.m, -prefix_shift(Prefix::Deci, 1, 3)),
    {
        self.as_unit(Prefix::Deci)
    }

    /// New `Mass` in centigrams (`cg`, 0.01 g).
    pub fn in_cg(x: Magnitude) -> (r: Self)
        requires
            x.wf(),
            can_shift(x, prefix_shift(Prefix::Centi, 1, 3)),
        ensures
            r.wf(),
            rat_eq(r.m@, rat_scale10(x@, prefix_shift(Prefix::Centi, 1, 3))),
            r.m == shift_rep(x, prefix_shift(Prefix::Centi, 1, 3)),
    {
        Self::in_unit(Prefix::Centi, x)
    }

    /// This quantity in centigrams (`cg`, 0.01 g).
    pub fn as_cg(&self) -> (r: Magnitude)
        requires
            self.wf(),
            can_shift(self.m, -prefix_shift(Prefix::Centi, 1, 3)),
        ensures
            r.wf(),
            rat_eq(r@, rat_scale10(self.m@, -prefix_shift(Prefix::Centi, 1, 3))),
            r == shift_rep(self.m, -prefix_shift(Prefix::Centi, 1, 3)),
    {
        self.as_unit(Prefix::Centi)
    }

    /// New `Mass` in centigrams (`cg`, 0.01 g).
    pub fn in_centigrams(x: Magnitude) -> (r: Self)
        requires
            x.wf(),
            can_shift(x, prefix_shift(Prefix::Centi, 1, 3)),
        ensures
            r.wf(),
            rat_eq(r.m@, rat_scale10(x@, prefix_shift(Prefix::Centi, 1, 3))),
            r.m == shift_rep(x, prefix_shift(Prefix::Centi, 1, 3)),
    {
        Self::in_unit(Prefix::Centi, x)
    }

    /// This quantity in centigrams (`cg`, 0.01 g).
    pub fn as_centigrams(&self) -> (r: Magnitude)
        requires
            self.wf(),
            can_shift(self.m, -prefix_shift(Prefix::Centi, 1, 3)),
        ensures
            r.wf(),
            rat_eq(r@, rat_scale10(self.m@, -prefix_shift(Prefix::Centi, 1, 3))),
            r == shift_rep(self.m, -prefix_shift(Prefix::Centi, 1, 3)),
    {
        self.as_unit(Prefix::Centi)
    }

    /// New `Mass` in milligrams (`mg`, 0.001 g).
    pub fn in_mg(x: Magnitude) -> (r: Self)
        requires
            x.wf(),
            can_shift(x, prefix_shift(Prefix::Milli, 1, 3)),
        ensures
            r.wf(),
            rat_eq(r.m@, rat_scale10(x@, prefix_shift(Prefix::Milli, 1, 3))),
            r.m == shift_rep(x, prefix_shift(Prefix::Milli, 1, 3)),
    {
        Self::in_unit(Prefix::Milli, x)
    }

    /// This quantity in milligrams (`mg`, 0.001 g).
    pub fn as_mg(&self) -> (r: Magnitude)
        requires
            self.wf(),
            can_shift(self.m, -prefix_shift(Prefix::Milli, 1, 3)),
        ensures
            r.wf(),
            rat_eq(r@, rat_scale10(self.m@, -prefix_shift(Prefix::Milli, 1, 3))),
            r == shift_rep(self.m, -prefix_shift(Prefix::Milli, 1, 3)),
    {
        self.as_unit(Prefix::Milli)
    }

    /// New `Mass` in milligrams (`mg`, 0.001 g).
    pub fn in_milligrams(x: Magnitude) -> (r: Self)
        requires
            x.wf(),
            can_shift(x, prefix_shift(Prefix::Milli, 1, 3)),
        ensures
            r.wf(),
            rat_eq(r.m@, rat_scale10(x@, prefix_shift(Prefix::Milli, 1, 3))),
            r.m == shift_rep(x, prefix_shift(Prefix::Milli, 1, 3)),
    {
        Self::in_unit(Prefix::Milli, x)
    }

    /// This quantity in milligrams (`mg`, 0.001 g).
    pub fn as_milligrams(&self) -> (r: Magnitude)
        requires
            self.wf(),
            can_shift(self.m, -prefix_shift(Prefix::Milli, 1, 3)),
        ensures
            r.wf(),
            rat_eq(r@, rat_scale10(self.m@, -prefix_shift(Prefix::Milli, 1, 3))),
            r == shift_rep(self.m, -prefix_shift(Prefix::Milli, 1, 3)),
    {
        self.as_unit(Prefix::Milli)
    }

    /// New `Mass` in micrograms (`ug`, 1e-6 g).
    pub fn in_ug(x: Magnitude) -> (r: Self)
        requires
            x.wf(),
            can_shift(x, prefix_shift(Prefix::Micro, 1, 3)),
        ensures
            r.wf(),
            rat_eq(r.m@, rat_scale10(x@, prefix_shift(Prefix::Micro, 1, 3))),
            r.m == shift_rep(x, prefix_shift(Prefix::Micro, 1, 3)),
    {
        Self::in_unit(Prefix::Micro, x)
    }

    /// This quantity in micrograms (`ug`, 1e-6 g).
    pub fn as_ug(&self) -> (r: Magnitude)
        requires
            self.wf(),
            can_shift(self.m, -prefix_shift(Prefix::Micro, 1, 3)),
        ensures
            r.wf(),
            rat_eq(r@, rat_scale10(self.m@, -prefix_shift(Prefix::Micro, 1, 3))),
            r == shift_rep(self.m, -prefix_shift(Prefix::Micro, 1, 3)),
    {
        self.as_unit(Prefix::Micro)
    }

    /// New `Mass` in micrograms (`ug`, 1e-6 g).
    pub fn in_micrograms(x: Magnitude) -> (r: Self)
        requires
            x.wf(),
            can_shift(x, prefix_shift(Prefix::Micro, 1, 3)),
        ensures
            r.wf(),
            rat_eq(r.m@, rat_scale10(x@, prefix_shift(Prefix::Micro, 1, 3))),
            r.m == shift_rep(x, prefix_shift(Prefix::Micro, 1, 3)),
    {
        Self::in_unit(Prefix::Micro, x)
    }

    /// This quantity in micrograms (`ug`, 1e-6 g).
    pub fn as_micrograms(&self) -> (r: Magnitude)
        requires
            self.wf(),
            can_shift(self.m, -prefix_shift(Prefix::Micro, 1, 3)),
        ensures
            r.wf(),
            rat_eq(r@, rat_scale10(self.m@, -prefix_shift(Prefix::Micro, 1, 3))),
            r == shift_rep(self.m, -prefix_shift(Prefix::Micro, 1, 3)),
    {
        self.as_unit(Prefix::Micro)
    }

    /// New `Mass` in nanograms (`ng`, 1e-9 g).
    pub fn in_ng(x: Magnitude) -> (r: Self)
        requires
            x.wf(),
            can_shift(x, prefix_shift(Prefix::Nano, 1, 3)),
        ensures
            r.wf(),
            rat_eq(r.m@, rat_scale10(x@, prefix_shift(Prefix::Nano, 1, 3))),
            r.m == shift_rep(x, prefix_shift(Prefix::Nano, 1, 3)),
    {
        Self::in_unit(Prefix::Nano, x)
    }

    /// This quantity in nanograms (`ng`, 1e-9 g).
    pub fn as_ng(&self) -> (r: Magnitude)
        requires
            self.wf(),
            can_shift(self.m, -prefix_shift(Prefix::Nano, 1, 3)),
        ensures
            r.wf(),
            rat_eq(r@, rat_scale10(self.m@, -prefix_shift(Prefix::Nano, 1, 3))),
            r == shift_rep(self.m, -prefix_shift(Prefix::Nano, 1, 3)),
    {
        self.as_unit(Prefix::Nano)
    }

    /// New `Mass` in nanograms (`ng`, 1e-9 g).
    pub fn in_nanograms(x: Magnitude) -> (r: Self)
        requires
            x.wf(),
            can_shift(x, prefix_shift(Prefix::Nano, 1, 3)),
        ensures
            r.wf(),
            rat_eq(r.m@, rat_scale10(x@, prefix_shift(Prefix::Nano, 1, 3))),
            r.m == shift_rep(x, prefix_shift(Prefix::Nano, 1, 3)),
    {
        Self::in_unit(Prefix::Nano, x)
    }

    /// This quantity in nanograms (`ng`, 1e-9 g).
    pub fn as_nanograms(&self) -> (r: Magnitude)
        requires
            self.wf(),
            can_shift(self.m, -prefix_shift(Prefix::Nano, 1, 3)),
        ensures
            r.wf(),
            rat_eq(r@, rat_scale10(self.m@, -prefix_shift(Prefix::Nano, 1, 3))),
            r == shift_rep(self.m, -prefix_shift(Prefix::Nano, 1, 3)),
    {
        self.as_unit(Prefix::Nano)
    }

    /// New `Mass` in picograms (`pg`, 1e-12 g).
    pub fn in_pg(x: Magnitude) -> (r: Self)
        requires
            x.wf(),
            can_shift(x, prefix_shift(Prefix::Pico, 1, 3)),
        ensures
            r.wf(),
            rat_eq(r.m@, rat_scale10(x@, prefix_shift(Prefix::Pico, 1, 3))),
            r.m == shift_rep(x, prefix_shift(Prefix::Pico, 1, 3)),
    {
        Self::in_unit(Prefix::Pico, x)
    }

    /// This quantity in picograms (`pg`, 1e-12 g).
    pub fn as_pg(&self) -> (r: Magnitude)
        requires
            self.wf(),
            can_shift(self.m, -prefix_shift(Prefix::Pico, 1, 3)),
        ensures
            r.wf(),
            rat_eq(r@, rat_scale10(self.m@, -prefix_shift(Prefix::Pico, 1, 3))),
            r == shift_rep(self.m, -prefix_shift(Prefix::Pico, 1, 3)),
    {
        self.as_unit(Prefix::Pico)
    }

    /// New `Mass` in picograms (`pg`, 1e-12 g).
    pub fn in_picograms(x: Magnitude) -> (r: Self)
        requires
            x.wf(),
            can_shift(x, prefix_shift(Prefix::Pico, 1, 3)),
        ensures
            r.wf(),
            rat_eq(r.m@, rat_scale10(x@, prefix_shift(Prefix::Pico, 1, 3))),
            r.m == shift_rep(x, prefix_shift(Prefix::Pico, 1, 3)),
    {
        Self::in_unit(Prefix::Pico, x)
    }

    /// This quantity in picograms (`pg`, 1e-12 g).
    pub fn as_picograms(&self) -> (r: Magnitude)
        requires
            self.wf(),
            can_shift(self.m, -prefix_shift(Prefix::Pico, 1, 3)),
        ensures
            r.wf(),
            rat_eq(r@, rat_scale10(self.m@, -prefix_shift(Prefix::Pico, 1, 3))),
            r == shift_rep(self.m, -prefix_shift(Prefix::Pico, 1, 3)),
    {
        self.as_unit(Prefix::Pico)
    }

    /// New `Mass` in femtograms (`fg`, 1e-15 g).
    pub fn in_fg(x: Magnitude) -> (r: Self)
        requires
            x.wf(),
            can_shift(x, prefix_shift(Prefix::Femto, 1, 3)),
        ensures
            r.wf(),
            rat_eq(r.m@, rat_scale10(x@, prefix_shift(Prefix::Femto, 1, 3))),
            r.m == shift_rep(x, prefix_shift(Prefix::Femto, 1, 3)),
    {
        Self::in_unit(Prefix::Femto, x)
    }

    /// This quantity in femtograms (`fg`, 1e-15 g).
    pub fn as_fg(&self) -> (r: Magnitude)
        requires
            self.wf(),
            can_shift(self.m, -prefix_shift(Prefix::Femto, 1, 3)),
        ensures
            r.wf(),
            rat_eq(r@, rat_scale10(self.m@, -prefix_shift(Prefix::Femto, 1, 3))),
            r == shift_rep(self.m, -prefix_shift(Prefix::Femto, 1, 3)),
    {
        self.as_unit(Prefix::Femto)
    }

    /// New `Mass` in femtograms (`fg`, 1e-15 g).
    pub fn in_femtograms(x: Magnitude) -> (r: Self)
        requires
            x.wf(),
            can_shift(x, prefix_shift(Prefix::Femto, 1, 3)),
        ensures
            r.wf(),
            rat_eq(r.m@, rat_scale10(x@, prefix_shift(Prefix::Femto, 1, 3))),
            r.m == shift_rep(x, prefix_shift(Prefix::Femto, 1, 3)),
    {
        Self::in_unit(Prefix::Femto, x)
    }

    /// This quantity in femtograms (`fg`, 1e-15 g).
    pub fn as_femtograms(&self) -> (r: Magnitude)
        requires
            self.wf(),
            can_shift(self.m, -prefix_shift(Prefix::Femto, 1, 3)),
        ensures
            r.wf(),
            rat_eq(r@, rat_scale10(self.m@, -prefix_shift(Prefix::Femto, 1, 3))),
            r == shift_rep(self.m, -prefix_shift(Prefix::Femto, 1, 3)),
    {
        self.as_unit(Prefix::Femto)
    }

    /// New `Mass` in attograms (`ag`, 1e-18 g).
    pub fn in_ag(x: Magnitude) -> (r: Self)
        requires
            x.wf(),
            can_shift(x, prefix_shift(Prefix::Atto, 1, 3)),
        ensures
            r.wf(),
            rat_eq(r.m@, rat_scale10(x@, prefix_shift(Prefix::Atto, 1, 3))),
            r.m == shift_rep(x, prefix_shift(Prefix::Atto, 1, 3)),
    {
        Self::in_unit(Prefix::Atto, x)
    }

    /// This quantity in attograms (`ag`, 1e-18 g).
    pub fn as_ag(&self) -> (r: Magnitude)
        requires
            self.wf(),
            can_shift(self.m, -prefix_shift(Prefix::Atto, 1, 3)),
        ensures
            r.wf(),
            rat_eq(r@, rat_scale10(self.m@, -prefix_shift(Prefix::Atto, 1, 3))),
            r == shift_rep(self.m, -prefix_shift(Prefix::Atto, 1, 3)),
    {
        self.as_unit(Prefix::Atto)
    }

    /// New `Mass` in attograms (`ag`, 1e-18 g).
    pub fn in_attograms(x: Magnitude) -> (r: Self)
        requires
            x.wf(),
            can_shift(x, prefix_shift(Prefix::Atto, 1, 3)),
        ensures
            r.wf(),
            rat_eq(r.m@, rat_scale10(x@, prefix_shift(Prefix::Atto, 1, 3))),
            r.m == shift_rep(x, prefix_shift(Prefix::Atto, 1, 3)),
    {
        Self::in_unit(Prefix::Atto, x)
    }

    /// This quantity in attograms (`ag`, 1e-18 g).
    pub fn as_attograms(&self) -> (r: Magnitude)
        requires
            self.wf(),
            can_shift(self.m, -prefix_shift(Prefix::Atto, 1, 3)),
        ensures
            r.wf(),
            rat_eq(r@, rat_scale10(self.m@, -prefix_shift(Prefix::Atto, 1, 3))),
            r == shift_rep(self.m, -prefix_shift(Prefix::Atto, 1, 3)),
    {
        self.as_unit(Prefix::Atto)
    }

    /// New `Mass` in zeptograms (`zg`, 1e-21 g).
    pub fn in_zg(x: Magnitude) -> (r: Self)
        requires
            x.wf(),
            can_shift(x, prefix_shift(Prefix::Zepto, 1, 3)),
        ensures
            r.wf(),
            rat_eq(r.m@, rat_scale10(x@, prefix_shift(Prefix::Zepto, 1, 3))),
            r.m == shift_rep(x, prefix_shift(Prefix::Zepto, 1, 3)),
    {
        Self::in_unit(Prefix::Zepto, x)
    }

    /// This quantity in zeptograms (`zg`, 1e-21 g).
    pub fn as_zg(&self) -> (r: Magnitude)
        requires
            self.wf(),
            can_shift(self.m, -prefix_shift(Prefix::Zepto, 1, 3)),
        ensures
            r.wf(),
            rat_eq(r@, rat_scale10(self.m@, -prefix_shift(Prefix::Zepto, 1, 3))),
            r == shift_rep(self.m, -prefix_shift(Prefix::Zepto, 1, 3)),
    {
        self.as_unit(Prefix::Zepto)
    }

    /// New `Mass` in zeptograms (`zg`, 1e-21 g).
    pub fn in_zeptograms(x: Magnitude) -> (r: Self)
        requires
            x.wf(),
            can_shift(x, prefix_shift(Prefix::Zepto, 1, 3)),
        ensures
            r.wf(),
            rat_eq(r.m@, rat_scale10(x@, prefix_shift(Prefix::Zepto, 1, 3))),
            r.m == shift_rep(x, prefix_shift(Prefix::Zepto, 1, 3)),
    {
        Self::in_unit(Prefix::Zepto, x)
    }

    /// This quantity in zeptograms (`zg`, 1e-21 g).
    pub fn as_zeptograms(&self) -> (r: Magnitude)
        requires
            self.wf(),
            can_shift(self.m, -prefix_shift(Prefix::Zepto, 1, 3)),
        ensures
            r.wf(),
            rat_eq(r@, rat_scale10(self.m@, -prefix_shift(Prefix::Zepto, 1, 3))),
            r == shift_rep(self.m, -prefix_shift(Prefix::Zepto, 1, 3)),
    {
        self.as_unit(Prefix::Zepto)
    }

    /// New `Mass` in yoctograms (`yg`, 1e-24 g).
    pub fn in_yg(x: Magnitude) -> (r: Self)
        requires
            x.wf(),
            can_shift(x, prefix_shift(Prefix::Yocto, 1, 3)),
        ensures
            r.wf(),
            rat_eq(r.m@, rat_scale10(x@, prefix_shift(Prefix::Yocto, 1, 3))),
            r.m == shift_rep(x, prefix_shift(Prefix::Yocto, 1, 3)),
    {
        Self::in_unit(Prefix::Yocto, x)
    }

    /// This quantity in yoctograms (`yg`, 1e-24 g).
    pub fn as_yg(&self) -> (r: Magnitude)
        requires
            self.wf(),
            can_shift(self.m, -prefix_shift(Prefix::Yocto, 1, 3)),
        ensures
            r.wf(),
            rat_eq(r@, rat_scale10(self.m@, -prefix_shift(Prefix::Yocto, 1, 3))),
            r == shift_rep(self.m, -prefix_shift(Prefix::Yocto, 1, 3)),
    {
        self.as_unit(Prefix::Yocto)
    }

    /// New `Mass` in yoctograms (`yg`, 1e-24 g).
    pub fn in_yoctograms(x: Magnitude) -> (r: Self)
        requires
            x.wf(),
            can_shift(x, prefix_shift(Prefix::Yocto, 1, 3)),
        ensures
            r.wf(),
            rat_eq(r.m@, rat_scale10(x@, prefix_shift(Prefix::Yocto, 1, 3))),
            r.m == shift_rep(x, prefix_shift(Prefix::Yocto, 1, 3)),
    {
        Self::in_unit(Prefix::Yocto, x)
    }

    /// This quantity in yoctograms (`yg`, 1e-24 g).
    pub fn as_yoctograms(&self) -> (r: Magnitude)
        requires
            self.wf(),
            can_shift(self.m, -prefix_shift(Prefix::Yocto, 1, 3)),
        ensures
            r.wf(),
            rat_eq(r@, rat_scale10(self.m@, -prefix_shift(Prefix::Yocto, 1, 3))),
            r == shift_rep(self.m, -prefix_shift(Prefix::Yocto, 1, 3)),
    {
        self.as_unit(Prefix::Yocto)
    }

}

/// # `Mass` formulas
impl Mass {
    /// Derives the `Mass` from the given energy (`m = E / c^2`).
    pub fn from_energy(e: Energy) -> (r: Self)
        requires
            e.wf(),
            can_divide(e.m, whole_mag(89_875_517_873_681_764)),
        ensures
            r.wf(),
            rat_eq(r.m@, rat_div(e.m@, whole_mag(89_875_517_873_681_764)@)),
            r.m == div_rep(e.m, whole_mag(89_875_517_873_681_764)),
    {
        Mass { m: e.m.divided_by(&Magnitude::from_int(89_875_517_873_681_764)) }
    }

    /// Derives the `Mass` from the given force and acceleration (`m = F / a`).
    pub fn from_force_acceleration(f: Force, a: Acceleration) -> (r: Self)
        requires
            f.wf(),
            a.wf(),
            can_divide(f.m, a.m),
        ensures
            r.wf(),
            rat_eq(r.m@, rat_div(f.m@, a.m@)),
            r.m == div_rep(f.m, a.m),
    {
        Mass { m: f.m.divided_by(&a.m) }
    }

    /// (Alias of [`from_force_acceleration`][Mass::from_force_acceleration].)
    pub fn from_acceleration_force(a: Acceleration, f: Force) -> (r: Self)
        requires
            f.wf(),
            a.wf(),
            can_divide(f.m, a.m),
        ensures
            r.wf(),
            rat_eq(r.m@, rat_div(f.m@, a.m@)),
            r.m == div_rep(f.m, a.m),
    {
        Self::from_force_acceleration(f, a)
    }

    /// Calculates the force given the acceleration (`F = m * a`); the result takes the direction of the acceleration.
    pub fn calc_force(&self, a: Acceleration) -> (r: Force)
        requires
            self.wf(),
            a.wf(),
            can_times(self.m, a.m),
        ensures
            r.wf(),
            rat_eq(r.m@, rat_mul(self.m@, a.m@)),
            r.m == times_rep(self.m, a.m),
            r.d == a.d,
    {
        Force::new(self.m.times(&a.m), a.d)
    }

    /// Calculates the acceleration given the force (`a = F / m`); the result takes the direction of the force.
    pub fn calc_acceleration(&self, f: Force) -> (r: Acceleration)
        requires
            self.wf(),
            f.wf(),
            can_divide(f.m, self.m),
        ensures
            r.wf(),
            rat_eq(r.m@, rat_div(f.m@, self.m@)),
            r.m == div_rep(f.m, self.m),
            r.d == f.d,
    {
        Acceleration::new(f.m.divided_by(&self.m), f.d)
    }

    /// Derives the `Mass` from the given weight and gravitational field strength (`m = W / g`).
    pub fn from_weight_gfs(w: Weight, g: GravitationalFieldStrength) -> (r: Self)
        requires
            w.wf(),
            g.wf(),
            can_divide(w.m, g.m),
        ensures
            r.wf(),
            rat_eq(r.m@, rat_div(w.m@, g.m@)),
            r.m == div_rep(w.m, g.m),
    {
        Mass { m: w.m.divided_by(&g.m) }
    }

    /// Calculates the weight given the gravitational field strength (`W = m * g`); the result takes the direction of the field.
    pub fn calc_weight(&self, g: GravitationalFieldStrength) -> (r: Weight)
        requires
            self.wf(),
            g.wf(),
            can_times(self.m, g.m),
        ensures
            r.wf(),
            rat_eq(r.m@, rat_mul(self.m@, g.m@)),
            r.m == times_rep(self.m, g.m),
            r.d == g.d,
    {
        Force::new(self.m.times(&g.m), g.d)
    }

    /// Calculates the gravitational field strength given the weight (`g = W / m`); the result takes the direction of the weight.
    pub fn calc_gfs(&self, w: Weight) -> (r: GravitationalFieldStrength)
        requires
            self.wf(),
            w.wf(),
            can_divide(w.m, self.m),
        ensures
            r.wf(),
            rat_eq(r.m@, rat_div(w.m@, self.m@)),
            r.m == div_rep(w.m, self.m),
            r.d == w.d,
    {
        Gfs::new(w.m.divided_by(&self.m), w.d)
    }

}

/// # `Mass` constants
impl Mass {
    /// The rest mass of the electron (9.1093837e-31 kg).
    pub fn electron() -> (r: Self)
        ensures
            r.wf(),
            r.m == decimal_mag(910938370, -39),
    {
        Mass { m: Magnitude::from_decimal(910938370, -39) }
    }

    /// The rest mass of the proton (1.67262192369e-27 kg).
    pub fn proton() -> (r: Self)
        ensures
            r.wf(),
            r.m == decimal_mag(167262192369, -38),
    {
        Mass { m: Magnitude::from_decimal(167262192369, -38) }
    }

    /// The rest mass of the neutron (1.674927498e-27 kg).
    pub fn neutron() -> (r: Self)
        ensures
            r.wf(),
            r.m == decimal_mag(1674927498, -36),
    {
        Mass { m: Magnitude::from_decimal(1674927498, -36) }
    }

}

impl Unit for Mass {
    open spec fn mag_rep(&self) -> Magnitude {
        self.m
    }

    open spec fn symbol_spec() -> Seq<char> {
        "kg"@
    }

    open spec fn singular_spec() -> Seq<char> {
        "kilogram"@
    }

    open spec fn plural_spec() -> Seq<char> {
        "kilograms"@
    }

    fn unit() -> (s: String) {
        String::from_str("kg")
    }

    fn unit_long_s(&self) -> (s: String) {
        String::from_str("kilogram")
    }

    fn unit_long_p(&self) -> (s: String) {
        String::from_str("kilograms")
    }

    fn unit_long(&self) -> (s: String) {
        pluralized(&self.m, "kilogram", "kilograms")
    }

    fn long(&self) -> (s: String) {
        long_form(&self.m, "kilogram", "kilograms")
    }

    fn short(&self) -> (s: String) {
        short_form(&self.m, "kg")
    }
}

} // verus!
