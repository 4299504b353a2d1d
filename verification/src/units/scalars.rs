//! The scalar derived quantities: charge, frequency, power, pressure, energy, speed and density.

use vstd::prelude::*;

use crate::display::{long_form, pluralized, short_form};
use crate::magnitude::{
    can_divide, can_shift, can_times, decimal_mag, div_rep, Magnitude, shift_rep, times_rep, whole_mag,
};
use crate::prefix::{canonical_to_prefixed, prefix_shift, prefixed_to_canonical, Prefix};
use crate::rat::{rat_div, rat_eq, rat_mul, rat_scale10};
use crate::unit::Unit;
use crate::units::{Distance, Force, Mass, Time};

verus! {

/// Electric charge, stored in coulombs (`C`).
#[derive(Clone, Copy, Debug, PartialEq, Eq, Structural)]
pub struct Charge {
    pub m: Magnitude,
}

impl Charge {
    /// The stored magnitude is well-formed.
    pub open spec fn wf(self) -> bool {
        self.m.wf()
    }

    /// New `Charge` from a magnitude in coulombs (`C`).
    pub fn new(m: Magnitude) -> (r: Self)
        requires
            m.wf(),
        ensures
            r.m == m,
    {
        Charge { m }
    }

    /// Returns the magnitude, in coulombs (`C`).
    pub fn m(&self) -> (r: Magnitude)
        ensures
            r == self.m,
    {
        self.m
    }

    /// New `Charge` of `x` prefixed units.
    pub fn in_unit(p: Prefix, x: Magnitude) -> (r: Self)
        requires
            x.wf(),
            can_shift(x, prefix_shift(p, 1, 0)),
        ensures
            r.wf(),
            rat_eq(r.m@, rat_scale10(x@, prefix_shift(p, 1, 0))),
            r.m == shift_rep(x, prefix_shift(p, 1, 0)),
    {
        Charge { m: prefixed_to_canonical(&x, p, 1, 0) }
    }

    /// This quantity read in the given prefixed unit.
    pub fn as_unit(&self, p: Prefix) -> (r: Magnitude)
        requires
            self.wf(),
            can_shift(self.m, -prefix_shift(p, 1, 0)),
        ensures
            r.wf(),
            rat_eq(r@, rat_scale10(self.m@, -prefix_shift(p, 1, 0))),
            r == shift_rep(self.m, -prefix_shift(p, 1, 0)),
    {
        canonical_to_prefixed(&self.m, p, 1, 0)
    }
}

/// # Base-unit constructors and accessors
impl Charge {
    /// New `Charge` in coulombs (`C`): the base unit, an exact identity.
    pub fn in_coulombs(x: Magnitude) -> (r: Self)
        requires
            x.wf(),
        ensures
            r.m == x,
    {
        Charge { m: x }
    }

    /// This quantity in coulombs (`C`): the base unit, an exact identity.
    pub fn as_coulombs(&self) -> (r: Magnitude)
        ensures
            r == self.m,
    {
        self.m
    }

}

/// # `Charge` constants by order of magnitude
impl Charge {
    /// The [*elementary charge*][0] of the proton (1.602176634e-19 C).
    ///
    /// [0]: https://en.wikipedia.org/wiki/Elementary_charge
    pub fn proton() -> (r: Self)
        ensures
            r.wf(),
            r.m == decimal_mag(1602176634, -28),
    {
        Charge { m: Magnitude::from_decimal(1602176634, -28) }
    }

    /// The [*elementary charge*][0] of the electron (-1.602176634e-19 C).
    ///
    /// [0]: https://en.wikipedia.org/wiki/Elementary_charge
    pub fn electron() -> (r: Self)
        ensures
            r.wf(),
            r.m == decimal_mag(-1602176634, -28),
    {
        Charge { m: Magnitude::from_decimal(-1602176634, -28) }
    }

    /// Static electricity from rubbing materials together (1 µC).
    pub fn static_rubbing() -> (r: Self)
        ensures
            r.wf(),
            r.m == decimal_mag(1, -6),
    {
        Charge { m: Magnitude::from_decimal(1, -6) }
    }

    /// Charge in a typical thundercloud (15-350 C).
    pub fn thundercloud() -> (r: Self)
        ensures
            r.wf(),
            r.m == whole_mag(26),
    {
        Charge { m: Magnitude::from_int(26) }
    }

    /// A typical alkaline AA battery holds about 5000 C.
    pub fn aa_battery() -> (r: Self)
        ensures
            r.wf(),
            r.m == whole_mag(5000),
    {
        Charge { m: Magnitude::from_int(5000) }
    }

    /// The [*Faraday constant*][0]: the charge per mole of electrons (9.64853321233e4 C).
    ///
    /// [0]: https://en.wikipedia.org/wiki/Faraday_constant
    pub fn faraday() -> (r: Self)
        ensures
            r.wf(),
            r.m == decimal_mag(964853321233, -7),
    {
        Charge { m: Magnitude::from_decimal(964853321233, -7) }
    }

}

impl Unit for Charge {
    open spec fn mag_rep(&self) -> Magnitude {
        self.m
    }

    open spec fn symbol_spec() -> Seq<char> {
        "C"@
    }

    open spec fn singular_spec() -> Seq<char> {
        "coulomb"@
    }

    open spec fn plural_spec() -> Seq<char> {
        "coulombs"@
    }

    fn unit() -> (s: String) {
        String::from_str("C")
    }

    fn unit_long_s(&self) -> (s: String) {
        String::from_str("coulomb")
    }

    fn unit_long_p(&self) -> (s: String) {
        String::from_str("coulombs")
    }

    fn unit_long(&self) -> (s: String) {
        pluralized(&self.m, "coulomb", "coulombs")
    }

    fn long(&self) -> (s: String) {
        long_form(&self.m, "coulomb", "coulombs")
    }

    fn short(&self) -> (s: String) {
        short_form(&self.m, "C")
    }
}

/// Frequency, stored in hertz (`Hz`).
#[derive(Clone, Copy, Debug, PartialEq, Eq, Structural)]
pub struct Frequency {
    pub m: Magnitude,
}

impl Frequency {
    /// The stored magnitude is well-formed.
    pub open spec fn wf(self) -> bool {
        self.m.wf()
    }

    /// New `Frequency` from a magnitude in hertz (`Hz`).
    pub fn new(m: Magnitude) -> (r: Self)
        requires
            m.wf(),
        ensures
            r.m == m,
    {
        Frequency { m }
    }

    /// Returns the magnitude, in hertz (`Hz`).
    pub fn m(&self) -> (r: Magnitude)
        ensures
            r == self.m,
    {
        self.m
    }

    /// New `Frequency` of `x` prefixed units.
    pub fn in_unit(p: Prefix, x: Magnitude) -> (r: Self)
        requires
            x.wf(),
            can_shift(x, prefix_shift(p, 1, 0)),
        ensures
            r.wf(),
            rat_eq(r.m@, rat_scale10(x@, prefix_shift(p, 1, 0))),
            r.m == shift_rep(x, prefix_shift(p, 1, 0)),
    {
        Frequency { m: prefixed_to_canonical(&x, p, 1, 0) }
    }

    /// This quantity read in the given prefixed unit.
    pub fn as_unit(&self, p: Prefix) -> (r: Magnitude)
        requires
            self.wf(),
            can_shift(self.m, -prefix_shift(p, 1, 0)),
        ensures
            r.wf(),
            rat_eq(r@, rat_scale10(self.m@, -prefix_shift(p, 1, 0))),
            r == shift_rep(self.m, -prefix_shift(p, 1, 0)),
    {
        canonical_to_prefixed(&self.m, p, 1, 0)
    }
}

/// # Base-unit constructors and accessors
impl Frequency {
    /// New `Frequency` in hertz (`Hz`): the base unit, an exact identity.
    pub fn in_hertzs(x: Magnitude) -> (r: Self)
        requires
            x.wf(),
        ensures
            r.m == x,
    {
        Frequency { m: x }
    }

    /// This quantity in hertz (`Hz`): the base unit, an exact identity.
    pub fn as_hertzs(&self) -> (r: Magnitude)
        ensures
            r == self.m,
    {
        self.m
    }

}

impl Unit for Frequency {
    open spec fn mag_rep(&self) -> Magnitude {
        self.m
    }

    open spec fn symbol_spec() -> Seq<char> {
        "Hz"@
    }

    open spec fn singular_spec() -> Seq<char> {
        "hertz"@
    }

    open spec fn plural_spec() -> Seq<char> {
        "hertzs"@
    }

    fn unit() -> (s: String) {
        String::from_str("Hz")
    }

    fn unit_long_s(&self) -> (s: String) {
        String::from_str("hertz")
    }

    fn unit_long_p(&self) -> (s: String) {
        String::from_str("hertzs")
    }

    fn unit_long(&self) -> (s: String) {
        pluralized(&self.m, "hertz", "hertzs")
    }

    fn long(&self) -> (s: String) {
        long_form(&self.m, "hertz", "hertzs")
    }

    fn short(&self) -> (s: String) {
        short_form(&self.m, "Hz")
    }
}

/// Power, stored in watts (`W`).
#[derive(Clone, Copy, Debug, PartialEq, Eq, Structural)]
pub struct Power {
    pub m: Magnitude,
}

impl Power {
    /// The stored magnitude is well-formed.
    pub open spec fn wf(self) -> bool {
        self.m.wf()
    }

    /// New `Power` from a magnitude in watts (`W`).
    pub fn new(m: Magnitude) -> (r: Self)
        requires
            m.wf(),
        ensures
            r.m == m,
    {
        Power { m }
    }

    /// Returns the magnitude, in watts (`W`).
    pub fn m(&self) -> (r: Magnitude)
        ensures
            r == self.m,
    {
        self.m
    }

    /// New `Power` of `x` prefixed units.
    pub fn in_unit(p: Prefix, x: Magnitude) -> (r: Self)
        requires
            x.wf(),
            can_shift(x, prefix_shift(p, 1, 0)),
        ensures
            r.wf(),
            rat_eq(r.m@, rat_scale10(x@, prefix_shift(p, 1, 0))),
            r.m == shift_rep(x, prefix_shift(p, 1, 0)),
    {
        Power { m: prefixed_to_canonical(&x, p, 1, 0) }
    }

    /// This quantity read in the given prefixed unit.
    pub fn as_unit(&self, p: Prefix) -> (r: Magnitude)
        requires
            self.wf(),
            can_shift(self.m, -prefix_shift(p, 1, 0)),
        ensures
            r.wf(),
            rat_eq(r@, rat_scale10(self.m@, -prefix_shift(p, 1, 0))),
            r == shift_rep(self.m, -prefix_shift(p, 1, 0)),
    {
        canonical_to_prefixed(&self.m, p, 1, 0)
    }
}

/// # Base-unit constructors and accessors
impl Power {
    /// New `Power` in watts (`W`): the base unit, an exact identity.
    pub fn in_watts(x: Magnitude) -> (r: Self)
        requires
            x.wf(),
        ensures
            r.m == x,
    {
        Power { m: x }
    }

    /// This quantity in watts (`W`): the base unit, an exact identity.
    pub fn as_watts(&self) -> (r: Magnitude)
        ensures
            r == self.m,
    {
        self.m
    }

}

/// # Scalar alias constructors
impl Power {
    /// New `Power` with no direction to carry: an alias of [`new`][Power::new]
    /// kept from the vector quantities' shape.
    pub fn without_direction(m: Magnitude) -> (r: Self)
        requires
            m.wf(),
        ensures
            r.m == m,
    {
        Power { m }
    }
}

/// # `Power` formulas
impl Power {
    /// Derives the `Power` from the given energy and time (`P = E / t`).
    pub fn from_energy_time(e: Energy, t: Time) -> (r: Self)
        requires
            e.wf(),
            t.wf(),
            can_divide(e.m, t.m),
        ensures
            r.wf(),
            rat_eq(r.m@, rat_div(e.m@, t.m@)),
            r.m == div_rep(e.m, t.m),
    {
        Power { m: e.m.divided_by(&t.m) }
    }

    /// (Alias of [`from_energy_time`][Power::from_energy_time].)
    pub fn from_time_energy(t: Time, e: Energy) -> (r: Self)
        requires
            e.wf(),
            t.wf(),
            can_divide(e.m, t.m),
        ensures
            r.wf(),
            rat_eq(r.m@, rat_div(e.m@, t.m@)),
            r.m == div_rep(e.m, t.m),
    {
        Self::from_energy_time(e, t)
    }

    /// Calculates the energy given the time (`E = P * t`).
    pub fn calc_energy(&self, t: Time) -> (r: Energy)
        requires
            self.wf(),
            t.wf(),
            can_times(self.m, t.m),
        ensures
            r.wf(),
            rat_eq(r.m@, rat_mul(self.m@, t.m@)),
            r.m == times_rep(self.m, t.m),
    {
        Energy::new(self.m.times(&t.m))
    }

    /// Calculates the time given the energy (`t = E / P`).
    pub fn calc_time(&self, e: Energy) -> (r: Time)
        requires
            self.wf(),
            e.wf(),
            can_divide(e.m, self.m),
        ensures
            r.wf(),
            rat_eq(r.m@, rat_div(e.m@, self.m@)),
            r.m == div_rep(e.m, self.m),
    {
        Time::new(e.m.divided_by(&self.m))
    }

}

impl Unit for Power {
    open spec fn mag_rep(&self) -> Magnitude {
        self.m
    }

    open spec fn symbol_spec() -> Seq<char> {
        "W"@
    }

    open spec fn singular_spec() -> Seq<char> {
        "watt"@
    }

    open spec fn plural_spec() -> Seq<char> {
        "watts"@
    }

    fn unit() -> (s: String) {
        String::from_str("W")
    }

    fn unit_long_s(&self) -> (s: String) {
        String::from_str("watt")
    }

    fn unit_long_p(&self) -> (s: String) {
        String::from_str("watts")
    }

    fn unit_long(&self) -> (s: String) {
        pluralized(&self.m, "watt", "watts")
    }

    fn long(&self) -> (s: String) {
        long_form(&self.m, "watt", "watts")
    }

    fn short(&self) -> (s: String) {
        short_form(&self.m, "W")
    }
}

/// Pressure, stored in pascals (`Pa`).
#[derive(Clone, Copy, Debug, PartialEq, Eq, Structural)]
pub struct Pressure {
    pub m: Magnitude,
}

impl Pressure {
    /// The stored magnitude is well-formed.
    pub open spec fn wf(self) -> bool {
        self.m.wf()
    }

    /// New `Pressure` from a magnitude in pascals (`Pa`).
    pub fn new(m: Magnitude) -> (r: Self)
        requires
            m.wf(),
        ensures
            r.m == m,
    {
        Pressure { m }
    }

    /// Returns the magnitude, in pascals (`Pa`).
    pub fn m(&self) -> (r: Magnitude)
        ensures
            r == self.m,
    {
        self.m
    }

    /// New `Pressure` of `x` prefixed units.
    pub fn in_unit(p: Prefix, x: Magnitude) -> (r: Self)
        requires
            x.wf(),
            can_shift(x, prefix_shift(p, 1, 0)),
        ensures
            r.wf(),
            rat_eq(r.m@, rat_scale10(x@, prefix_shift(p, 1, 0))),
            r.m == shift_rep(x, prefix_shift(p, 1, 0)),
    {
        Pressure { m: prefixed_to_canonical(&x, p, 1, 0) }
    }

    /// This quantity read in the given prefixed unit.
    pub fn as_unit(&self, p: Prefix) -> (r: Magnitude)
        requires
            self.wf(),
            can_shift(self.m, -prefix_shift(p, 1, 0)),
        ensures
            r.wf(),
            rat_eq(r@, rat_scale10(self.m@, -prefix_shift(p, 1, 0))),
            r == shift_rep(self.m, -prefix_shift(p, 1, 0)),
    {
        canonical_to_prefixed(&self.m, p, 1, 0)
    }
}

/// # Base-unit constructors and accessors
impl Pressure {
    /// New `Pressure` in pascals (`Pa`): the base unit, an exact identity.
    pub fn in_pascals(x: Magnitude) -> (r: Self)
        requires
            x.wf(),
        ensures
            r.m == x,
    {
        Pressure { m: x }
    }

    /// This quantity in pascals (`Pa`): the base unit, an exact identity.
    pub fn as_pascals(&self) -> (r: Magnitude)
        ensures
            r == self.m,
    {
        self.m
    }

}

impl Unit for Pressure {
    open spec fn mag_rep(&self) -> Magnitude {
        self.m
    }

    open spec fn symbol_spec() -> Seq<char> {
        "Pa"@
    }

    open spec fn singular_spec() -> Seq<char> {
        "pascal"@
    }

    open spec fn plural_spec() -> Seq<char> {
        "pascals"@
    }

    fn unit() -> (s: String) {
        String::from_str("Pa")
    }

    fn unit_long_s(&self) -> (s: String) {
        String::from_str("pascal")
    }

    fn unit_long_p(&self) -> (s: String) {
        String::from_str("pascals")
    }

    fn unit_long(&self) -> (s: String) {
        pluralized(&self.m, "pascal", "pascals")
    }

    fn long(&self) -> (s: String) {
        long_form(&self.m, "pascal", "pascals")
    }

    fn short(&self) -> (s: String) {
        short_form(&self.m, "Pa")
    }
}

/// Energy, stored in joules (`J`).
#[derive(Clone, Copy, Debug, PartialEq, Eq, Structural)]
pub struct Energy {
    pub m: Magnitude,
}

impl Energy {
    /// The stored magnitude is well-formed.
    pub open spec fn wf(self) -> bool {
        self.m.wf()
    }

    /// New `Energy` from a magnitude in joules (`J`).
    pub fn new(m: Magnitude) -> (r: Self)
        requires
            m.wf(),
        ensures
            r.m == m,
    {
        Energy { m }
    }

    /// Returns the magnitude, in joules (`J`).
    pub fn m(&self) -> (r: Magnitude)
        ensures
            r == self.m,
    {
        self.m
    }

    /// New `Energy` of `x` prefixed units.
    pub fn in_unit(p: Prefix, x: Magnitude) -> (r: Self)
        requires
            x.wf(),
            can_shift(x, prefix_shift(p, 1, 0)),
        ensures
            r.wf(),
            rat_eq(r.m@, rat_scale10(x@, prefix_shift(p, 1, 0))),
            r.m == shift_rep(x, prefix_shift(p, 1, 0)),
    {
        Energy { m: prefixed_to_canonical(&x, p, 1, 0) }
    }

    /// This quantity read in the given prefixed unit.
    pub fn as_unit(&self, p: Prefix) -> (r: Magnitude)
        requires
            self.wf(),
            can_shift(self.m, -prefix_shift(p, 1, 0)),
        ensures
            r.wf(),
            rat_eq(r@, rat_scale10(self.m@, -prefix_shift(p, 1, 0))),
            r == shift_rep(self.m, -prefix_shift(p, 1, 0)),
    {
        canonical_to_prefixed(&self.m, p, 1, 0)
    }
}

/// # Scalar alias constructors
impl Energy {
    /// New `Energy` with no direction to carry: an alias of [`new`][Energy::new]
    /// kept from the vector quantities' shape.
    pub fn without_direction(m: Magnitude) -> (r: Self)
        requires
            m.wf(),
        ensures
            r.m == m,
    {
        Energy { m }
    }
}

/// (== [`Energy`]) The energy transferred by a force.
pub type Work = Energy;

/// # Base and common prefixed units
impl Energy {
    /// New `Energy` in joules (`J`): the base unit, an exact identity.
    pub fn in_joules(x: Magnitude) -> (r: Self)
        requires
            x.wf(),
        ensures
            r.m == x,
    {
        Energy { m: x }
    }

    /// This quantity in joules (`J`): the base unit, an exact identity.
    pub fn as_joules(&self) -> (r: Magnitude)
        ensures
            r == self.m,
    {
        self.m
    }

    /// New `Energy` in kilojoules (`kJ`, 1000 J).
    #[allow(non_snake_case)]
    pub fn in_kJ(x: Magnitude) -> (r: Self)
        requires
            x.wf(),
            can_shift(x, prefix_shift(Prefix::Kilo, 1, 0)),
        ensures
            r.wf(),
            rat_eq(r.m@, rat_scale10(x@, prefix_shift(Prefix::Kilo, 1, 0))),
            r.m == shift_rep(x, prefix_shift(Prefix::Kilo, 1, 0)),
    {
        Self::in_unit(Prefix::Kilo, x)
    }

    /// This quantity in kilojoules (`kJ`, 1000 J).
    #[allow(non_snake_case)]
    pub fn as_kJ(&self) -> (r: Magnitude)
        requires
            self.wf(),
            can_shift(self.m, -(prefix_shift(Prefix::Kilo, 1, 0))),
        ensures
            r.wf(),
            rat_eq(r@, rat_scale10(self.m@, -(prefix_shift(Prefix::Kilo, 1, 0)))),
            r == shift_rep(self.m, -(prefix_shift(Prefix::Kilo, 1, 0))),
    {
        self.as_unit(Prefix::Kilo)
    }

    /// New `Energy` in kilojoules (`kJ`, 1000 J).
    pub fn in_kilojoules(x: Magnitude) -> (r: Self)
        requires
            x.wf(),
            can_shift(x, prefix_shift(Prefix::Kilo, 1, 0)),
        ensures
            r.wf(),
            rat_eq(r.m@, rat_scale10(x@, prefix_shift(Prefix::Kilo, 1, 0))),
            r.m == shift_rep(x, prefix_shift(Prefix::Kilo, 1, 0)),
    {
        Self::in_unit(Prefix::Kilo, x)
    }

    /// This quantity in kilojoules (`kJ`, 1000 J).
    pub fn as_kilojoules(&self) -> (r: Magnitude)
        requires
            self.wf(),
            can_shift(self.m, -(prefix_shift(Prefix::Kilo, 1, 0))),
        ensures
            r.wf(),
            rat_eq(r@, rat_scale10(self.m@, -(prefix_shift(Prefix::Kilo, 1, 0)))),
            r == shift_rep(self.m, -(prefix_shift(Prefix::Kilo, 1, 0))),
    {
        self.as_unit(Prefix::Kilo)
    }

}

/// # `Energy` formulas
impl Energy {
    /// Derives the work from the given force and distance (`W = F * d`).
    pub fn from_force_length(f: Force, d: Distance) -> (r: Self)
        requires
            f.wf(),
            d.wf(),
            can_times(f.m, d.m),
        ensures
            r.wf(),
            rat_eq(r.m@, rat_mul(f.m@, d.m@)),
            r.m == times_rep(f.m, d.m),
    {
        Energy { m: f.m.times(&d.m) }
    }

    /// Derives the `Energy` from the given power and time (`E = P * t`).
    pub fn from_power_time(p: Power, t: Time) -> (r: Self)
        requires
            p.wf(),
            t.wf(),
            can_times(p.m, t.m),
        ensures
            r.wf(),
            rat_eq(r.m@, rat_mul(p.m@, t.m@)),
            r.m == times_rep(p.m, t.m),
    {
        Energy { m: p.m.times(&t.m) }
    }

    /// (Alias of [`from_power_time`][Energy::from_power_time].)
    pub fn from_time_power(t: Time, p: Power) -> (r: Self)
        requires
            p.wf(),
            t.wf(),
            can_times(p.m, t.m),
        ensures
            r.wf(),
            rat_eq(r.m@, rat_mul(p.m@, t.m@)),
            r.m == times_rep(p.m, t.m),
    {
        Self::from_power_time(p, t)
    }

    /// Calculates the power given the time (`P = E / t`).
    pub fn calc_power(&self, t: Time) -> (r: Power)
        requires
            self.wf(),
            t.wf(),
            can_divide(self.m, t.m),
        ensures
            r.wf(),
            rat_eq(r.m@, rat_div(self.m@, t.m@)),
            r.m == div_rep(self.m, t.m),
    {
        Power::new(self.m.divided_by(&t.m))
    }

    /// Calculates the time given the power (`t = E / P`).
    pub fn calc_time(&self, p: Power) -> (r: Time)
        requires
            self.wf(),
            p.wf(),
            can_divide(self.m, p.m),
        ensures
            r.wf(),
            rat_eq(r.m@, rat_div(self.m@, p.m@)),
            r.m == div_rep(self.m, p.m),
    {
        Time::new(self.m.divided_by(&p.m))
    }

    /// Derives the `Energy` from the given mass (`E = m * c^2`).
    pub fn from_mass(m: Mass) -> (r: Self)
        requires
            m.wf(),
            can_times(m.m, whole_mag(89_875_517_873_681_764)),
        ensures
            r.wf(),
            rat_eq(r.m@, rat_mul(m.m@, whole_mag(89_875_517_873_681_764)@)),
            r.m == times_rep(m.m, whole_mag(89_875_517_873_681_764)),
    {
        Energy { m: m.m.times(&Magnitude::from_int(89_875_517_873_681_764)) }
    }

}

impl Unit for Energy {
    open spec fn mag_rep(&self) -> Magnitude {
        self.m
    }

    open spec fn symbol_spec() -> Seq<char> {
        "J"@
    }

    open spec fn singular_spec() -> Seq<char> {
        "joule"@
    }

    open spec fn plural_spec() -> Seq<char> {
        "joules"@
    }

    fn unit() -> (s: String) {
        String::from_str("J")
    }

    fn unit_long_s(&self) -> (s: String) {
        String::from_str("joule")
    }

    fn unit_long_p(&self) -> (s: String) {
        String::from_str("joules")
    }

    fn unit_long(&self) -> (s: String) {
        pluralized(&self.m, "joule", "joules")
    }

    fn long(&self) -> (s: String) {
        long_form(&self.m, "joule", "joules")
    }

    fn short(&self) -> (s: String) {
        short_form(&self.m, "J")
    }
}

/// Speed, stored in metres per second (`m/s`): a compound unit whose prefix applies to the metre part only; a combination prefixing the second part would need its own distinctly named accessor.
#[derive(Clone, Copy, Debug, PartialEq, Eq, Structural)]
pub struct Speed {
    pub m: Magnitude,
}

impl Speed {
    /// The stored magnitude is well-formed.
    pub open spec fn wf(self) -> bool {
        self.m.wf()
    }

    /// New `Speed` from a magnitude in metres per second (`m/s`).
    pub fn new(m: Magnitude) -> (r: Self)
        requires
            m.wf(),
        ensures
            r.m == m,
    {
        Speed { m }
    }

    /// Returns the magnitude, in metres per second (`m/s`).
    pub fn m(&self) -> (r: Magnitude)
        ensures
            r == self.m,
    {
        self.m
    }

    /// New `Speed` of `x` prefixed units.
    pub fn in_unit(p: Prefix, x: Magnitude) -> (r: Self)
        requires
            x.wf(),
            can_shift(x, prefix_shift(p, 1, 0)),
        ensures
            r.wf(),
            rat_eq(r.m@, rat_scale10(x@, prefix_shift(p, 1, 0))),
            r.m == shift_rep(x, prefix_shift(p, 1, 0)),
    {
        Speed { m: prefixed_to_canonical(&x, p, 1, 0) }
    }

    /// This quantity read in the given prefixed unit.
    pub fn as_unit(&self, p: Prefix) -> (r: Magnitude)
        requires
            self.wf(),
            can_shift(self.m, -prefix_shift(p, 1, 0)),
        ensures
            r.wf(),
            rat_eq(r@, rat_scale10(self.m@, -prefix_shift(p, 1, 0))),
            r == shift_rep(self.m, -prefix_shift(p, 1, 0)),
    {
        canonical_to_prefixed(&self.m, p, 1, 0)
    }
}

/// # Base-unit constructors and accessors
impl Speed {
    /// New `Speed` in metres per second (`m/s`): the base unit, an exact identity.
    pub fn in_m_s(x: Magnitude) -> (r: Self)
        requires
            x.wf(),
        ensures
            r.m == x,
    {
        Speed { m: x }
    }

    /// This quantity in metres per second (`m/s`): the base unit, an exact identity.
    pub fn as_m_s(&self) -> (r: Magnitude)
        ensures
            r == self.m,
    {
        self.m
    }

    /// New `Speed` in metres per second (`m/s`): the base unit, an exact identity.
    pub fn in_metres_second(x: Magnitude) -> (r: Self)
        requires
            x.wf(),
        ensures
            r.m == x,
    {
        Speed { m: x }
    }

    /// This quantity in metres per second (`m/s`): the base unit, an exact identity.
    pub fn as_metres_second(&self) -> (r: Magnitude)
        ensures
            r == self.m,
    {
        self.m
    }

}

/// # `Speed` formulas
impl Speed {
    /// Derives the `Speed` from the given distance and time (`v = d / t`).
    pub fn from_distance_time(d: Distance, t: Time) -> (r: Self)
        requires
            d.wf(),
            t.wf(),
            can_divide(d.m, t.m),
        ensures
            r.wf(),
            rat_eq(r.m@, rat_div(d.m@, t.m@)),
            r.m == div_rep(d.m, t.m),
            r.m.num == div_rep(d.m, t.m).num,
            r.m.den == div_rep(d.m, t.m).den,
            r.m.exp == div_rep(d.m, t.m).exp,
    {
        Speed { m: d.m.divided_by(&t.m) }
    }

    /// (Alias of [`from_distance_time`][Speed::from_distance_time].)
    pub fn from_time_distance(t: Time, d: Distance) -> (r: Self)
        requires
            d.wf(),
            t.wf(),
            can_divide(d.m, t.m),
        ensures
            r.wf(),
            rat_eq(r.m@, rat_div(d.m@, t.m@)),
            r.m == div_rep(d.m, t.m),
    {
        Self::from_distance_time(d, t)
    }

    /// Calculates the distance given the time (`d = v * t`).
    pub fn calc_distance(&self, t: Time) -> (r: Distance)
        requires
            self.wf(),
            t.wf(),
            can_times(self.m, t.m),
        ensures
            r.wf(),
            rat_eq(r.m@, rat_mul(self.m@, t.m@)),
            r.m == times_rep(self.m, t.m),
    {
        Distance::new(self.m.times(&t.m))
    }

    /// Calculates the time given the distance (`t = d / v`).
    pub fn calc_time(&self, d: Distance) -> (r: Time)
        requires
            self.wf(),
            d.wf(),
            can_divide(d.m, self.m),
        ensures
            r.wf(),
            rat_eq(r.m@, rat_div(d.m@, self.m@)),
            r.m == div_rep(d.m, self.m),
    {
        Time::new(d.m.divided_by(&self.m))
    }

}

/// # `Speed` constants by order of magnitude
impl Speed {
    /// Speed of stalactite growth (4.12e-12 m/s).
    pub fn stalactite() -> (r: Self)
        ensures
            r.wf(),
            r.m == decimal_mag(412, -14),
    {
        Speed { m: Magnitude::from_decimal(412, -14) }
    }

    /// Speed of human hair growth (4.8e-9 m/s).
    pub fn human_hair_growth() -> (r: Self)
        ensures
            r.wf(),
            r.m == decimal_mag(48, -10),
    {
        Speed { m: Magnitude::from_decimal(48, -10) }
    }

    /// One kilometre per hour, approximately (0.2778 m/s).
    pub fn km_h() -> (r: Self)
        ensures
            r.wf(),
            r.m == decimal_mag(2778, -4),
    {
        Speed { m: Magnitude::from_decimal(2778, -4) }
    }

    /// One mile per hour (0.44704 m/s).
    pub fn mph() -> (r: Self)
        ensures
            r.wf(),
            r.m == decimal_mag(44704, -5),
    {
        Speed { m: Magnitude::from_decimal(44704, -5) }
    }

    /// One knot, approximately (0.5144 m/s).
    pub fn knot() -> (r: Self)
        ensures
            r.wf(),
            r.m == decimal_mag(5144, -4),
    {
        Speed { m: Magnitude::from_decimal(5144, -4) }
    }

    /// Average human running speed (4.98 m/s).
    pub fn running() -> (r: Self)
        ensures
            r.wf(),
            r.m == decimal_mag(498, -2),
    {
        Speed { m: Magnitude::from_decimal(498, -2) }
    }

    /// Terminal velocity of a falling human (54 m/s).
    pub fn human_free_fall_max() -> (r: Self)
        ensures
            r.wf(),
            r.m == whole_mag(54),
    {
        Speed { m: Magnitude::from_int(54) }
    }

    /// The speed of sound in air (340.3 m/s).
    pub fn sound() -> (r: Self)
        ensures
            r.wf(),
            r.m == decimal_mag(3403, -1),
    {
        Speed { m: Magnitude::from_decimal(3403, -1) }
    }

    /// Escape velocity from the Moon (2.375 km/s).
    pub fn escape_velocity_moon() -> (r: Self)
        ensures
            r.wf(),
            r.m == whole_mag(2375),
    {
        Speed { m: Magnitude::from_int(2375) }
    }

    /// Escape velocity from Earth (11.2 km/s).
    pub fn escape_velocity_earth() -> (r: Self)
        ensures
            r.wf(),
            r.m == whole_mag(11200),
    {
        Speed { m: Magnitude::from_int(11200) }
    }

    /// Speed of the Earth in orbit around the Sun (29.8 km/s).
    pub fn earth_orbit() -> (r: Self)
        ensures
            r.wf(),
            r.m == whole_mag(29800),
    {
        Speed { m: Magnitude::from_int(29800) }
    }

    /// Orbital speed of the solar system in the Milky Way (200 km/s).
    pub fn solar_system_orbit() -> (r: Self)
        ensures
            r.wf(),
            r.m == decimal_mag(2, 5),
    {
        Speed { m: Magnitude::from_decimal(2, 5) }
    }

    /// Speed of a signal in an optical fiber (200 Mm/s).
    pub fn fiber_optic_signal() -> (r: Self)
        ensures
            r.wf(),
            r.m == decimal_mag(2, 8),
    {
        Speed { m: Magnitude::from_decimal(2, 8) }
    }

    /// The [*speed of light*][0] (299792458 m/s).
    ///
    /// [0]: https://en.wikipedia.org/wiki/Speed_of_light
    pub fn light() -> (r: Self)
        ensures
            r.wf(),
            r.m == whole_mag(299792458),
    {
        Speed { m: Magnitude::from_int(299792458) }
    }

    /// The speed of light, squared.
    pub fn light_squared() -> (r: Self)
        ensures
            r.wf(),
            r.m == whole_mag(89875517873681764),
    {
        Speed { m: Magnitude::from_int(89875517873681764) }
    }

}

impl Unit for Speed {
    open spec fn mag_rep(&self) -> Magnitude {
        self.m
    }

    open spec fn symbol_spec() -> Seq<char> {
        "m/s"@
    }

    open spec fn singular_spec() -> Seq<char> {
        "metre per second"@
    }

    open spec fn plural_spec() -> Seq<char> {
        "metres per second"@
    }

    fn unit() -> (s: String) {
        String::from_str("m/s")
    }

    fn unit_long_s(&self) -> (s: String) {
        String::from_str("metre per second")
    }

    fn unit_long_p(&self) -> (s: String) {
        String::from_str("metres per second")
    }

    fn unit_long(&self) -> (s: String) {
        pluralized(&self.m, "metre per second", "metres per second")
    }

    fn long(&self) -> (s: String) {
        long_form(&self.m, "metre per second", "metres per second")
    }

    fn short(&self) -> (s: String) {
        short_form(&self.m, "m/s")
    }
}

/// Density (mass per volume), stored in kilograms per cubic metre: base-shifted like mass, so the prefix accessors refer to grams per cubic metre.
#[derive(Clone, Copy, Debug, PartialEq, Eq, Structural)]
pub struct Density {
    pub m: Magnitude,
}

impl Density {
    /// The stored magnitude is well-formed.
    pub open spec fn wf(self) -> bool {
        self.m.wf()
    }

    /// New `Density` from a magnitude in kilograms per cubic metre (`kg/m³`).
    pub fn new(m: Magnitude) -> (r: Self)
        requires
            m.wf(),
        ensures
            r.m == m,
    {
        Density { m }
    }

    /// Returns the magnitude, in kilograms per cubic metre (`kg/m³`).
    pub fn m(&self) -> (r: Magnitude)
        ensures
            r == self.m,
    {
        self.m
    }

    /// New `Density` of `x` prefixed units.
    pub fn in_unit(p: Prefix, x: Magnitude) -> (r: Self)
        requires
            x.wf(),
            can_shift(x, prefix_shift(p, 1, 3)),
        ensures
            r.wf(),
            rat_eq(r.m@, rat_scale10(x@, prefix_shift(p, 1, 3))),
            r.m == shift_rep(x, prefix_shift(p, 1, 3)),
    {
        Density { m: prefixed_to_canonical(&x, p, 1, 3) }
    }

    /// This quantity read in the given prefixed unit.
    pub fn as_unit(&self, p: Prefix) -> (r: Magnitude)
        requires
            self.wf(),
            can_shift(self.m, -prefix_shift(p, 1, 3)),
        ensures
            r.wf(),
            rat_eq(r@, rat_scale10(self.m@, -prefix_shift(p, 1, 3))),
            r == shift_rep(self.m, -prefix_shift(p, 1, 3)),
    {
        canonical_to_prefixed(&self.m, p, 1, 3)
    }
}

/// # Base and gram-based units
impl Density {
    /// New `Density` in kilograms per cubic metre (`kg/m³`): the base unit, an exact identity.
    pub fn in_kg_m3(x: Magnitude) -> (r: Self)
        requires
            x.wf(),
        ensures
            r.m == x,
    {
        Density { m: x }
    }

    /// This quantity in kilograms per cubic metre (`kg/m³`): the base unit, an exact identity.
    pub fn as_kg_m3(&self) -> (r: Magnitude)
        ensures
            r == self.m,
    {
        self.m
    }

    /// New `Density` in grams per cubic metre (`g/m³`, 0.001 kg/m³).
    pub fn in_g_m3(x: Magnitude) -> (r: Self)
        requires
            x.wf(),
            can_shift(x, prefix_shift(Prefix::Base, 1, 3)),
        ensures
            r.wf(),
            rat_eq(r.m@, rat_scale10(x@, prefix_shift(Prefix::Base, 1, 3))),
            r.m == shift_rep(x, prefix_shift(Prefix::Base, 1, 3)),
    {
        Self::in_unit(Prefix::Base, x)
    }

    /// This quantity in grams per cubic metre (`g/m³`, 0.001 kg/m³).
    pub fn as_g_m3(&self) -> (r: Magnitude)
        requires
            self.wf(),
            can_shift(self.m, -(prefix_shift(Prefix::Base, 1, 3))),
        ensures
            r.wf(),
            rat_eq(r@, rat_scale10(self.m@, -(prefix_shift(Prefix::Base, 1, 3)))),
            r == shift_rep(self.m, -(prefix_shift(Prefix::Base, 1, 3))),
    {
        self.as_unit(Prefix::Base)
    }

}

} // verus!
