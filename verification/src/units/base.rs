//! The remaining base quantities: current, temperature, luminous intensity and amount of substance.

use vstd::prelude::*;

use crate::display::{long_form, pluralized, short_form};
use crate::magnitude::{
    can_shift, Magnitude, shift_rep,
};
use crate::prefix::{canonical_to_prefixed, prefix_shift, prefixed_to_canonical, Prefix};
use crate::rat::{rat_eq, rat_scale10};
use crate::unit::Unit;

verus! {

/// `Current`, stored in amperes (`A`).
#[derive(Clone, Copy, Debug, PartialEq, Eq, Structural)]
pub struct Current {
    pub m: Magnitude,
}

impl Current {
    /// The stored magnitude is well-formed.
    pub open spec fn wf(self) -> bool {
        self.m.wf()
    }

    /// New `Current` from a magnitude in the canonical unit.
    pub fn new(m: Magnitude) -> (r: Self)
        requires
            m.wf(),
        ensures
            r.m == m,
    {
        Current { m }
    }

    /// Returns the magnitude, in the canonical unit.
    pub fn m(&self) -> (r: Magnitude)
        ensures
            r == self.m,
    {
        self.m
    }

    /// New `Current` of `x` prefixed units.
    pub fn in_unit(p: Prefix, x: Magnitude) -> (r: Self)
        requires
            x.wf(),
            can_shift(x, prefix_shift(p, 1, 0)),
        ensures
            r.wf(),
            rat_eq(r.m@, rat_scale10(x@, prefix_shift(p, 1, 0))),
            r.m == shift_rep(x, prefix_shift(p, 1, 0)),
    {
        Current { m: prefixed_to_canonical(&x, p, 1, 0) }
    }

    /// This quantity read in the given prefixed unit.
    pub fn as_unit(&self, p: Prefix) -> (r: Magnitude)
        requires
            self.wf(),
            can_shift(self.m, -prefix_shift(p, 1, 0)),
        ensures
            r.wf(),
            rat_eq(r@, rat_scale10(self.m@, -prefix_shift(p, 1, 0))),
            r == shift_rep(self.m, -prefix_shift(p, 1, 0)),
    {
        canonical_to_prefixed(&self.m, p, 1, 0)
    }
}

/// # Base-unit constructors and accessors
impl Current {
    /// New `Current` in amperes (the canonical unit): the base unit, an exact identity.
    pub fn in_amperes(x: Magnitude) -> (r: Self)
        requires
            x.wf(),
        ensures
            r.m == x,
    {
        Current { m: x }
    }

    /// This quantity in amperes (the canonical unit): the base unit, an exact identity.
    pub fn as_amperes(&self) -> (r: Magnitude)
        ensures
            r == self.m,
    {
        self.m
    }

}

impl Unit for Current {
    open spec fn mag_rep(&self) -> Magnitude {
        self.m
    }

    open spec fn symbol_spec() -> Seq<char> {
        "A"@
    }

    open spec fn singular_spec() -> Seq<char> {
        "ampere"@
    }

    open spec fn plural_spec() -> Seq<char> {
        "amperes"@
    }

    fn unit() -> (s: String) {
        String::from_str("A")
    }

    fn unit_long_s(&self) -> (s: String) {
        String::from_str("ampere")
    }

    fn unit_long_p(&self) -> (s: String) {
        String::from_str("amperes")
    }

    fn unit_long(&self) -> (s: String) {
        pluralized(&self.m, "ampere", "amperes")
    }

    fn long(&self) -> (s: String) {
        long_form(&self.m, "ampere", "amperes")
    }

    fn short(&self) -> (s: String) {
        short_form(&self.m, "A")
    }
}

/// `Temperature`, stored in kelvins (`K`).
#[derive(Clone, Copy, Debug, PartialEq, Eq, Structural)]
pub struct Temperature {
    pub m: Magnitude,
}

impl Temperature {
    /// The stored magnitude is well-formed.
    pub open spec fn wf(self) -> bool {
        self.m.wf()
    }

    /// New `Temperature` from a magnitude in the canonical unit.
    pub fn new(m: Magnitude) -> (r: Self)
        requires
            m.wf(),
        ensures
            r.m == m,
    {
        Temperature { m }
    }

    /// Returns the magnitude, in the canonical unit.
    pub fn m(&self) -> (r: Magnitude)
        ensures
            r == self.m,
    {
        self.m
    }

    /// New `Temperature` of `x` prefixed units.
    pub fn in_unit(p: Prefix, x: Magnitude) -> (r: Self)
        requires
            x.wf(),
            can_shift(x, prefix_shift(p, 1, 0)),
        ensures
            r.wf(),
            rat_eq(r.m@, rat_scale10(x@, prefix_shift(p, 1, 0))),
            r.m == shift_rep(x, prefix_shift(p, 1, 0)),
    {
        Temperature { m: prefixed_to_canonical(&x, p, 1, 0) }
    }

    /// This quantity read in the given prefixed unit.
    pub fn as_unit(&self, p: Prefix) -> (r: Magnitude)
        requires
            self.wf(),
            can_shift(self.m, -prefix_shift(p, 1, 0)),
        ensures
            r.wf(),
            rat_eq(r@, rat_scale10(self.m@, -prefix_shift(p, 1, 0))),
            r == shift_rep(self.m, -prefix_shift(p, 1, 0)),
    {
        canonical_to_prefixed(&self.m, p, 1, 0)
    }
}

/// # Base-unit constructors and accessors
impl Temperature {
    /// New `Temperature` in kelvins (the canonical unit): the base unit, an exact identity.
    pub fn in_kelvins(x: Magnitude) -> (r: Self)
        requires
            x.wf(),
        ensures
            r.m == x,
    {
        Temperature { m: x }
    }

    /// This quantity in kelvins (the canonical unit): the base unit, an exact identity.
    pub fn as_kelvins(&self) -> (r: Magnitude)
        ensures
            r == self.m,
    {
        self.m
    }

}

impl Unit for Temperature {
    open spec fn mag_rep(&self) -> Magnitude {
        self.m
    }

    open spec fn symbol_spec() -> Seq<char> {
        "K"@
    }

    open spec fn singular_spec() -> Seq<char> {
        "kelvin"@
    }

    open spec fn plural_spec() -> Seq<char> {
        "kelvins"@
    }

    fn unit() -> (s: String) {
        String::from_str("K")
    }

    fn unit_long_s(&self) -> (s: String) {
        String::from_str("kelvin")
    }

    fn unit_long_p(&self) -> (s: String) {
        String::from_str("kelvins")
    }

    fn unit_long(&self) -> (s: String) {
        pluralized(&self.m, "kelvin", "kelvins")
    }

    fn long(&self) -> (s: String) {
        long_form(&self.m, "kelvin", "kelvins")
    }

    fn short(&self) -> (s: String) {
        short_form(&self.m, "K")
    }
}

/// `Intensity`, stored in candelas (`cd`).
#[derive(Clone, Copy, Debug, PartialEq, Eq, Structural)]
pub struct Intensity {
    pub m: Magnitude,
}

impl Intensity {
    /// The stored magnitude is well-formed.
    pub open spec fn wf(self) -> bool {
        self.m.wf()
    }

    /// New `Intensity` from a magnitude in the canonical unit.
    pub fn new(m: Magnitude) -> (r: Self)
        requires
            m.wf(),
        ensures
            r.m == m,
    {
        Intensity { m }
    }

    /// Returns the magnitude, in the canonical unit.
    pub fn m(&self) -> (r: Magnitude)
        ensures
            r == self.m,
    {
        self.m
    }

    /// New `Intensity` of `x` prefixed units.
    pub fn in_unit(p: Prefix, x: Magnitude) -> (r: Self)
        requires
            x.wf(),
            can_shift(x, prefix_shift(p, 1, 0)),
        ensures
            r.wf(),
            rat_eq(r.m@, rat_scale10(x@, prefix_shift(p, 1, 0))),
            r.m == shift_rep(x, prefix_shift(p, 1, 0)),
    {
        Intensity { m: prefixed_to_canonical(&x, p, 1, 0) }
    }

    /// This quantity read in the given prefixed unit.
    pub fn as_unit(&self, p: Prefix) -> (r: Magnitude)
        requires
            self.wf(),
            can_shift(self.m, -prefix_shift(p, 1, 0)),
        ensures
            r.wf(),
            rat_eq(r@, rat_scale10(self.m@, -prefix_shift(p, 1, 0))),
            r == shift_rep(self.m, -prefix_shift(p, 1, 0)),
    {
        canonical_to_prefixed(&self.m, p, 1, 0)
    }
}

/// # Base-unit constructors and accessors
impl Intensity {
    /// New `Intensity` in candelas (the canonical unit): the base unit, an exact identity.
    pub fn in_candelas(x: Magnitude) -> (r: Self)
        requires
            x.wf(),
        ensures
            r.m == x,
    {
        Intensity { m: x }
    }

    /// This quantity in candelas (the canonical unit): the base unit, an exact identity.
    pub fn as_candelas(&self) -> (r: Magnitude)
        ensures
            r == self.m,
    {
        self.m
    }

}

impl Unit for Intensity {
    open spec fn mag_rep(&self) -> Magnitude {
        self.m
    }

    open spec fn symbol_spec() -> Seq<char> {
        "cd"@
    }

    open spec fn singular_spec() -> Seq<char> {
        "candela"@
    }

    open spec fn plural_spec() -> Seq<char> {
        "candelas"@
    }

    fn unit() -> (s: String) {
        String::from_str("cd")
    }

    fn unit_long_s(&self) -> (s: String) {
        String::from_str("candela")
    }

    fn unit_long_p(&self) -> (s: String) {
        String::from_str("candelas")
    }

    fn unit_long(&self) -> (s: String) {
        pluralized(&self.m, "candela", "candelas")
    }

    fn long(&self) -> (s: String) {
        long_form(&self.m, "candela", "candelas")
    }

    fn short(&self) -> (s: String) {
        short_form(&self.m, "cd")
    }
}

/// `Amount`, stored in moles (`mol`).
#[derive(Clone, Copy, Debug, PartialEq, Eq, Structural)]
pub struct Amount {
    pub m: Magnitude,
}

impl Amount {
    /// The stored magnitude is well-formed.
    pub open spec fn wf(self) -> bool {
        self.m.wf()
    }

    /// New `Amount` from a magnitude in the canonical unit.
    pub fn new(m: Magnitude) -> (r: Self)
        requires
            m.wf(),
        ensures
            r.m == m,
    {
        Amount { m }
    }

    /// Returns the magnitude, in the canonical unit.
    pub fn m(&self) -> (r: Magnitude)
        ensures
            r == self.m,
    {
        self.m
    }

    /// New `Amount` of `x` prefixed units.
    pub fn in_unit(p: Prefix, x: Magnitude) -> (r: Self)
        requires
            x.wf(),
            can_shift(x, prefix_shift(p, 1, 0)),
        ensures
            r.wf(),
            rat_eq(r.m@, rat_scale10(x@, prefix_shift(p, 1, 0))),
            r.m == shift_rep(x, prefix_shift(p, 1, 0)),
    {
        Amount { m: prefixed_to_canonical(&x, p, 1, 0) }
    }

    /// This quantity read in the given prefixed unit.
    pub fn as_unit(&self, p: Prefix) -> (r: Magnitude)
        requires
            self.wf(),
            can_shift(self.m, -prefix_shift(p, 1, 0)),
        ensures
            r.wf(),
            rat_eq(r@, rat_scale10(self.m@, -prefix_shift(p, 1, 0))),
            r == shift_rep(self.m, -prefix_shift(p, 1, 0)),
    {
        canonical_to_prefixed(&self.m, p, 1, 0)
    }
}

/// # Base-unit constructors and accessors
impl Amount {
    /// New `Amount` in moles (the canonical unit): the base unit, an exact identity.
    pub fn in_moles(x: Magnitude) -> (r: Self)
        requires
            x.wf(),
        ensures
            r.m == x,
    {
        Amount { m: x }
    }

    /// This quantity in moles (the canonical unit): the base unit, an exact identity.
    pub fn as_moles(&self) -> (r: Magnitude)
        ensures
            r == self.m,
    {
        self.m
    }

}

impl Unit for Amount {
    open spec fn mag_rep(&self) -> Magnitude {
        self.m
    }

    open spec fn symbol_spec() -> Seq<char> {
        "mol"@
    }

    open spec fn singular_spec() -> Seq<char> {
        "mole"@
    }

    open spec fn plural_spec() -> Seq<char> {
        "moles"@
    }

    fn unit() -> (s: String) {
        String::from_str("mol")
    }

    fn unit_long_s(&self) -> (s: String) {
        String::from_str("mole")
    }

    fn unit_long_p(&self) -> (s: String) {
        String::from_str("moles")
    }

    fn unit_long(&self) -> (s: String) {
        pluralized(&self.m, "mole", "moles")
    }

    fn long(&self) -> (s: String) {
        long_form(&self.m, "mole", "moles")
    }

    fn short(&self) -> (s: String) {
        short_form(&self.m, "mol")
    }
}

} // verus!
