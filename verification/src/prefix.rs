//! The SI prefix ladder.
//!
//! Every prefix is a power of ten; its whole behaviour is its exponent.  The
//! table lists the twenty magnitude-altering prefixes from yotta (`10^24`)
//! down to yocto (`10^-24`) plus the bare base entry, strictly ordered by
//! factor.  Downstream, a quantity of dimensional power `n` stored with a
//! canonical-unit offset `s` converts through the single shift
//! `exponent * n - s` (`prefix_shift`), so square and cubic units and
//! kilo-based storage are parameters, not separate code paths.

use vstd::prelude::*;

use crate::magnitude::{can_shift, shift_rep, Magnitude};
use crate::rat::{rat_eq, rat_int, rat_scale10, Rat};

verus! {

/// One SI prefix, or `Base` for the unprefixed unit.
#[derive(Clone, Copy, Debug, PartialEq, Eq, Structural)]
pub enum Prefix {
    Yotta,
    Zetta,
    Exa,
    Peta,
    Tera,
    Giga,
    Mega,
    Kilo,
    Hecto,
    Deka,
    Base,
    Deci,
    Centi,
    Milli,
    Micro,
    Nano,
    Pico,
    Femto,
    Atto,
    Zepto,
    Yocto,
}

/// The decimal exponent of a prefix: its factor is `10^exponent_of(p)`.
pub open spec fn exponent_of(p: Prefix) -> int {
    match p {
        Prefix::Yotta => 24,
        Prefix::Zetta => 21,
        Prefix::Exa => 18,
        Prefix::Peta => 15,
        Prefix::Tera => 12,
        Prefix::Giga => 9,
        Prefix::Mega => 6,
        Prefix::Kilo => 3,
        Prefix::Hecto => 2,
        Prefix::Deka => 1,
        Prefix::Base => 0,
        Prefix::Deci => -1,
        Prefix::Centi => -2,
        Prefix::Milli => -3,
        Prefix::Micro => -6,
        Prefix::Nano => -9,
        Prefix::Pico => -12,
        Prefix::Femto => -15,
        Prefix::Atto => -18,
        Prefix::Zepto => -21,
        Prefix::Yocto => -24,
    }
}

/// The factor of a prefix as a rational: `10^exponent_of(p)`.
pub open spec fn factor_of(p: Prefix) -> Rat {
    rat_scale10(rat_int(1), exponent_of(p))
}

/// The ascii short symbol of a prefix.
pub open spec fn symbol_of(p: Prefix) -> Seq<char> {
    match p {
        Prefix::Yotta => "Y"@,
        Prefix::Zetta => "Z"@,
        Prefix::Exa => "E"@,
        Prefix::Peta => "P"@,
        Prefix::Tera => "T"@,
        Prefix::Giga => "G"@,
        Prefix::Mega => "M"@,
        Prefix::Kilo => "k"@,
        Prefix::Hecto => "h"@,
        Prefix::Deka => "da"@,
        Prefix::Base => ""@,
        Prefix::Deci => "d"@,
        Prefix::Centi => "c"@,
        Prefix::Milli => "m"@,
        Prefix::Micro => "u"@,
        Prefix::Nano => "n"@,
        Prefix::Pico => "p"@,
        Prefix::Femto => "f"@,
        Prefix::Atto => "a"@,
        Prefix::Zepto => "z"@,
        Prefix::Yocto => "y"@,
    }
}

/// The unicode short symbol of a prefix; it differs from the ascii one only
/// for micro.
pub open spec fn unicode_symbol_of(p: Prefix) -> Seq<char> {
    match p {
        Prefix::Micro => "µ"@,
        _ => symbol_of(p),
    }
}

/// The long name of a prefix.
pub open spec fn name_of(p: Prefix) -> Seq<char> {
    match p {
        Prefix::Yotta => "yotta"@,
        Prefix::Zetta => "zetta"@,
        Prefix::Exa => "exa"@,
        Prefix::Peta => "peta"@,
        Prefix::Tera => "tera"@,
        Prefix::Giga => "giga"@,
        Prefix::Mega => "mega"@,
        Prefix::Kilo => "kilo"@,
        Prefix::Hecto => "hecto"@,
        Prefix::Deka => "deka"@,
        Prefix::Base => ""@,
        Prefix::Deci => "deci"@,
        Prefix::Centi => "centi"@,
        Prefix::Milli => "milli"@,
        Prefix::Micro => "micro"@,
        Prefix::Nano => "nano"@,
        Prefix::Pico => "pico"@,
        Prefix::Femto => "femto"@,
        Prefix::Atto => "atto"@,
        Prefix::Zepto => "zepto"@,
        Prefix::Yocto => "yocto"@,
    }
}

impl Prefix {
    /// The decimal exponent of this prefix.
    pub fn exponent(&self) -> (e: i8)
        ensures
            e as int == exponent_of(*self),
            -24 <= e <= 24,
    {
        match self {
            Prefix::Yotta => 24,
            Prefix::Zetta => 21,
            Prefix::Exa => 18,
            Prefix::Peta => 15,
            Prefix::Tera => 12,
            Prefix::Giga => 9,
            Prefix::Mega => 6,
            Prefix::Kilo => 3,
            Prefix::Hecto => 2,
            Prefix::Deka => 1,
            Prefix::Base => 0,
            Prefix::Deci => -1,
            Prefix::Centi => -2,
            Prefix::Milli => -3,
            Prefix::Micro => -6,
            Prefix::Nano => -9,
            Prefix::Pico => -12,
            Prefix::Femto => -15,
            Prefix::Atto => -18,
            Prefix::Zepto => -21,
            Prefix::Yocto => -24,
        }
    }

    /// The factor of this prefix, as a magnitude.
    pub fn factor(&self) -> (r: Magnitude)
        ensures
            r.wf(),
            rat_eq(r@, factor_of(*self)),
            r.num == 1 && r.den == 1 && r.exp as int == exponent_of(*self),
    {
        let e = self.exponent();
        let r = Magnitude::new(1, 1, e as i32);
        proof {
            crate::rat::lemma_pow10_pos(crate::magnitude::pos_part(r.exp as int));
            crate::rat::lemma_pow10_pos(crate::magnitude::neg_part(r.exp as int));
        }
        r
    }

    /// The ascii short symbol.
    pub fn symbol(&self) -> (s: &'static str)
        ensures
            s@ == symbol_of(*self),
    {
        match self {
            Prefix::Yotta => "Y",
            Prefix::Zetta => "Z",
            Prefix::Exa => "E",
            Prefix::Peta => "P",
            Prefix::Tera => "T",
            Prefix::Giga => "G",
            Prefix::Mega => "M",
            Prefix::Kilo => "k",
            Prefix::Hecto => "h",
            Prefix::Deka => "da",
            Prefix::Base => "",
            Prefix::Deci => "d",
            Prefix::Centi => "c",
            Prefix::Milli => "m",
            Prefix::Micro => "u",
            Prefix::Nano => "n",
            Prefix::Pico => "p",
            Prefix::Femto => "f",
            Prefix::Atto => "a",
            Prefix::Zepto => "z",
            Prefix::Yocto => "y",
        }
    }

    /// The unicode short symbol.
    pub fn unicode_symbol(&self) -> (s: &'static str)
        ensures
            s@ == unicode_symbol_of(*self),
    {
        match self {
            Prefix::Micro => "µ",
            _ => self.symbol(),
        }
    }

    /// The long name.
    pub fn name(&self) -> (s: &'static str)
        ensures
            s@ == name_of(*self),
    {
        match self {
            Prefix::Yotta => "yotta",
            Prefix::Zetta => "zetta",
            Prefix::Exa => "exa",
            Prefix::Peta => "peta",
            Prefix::Tera => "tera",
            Prefix::Giga => "giga",
            Prefix::Mega => "mega",
            Prefix::Kilo => "kilo",
            Prefix::Hecto => "hecto",
            Prefix::Deka => "deka",
            Prefix::Base => "",
            Prefix::Deci => "deci",
            Prefix::Centi => "centi",
            Prefix::Milli => "milli",
            Prefix::Micro => "micro",
            Prefix::Nano => "nano",
            Prefix::Pico => "pico",
            Prefix::Femto => "femto",
            Prefix::Atto => "atto",
            Prefix::Zepto => "zepto",
            Prefix::Yocto => "yocto",
        }
    }
}

/// The prefix table in canonical order.
pub open spec fn prefix_table_spec() -> Seq<Prefix> {
    seq![
        Prefix::Yotta,
        Prefix::Zetta,
        Prefix::Exa,
        Prefix::Peta,
        Prefix::Tera,
        Prefix::Giga,
        Prefix::Mega,
        Prefix::Kilo,
        Prefix::Hecto,
        Prefix::Deka,
        Prefix::Base,
        Prefix::Deci,
        Prefix::Centi,
        Prefix::Milli,
        Prefix::Micro,
        Prefix::Nano,
        Prefix::Pico,
        Prefix::Femto,
        Prefix::Atto,
        Prefix::Zepto,
        Prefix::Yocto,
    ]
}

/// The twenty magnitude-altering prefixes plus the base entry, strictly
/// ordered by factor from `10^24` down to `10^-24`.
pub fn prefix_table() -> (t: Vec<Prefix>)
    ensures
        t@ == prefix_table_spec(),
        t@.len() == 21,
        forall|i: int| 0 <= i < 20 ==> exponent_of(#[trigger] t@[i]) > exponent_of(t@[i + 1]),
        exponent_of(t@[0]) == 24,
        exponent_of(t@[20]) == -24,
{
    let mut t: Vec<Prefix> = Vec::new();
    t.push(Prefix::Yotta);
    t.push(Prefix::Zetta);
    t.push(Prefix::Exa);
    t.push(Prefix::Peta);
    t.push(Prefix::Tera);
    t.push(Prefix::Giga);
    t.push(Prefix::Mega);
    t.push(Prefix::Kilo);
    t.push(Prefix::Hecto);
    t.push(Prefix::Deka);
    t.push(Prefix::Base);
    t.push(Prefix::Deci);
    t.push(Prefix::Centi);
    t.push(Prefix::Milli);
    t.push(Prefix::Micro);
    t.push(Prefix::Nano);
    t.push(Prefix::Pico);
    t.push(Prefix::Femto);
    t.push(Prefix::Atto);
    t.push(Prefix::Zepto);
    t.push(Prefix::Yocto);
    proof {
        assert(t@ =~= prefix_table_spec());
    }
    t
}

/// The effective decimal shift of a prefix for a quantity of dimensional
/// power `power` whose canonical unit sits `offset` decimal steps above the
/// unshifted unit (three for kilogram-based quantities).
pub open spec fn prefix_shift(p: Prefix, power: int, offset: int) -> int {
    exponent_of(p) * power - offset
}

/// A prefixed value converted to the canonical unit: multiplication by the
/// effective factor `10^prefix_shift`, exact.
pub fn prefixed_to_canonical(x: &Magnitude, p: Prefix, power: i32, offset: i32) -> (r: Magnitude)
    requires
        x.wf(),
        1 <= power <= 3,
        0 <= offset <= 3,
        can_shift(*x, prefix_shift(p, power as int, offset as int)),
    ensures
        r.wf(),
        rat_eq(r@, rat_scale10(x@, prefix_shift(p, power as int, offset as int))),
        r == shift_rep(*x, prefix_shift(p, power as int, offset as int)),
    {
    let e = self_exponent_times_power(p, power, offset);
    x.scaled_by_pow10(e)
}

/// A canonical value read back in a prefixed unit: division by the effective
/// factor, exact.
pub fn canonical_to_prefixed(x: &Magnitude, p: Prefix, power: i32, offset: i32) -> (r: Magnitude)
    requires
        x.wf(),
        1 <= power <= 3,
        0 <= offset <= 3,
        can_shift(*x, -prefix_shift(p, power as int, offset as int)),
    ensures
        r.wf(),
        rat_eq(r@, rat_scale10(x@, -prefix_shift(p, power as int, offset as int))),
        r == shift_rep(*x, -prefix_shift(p, power as int, offset as int)),
    {
    let e = self_exponent_times_power(p, power, offset);
    x.scaled_by_pow10(-e)
}

/// The effective shift as a machine integer.
fn self_exponent_times_power(p: Prefix, power: i32, offset: i32) -> (e: i32)
    requires
        1 <= power <= 3,
        0 <= offset <= 3,
    ensures
        e as int == prefix_shift(p, power as int, offset as int),
        -75 <= e <= 75,
{
    let pe = p.exponent() as i32;
    proof {
        assert(-72 <= pe * power <= 72) by (nonlinear_arith)
            requires
                -24 <= pe <= 24,
                1 <= power <= 3,
        ;
    }
    pe * power - offset
}

} // verus!
