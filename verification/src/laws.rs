//! The conversion and formula laws.
//!
//! Every prefixed constructor ensures `rat_eq(r.m@, rat_scale10(x@, k))` and
//! every prefixed accessor ensures `rat_eq(r@, rat_scale10(self.m@, -k))`,
//! with `k = prefix_shift(prefix, power, offset)`; every formula ensures
//! `rat_eq` of its result with `rat_mul` or `rat_div` of its operands.  The
//! theorems here say what follows for any such pair of calls, for every
//! quantity, prefix, dimensional power and canonical-unit offset at once.

use vstd::prelude::*;

use crate::prefix::{exponent_of, prefix_shift, Prefix};
use crate::rat::{
    lemma_rat_eq_trans, lemma_rat_scale10_compose, lemma_rat_scale10_congr,
    lemma_rat_scale10_zero, pow10, rat_div, rat_eq, rat_mul, rat_scale10, rat_wf, Rat,
};

verus! {

/// Round-trip law: constructing a quantity in any prefixed unit and reading
/// it back in the same unit returns the original value exactly.  `x` is the
/// value handed to the constructor, `y` the canonical value it stores, `z`
/// what the accessor returns, and `k` the effective decimal shift of the
/// unit, `prefix_shift(prefix, power, offset)` for every prefixed accessor
/// of the library.
pub proof fn lemma_round_trip(x: Rat, y: Rat, z: Rat, k: int)
    requires
        rat_wf(x),
        rat_wf(y),
        rat_wf(z),
        rat_eq(y, rat_scale10(x, k)),
        rat_eq(z, rat_scale10(y, -k)),
    ensures
        rat_eq(z, x),
{
    lemma_cross_prefix(x, y, z, k, k);
    lemma_rat_scale10_zero(x);
    lemma_scale_wf(x, k - k);
    lemma_rat_eq_trans(z, rat_scale10(x, k - k), x);
}

/// Cross-prefix consistency: constructing in one prefixed unit and reading
/// in another scales by exactly the ratio of the two effective factors,
/// `10^(k1 - k2)`.
pub proof fn lemma_cross_prefix(x: Rat, y: Rat, z: Rat, k1: int, k2: int)
    requires
        rat_wf(x),
        rat_wf(y),
        rat_wf(z),
        rat_eq(y, rat_scale10(x, k1)),
        rat_eq(z, rat_scale10(y, -k2)),
    ensures
        rat_eq(z, rat_scale10(x, k1 - k2)),
{
    lemma_scale_wf(x, k1);
    lemma_scale_wf(y, -k2);
    lemma_scale_wf(rat_scale10(x, k1), -k2);
    lemma_scale_wf(x, k1 - k2);
    lemma_rat_scale10_congr(y, rat_scale10(x, k1), -k2);
    lemma_rat_scale10_compose(x, k1, -k2);
    lemma_rat_eq_trans(z, rat_scale10(y, -k2), rat_scale10(rat_scale10(x, k1), -k2));
    lemma_rat_eq_trans(
        z,
        rat_scale10(rat_scale10(x, k1), -k2),
        rat_scale10(x, k1 + -k2),
    );
}

/// Power scaling: for a quantity of dimensional power `n`, converting from
/// prefix `p1` to prefix `p2` scales by `10^(n * (e1 - e2))` — the prefix
/// step counts `n` times, so one kilometre-step moves an area by a million
/// and a volume by a billion.
pub proof fn lemma_power_scaling(x: Rat, y: Rat, z: Rat, p1: Prefix, p2: Prefix, n: int)
    requires
        rat_wf(x),
        rat_wf(y),
        rat_wf(z),
        rat_eq(y, rat_scale10(x, prefix_shift(p1, n, 0))),
        rat_eq(z, rat_scale10(y, -prefix_shift(p2, n, 0))),
    ensures
        rat_eq(z, rat_scale10(x, n * (exponent_of(p1) - exponent_of(p2)))),
{
    lemma_cross_prefix(x, y, z, prefix_shift(p1, n, 0), prefix_shift(p2, n, 0));
    assert(prefix_shift(p1, n, 0) - prefix_shift(p2, n, 0)
        == n * (exponent_of(p1) - exponent_of(p2))) by (nonlinear_arith);
}

/// Base-shift law: a canonical-unit offset `s` (mass stores kilograms, an
/// offset of three against grams) cancels out of every conversion between
/// two prefixed units, which behaves exactly as for an unshifted quantity.
pub proof fn lemma_base_shift(x: Rat, y: Rat, z: Rat, p1: Prefix, p2: Prefix, n: int, s: int)
    requires
        rat_wf(x),
        rat_wf(y),
        rat_wf(z),
        rat_eq(y, rat_scale10(x, prefix_shift(p1, n, s))),
        rat_eq(z, rat_scale10(y, -prefix_shift(p2, n, s))),
    ensures
        rat_eq(z, rat_scale10(x, n * (exponent_of(p1) - exponent_of(p2)))),
{
    lemma_cross_prefix(x, y, z, prefix_shift(p1, n, s), prefix_shift(p2, n, s));
    assert(prefix_shift(p1, n, s) - prefix_shift(p2, n, s)
        == n * (exponent_of(p1) - exponent_of(p2))) by (nonlinear_arith);
}

/// Formula invertibility for product formulas: whenever a formula computed
/// `c = a * b` (as every `from_*` of a product formula ensures), dividing
/// the result by either operand returns the other exactly — `calc_mass` and
/// `calc_acceleration` undo `from_mass_acceleration`.
pub proof fn lemma_product_inverses(a: Rat, b: Rat, c: Rat)
    requires
        rat_wf(a),
        rat_wf(b),
        rat_wf(c),
        a.n != 0,
        b.n != 0,
        rat_eq(c, rat_mul(a, b)),
    ensures
        rat_eq(rat_div(c, b), a),
        rat_eq(rat_div(c, a), b),
{
    crate::rat::lemma_rat_factor_from_product(a, b, c);
    assert(rat_mul(a, b) == rat_mul(b, a));
    crate::rat::lemma_rat_factor_from_product(b, a, c);
}

/// Formula invertibility for quotient formulas: whenever a formula computed
/// `c = a / b` (as `from_distance_time` and its kin ensure), multiplying
/// back by the divisor returns the dividend, and dividing the dividend by
/// the result returns the divisor — `calc_distance` and `calc_time` undo
/// `from_distance_time`.
pub proof fn lemma_quotient_inverses(a: Rat, b: Rat, c: Rat)
    requires
        rat_wf(a),
        rat_wf(b),
        rat_wf(c),
        a.n != 0,
        b.n != 0,
        rat_eq(c, rat_div(a, b)),
    ensures
        rat_eq(rat_mul(c, b), a),
        rat_eq(rat_div(a, c), b),
{
    crate::rat::lemma_rat_div_wf(a, b);
    let q = rat_div(a, b);
    // c ~ q, so c * b ~ q * b ~ a
    crate::rat::lemma_rat_div_mul_cancel(a, b);
    crate::rat::lemma_rat_mul_congr(c, q, b, b);
    crate::rat::lemma_rat_plus_wf(c, b);
    crate::rat::lemma_rat_plus_wf(q, b);
    lemma_rat_eq_trans(rat_mul(c, b), rat_mul(q, b), a);
    // and a / c ~ b: cross-multiply out of the quotient forms
    assert(c.n != 0) by {
        if b.n >= 0 {
            assert(q.n * c.d == c.n * q.d);
            assert(q.n == a.n * b.d);
            assert(a.n * b.d != 0) by (nonlinear_arith)
                requires a.n != 0 && b.d > 0;
            assert(c.n != 0) by (nonlinear_arith)
                requires q.n * c.d == c.n * q.d && q.n != 0 && c.d > 0 && q.d > 0;
        } else {
            assert(q.n == -(a.n * b.d));
            assert(a.n * b.d != 0) by (nonlinear_arith)
                requires a.n != 0 && b.d > 0;
            assert(c.n != 0) by (nonlinear_arith)
                requires q.n * c.d == c.n * q.d && q.n != 0 && c.d > 0 && q.d > 0;
        }
    };
    crate::rat::lemma_rat_div_wf(a, c);
    // rat_div(a, c) ~ b follows by cross-multiplying the hypothesis
    if c.n >= 0 {
        if b.n >= 0 {
            assert((a.n * c.d) * b.d == b.n * (a.d * c.n)) by (nonlinear_arith)
                requires
                    c.n * (a.d * b.n) == (a.n * b.d) * c.d,
                    b.n > 0 || b.n < 0,
            ;
        } else {
            assert((a.n * c.d) * b.d == b.n * (a.d * c.n)) by (nonlinear_arith)
                requires
                    c.n * (a.d * -b.n) == (-(a.n * b.d)) * c.d,
            ;
        }
    } else {
        if b.n >= 0 {
            assert((-(a.n * c.d)) * b.d == b.n * (a.d * -c.n)) by (nonlinear_arith)
                requires
                    c.n * (a.d * b.n) == (a.n * b.d) * c.d,
            ;
        } else {
            assert((-(a.n * c.d)) * b.d == b.n * (a.d * -c.n)) by (nonlinear_arith)
                requires
                    c.n * (a.d * -b.n) == (-(a.n * b.d)) * c.d,
            ;
        }
    }
}

/// Scaling a well-formed rational keeps it well-formed.
pub proof fn lemma_scale_wf(a: Rat, k: int)
    requires
        rat_wf(a),
    ensures
        rat_wf(rat_scale10(a, k)),
{
    if k < 0 {
        crate::rat::lemma_pow10_pos((-k) as nat);
        assert(a.d * pow10((-k) as nat) > 0) by (nonlinear_arith)
            requires a.d > 0 && pow10((-k) as nat) >= 1;
    }
}


} // verus!
