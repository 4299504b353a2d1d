//! The mathematical model of magnitudes: exact rational numbers.
//!
//! A physical magnitude is modelled as a rational number `n / d` with a
//! positive denominator.  Values are compared by cross-multiplication
//! (`rat_eq`), never by representation, so `2/4` and `1/2` denote the same
//! magnitude.  Powers of ten (`pow10`, `rat_scale10`) model the SI prefix
//! ladder; the lemmas at the end are the algebraic laws the unit-conversion
//! and formula layers are proved against.

use vstd::prelude::*;

verus! {

/// The value of a magnitude: the rational number `n / d`.
pub ghost struct Rat {
    pub n: int,
    pub d: int,
}

/// A well-formed rational has a positive denominator.
pub open spec fn rat_wf(a: Rat) -> bool {
    a.d > 0
}

/// The two rationals denote the same value.
pub open spec fn rat_eq(a: Rat, b: Rat) -> bool {
    a.n * b.d == b.n * a.d
}

/// The rational `n / 1`.
pub open spec fn rat_int(n: int) -> Rat {
    Rat { n: n, d: 1 }
}

/// Exact product of two rationals.
pub open spec fn rat_mul(a: Rat, b: Rat) -> Rat {
    Rat { n: a.n * b.n, d: a.d * b.d }
}

/// Exact quotient of two rationals; keeps the denominator positive.
pub open spec fn rat_div(a: Rat, b: Rat) -> Rat {
    if b.n >= 0 {
        Rat { n: a.n * b.d, d: a.d * b.n }
    } else {
        Rat { n: -(a.n * b.d), d: a.d * -b.n }
    }
}

/// Exact sum of two rationals.
pub open spec fn rat_plus(a: Rat, b: Rat) -> Rat {
    Rat { n: a.n * b.d + b.n * a.d, d: a.d * b.d }
}

/// Exact difference of two rationals.
pub open spec fn rat_minus(a: Rat, b: Rat) -> Rat {
    Rat { n: a.n * b.d - b.n * a.d, d: a.d * b.d }
}

/// Exact negation.
pub open spec fn rat_neg(a: Rat) -> Rat {
    Rat { n: -a.n, d: a.d }
}

/// Ten to the power `e`.
pub open spec fn pow10(e: nat) -> int
    decreases e,
{
    if e == 0 {
        1
    } else {
        10 * pow10((e - 1) as nat)
    }
}

/// `a` scaled by `10^k`; `k` may be negative.
pub open spec fn rat_scale10(a: Rat, k: int) -> Rat {
    if k >= 0 {
        Rat { n: a.n * pow10(k as nat), d: a.d }
    } else {
        Rat { n: a.n, d: a.d * pow10((-k) as nat) }
    }
}

pub proof fn lemma_pow10_pos(e: nat)
    ensures
        pow10(e) >= 1,
    decreases e,
{
    if e > 0 {
        lemma_pow10_pos((e - 1) as nat);
    }
}

pub proof fn lemma_pow10_adds(a: nat, b: nat)
    ensures
        pow10(a + b) == pow10(a) * pow10(b),
    decreases a,
{
    if a == 0 {
        assert(pow10(0 + b) == 1 * pow10(b));
    } else {
        lemma_pow10_adds((a - 1) as nat, b);
        assert(pow10((a - 1) as nat + b + 1) == 10 * pow10((a - 1) as nat + b));
        assert(10 * (pow10((a - 1) as nat) * pow10(b)) == (10 * pow10((a - 1) as nat)) * pow10(b))
            by (nonlinear_arith);
    }
}

/// Ten to the `a` never decreases as `a` grows.
pub proof fn lemma_pow10_increases(a: nat, b: nat)
    requires
        a <= b,
    ensures
        pow10(a) <= pow10(b),
{
    lemma_pow10_adds(a, (b - a) as nat);
    lemma_pow10_pos(a);
    lemma_pow10_pos((b - a) as nat);
    assert(pow10(a) * 1 <= pow10(a) * pow10((b - a) as nat)) by (nonlinear_arith)
        requires pow10(a) >= 1 && pow10((b - a) as nat) >= 1;
}

/// The powers of ten around the width of an `i128`, written out.
pub proof fn lemma_pow10_i128_bounds()
    ensures
        pow10(38) == 100_000_000_000_000_000_000_000_000_000_000_000_000,
        pow10(39) == 1_000_000_000_000_000_000_000_000_000_000_000_000_000,
{
    reveal_with_fuel(pow10, 40);
}

/// Pure regrouping of a five-factor product.
pub proof fn lemma_regroup_left(n: int, d: int, pa: int, pb: int, pc: int, pd: int)
    ensures
        ((n * pa) * d) * (pb * (pc * pd)) == (n * d) * (((pa * pb) * pc) * pd),
{
    broadcast use vstd::arithmetic::mul::lemma_mul_is_associative;
    broadcast use vstd::arithmetic::mul::lemma_mul_is_commutative;

    assert((n * pa) * d == (n * d) * pa);
    assert(((n * d) * pa) * (pb * (pc * pd)) == (n * d) * (pa * (pb * (pc * pd))));
    assert(pa * (pb * (pc * pd)) == ((pa * pb) * pc) * pd);
}

/// Pure regrouping of a four-factor product.
pub proof fn lemma_regroup_right(n: int, d: int, p1: int, p2: int, p3: int)
    ensures
        ((n * p1) * (d * p2)) * p3 == (n * d) * ((p1 * p2) * p3),
{
    broadcast use vstd::arithmetic::mul::lemma_mul_is_associative;
    broadcast use vstd::arithmetic::mul::lemma_mul_is_commutative;

    assert((n * p1) * (d * p2) == (n * d) * (p1 * p2));
}

/// Denoting the same value is reflexive and symmetric by definition; this
/// gives transitivity, the missing piece of the equivalence.
pub proof fn lemma_rat_eq_trans(a: Rat, b: Rat, c: Rat)
    requires
        rat_wf(a),
        rat_wf(b),
        rat_wf(c),
        rat_eq(a, b),
        rat_eq(b, c),
    ensures
        rat_eq(a, c),
{
    assert((a.n * c.d) * b.d == (c.n * a.d) * b.d) by (nonlinear_arith)
        requires
            a.n * b.d == b.n * a.d,
            b.n * c.d == c.n * b.d;
    assert(a.n * c.d == c.n * a.d) by (nonlinear_arith)
        requires
            (a.n * c.d) * b.d == (c.n * a.d) * b.d,
            b.d > 0;
}

/// Multiplication respects value equality.
pub proof fn lemma_rat_mul_congr(a1: Rat, a2: Rat, b1: Rat, b2: Rat)
    requires
        rat_wf(a1),
        rat_wf(a2),
        rat_wf(b1),
        rat_wf(b2),
        rat_eq(a1, a2),
        rat_eq(b1, b2),
    ensures
        rat_eq(rat_mul(a1, b1), rat_mul(a2, b2)),
{
    assert((a1.n * b1.n) * (a2.d * b2.d) == (a2.n * b2.n) * (a1.d * b1.d)) by (nonlinear_arith)
        requires
            a1.n * a2.d == a2.n * a1.d,
            b1.n * b2.d == b2.n * b1.d;
}

/// The sum and difference of well-formed rationals are well-formed.
pub proof fn lemma_rat_plus_wf(a: Rat, b: Rat)
    requires
        rat_wf(a),
        rat_wf(b),
    ensures
        rat_wf(rat_plus(a, b)),
        rat_wf(rat_minus(a, b)),
        rat_wf(rat_mul(a, b)),
{
    assert(a.d * b.d > 0) by (nonlinear_arith)
        requires a.d > 0 && b.d > 0;
}

/// The quotient of well-formed rationals with a nonzero divisor is
/// well-formed.
pub proof fn lemma_rat_div_wf(a: Rat, b: Rat)
    requires
        rat_wf(a),
        rat_wf(b),
        b.n != 0,
    ensures
        rat_wf(rat_div(a, b)),
{
    if b.n >= 0 {
        assert(a.d * b.n > 0) by (nonlinear_arith)
            requires a.d > 0 && b.n > 0;
    } else {
        assert(a.d * -b.n > 0) by (nonlinear_arith)
            requires a.d > 0 && b.n < 0;
    }
}

/// A computed quotient of a computed value: replacing the dividend by an
/// equal value keeps the quotient equal.
pub proof fn lemma_div_of_equal(q: Rat, dv: Rat, target: Rat, t: Rat)
    requires
        rat_wf(q),
        rat_wf(dv),
        rat_wf(target),
        rat_wf(t),
        t.n != 0,
        rat_eq(dv, target),
        rat_eq(q, rat_div(dv, t)),
    ensures
        rat_eq(q, rat_div(target, t)),
{
    lemma_rat_div_congr(dv, target, t);
    lemma_rat_div_wf(dv, t);
    lemma_rat_div_wf(target, t);
    lemma_rat_eq_trans(q, rat_div(dv, t), rat_div(target, t));
}

/// A computed sum of computed values: replacing both operands by equal
/// values keeps the sum equal.
pub proof fn lemma_plus_of_equal(s: Rat, a: Rat, b: Rat, ta: Rat, tb: Rat)
    requires
        rat_wf(s),
        rat_wf(a),
        rat_wf(b),
        rat_wf(ta),
        rat_wf(tb),
        rat_eq(a, ta),
        rat_eq(b, tb),
        rat_eq(s, rat_plus(a, b)),
    ensures
        rat_eq(s, rat_plus(ta, tb)),
{
    lemma_rat_plus_congr(a, ta, b, tb);
    lemma_rat_plus_wf(a, b);
    lemma_rat_plus_wf(ta, tb);
    lemma_rat_eq_trans(s, rat_plus(a, b), rat_plus(ta, tb));
}

/// A computed difference of computed values: replacing both operands by
/// equal values keeps the difference equal.
pub proof fn lemma_minus_of_equal(s: Rat, a: Rat, b: Rat, ta: Rat, tb: Rat)
    requires
        rat_wf(s),
        rat_wf(a),
        rat_wf(b),
        rat_wf(ta),
        rat_wf(tb),
        rat_eq(a, ta),
        rat_eq(b, tb),
        rat_eq(s, rat_minus(a, b)),
    ensures
        rat_eq(s, rat_minus(ta, tb)),
{
    lemma_rat_plus_congr(a, ta, b, tb);
    lemma_rat_plus_wf(a, b);
    lemma_rat_plus_wf(ta, tb);
    lemma_rat_eq_trans(s, rat_minus(a, b), rat_minus(ta, tb));
}

/// Addition and subtraction respect value equality.
pub proof fn lemma_rat_plus_congr(a1: Rat, a2: Rat, b1: Rat, b2: Rat)
    requires
        rat_wf(a1),
        rat_wf(a2),
        rat_wf(b1),
        rat_wf(b2),
        rat_eq(a1, a2),
        rat_eq(b1, b2),
    ensures
        rat_eq(rat_plus(a1, b1), rat_plus(a2, b2)),
        rat_eq(rat_minus(a1, b1), rat_minus(a2, b2)),
{
    assert((a1.n * b1.d) * (a2.d * b2.d) == (a2.n * b2.d) * (a1.d * b1.d)) by (nonlinear_arith)
        requires
            a1.n * a2.d == a2.n * a1.d;
    assert((b1.n * a1.d) * (a2.d * b2.d) == (b2.n * a2.d) * (a1.d * b1.d)) by (nonlinear_arith)
        requires
            b1.n * b2.d == b2.n * b1.d;
    assert((a1.n * b1.d + b1.n * a1.d) * (a2.d * b2.d) == (a2.n * b2.d + b2.n * a2.d) * (a1.d
        * b1.d)) by (nonlinear_arith)
        requires
            (a1.n * b1.d) * (a2.d * b2.d) == (a2.n * b2.d) * (a1.d * b1.d),
            (b1.n * a1.d) * (a2.d * b2.d) == (b2.n * a2.d) * (a1.d * b1.d);
    assert((a1.n * b1.d - b1.n * a1.d) * (a2.d * b2.d) == (a2.n * b2.d - b2.n * a2.d) * (a1.d
        * b1.d)) by (nonlinear_arith)
        requires
            (a1.n * b1.d) * (a2.d * b2.d) == (a2.n * b2.d) * (a1.d * b1.d),
            (b1.n * a1.d) * (a2.d * b2.d) == (b2.n * a2.d) * (a1.d * b1.d);
}

/// Division respects value equality in its dividend.
pub proof fn lemma_rat_div_congr(a1: Rat, a2: Rat, b: Rat)
    requires
        rat_wf(a1),
        rat_wf(a2),
        rat_wf(b),
        b.n != 0,
        rat_eq(a1, a2),
    ensures
        rat_eq(rat_div(a1, b), rat_div(a2, b)),
{
    if b.n >= 0 {
        assert((a1.n * b.d) * (a2.d * b.n) == (a2.n * b.d) * (a1.d * b.n)) by (nonlinear_arith)
            requires
                a1.n * a2.d == a2.n * a1.d;
    } else {
        assert((-(a1.n * b.d)) * (a2.d * -b.n) == (-(a2.n * b.d)) * (a1.d * -b.n))
            by (nonlinear_arith)
            requires
                a1.n * a2.d == a2.n * a1.d;
    }
}

/// Scaling by a power of ten respects value equality.
pub proof fn lemma_rat_scale10_congr(a1: Rat, a2: Rat, k: int)
    requires
        rat_wf(a1),
        rat_wf(a2),
        rat_eq(a1, a2),
    ensures
        rat_eq(rat_scale10(a1, k), rat_scale10(a2, k)),
{
    let p = if k >= 0 { pow10(k as nat) } else { pow10((-k) as nat) };
    lemma_pow10_pos(if k >= 0 { k as nat } else { (-k) as nat });
    if k >= 0 {
        assert((a1.n * p) * a2.d == (a2.n * p) * a1.d) by (nonlinear_arith)
            requires a1.n * a2.d == a2.n * a1.d;
    } else {
        assert(a1.n * (a2.d * p) == a2.n * (a1.d * p)) by (nonlinear_arith)
            requires a1.n * a2.d == a2.n * a1.d;
    }
}

/// Scaling twice is scaling by the sum: the heart of cross-prefix
/// consistency.
pub proof fn lemma_rat_scale10_compose(a: Rat, k1: int, k2: int)
    requires
        rat_wf(a),
    ensures
        rat_eq(rat_scale10(rat_scale10(a, k1), k2), rat_scale10(a, k1 + k2)),
{
    let x = rat_scale10(rat_scale10(a, k1), k2);
    let y = rat_scale10(a, k1 + k2);
    let p1 = if k1 >= 0 { k1 as nat } else { (-k1) as nat };
    let p2 = if k2 >= 0 { k2 as nat } else { (-k2) as nat };
    let ps = if k1 + k2 >= 0 { (k1 + k2) as nat } else { (-(k1 + k2)) as nat };
    lemma_pow10_pos(p1);
    lemma_pow10_pos(p2);
    lemma_pow10_pos(ps);
    // In every sign case the claim reduces to an identity among products of
    // powers of ten whose exponents agree on both sides.
    let xn_e: nat = (if k1 >= 0 { p1 } else { 0nat }) + (if k2 >= 0 { p2 } else { 0nat });
    let xd_e: nat = (if k1 >= 0 { 0nat } else { p1 }) + (if k2 >= 0 { 0nat } else { p2 });
    let yn_e: nat = if k1 + k2 >= 0 { ps } else { 0nat };
    let yd_e: nat = if k1 + k2 >= 0 { 0nat } else { ps };
    lemma_pow10_adds(xn_e, yd_e);
    lemma_pow10_adds(yn_e, xd_e);
    assert(xn_e + yd_e == yn_e + xd_e);
    assert(x.n == a.n * pow10(xn_e) && x.d == a.d * pow10(xd_e)) by {
        if k1 >= 0 {
            if k2 >= 0 {
                lemma_pow10_adds(p1, p2);
                assert((a.n * pow10(p1)) * pow10(p2) == a.n * (pow10(p1) * pow10(p2)))
                    by (nonlinear_arith);
            } else {
                assert(a.n * pow10(p1) == a.n * pow10(xn_e));
            }
        } else {
            if k2 >= 0 {
                assert((a.d * pow10(p1)) == a.d * pow10(xd_e));
            } else {
                lemma_pow10_adds(p1, p2);
                assert((a.d * pow10(p1)) * pow10(p2) == a.d * (pow10(p1) * pow10(p2)))
                    by (nonlinear_arith);
            }
        }
    };
    assert(y.n == a.n * pow10(yn_e) && y.d == a.d * pow10(yd_e));
    assert((a.n * pow10(xn_e)) * (a.d * pow10(yd_e)) == (a.n * pow10(yn_e)) * (a.d * pow10(xd_e)))
        by (nonlinear_arith)
        requires
            pow10(xn_e) * pow10(yd_e) == pow10(xn_e + yd_e),
            pow10(yn_e) * pow10(xd_e) == pow10(yn_e + xd_e),
            xn_e + yd_e == yn_e + xd_e;
}

/// Scaling by `10^0` keeps the value.
pub proof fn lemma_rat_scale10_zero(a: Rat)
    ensures
        rat_scale10(a, 0) == (Rat { n: a.n, d: a.d }),
{
    assert(pow10(0) == 1);
}

/// Multiplying and then dividing by the same nonzero value returns to the
/// original: one half of formula invertibility.
pub proof fn lemma_rat_mul_div_cancel(a: Rat, b: Rat)
    requires
        rat_wf(a),
        rat_wf(b),
        b.n != 0,
    ensures
        rat_eq(rat_div(rat_mul(a, b), b), a),
{
    if b.n >= 0 {
        assert(((a.n * b.n) * b.d) * a.d == a.n * ((a.d * b.d) * b.n)) by (nonlinear_arith);
    } else {
        assert((-((a.n * b.n) * b.d)) * a.d == a.n * ((a.d * b.d) * -b.n)) by (nonlinear_arith);
    }
}

/// Dividing and then multiplying by the same nonzero value returns to the
/// original: the other half of formula invertibility.
pub proof fn lemma_rat_div_mul_cancel(a: Rat, b: Rat)
    requires
        rat_wf(a),
        rat_wf(b),
        b.n != 0,
    ensures
        rat_eq(rat_mul(rat_div(a, b), b), a),
{
    if b.n >= 0 {
        assert(((a.n * b.d) * b.n) * a.d == a.n * ((a.d * b.n) * b.d)) by (nonlinear_arith);
    } else {
        assert(((-(a.n * b.d)) * b.n) * a.d == a.n * ((a.d * -b.n) * b.d)) by (nonlinear_arith);
    }
}

/// Division agrees with multiplication by the reciprocal, stated the way the
/// formula layer uses it: if `c == a * b` in value then `a == c / b`.
pub proof fn lemma_rat_factor_from_product(a: Rat, b: Rat, c: Rat)
    requires
        rat_wf(a),
        rat_wf(b),
        rat_wf(c),
        b.n != 0,
        rat_eq(c, rat_mul(a, b)),
    ensures
        rat_eq(rat_div(c, b), a),
{
    lemma_rat_mul_div_cancel(a, b);
    let m = rat_mul(a, b);
    assert(a.d * b.d > 0) by (nonlinear_arith)
        requires a.d > 0 && b.d > 0;
    assert(rat_wf(m));
    assert(rat_wf(rat_div(c, b))) by (nonlinear_arith)
        requires c.d > 0 && b.n != 0 && b.d > 0;
    assert(rat_wf(rat_div(m, b))) by (nonlinear_arith)
        requires m.d > 0 && b.n != 0 && b.d > 0;
    // div respects value equality in its first argument
    if b.n >= 0 {
        assert((c.n * b.d) * (m.d * b.n) == (m.n * b.d) * (c.d * b.n)) by (nonlinear_arith)
            requires c.n * m.d == m.n * c.d;
    } else {
        assert((-(c.n * b.d)) * (m.d * -b.n) == (-(m.n * b.d)) * (c.d * -b.n)) by (nonlinear_arith)
            requires c.n * m.d == m.n * c.d;
    }
    assert(rat_eq(rat_div(c, b), rat_div(m, b)));
    lemma_rat_eq_trans(rat_div(c, b), rat_div(m, b), a);
}

} // verus!
