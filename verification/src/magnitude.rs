//! The scalar value of a quantity, as an exact decimal rational.
//!
//! A `Magnitude` holds `num / den * 10^exp`.  Every SI-prefix conversion is a
//! pure shift of `exp`, so it is exact at any scale; products and quotients
//! of magnitudes are exact rational arithmetic.  The mathematical value of a
//! `Magnitude` is its view, a [`Rat`]; two magnitudes denote the same value
//! when `rat_eq` holds of their views.
//!
//! Arithmetic here does not round and does not panic: whenever a result
//! could exceed the fixed-width fields, the operation requires the caller to
//! stay within those machine limits, stated over the mathematical values.

use vstd::prelude::*;

use crate::rat::{
    lemma_pow10_adds, lemma_pow10_i128_bounds, lemma_pow10_increases, lemma_pow10_pos, pow10,
    rat_div, rat_eq, rat_int, rat_minus, rat_mul, rat_neg, rat_plus, rat_scale10, rat_wf, Rat,
};

verus! {

/// The largest exponent of ten a magnitude may carry.
pub const EXP_LIMIT: i32 = 2_000_000_000;

/// `i128::MAX / 10`, the largest value that can still be multiplied by ten.
pub const TENTH_OF_I128_MAX: i128 = 17_014_118_346_046_923_173_168_730_371_588_410_572;

/// The whole number `n` as a magnitude, for specification.
pub open spec fn whole_mag(n: int) -> Magnitude {
    Magnitude { num: n as i128, den: 1, exp: 0 }
}

/// The decimal `n * 10^e` as a magnitude, for specification.
pub open spec fn decimal_mag(n: int, e: int) -> Magnitude {
    Magnitude { num: n as i128, den: 1, exp: e as i32 }
}

/// The nonnegative part of an exponent.
pub open spec fn pos_part(e: int) -> nat {
    if e >= 0 {
        e as nat
    } else {
        0
    }
}

/// The nonpositive part of an exponent, negated.
pub open spec fn neg_part(e: int) -> nat {
    if e >= 0 {
        0
    } else {
        (-e) as nat
    }
}

/// A scalar magnitude: the exact rational `num / den * 10^exp`.
#[derive(Clone, Copy, Debug, PartialEq, Eq, Structural)]
pub struct Magnitude {
    /// Numerator; carries the sign.
    pub num: i128,
    /// Denominator; positive in every well-formed magnitude.
    pub den: i128,
    /// Decimal exponent.
    pub exp: i32,
}

impl View for Magnitude {
    type V = Rat;

    open spec fn view(&self) -> Rat {
        Rat {
            n: self.num * pow10(pos_part(self.exp as int)),
            d: self.den * pow10(neg_part(self.exp as int)),
        }
    }
}

impl Magnitude {
    /// A well-formed magnitude: positive denominator, bounded exponent, and
    /// a numerator whose negation is still representable.
    pub open spec fn wf(self) -> bool {
        0 < self.den && -EXP_LIMIT <= self.exp <= EXP_LIMIT && i128::MIN < self.num
    }
}

/// A well-formed magnitude has a well-formed value.
pub proof fn lemma_view_wf(m: Magnitude)
    requires
        m.wf(),
    ensures
        rat_wf(m@),
{
    lemma_pow10_pos(neg_part(m.exp as int));
    assert(m.den * pow10(neg_part(m.exp as int)) > 0) by (nonlinear_arith)
        requires
            m.den > 0,
            pow10(neg_part(m.exp as int)) >= 1,
    ;
}

/// A well-formed magnitude with a nonzero numerator denotes a nonzero
/// value.
pub proof fn lemma_view_nonzero(m: Magnitude)
    requires
        m.wf(),
        m.num != 0,
    ensures
        m@.n != 0,
{
    lemma_pow10_pos(pos_part(m.exp as int));
    assert(m.num * pow10(pos_part(m.exp as int)) != 0) by (nonlinear_arith)
        requires
            m.num != 0,
            pow10(pos_part(m.exp as int)) >= 1,
    ;
}

/// Two representations `n * 10^a1 / (d * 10^b1)` and `n * 10^a2 / (d * 10^b2)`
/// denote the same value whenever `a1 - b1 == a2 - b2`.
proof fn lemma_rep_eq(n: int, d: int, a1: nat, b1: nat, a2: nat, b2: nat)
    requires
        a1 + b2 == a2 + b1,
    ensures
        rat_eq(
            Rat { n: n * pow10(a1), d: d * pow10(b1) },
            Rat { n: n * pow10(a2), d: d * pow10(b2) },
        ),
{
    lemma_pow10_adds(a1, b2);
    lemma_pow10_adds(a2, b1);
    assert((n * pow10(a1)) * (d * pow10(b2)) == (n * pow10(a2)) * (d * pow10(b1)))
        by (nonlinear_arith)
        requires
            pow10(a1) * pow10(b2) == pow10((a1 + b2) as nat),
            pow10(a2) * pow10(b1) == pow10((a2 + b1) as nat),
            a1 + b2 == a2 + b1,
    ;
}

/// The numerator of `a` after shifting its exponent down to `b`'s, when
/// `b.exp` is the smaller: the form used to add magnitudes exactly.
pub open spec fn aligned_num(a: Magnitude, b: Magnitude) -> int {
    a.num * pow10(pos_part(a.exp - b.exp))
}

/// The numerator identity behind exact addition: a term aligned to the
/// smaller exponent `emin`, re-scaled, equals the term of the rational sum.
proof fn lemma_aligned_term(n: int, d: int, e1: int, e2: int, emin: int)
    requires
        emin <= e1,
    ensures
        ((n * pow10((e1 - emin) as nat)) * d) * (pow10(pos_part(emin)) * (pow10(neg_part(e1))
            * pow10(neg_part(e2)))) == ((n * pow10(pos_part(e1))) * (d * pow10(neg_part(e2))))
            * pow10(neg_part(emin)),
{
    let el: nat = (e1 - emin) as nat + pos_part(emin) + neg_part(e1) + neg_part(e2);
    let er: nat = pos_part(e1) + neg_part(e2) + neg_part(emin);
    assert(el == er);
    crate::rat::lemma_regroup_left(
        n,
        d,
        pow10((e1 - emin) as nat),
        pow10(pos_part(emin)),
        pow10(neg_part(e1)),
        pow10(neg_part(e2)),
    );
    lemma_pow10_adds((e1 - emin) as nat, pos_part(emin));
    lemma_pow10_adds((e1 - emin) as nat + pos_part(emin), neg_part(e1));
    lemma_pow10_adds((e1 - emin) as nat + pos_part(emin) + neg_part(e1), neg_part(e2));
    assert((((pow10((e1 - emin) as nat) * pow10(pos_part(emin))) * pow10(neg_part(e1)))
        * pow10(neg_part(e2))) == pow10(el));
    crate::rat::lemma_regroup_right(
        n,
        d,
        pow10(pos_part(e1)),
        pow10(neg_part(e2)),
        pow10(neg_part(emin)),
    );
    lemma_pow10_adds(pos_part(e1), neg_part(e2));
    lemma_pow10_adds(pos_part(e1) + neg_part(e2), neg_part(emin));
    assert(((pow10(pos_part(e1)) * pow10(neg_part(e2))) * pow10(neg_part(emin))) == pow10(er));
}

/// Distribution of an aligned sum over the regrouped product, as a pure ring
/// identity.
proof fn lemma_sum_regroup(sn: int, on: int, sd: int, od: int, pm: int, pc: int, pd: int)
    ensures
        ((sn * od + on * sd) * pm) * ((sd * pc) * (od * pd)) == ((sn * od) * (pm * (pc * pd)))
            * (sd * od) + ((on * sd) * (pm * (pd * pc))) * (sd * od),
        ((sn * od - on * sd) * pm) * ((sd * pc) * (od * pd)) == ((sn * od) * (pm * (pc * pd)))
            * (sd * od) - ((on * sd) * (pm * (pd * pc))) * (sd * od),
{
    broadcast use vstd::arithmetic::mul::lemma_mul_is_associative;
    broadcast use vstd::arithmetic::mul::lemma_mul_is_commutative;

    let q = (sd * pc) * (od * pd);
    assert(((sn * od + on * sd) * pm) * q == ((sn * od) * pm) * q + ((on * sd) * pm) * q) by {
        vstd::arithmetic::mul::lemma_mul_is_distributive_add_other_way(pm, sn * od, on * sd);
        vstd::arithmetic::mul::lemma_mul_is_distributive_add_other_way(
            q,
            (sn * od) * pm,
            (on * sd) * pm,
        );
    };
    assert(((sn * od - on * sd) * pm) * q == ((sn * od) * pm) * q - ((on * sd) * pm) * q) by {
        vstd::arithmetic::mul::lemma_mul_is_distributive_sub_other_way(pm, sn * od, on * sd);
        vstd::arithmetic::mul::lemma_mul_is_distributive_sub_other_way(
            q,
            (sn * od) * pm,
            (on * sd) * pm,
        );
    };
    assert(((sn * od) * pm) * q == (((sn * od) * pm) * (pc * pd)) * (sd * od));
    assert((((sn * od) * pm) * (pc * pd)) == (sn * od) * (pm * (pc * pd)));
    assert(((on * sd) * pm) * q == (((on * sd) * pm) * (pd * pc)) * (sd * od));
    assert((((on * sd) * pm) * (pd * pc)) == (on * sd) * (pm * (pd * pc)));
}

/// Distribution of the rational sum's numerator, as a pure ring identity.
proof fn lemma_sum_regroup_value(c1: int, c2: int, sd: int, od: int, pn: int)
    ensures
        (c1 + c2) * ((sd * od) * pn) == (c1 * pn) * (sd * od) + (c2 * pn) * (sd * od),
        (c1 - c2) * ((sd * od) * pn) == (c1 * pn) * (sd * od) - (c2 * pn) * (sd * od),
{
    assert((c1 + c2) * ((sd * od) * pn) == (c1 * pn) * (sd * od) + (c2 * pn) * (sd * od))
        by (nonlinear_arith);
    assert((c1 - c2) * ((sd * od) * pn) == (c1 * pn) * (sd * od) - (c2 * pn) * (sd * od))
        by (nonlinear_arith);
}

/// Sixty-three bits of headroom: a magnitude whose fields are this small
/// can be multiplied or divided by any other such magnitude without ever
/// leaving the fixed-width fields.  This is the easy, linear way to meet
/// `can_times` and `can_divide`.
pub open spec fn modest(a: Magnitude) -> bool {
    &&& -0x7FFF_FFFF_FFFF_FFFF <= a.num <= 0x7FFF_FFFF_FFFF_FFFF
    &&& a.den <= 0x7FFF_FFFF_FFFF_FFFF
    &&& -1_000_000_000 <= a.exp <= 1_000_000_000
}

/// The product of `a` and `b` stays within the fixed-width fields: either
/// both operands are modest, or the exact products are known to fit.
pub open spec fn can_times(a: Magnitude, b: Magnitude) -> bool {
    ||| modest(a) && modest(b)
    ||| {
        &&& -i128::MAX <= a.num * b.num <= i128::MAX
        &&& a.den * b.den <= i128::MAX
        &&& -EXP_LIMIT <= a.exp + b.exp <= EXP_LIMIT
    }
}

/// The quotient of `a` by `b` is defined (nonzero divisor) and stays within
/// the fixed-width fields: either both operands are modest, or the exact
/// cross products are known to fit.
pub open spec fn can_divide(a: Magnitude, b: Magnitude) -> bool {
    &&& b.num != 0
    &&& {
        ||| modest(a) && modest(b)
        ||| {
            &&& -i128::MAX <= a.num * b.den <= i128::MAX
            &&& -i128::MAX <= a.den * b.num <= i128::MAX
            &&& -EXP_LIMIT <= a.exp - b.exp <= EXP_LIMIT
        }
    }
}

/// Modest operands always meet the exact product bounds.
pub proof fn lemma_modest_products(a: Magnitude, b: Magnitude)
    requires
        a.wf(),
        b.wf(),
        modest(a),
        modest(b),
    ensures
        -i128::MAX <= a.num * b.num <= i128::MAX,
        a.den * b.den <= i128::MAX,
        -i128::MAX <= a.num * b.den <= i128::MAX,
        -i128::MAX <= a.den * b.num <= i128::MAX,
        -EXP_LIMIT <= a.exp + b.exp <= EXP_LIMIT,
        -EXP_LIMIT <= a.exp - b.exp <= EXP_LIMIT,
    {
    assert(-i128::MAX <= a.num * b.num <= i128::MAX && a.den * b.den <= i128::MAX
        && -i128::MAX <= a.num * b.den <= i128::MAX && -i128::MAX <= a.den * b.num <= i128::MAX)
        by (nonlinear_arith)
        requires
            -0x7FFF_FFFF_FFFF_FFFF <= a.num <= 0x7FFF_FFFF_FFFF_FFFF,
            0 < a.den <= 0x7FFF_FFFF_FFFF_FFFF,
            -0x7FFF_FFFF_FFFF_FFFF <= b.num <= 0x7FFF_FFFF_FFFF_FFFF,
            0 < b.den <= 0x7FFF_FFFF_FFFF_FFFF,
    ;
}

/// Forty-eight bits of headroom and exponents within eight decimal steps:
/// operands this small can always be added or subtracted exactly.  This is
/// the easy, linear way to meet `can_plus` and `can_minus`.
pub open spec fn modest_sum(a: Magnitude, b: Magnitude) -> bool {
    &&& -0xFFFF_FFFF_FFFF <= a.num <= 0xFFFF_FFFF_FFFF
    &&& a.den <= 0xFFFF_FFFF_FFFF
    &&& -0xFFFF_FFFF_FFFF <= b.num <= 0xFFFF_FFFF_FFFF
    &&& b.den <= 0xFFFF_FFFF_FFFF
    &&& -8 <= a.exp - b.exp <= 8
}

/// The sum of `a` and `b` stays within the fixed-width fields: either both
/// operands are modest and close in scale, or the exact aligned products
/// are known to fit.
pub open spec fn can_plus(a: Magnitude, b: Magnitude) -> bool {
    ||| modest_sum(a, b)
    ||| {
        &&& -38 <= a.exp - b.exp <= 38
        &&& -i128::MAX <= aligned_num(a, b) <= i128::MAX
        &&& -i128::MAX <= aligned_num(b, a) <= i128::MAX
        &&& -i128::MAX <= aligned_num(a, b) * b.den <= i128::MAX
        &&& -i128::MAX <= aligned_num(b, a) * a.den <= i128::MAX
        &&& -i128::MAX <= aligned_num(a, b) * b.den + aligned_num(b, a) * a.den <= i128::MAX
        &&& a.den * b.den <= i128::MAX
    }
}

/// The difference of `a` and `b` stays within the fixed-width fields:
/// either both operands are modest and close in scale, or the exact aligned
/// products are known to fit.
pub open spec fn can_minus(a: Magnitude, b: Magnitude) -> bool {
    ||| modest_sum(a, b)
    ||| {
        &&& -38 <= a.exp - b.exp <= 38
        &&& -i128::MAX <= aligned_num(a, b) <= i128::MAX
        &&& -i128::MAX <= aligned_num(b, a) <= i128::MAX
        &&& -i128::MAX <= aligned_num(a, b) * b.den <= i128::MAX
        &&& -i128::MAX <= aligned_num(b, a) * a.den <= i128::MAX
        &&& -i128::MAX <= aligned_num(a, b) * b.den - aligned_num(b, a) * a.den <= i128::MAX
        &&& a.den * b.den <= i128::MAX
    }
}

/// Modest, scale-close operands always meet the exact aligned-product
/// bounds of addition and subtraction.
pub proof fn lemma_modest_sum_bounds(a: Magnitude, b: Magnitude)
    requires
        a.wf(),
        b.wf(),
        modest_sum(a, b),
    ensures
        -38 <= a.exp - b.exp <= 38,
        -i128::MAX <= aligned_num(a, b) <= i128::MAX,
        -i128::MAX <= aligned_num(b, a) <= i128::MAX,
        -i128::MAX <= aligned_num(a, b) * b.den <= i128::MAX,
        -i128::MAX <= aligned_num(b, a) * a.den <= i128::MAX,
        -i128::MAX <= aligned_num(a, b) * b.den + aligned_num(b, a) * a.den <= i128::MAX,
        -i128::MAX <= aligned_num(a, b) * b.den - aligned_num(b, a) * a.den <= i128::MAX,
        a.den * b.den <= i128::MAX,
    {
    let da = pos_part(a.exp - b.exp);
    let db = pos_part(b.exp - a.exp);
    assert(pow10(8) == 100_000_000) by {
        reveal_with_fuel(pow10, 9);
    };
    lemma_pow10_pos(da);
    lemma_pow10_pos(db);
    lemma_pow10_increases(da, 8);
    lemma_pow10_increases(db, 8);
    assert(-i128::MAX <= aligned_num(a, b) <= i128::MAX
        && -i128::MAX <= aligned_num(b, a) <= i128::MAX
        && -i128::MAX <= aligned_num(a, b) * b.den <= i128::MAX
        && -i128::MAX <= aligned_num(b, a) * a.den <= i128::MAX
        && -i128::MAX <= aligned_num(a, b) * b.den + aligned_num(b, a) * a.den <= i128::MAX
        && -i128::MAX <= aligned_num(a, b) * b.den - aligned_num(b, a) * a.den <= i128::MAX
        && a.den * b.den <= i128::MAX) by (nonlinear_arith)
        requires
            aligned_num(a, b) == a.num * pow10(pos_part(a.exp - b.exp)),
            aligned_num(b, a) == b.num * pow10(pos_part(b.exp - a.exp)),
            1 <= pow10(pos_part(a.exp - b.exp)) <= 100_000_000,
            1 <= pow10(pos_part(b.exp - a.exp)) <= 100_000_000,
            -0xFFFF_FFFF_FFFF <= a.num <= 0xFFFF_FFFF_FFFF,
            0 < a.den <= 0xFFFF_FFFF_FFFF,
            -0xFFFF_FFFF_FFFF <= b.num <= 0xFFFF_FFFF_FFFF,
            0 < b.den <= 0xFFFF_FFFF_FFFF,
    ;
}

/// The representation `times` produces, for specification.
pub open spec fn times_rep(a: Magnitude, b: Magnitude) -> Magnitude {
    Magnitude { num: (a.num * b.num) as i128, den: (a.den * b.den) as i128, exp: (a.exp + b.exp) as i32 }
}

/// The representation `minus` produces, for specification.
pub open spec fn minus_rep(a: Magnitude, b: Magnitude) -> Magnitude {
    Magnitude {
        num: (aligned_num(a, b) * b.den - aligned_num(b, a) * a.den) as i128,
        den: (a.den * b.den) as i128,
        exp: if a.exp >= b.exp { b.exp } else { a.exp },
    }
}

/// The representation `plus` produces, for specification.
pub open spec fn plus_rep(a: Magnitude, b: Magnitude) -> Magnitude {
    Magnitude {
        num: (aligned_num(a, b) * b.den + aligned_num(b, a) * a.den) as i128,
        den: (a.den * b.den) as i128,
        exp: if a.exp >= b.exp { b.exp } else { a.exp },
    }
}

/// The representation `divided_by` produces, for specification.
pub open spec fn div_rep(a: Magnitude, b: Magnitude) -> Magnitude {
    if b.num >= 0 {
        Magnitude {
            num: (a.num * b.den) as i128,
            den: (a.den * b.num) as i128,
            exp: (a.exp - b.exp) as i32,
        }
    } else {
        Magnitude {
            num: (-(a.num * b.den)) as i128,
            den: (a.den * -b.num) as i128,
            exp: (a.exp - b.exp) as i32,
        }
    }
}

/// The representation a shift by `10^k` produces, for specification.
pub open spec fn shift_rep(a: Magnitude, k: int) -> Magnitude {
    Magnitude { num: a.num, den: a.den, exp: (a.exp + k) as i32 }
}

/// Scaling `a` by `10^k` keeps its exponent within bounds.
pub open spec fn can_shift(a: Magnitude, k: int) -> bool {
    -EXP_LIMIT <= a.exp + k <= EXP_LIMIT
}

/// The two magnitudes are close enough in scale to compare by
/// cross-multiplication within the fixed-width fields.
pub open spec fn can_compare(a: Magnitude, b: Magnitude) -> bool {
    &&& -i128::MAX <= a@.n * b@.d <= i128::MAX
    &&& -i128::MAX <= b@.n * a@.d <= i128::MAX
}

impl Magnitude {
    /// The magnitude `num / den * 10^exp`.
    pub fn new(num: i128, den: i128, exp: i32) -> (r: Magnitude)
        requires
            den > 0,
            -EXP_LIMIT <= exp <= EXP_LIMIT,
            i128::MIN < num,
        ensures
            r == (Magnitude { num, den, exp }),
            r.wf(),
    {
        Magnitude { num, den, exp }
    }

    /// The magnitude of the whole number `n`.
    pub fn from_int(n: i128) -> (r: Magnitude)
        requires
            i128::MIN < n,
        ensures
            r == whole_mag(n as int),
            r.wf(),
            r@ == rat_int(n as int),
    {
        let r = Magnitude { num: n, den: 1, exp: 0 };
        proof {
            assert(pow10(0) == 1);
        }
        r
    }

    /// The magnitude `m * 10^e`: a decimal written as mantissa and exponent.
    pub fn from_decimal(m: i128, e: i32) -> (r: Magnitude)
        requires
            -EXP_LIMIT <= e <= EXP_LIMIT,
            i128::MIN < m,
        ensures
            r == decimal_mag(m as int, e as int),
            r.wf(),
            rat_eq(r@, rat_scale10(rat_int(m as int), e as int)),
    {
        let r = Magnitude { num: m, den: 1, exp: e };
        proof {
            assert(pow10(0) == 1);
            if e >= 0 {
                assert(r@ == rat_scale10(rat_int(m as int), e as int));
                lemma_view_wf(r);
            } else {
                assert(r@.n == m && r@.d == 1 * pow10(neg_part(e as int)));
                assert(rat_scale10(rat_int(m as int), e as int).n == m as int);
                assert(rat_scale10(rat_int(m as int), e as int).d == 1 * pow10((-e) as nat));
            }
        }
        r
    }

    /// The value scaled by `10^k`: exact, a pure exponent shift.
    pub fn scaled_by_pow10(&self, k: i32) -> (r: Magnitude)
        requires
            self.wf(),
            can_shift(*self, k as int),
        ensures
            r.wf(),
            rat_eq(r@, rat_scale10(self@, k as int)),
            r == shift_rep(*self, k as int),
    {
        let r = Magnitude { num: self.num, den: self.den, exp: self.exp + k };
        proof {
            let e = self.exp as int;
            let ki = k as int;
            lemma_pow10_pos(pos_part(e));
            lemma_pow10_pos(neg_part(e));
            if ki >= 0 {
                // target: rat_scale10(self@, k) = { n * 10^(pos(e)) * 10^k, d * 10^(neg(e)) }
                lemma_pow10_adds(pos_part(e), ki as nat);
                assert((self.num * pow10(pos_part(e))) * pow10(ki as nat)
                    == self.num * pow10((pos_part(e) + ki) as nat)) by (nonlinear_arith)
                    requires
                        pow10(pos_part(e)) * pow10(ki as nat) == pow10((pos_part(e) + ki) as nat),
                ;
                lemma_rep_eq(
                    self.num as int,
                    self.den as int,
                    pos_part(e + ki),
                    neg_part(e + ki),
                    (pos_part(e) + ki) as nat,
                    neg_part(e),
                );
            } else {
                lemma_pow10_adds(neg_part(e), (-ki) as nat);
                assert((self.den * pow10(neg_part(e))) * pow10((-ki) as nat)
                    == self.den * pow10((neg_part(e) + (-ki)) as nat)) by (nonlinear_arith)
                    requires
                        pow10(neg_part(e)) * pow10((-ki) as nat)
                            == pow10((neg_part(e) + (-ki)) as nat),
                ;
                lemma_rep_eq(
                    self.num as int,
                    self.den as int,
                    pos_part(e + ki),
                    neg_part(e + ki),
                    pos_part(e),
                    (neg_part(e) + (-ki)) as nat,
                );
            }
        }
        r
    }

    /// Exact product of two magnitudes.
    pub fn times(&self, other: &Magnitude) -> (r: Magnitude)
        requires
            self.wf(),
            other.wf(),
            can_times(*self, *other),
        ensures
            r.wf(),
            rat_eq(r@, rat_mul(self@, other@)),
            r == times_rep(*self, *other),
    {
        proof {
            if modest(*self) && modest(*other) {
                lemma_modest_products(*self, *other);
            }
        }
        let r = Magnitude {
            num: self.num * other.num,
            den: self.den * other.den,
            exp: self.exp + other.exp,
        };
        proof {
            assert(self.den * other.den > 0) by (nonlinear_arith)
                requires self.den > 0 && other.den > 0;
            let e1 = self.exp as int;
            let e2 = other.exp as int;
            let prod = rat_mul(self@, other@);
            lemma_pow10_adds(pos_part(e1), pos_part(e2));
            lemma_pow10_adds(neg_part(e1), neg_part(e2));
            assert(prod.n == (self.num * other.num) * pow10(pos_part(e1) + pos_part(e2))
                && prod.d == (self.den * other.den) * pow10(neg_part(e1) + neg_part(e2)))
                by (nonlinear_arith)
                requires
                    prod.n == (self.num * pow10(pos_part(e1))) * (other.num * pow10(pos_part(e2))),
                    prod.d == (self.den * pow10(neg_part(e1))) * (other.den * pow10(neg_part(e2))),
                    pow10(pos_part(e1)) * pow10(pos_part(e2))
                        == pow10(pos_part(e1) + pos_part(e2)),
                    pow10(neg_part(e1)) * pow10(neg_part(e2))
                        == pow10(neg_part(e1) + neg_part(e2)),
            ;
            lemma_rep_eq(
                self.num * other.num,
                self.den * other.den,
                pos_part(e1 + e2),
                neg_part(e1 + e2),
                pos_part(e1) + pos_part(e2),
                neg_part(e1) + neg_part(e2),
            );
        }
        r
    }

    /// Exact quotient of two magnitudes.  The divisor must be nonzero: a
    /// magnitude cannot carry the infinities a floating-point division by
    /// zero would produce, so that case is excluded by contract.
    pub fn divided_by(&self, other: &Magnitude) -> (r: Magnitude)
        requires
            self.wf(),
            other.wf(),
            can_divide(*self, *other),
        ensures
            r.wf(),
            rat_eq(r@, rat_div(self@, other@)),
            r == div_rep(*self, *other),
    {
        proof {
            if modest(*self) && modest(*other) {
                lemma_modest_products(*self, *other);
            }
            assert(other.num > i128::MIN && -i128::MAX <= self.den * -other.num <= i128::MAX)
                by (nonlinear_arith)
                requires
                    self.den >= 1,
                    -i128::MAX <= self.den * other.num <= i128::MAX,
            ;
        }
        let (rnum, rden): (i128, i128) = if other.num >= 0 {
            (self.num * other.den, self.den * other.num)
        } else {
            (-(self.num * other.den), self.den * -other.num)
        };
        let r = Magnitude { num: rnum, den: rden, exp: self.exp - other.exp };
        proof {
            let e1 = self.exp as int;
            let e2 = other.exp as int;
            let q = rat_div(self@, other@);
            lemma_pow10_pos(pos_part(e2));
            lemma_pow10_pos(neg_part(e2));
            assert(rden > 0) by (nonlinear_arith)
                requires self.den > 0 && other.num != 0
                    && rden == if other.num >= 0 { self.den * other.num } else {
                        self.den * -other.num
                    };
            // other@.n has the sign of other.num
            assert(other@.n == other.num * pow10(pos_part(e2)));
            if other.num >= 0 {
                assert(other@.n >= 0) by (nonlinear_arith)
                    requires other@.n == other.num * pow10(pos_part(e2)),
                        other.num >= 0, pow10(pos_part(e2)) >= 1;
                lemma_pow10_adds(pos_part(e1), neg_part(e2));
                lemma_pow10_adds(neg_part(e1), pos_part(e2));
                assert(q.n == rnum * pow10(pos_part(e1) + neg_part(e2))
                    && q.d == rden * pow10(neg_part(e1) + pos_part(e2))) by (nonlinear_arith)
                    requires
                        q.n == (self.num * pow10(pos_part(e1))) * (other.den * pow10(neg_part(e2))),
                        q.d == (self.den * pow10(neg_part(e1))) * (other.num * pow10(pos_part(e2))),
                        rnum == self.num * other.den,
                        rden == self.den * other.num,
                        pow10(pos_part(e1)) * pow10(neg_part(e2))
                            == pow10(pos_part(e1) + neg_part(e2)),
                        pow10(neg_part(e1)) * pow10(pos_part(e2))
                            == pow10(neg_part(e1) + pos_part(e2)),
                ;
                lemma_rep_eq(
                    rnum as int,
                    rden as int,
                    pos_part(e1 - e2),
                    neg_part(e1 - e2),
                    pos_part(e1) + neg_part(e2),
                    neg_part(e1) + pos_part(e2),
                );
            } else {
                assert(other@.n < 0) by (nonlinear_arith)
                    requires other@.n == other.num * pow10(pos_part(e2)),
                        other.num < 0, pow10(pos_part(e2)) >= 1;
                lemma_pow10_adds(pos_part(e1), neg_part(e2));
                lemma_pow10_adds(neg_part(e1), pos_part(e2));
                assert(q.n == rnum * pow10(pos_part(e1) + neg_part(e2))
                    && q.d == rden * pow10(neg_part(e1) + pos_part(e2))) by (nonlinear_arith)
                    requires
                        q.n == -((self.num * pow10(pos_part(e1))) * (other.den * pow10(
                            neg_part(e2),
                        ))),
                        q.d == (self.den * pow10(neg_part(e1))) * -(other.num * pow10(
                            pos_part(e2),
                        )),
                        rnum == -(self.num * other.den),
                        rden == self.den * -other.num,
                        pow10(pos_part(e1)) * pow10(neg_part(e2))
                            == pow10(pos_part(e1) + neg_part(e2)),
                        pow10(neg_part(e1)) * pow10(pos_part(e2))
                            == pow10(neg_part(e1) + pos_part(e2)),
                ;
                lemma_rep_eq(
                    rnum as int,
                    rden as int,
                    pos_part(e1 - e2),
                    neg_part(e1 - e2),
                    pos_part(e1) + neg_part(e2),
                    neg_part(e1) + pos_part(e2),
                );
            }
        }
        r
    }

    /// Ten to the power `k`, as a machine integer.
    pub fn ten_to(k: u32) -> (r: i128)
        requires
            pow10(k as nat) <= i128::MAX,
        ensures
            r == pow10(k as nat),
    {
        let mut r: i128 = 1;
        let mut i: u32 = 0;
        while i < k
            invariant
                i <= k,
                r == pow10(i as nat),
                pow10(k as nat) <= i128::MAX,
            decreases k - i,
        {
            proof {
                lemma_pow10_pos(i as nat);
                assert(pow10((i + 1) as nat) == 10 * pow10(i as nat));
                lemma_pow10_increases((i + 1) as nat, k as nat);
            }
            r = r * 10;
            i = i + 1;
        }
        r
    }

    /// Exact negation.
    pub fn negated(&self) -> (r: Magnitude)
        requires
            self.wf(),
        ensures
            r.wf(),
            rat_eq(r@, rat_neg(self@)),
            r == (Magnitude { num: (-self.num) as i128, den: self.den, exp: self.exp }),
    {
        let r = Magnitude { num: -self.num, den: self.den, exp: self.exp };
        proof {
            let e = self.exp as int;
            assert(r@.n == (-self.num) * pow10(pos_part(e)));
            assert((-self.num) * pow10(pos_part(e)) == -(self.num * pow10(pos_part(e))))
                by (nonlinear_arith);
            lemma_view_wf(*self);
        }
        r
    }

    /// Exact sum of two magnitudes, after aligning their exponents.
    pub fn plus(&self, other: &Magnitude) -> (r: Magnitude)
        requires
            self.wf(),
            other.wf(),
            can_plus(*self, *other),
        ensures
            r.wf(),
            rat_eq(r@, rat_plus(self@, other@)),
            r == plus_rep(*self, *other),
    {
        proof {
            if modest_sum(*self, *other) {
                lemma_modest_sum_bounds(*self, *other);
            }
            lemma_pow10_i128_bounds();
            lemma_pow10_increases(pos_part(self.exp - other.exp), 38);
            lemma_pow10_increases(pos_part(other.exp - self.exp), 38);
            assert(pow10(0) == 1);
        }
        let (sn, on, emin): (i128, i128, i32) = if self.exp >= other.exp {
            let p = Self::ten_to((self.exp - other.exp) as u32);
            (self.num * p, other.num, other.exp)
        } else {
            let p = Self::ten_to((other.exp - self.exp) as u32);
            (self.num, other.num * p, self.exp)
        };
        let r = Magnitude {
            num: sn * other.den + on * self.den,
            den: self.den * other.den,
            exp: emin,
        };
        proof {
            assert(self.den * other.den > 0) by (nonlinear_arith)
                requires self.den > 0 && other.den > 0;
            let e1 = self.exp as int;
            let e2 = other.exp as int;
            let em = emin as int;
            lemma_aligned_term(self.num as int, other.den as int, e1, e2, em);
            lemma_aligned_term(other.num as int, self.den as int, e2, e1, em);
            let t1l = ((self.num * pow10((e1 - em) as nat)) * other.den) * (pow10(pos_part(em))
                * (pow10(neg_part(e1)) * pow10(neg_part(e2))));
            let t1r = ((self.num * pow10(pos_part(e1))) * (other.den * pow10(neg_part(e2))))
                * pow10(neg_part(em));
            let t2l = ((other.num * pow10((e2 - em) as nat)) * self.den) * (pow10(pos_part(em))
                * (pow10(neg_part(e2)) * pow10(neg_part(e1))));
            let t2r = ((other.num * pow10(pos_part(e2))) * (self.den * pow10(neg_part(e1))))
                * pow10(neg_part(em));
            assert(sn == self.num * pow10((e1 - em) as nat)) by {
                if self.exp < other.exp {
                    assert(pow10(0) == 1);
                    assert(self.num * 1 == self.num);
                }
            };
            assert(on == other.num * pow10((e2 - em) as nat)) by {
                if self.exp >= other.exp {
                    assert(pow10(0) == 1);
                    assert(other.num * 1 == other.num);
                }
            };
            let s = rat_plus(self@, other@);
            let c1 = (self.num * pow10(pos_part(e1))) * (other.den * pow10(neg_part(e2)));
            let c2 = (other.num * pow10(pos_part(e2))) * (self.den * pow10(neg_part(e1)));
            lemma_sum_regroup(
                sn as int,
                on as int,
                self.den as int,
                other.den as int,
                pow10(pos_part(em)),
                pow10(neg_part(e1)),
                pow10(neg_part(e2)),
            );
            lemma_sum_regroup_value(
                c1,
                c2,
                self.den as int,
                other.den as int,
                pow10(neg_part(em)),
            );
            assert(t1l == (sn * other.den) * (pow10(pos_part(em)) * (pow10(neg_part(e1))
                * pow10(neg_part(e2)))));
            assert(t2l == (on * self.den) * (pow10(pos_part(em)) * (pow10(neg_part(e2))
                * pow10(neg_part(e1)))));
            assert(t1r == (c1 * pow10(neg_part(em))));
            assert(t2r == (c2 * pow10(neg_part(em))));
            assert(s.n == c1 + c2);
            assert(s.d == (self.den * pow10(neg_part(e1))) * (other.den * pow10(neg_part(e2))));
            assert(r@.n == (sn * other.den + on * self.den) * pow10(pos_part(em)));
            assert(r@.d == (self.den * other.den) * pow10(neg_part(em)));
            assert((self.den * other.den) * pow10(neg_part(em)) == (self.den as int
                * other.den as int) * pow10(neg_part(em)));
            assert(r@.n * s.d == s.n * r@.d);
        }
        r
    }

    /// Exact difference of two magnitudes, after aligning their exponents.
    pub fn minus(&self, other: &Magnitude) -> (r: Magnitude)
        requires
            self.wf(),
            other.wf(),
            can_minus(*self, *other),
        ensures
            r.wf(),
            rat_eq(r@, rat_minus(self@, other@)),
            r == minus_rep(*self, *other),
    {
        proof {
            if modest_sum(*self, *other) {
                lemma_modest_sum_bounds(*self, *other);
            }
            lemma_pow10_i128_bounds();
            lemma_pow10_increases(pos_part(self.exp - other.exp), 38);
            lemma_pow10_increases(pos_part(other.exp - self.exp), 38);
            assert(pow10(0) == 1);
        }
        let (sn, on, emin): (i128, i128, i32) = if self.exp >= other.exp {
            let p = Self::ten_to((self.exp - other.exp) as u32);
            (self.num * p, other.num, other.exp)
        } else {
            let p = Self::ten_to((other.exp - self.exp) as u32);
            (self.num, other.num * p, self.exp)
        };
        let r = Magnitude {
            num: sn * other.den - on * self.den,
            den: self.den * other.den,
            exp: emin,
        };
        proof {
            assert(self.den * other.den > 0) by (nonlinear_arith)
                requires self.den > 0 && other.den > 0;
            let e1 = self.exp as int;
            let e2 = other.exp as int;
            let em = emin as int;
            lemma_aligned_term(self.num as int, other.den as int, e1, e2, em);
            lemma_aligned_term(other.num as int, self.den as int, e2, e1, em);
            let t1l = ((self.num * pow10((e1 - em) as nat)) * other.den) * (pow10(pos_part(em))
                * (pow10(neg_part(e1)) * pow10(neg_part(e2))));
            let t1r = ((self.num * pow10(pos_part(e1))) * (other.den * pow10(neg_part(e2))))
                * pow10(neg_part(em));
            let t2l = ((other.num * pow10((e2 - em) as nat)) * self.den) * (pow10(pos_part(em))
                * (pow10(neg_part(e2)) * pow10(neg_part(e1))));
            let t2r = ((other.num * pow10(pos_part(e2))) * (self.den * pow10(neg_part(e1))))
                * pow10(neg_part(em));
            assert(sn == self.num * pow10((e1 - em) as nat)) by {
                if self.exp < other.exp {
                    assert(pow10(0) == 1);
                    assert(self.num * 1 == self.num);
                }
            };
            assert(on == other.num * pow10((e2 - em) as nat)) by {
                if self.exp >= other.exp {
                    assert(pow10(0) == 1);
                    assert(other.num * 1 == other.num);
                }
            };
            let s = rat_minus(self@, other@);
            let c1 = (self.num * pow10(pos_part(e1))) * (other.den * pow10(neg_part(e2)));
            let c2 = (other.num * pow10(pos_part(e2))) * (self.den * pow10(neg_part(e1)));
            lemma_sum_regroup(
                sn as int,
                on as int,
                self.den as int,
                other.den as int,
                pow10(pos_part(em)),
                pow10(neg_part(e1)),
                pow10(neg_part(e2)),
            );
            lemma_sum_regroup_value(
                c1,
                c2,
                self.den as int,
                other.den as int,
                pow10(neg_part(em)),
            );
            assert(t1l == (sn * other.den) * (pow10(pos_part(em)) * (pow10(neg_part(e1))
                * pow10(neg_part(e2)))));
            assert(t2l == (on * self.den) * (pow10(pos_part(em)) * (pow10(neg_part(e2))
                * pow10(neg_part(e1)))));
            assert(t1r == (c1 * pow10(neg_part(em))));
            assert(t2r == (c2 * pow10(neg_part(em))));
            assert(s.n == c1 - c2);
            assert(s.d == (self.den * pow10(neg_part(e1))) * (other.den * pow10(neg_part(e2))));
            assert(r@.n == (sn * other.den - on * self.den) * pow10(pos_part(em)));
            assert(r@.d == (self.den * other.den) * pow10(neg_part(em)));
            assert(r@.n * s.d == s.n * r@.d);
        }
        r
    }

    /// Whether the two magnitudes denote the same value, by exact
    /// cross-multiplication.
    pub fn eq_value(&self, other: &Magnitude) -> (r: bool)
        requires
            self.wf(),
            other.wf(),
            can_compare(*self, *other),
        ensures
            r == rat_eq(self@, other@),
    {
        proof {
            lemma_view_wf(*self);
            lemma_view_wf(*other);
        }
        if self.num == 0 || other.num == 0 {
            proof {
                let e1 = self.exp as int;
                let e2 = other.exp as int;
                lemma_pow10_pos(pos_part(e1));
                lemma_pow10_pos(pos_part(e2));
                assert(self.num == 0 ==> self@.n == 0) by (nonlinear_arith);
                assert(other.num == 0 ==> other@.n == 0) by (nonlinear_arith);
                assert(self.num != 0 ==> self@.n != 0) by (nonlinear_arith)
                    requires
                        self@.n == self.num * pow10(pos_part(e1)),
                        pow10(pos_part(e1)) >= 1,
                ;
                assert(other.num != 0 ==> other@.n != 0) by (nonlinear_arith)
                    requires
                        other@.n == other.num * pow10(pos_part(e2)),
                        pow10(pos_part(e2)) >= 1,
                ;
                assert(self@.n == 0 && other@.n == 0 ==> rat_eq(self@, other@))
                    by (nonlinear_arith);
                assert(self@.n == 0 && other@.n != 0 ==> !rat_eq(self@, other@))
                    by (nonlinear_arith)
                    requires rat_wf(self@) && rat_wf(other@);
                assert(self@.n != 0 && other@.n == 0 ==> !rat_eq(self@, other@))
                    by (nonlinear_arith)
                    requires rat_wf(self@) && rat_wf(other@);
            }
            self.num == 0 && other.num == 0
        } else if self.exp >= other.exp {
            Magnitude::eq_cross(self, other)
        } else {
            Magnitude::eq_cross(other, self)
        }
    }

    /// Cross-comparison once the exponents are ordered: decides
    /// `a == b` by checking `a.num * b.den * 10^(a.exp - b.exp) == b.num * a.den`.
    fn eq_cross(a: &Magnitude, b: &Magnitude) -> (r: bool)
        requires
            a.wf(),
            b.wf(),
            a.num != 0,
            b.num != 0,
            a.exp >= b.exp,
            -i128::MAX <= a@.n * b@.d <= i128::MAX,
            -i128::MAX <= b@.n * a@.d <= i128::MAX,
        ensures
            r == rat_eq(a@, b@),
    {
        let ghost ea = a.exp as int;
        let ghost eb = b.exp as int;
        let ghost up: nat = pos_part(ea) + neg_part(eb);
        let ghost dn: nat = pos_part(eb) + neg_part(ea);
        let ghost c1 = a@.n * b@.d;
        let ghost c2 = b@.n * a@.d;
        proof {
            lemma_pow10_i128_bounds();
            lemma_pow10_pos(up);
            lemma_pow10_pos(dn);
            lemma_regroup_pair(a.num as int, b.den as int, pos_part(ea), neg_part(eb));
            lemma_regroup_pair(b.num as int, a.den as int, pos_part(eb), neg_part(ea));
            lemma_pow10_adds(pos_part(ea), neg_part(eb));
            lemma_pow10_adds(pos_part(eb), neg_part(ea));
            assert(c1 == (a.num * b.den) * pow10(up));
            assert(c2 == (b.num * a.den) * pow10(dn));
            // the aligned exponent difference is small enough to compute
            assert(-i128::MAX <= a.num * b.den <= i128::MAX && up <= 38) by {
                lemma_abs_product_lower_bound(a.num as int, b.den as int, pow10(up), c1);
                if up > 38 {
                    lemma_pow10_increases(39, up);
                }
            };
            assert(-i128::MAX <= b.num * a.den <= i128::MAX) by {
                lemma_abs_product_lower_bound(b.num as int, a.den as int, pow10(dn), c2);
            };
        }
        let diff64: i64 = a.exp as i64 - b.exp as i64;
        proof {
            assert(ea - eb <= pos_part(ea) + neg_part(eb));
            lemma_pow10_increases((ea - eb) as nat, up);
            lemma_pow10_increases(up, 38);
            lemma_pow10_pos((ea - eb) as nat);
            assert(0 <= diff64 <= 38);
            assert(diff64 as u32 as nat == (ea - eb) as nat);
        }
        let p = Magnitude::ten_to(diff64 as u32);
        let lhs0 = a.num * b.den;
        proof {
            lemma_pow10_adds((ea - eb) as nat, dn);
            assert((ea - eb) as nat + dn == up);
            // |lhs0 * 10^diff| <= |lhs0 * 10^up| == |c1|
            assert(-i128::MAX <= lhs0 * p <= i128::MAX) by (nonlinear_arith)
                requires
                    p == pow10((ea - eb) as nat),
                    1 <= p,
                    pow10(up) == p * pow10(dn),
                    1 <= pow10(dn),
                    c1 == lhs0 * pow10(up),
                    -i128::MAX <= c1 <= i128::MAX,
            ;
        }
        let lhs = lhs0 * p;
        let rhs = b.num * a.den;
        proof {
            // lhs * 10^dn == c1 and rhs * 10^dn == c2, so the comparison
            // decides value equality either way.
            assert(c1 == lhs * pow10(dn)) by (nonlinear_arith)
                requires
                    c1 == lhs0 * pow10(up),
                    pow10(up) == p * pow10(dn),
                    lhs == lhs0 * p,
            ;
            assert(c2 == rhs * pow10(dn));
            if lhs == rhs {
                assert(c1 == c2);
            } else {
                assert(c1 != c2) by {
                    if c1 == c2 {
                        vstd::arithmetic::mul::lemma_mul_is_commutative(pow10(dn), lhs as int);
                        vstd::arithmetic::mul::lemma_mul_is_commutative(pow10(dn), rhs as int);
                        assert(pow10(dn) * lhs == pow10(dn) * rhs);
                        vstd::arithmetic::mul::lemma_mul_equality_converse(
                            pow10(dn),
                            lhs as int,
                            rhs as int,
                        );
                    }
                };
            }
        }
        lhs == rhs
    }

    /// Whether the magnitude denotes exactly one: the pluralisation test of
    /// the display layer, total over all well-formed magnitudes.
    pub fn is_one(&self) -> (r: bool)
        requires
            self.wf(),
        ensures
            r == rat_eq(self@, rat_int(1)),
    {
        proof {
            lemma_view_wf(*self);
            lemma_pow10_pos(pos_part(self.exp as int));
            lemma_pow10_pos(neg_part(self.exp as int));
            assert(pow10(0) == 1);
        }
        if self.num <= 0 {
            proof {
                let e = self.exp as int;
                assert(self@.n <= 0) by (nonlinear_arith)
                    requires
                        self@.n == self.num * pow10(pos_part(e)),
                        self.num <= 0,
                        pow10(pos_part(e)) >= 1,
                ;
                assert(!rat_eq(self@, rat_int(1))) by (nonlinear_arith)
                    requires self@.n <= 0 && self@.d > 0;
            }
            false
        } else if self.exp >= 0 {
            let r = Magnitude::scaled_int_equals(self.num, self.exp as u32, self.den);
            proof {
                let e = self.exp as int;
                assert(rat_eq(self@, rat_int(1)) == (self.num * pow10(pos_part(e)) == self.den));
            }
            r
        } else {
            let r = Magnitude::scaled_int_equals(self.den, (-self.exp) as u32, self.num);
            proof {
                let e = self.exp as int;
                assert(rat_eq(self@, rat_int(1)) == (self.num as int == self.den
                    * pow10(neg_part(e))));
            }
            r
        }
    }

    /// Whether `a * 10^k == b`, for positive `a` and `b`, without ever
    /// overflowing: oversized products are decided by magnitude alone.
    fn scaled_int_equals(a: i128, k: u32, b: i128) -> (r: bool)
        requires
            1 <= a,
            1 <= b,
        ensures
            r == (a * pow10(k as nat) == b),
    {
        proof {
            lemma_pow10_i128_bounds();
        }
        if k > 38 {
            proof {
                lemma_pow10_increases(39, k as nat);
                assert(a * pow10(k as nat) > i128::MAX) by (nonlinear_arith)
                    requires
                        a >= 1,
                        pow10(k as nat) > i128::MAX,
                ;
            }
            return false;
        }
        let mut v = a;
        let mut i: u32 = 0;
        while i < k
            invariant
                i <= k <= 38,
                1 <= a,
                1 <= b,
                v == a * pow10(i as nat),
                1 <= v,
            decreases k - i,
        {
            proof {
                lemma_pow10_pos(i as nat);
                assert(pow10((i + 1) as nat) == 10 * pow10(i as nat));
            }
            if v > TENTH_OF_I128_MAX {
                proof {
                    lemma_pow10_adds(i as nat, (k - i) as nat);
                    lemma_pow10_pos((k - i) as nat);
                    lemma_pow10_increases(1, (k - i) as nat);
                    assert(a * pow10(k as nat) == (a * pow10(i as nat)) * pow10((k - i) as nat))
                        by (nonlinear_arith)
                        requires
                            pow10(k as nat) == pow10(i as nat) * pow10((k - i) as nat),
                    ;
                    assert(a * pow10(k as nat) > i128::MAX) by (nonlinear_arith)
                        requires
                            a * pow10(k as nat) == (a * pow10(i as nat)) * pow10((k - i) as nat),
                            a * pow10(i as nat) == v,
                            v > TENTH_OF_I128_MAX,
                            pow10((k - i) as nat) >= 10,
                            TENTH_OF_I128_MAX * 10 + 9 >= i128::MAX,
                            v >= 1,
                    ;
                }
                return false;
            }
            proof {
                assert(v * 10 == 10 * pow10(i as nat) * a) by (nonlinear_arith)
                    requires v == a * pow10(i as nat);
                assert(10 * pow10(i as nat) * a == a * pow10((i + 1) as nat)) by (nonlinear_arith)
                    requires pow10((i + 1) as nat) == 10 * pow10(i as nat);
            }
            v = v * 10;
            i = i + 1;
        }
        v == b
    }
}

/// Pure regrouping of two numerator/denominator pairs.
proof fn lemma_regroup_pair(n: int, d: int, ea: nat, eb: nat)
    ensures
        (n * pow10(ea)) * (d * pow10(eb)) == (n * d) * (pow10(ea) * pow10(eb)),
{
    broadcast use vstd::arithmetic::mul::lemma_mul_is_associative;
    broadcast use vstd::arithmetic::mul::lemma_mul_is_commutative;

    assert((n * pow10(ea)) * (d * pow10(eb)) == (n * d) * (pow10(ea) * pow10(eb)));
}

/// If `c == (n * d) * p` with nonzero `n`, positive `d` and `p >= 1`, then
/// `n * d` lies within the bounds of `c`, and so does `p`.
proof fn lemma_abs_product_lower_bound(n: int, d: int, p: int, c: int)
    requires
        n != 0,
        d >= 1,
        p >= 1,
        c == (n * d) * p,
        -i128::MAX <= c <= i128::MAX,
    ensures
        -i128::MAX <= n * d <= i128::MAX,
        p <= i128::MAX,
    {
    assert(n * d >= 1 || n * d <= -1) by (nonlinear_arith)
        requires n != 0 && d >= 1;
    assert((n * d >= 1 ==> n * d <= c && p <= c) && (n * d <= -1 ==> n * d >= c && p <= -c))
        by (nonlinear_arith)
        requires
            c == (n * d) * p,
            p >= 1,
            n * d >= 1 || n * d <= -1,
    ;
}

} // verus!
