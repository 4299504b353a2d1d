//! The exact arithmetic core and the direction type.

use fisica::direction::Direction;
use fisica::magnitude::Magnitude;

fn mag(n: i128) -> Magnitude {
    Magnitude::from_int(n)
}

fn magd(n: i128, e: i32) -> Magnitude {
    Magnitude::from_decimal(n, e)
}

#[test]
fn value_equality_ignores_representation() {
    assert!(Magnitude::new(1, 2, 0).eq_value(&magd(5, -1)));
    assert!(Magnitude::new(2, 4, 0).eq_value(&Magnitude::new(1, 2, 0)));
    assert!(Magnitude::new(1000, 1, -3).eq_value(&mag(1)));
    assert!(!Magnitude::new(1, 2, 0).eq_value(&magd(5, 1)));
    assert!(mag(0).eq_value(&Magnitude::new(0, 7, 12)));
    assert!(!mag(0).eq_value(&mag(1)));
}

#[test]
fn arithmetic_is_exact() {
    let a = magd(1, -1);  // 0.1
    let b = magd(2, -1);  // 0.2
    assert!(a.plus(&b).eq_value(&magd(3, -1)));
    assert!(b.minus(&a).eq_value(&a));
    assert!(a.times(&b).eq_value(&magd(2, -2)));
    assert!(b.divided_by(&a).eq_value(&mag(2)));
    assert!(mag(1).divided_by(&mag(3)).times(&mag(3)).eq_value(&mag(1)));
    assert!(mag(5).negated().eq_value(&mag(-5)));
}

#[test]
fn scaling_is_a_pure_exponent_shift() {
    let a = magd(7, 2);
    let up = a.scaled_by_pow10(5);
    assert_eq!(up.num, 7);
    assert_eq!(up.den, 1);
    assert_eq!(up.exp, 7);
    assert!(up.scaled_by_pow10(-5).eq_value(&a));
}

#[test]
fn is_one_is_exact() {
    assert!(mag(1).is_one());
    assert!(Magnitude::new(3, 3, 0).is_one());
    assert!(Magnitude::new(10, 1, -1).is_one());
    assert!(Magnitude::new(1, 10, 1).is_one());
    assert!(!mag(2).is_one());
    assert!(!mag(-1).is_one());
    assert!(!mag(0).is_one());
    assert!(!magd(1, 40).is_one());
    assert!(!magd(1, -40).is_one());
}

#[test]
fn direction_componentwise_ops() {
    let a = Direction::new(mag(1), mag(2), mag(3));
    let b = Direction::new(mag(4), mag(5), mag(6));
    let s = a.plus(&b);
    assert!(s.x().eq_value(&mag(5)));
    assert!(s.y().eq_value(&mag(7)));
    assert!(s.z().eq_value(&mag(9)));
    let d = b.minus(&a);
    assert!(d.x().eq_value(&mag(3)));
    assert!(d.y().eq_value(&mag(3)));
    assert!(d.z().eq_value(&mag(3)));
    let k = a.scaled_by(&mag(2));
    assert!(k.x().eq_value(&mag(2)));
    assert!(k.y().eq_value(&mag(4)));
    assert!(k.z().eq_value(&mag(6)));
    let q = b.divided_by(&mag(2));
    assert!(q.x().eq_value(&mag(2)));
    assert!(q.y().eq_value(&magd(25, -1)));
    assert!(q.z().eq_value(&mag(3)));
    let z = Direction::zero();
    assert!(z.x().eq_value(&mag(0)));
    let o = Direction::one();
    assert!(o.y().eq_value(&mag(1)));
}

#[test]
fn direction_dot_and_square() {
    let a = Direction::new(mag(1), mag(2), mag(3));
    let b = Direction::new(mag(4), mag(5), mag(6));
    assert!(a.dot(&b).eq_value(&mag(32)));
    assert!(a.magnitude_squared().eq_value(&mag(14)));
    let axis = Direction::new(mag(0), mag(6), mag(0));
    assert!(axis.magnitude_squared().eq_value(&mag(36)));
    let arr = a.to_array();
    assert!(arr[0].eq_value(&mag(1)));
    assert!(arr[1].eq_value(&mag(2)));
    assert!(arr[2].eq_value(&mag(3)));
}

#[test]
fn direction_cross_product() {
    let a = Direction::new(mag(1), mag(2), mag(3));
    let b = Direction::new(mag(4), mag(5), mag(6));
    let c = a.cross(&b);
    assert!(c.x().eq_value(&mag(-3)));
    assert!(c.y().eq_value(&mag(6)));
    assert!(c.z().eq_value(&mag(-3)));
    // orthogonality: the dot product with either operand is zero
    assert!(c.dot(&a).eq_value(&mag(0)));
    assert!(c.dot(&b).eq_value(&mag(0)));
}

#[test]
fn coulomb_constant_value() {
    assert!(fisica::constants::coulomb_constant().eq_value(&magd(89_875_517_923, -1)));
}
