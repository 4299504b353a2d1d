//! The display facade: short and long forms, exact pluralisation, and the
//! decimal rendering of magnitudes.

use fisica::magnitude::Magnitude;
use fisica::unit::Unit;
use fisica::units::{Length, Mass, Speed, Time};

fn mag(n: i128) -> Magnitude {
    Magnitude::from_int(n)
}

fn magd(n: i128, e: i32) -> Magnitude {
    Magnitude::from_decimal(n, e)
}

#[test]
fn long_singular_and_plural() {
    assert_eq!(Length::in_m(mag(1)).long(), "1 metre");
    assert_eq!(Length::in_m(mag(2)).long(), "2 metres");
    assert_eq!(Time::new(mag(0)).long(), "0 seconds");
    assert_eq!(Mass::in_kg(mag(1)).long(), "1 kilogram");
}

#[test]
fn unit_names() {
    assert_eq!(Length::unit(), "m");
    assert_eq!(Mass::unit(), "kg");
    assert_eq!(Time::unit(), "s");
    assert_eq!(Speed::unit(), "m/s");
    let one = Length::in_m(mag(1));
    assert_eq!(one.unit_long_s(), "metre");
    assert_eq!(one.unit_long_p(), "metres");
    assert_eq!(one.unit_long(), "metre");
    assert_eq!(Length::in_m(mag(3)).unit_long(), "metres");
}

#[test]
fn short_form() {
    assert_eq!(Length::in_m(mag(5)).short(), "5 m");
    assert_eq!(Speed::new(mag(12)).short(), "12 m/s");
}

#[test]
fn decimal_rendering() {
    assert_eq!(Time::new(magd(36525, -2)).long(), "365.25 seconds");
    assert_eq!(Length::new(magd(-5, -1)).long(), "-0.5 metres");
    assert_eq!(Length::new(magd(5, 3)).long(), "5000 metres");
    assert_eq!(Length::new(magd(5, -4)).long(), "0.0005 metres");
}

#[test]
fn fraction_rendering() {
    let v = Speed::from_distance_time(Length::new(mag(1)), Time::new(mag(3)));
    assert_eq!(v.long(), "1/3 metres per second");
}

#[test]
fn pluralisation_is_by_value_not_representation() {
    // 2/2 denotes one, so the singular is used although the digits differ
    let one = Length::new(Magnitude::new(2, 2, 0));
    assert_eq!(one.unit_long(), "metre");
    assert_eq!(one.long(), "2/2 metre");
    // 10 * 10^-1 denotes one as well
    assert_eq!(Length::new(Magnitude::new(10, 1, -1)).unit_long(), "metre");
}
