//! The conversion laws on concrete values: round-trips, cross-prefix
//! consistency, power scaling, base shift, formula invertibility, the
//! concrete kinematics scenario and the non-SI layer.

use fisica::magnitude::Magnitude;
use fisica::prefix::{prefix_table, Prefix};
use fisica::units::{Area, Force, Length, Mass, Speed, Time, Volume};

fn mag(n: i128) -> Magnitude {
    Magnitude::from_int(n)
}

fn magd(n: i128, e: i32) -> Magnitude {
    Magnitude::from_decimal(n, e)
}

#[test]
fn round_trip_all_prefixes_all_powers() {
    for p in prefix_table() {
        let x = magd(425, -2);
        assert!(Length::in_unit(p, x).as_unit(p).eq_value(&x));
        assert!(Area::in_unit(p, x).as_unit(p).eq_value(&x));
        assert!(Volume::in_unit(p, x).as_unit(p).eq_value(&x));
        assert!(Mass::in_unit(p, x).as_unit(p).eq_value(&x));
        assert!(Time::in_unit(p, x).as_unit(p).eq_value(&x));
    }
}

#[test]
fn cross_prefix_consistency() {
    assert!(Length::in_km(mag(1)).as_m().eq_value(&mag(1000)));
    assert!(Length::in_unit(Prefix::Milli, mag(5))
        .as_unit(Prefix::Micro)
        .eq_value(&mag(5000)));
    assert!(Length::in_unit(Prefix::Giga, mag(2))
        .as_unit(Prefix::Tera)
        .eq_value(&magd(2, -3)));
}

#[test]
fn power_scaling() {
    assert!(Area::in_km2(mag(1)).as_m2().eq_value(&mag(1_000_000)));
    assert!(Volume::in_km3(mag(1)).as_m3().eq_value(&mag(1_000_000_000)));
    assert!(Area::in_unit(Prefix::Centi, mag(1)).as_m2().eq_value(&magd(1, -4)));
    assert!(Volume::in_unit(Prefix::Centi, mag(1)).as_m3().eq_value(&magd(1, -6)));
}

#[test]
fn base_shift() {
    assert!(Mass::in_kg(mag(1)).as_g().eq_value(&mag(1000)));
    assert!(Mass::in_g(mag(1000)).as_kg().eq_value(&mag(1)));
}

#[test]
fn formula_invertibility() {
    // round numbers
    let m = Mass::new(mag(5));
    let a = fisica::units::Acceleration::without_direction(mag(2));
    let f = Force::from_mass_acceleration(m, a);
    assert!(f.calc_mass(a).m().eq_value(&m.m()));
    assert!(f.calc_acceleration(m).m().eq_value(&a.m()));

    // values whose quotients are not decimal
    let m = Mass::new(mag(3));
    let a = fisica::units::Acceleration::without_direction(mag(7));
    let f = Force::from_mass_acceleration(m, a);
    assert!(f.m().eq_value(&mag(21)));
    assert!(f.calc_mass(a).m().eq_value(&mag(3)));
    assert!(f.calc_acceleration(m).m().eq_value(&mag(7)));

    // a quotient formula: v = d / t with a non-decimal quotient
    let d = Length::new(mag(1));
    let t = Time::new(mag(3));
    let v = Speed::from_distance_time(d, t);
    assert!(v.calc_distance(t).m().eq_value(&mag(1)));
    assert!(v.calc_time(d).m().eq_value(&mag(3)));
}

#[test]
fn concrete_scenario() {
    let speed = Speed::from_distance_time(Length::in_m(mag(300)), Time::in_s(mag(25)));
    assert!(speed.m().eq_value(&mag(12)));
    assert!(speed.calc_distance(Time::in_s(mag(25))).m().eq_value(&mag(300)));
    assert!(speed.calc_time(Length::in_m(mag(300))).m().eq_value(&mag(25)));
}

#[test]
fn non_si_layer() {
    assert!(Time::in_d(mag(1)).as_h().eq_value(&mag(24)));
    assert!(Time::in_jy(mag(1)).as_days().eq_value(&magd(36525, -2)));
    assert!(Volume::in_l(mag(1)).as_m3().eq_value(&magd(1, -3)));
    assert!(Volume::litre().as_l().eq_value(&mag(1)));
    assert!(Length::in_au(mag(2)).as_au().eq_value(&mag(2)));
}

#[test]
fn volume_constants() {
    assert!(Volume::litre().as_dm3().eq_value(&mag(1)));
}
