//! Time: formulas, constants and the non-SI units.

use fisica::magnitude::Magnitude;
use fisica::units::{Energy, Length, Power, Speed, Time};

fn mag(n: i128) -> Magnitude {
    Magnitude::from_int(n)
}

fn magd(n: i128, e: i32) -> Magnitude {
    Magnitude::from_decimal(n, e)
}

#[test]
fn time_formulas() {
    // Distance, Speed & Time
    let time = Time::from_distance_speed(Length::new(mag(300)), Speed::new(mag(12)));
    assert!(time.m().eq_value(&mag(25)));
    assert!(Time::from_speed_distance(Speed::new(mag(12)), Length::new(mag(300)))
        .m()
        .eq_value(&time.m()));
    assert!(time.calc_distance(Speed::new(mag(12))).m().eq_value(&mag(300)));
    assert!(time.calc_speed(Length::new(mag(300))).m().eq_value(&mag(12)));

    // Energy, Power & Time
    let time = Time::from_energy_power(Energy::in_kJ(mag(144)), Power::new(mag(800)));
    assert!(time.m().eq_value(&Time::in_min(mag(3)).m()));
    assert!(Time::from_power_energy(Power::new(mag(800)), Energy::in_kJ(mag(144)))
        .m()
        .eq_value(&time.m()));
    assert!(time.calc_energy(Power::new(mag(800))).m().eq_value(&Energy::in_kJ(mag(144)).m()));
    assert!(time.calc_power(Energy::in_kJ(mag(144))).m().eq_value(&Power::new(mag(800)).m()));
}

#[test]
fn time_constants() {
    assert!(Time::julian_year().as_days().eq_value(&magd(36525, -2)));
    assert!(Time::full_moon_cycle().as_days().eq_value(&magd(41_178_443_029, -8)));
    assert!(Time::draconic_year().as_days().eq_value(&magd(346_620_075_883, -9)));
    assert!(Time::lunar_year().as_days().eq_value(&magd(35_436_707, -5)));
}

#[test]
fn time_non_si() {
    assert!(Time::in_min(mag(1)).m().eq_value(&mag(60)));
    assert!(Time::in_h(mag(1)).m().eq_value(&mag(3600)));
    assert!(Time::in_d(mag(1)).m().eq_value(&mag(86_400)));
    assert!(Time::in_w(mag(1)).m().eq_value(&mag(604_800)));
    assert!(Time::in_y(mag(1)).m().eq_value(&mag(31_536_000)));
    assert!(Time::in_jy(mag(1)).m().eq_value(&Time::julian_year().m()));
}

#[test]
fn time_non_si_accessors() {
    assert!(Time::in_d(mag(1)).as_h().eq_value(&mag(24)));
    assert!(Time::in_jy(mag(1)).as_days().eq_value(&magd(36525, -2)));
    assert!(Time::in_h(mag(2)).as_min().eq_value(&mag(120)));
    assert!(Time::in_w(mag(1)).as_d().eq_value(&mag(7)));
    assert!(Time::in_y(mag(1)).as_d().eq_value(&mag(365)));
    assert!(Time::new(mag(90)).as_min().eq_value(&magd(15, -1)));
}
