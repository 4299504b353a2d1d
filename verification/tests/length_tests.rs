//! Length: constants, formulas and the non-SI units.

use fisica::direction::Direction;
use fisica::magnitude::Magnitude;
use fisica::prefix::Prefix;
use fisica::units::{Distance, Force, Length, Moment, Speed, Time};

fn mag(n: i128) -> Magnitude {
    Magnitude::from_int(n)
}

fn magd(n: i128, e: i32) -> Magnitude {
    Magnitude::from_decimal(n, e)
}

fn axis_x(n: i128) -> Direction {
    Direction::new(mag(n), mag(0), mag(0))
}

#[test]
fn length_constants() {
    assert!(Length::planck().as_unit(Prefix::Yocto).eq_value(&magd(1_616_255, -17)));
    assert!(Length::weak_force_range().as_unit(Prefix::Atto).eq_value(&mag(10)));
    assert!(Length::proton_radius().as_unit(Prefix::Femto).eq_value(&magd(833, -3)));
    assert!(Length::electron_radius()
        .as_unit(Prefix::Femto)
        .eq_value(&magd(28_179_403_227, -10)));
    assert!(Length::atomic_nucleus_diameter_min().as_unit(Prefix::Femto).eq_value(&mag(3)));
    assert!(Length::atomic_nucleus_diameter_max().as_unit(Prefix::Femto).eq_value(&mag(15)));
    assert!(Length::xray_shortest_wavelength().as_unit(Prefix::Pico).eq_value(&mag(5)));
    assert!(Length::helium_radius().as_unit(Prefix::Pico).eq_value(&mag(28)));
    assert!(Length::bohr_radius().as_unit(Prefix::Pico).eq_value(&magd(529_177_210_903, -10)));
    assert!(Length::covalent_bond_diamond().as_unit(Prefix::Pico).eq_value(&mag(154)));
}

#[test]
fn length_formulas() {
    // Distance, Speed & Time
    let distance = Distance::from_time_speed(Time::new(mag(25)), Speed::new(mag(12)));
    assert!(distance.m().eq_value(&mag(300)));
    assert!(distance.calc_time(Speed::new(mag(12))).m().eq_value(&mag(25)));
    assert!(distance.calc_speed(Time::new(mag(25))).m().eq_value(&mag(12)));

    // Distance, Moment & Force
    let distance = Distance::from_moment_force(
        Moment::new(mag(6), axis_x(6)),
        Force::new(mag(30), axis_x(30)),
    );
    assert!(distance.m().eq_value(&magd(2, -1)));
    assert!(distance.calc_moment(Force::new(mag(30), axis_x(30))).m().eq_value(&mag(6)));
    assert!(distance.calc_force(Moment::new(mag(6), axis_x(6))).m().eq_value(&mag(30)));
}

#[test]
fn length_non_si() {
    assert!(Length::in_au(mag(1)).m().eq_value(&magd(1_495_978_707, 2)));
    assert!(Length::in_au(mag(1)).m().eq_value(&Length::astronomical_unit().m()));
    assert!(Length::in_angstroms(mag(1)).m().eq_value(&magd(1, -10)));
    assert!(Length::in_angstroms(mag(1)).m().eq_value(&Length::angstrom().m()));
    assert!(Length::astronomical_unit().as_au().eq_value(&mag(1)));
    assert!(Length::angstrom().as_angstroms().eq_value(&mag(1)));
}
