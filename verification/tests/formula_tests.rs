//! The remaining formula tests: mass, force, moment, acceleration, energy,
//! power and speed.

use fisica::direction::Direction;
use fisica::magnitude::Magnitude;
use fisica::units::{
    Acceleration, Energy, Force, Length, Mass, Moment, Power, Speed, Time,
};

fn mag(n: i128) -> Magnitude {
    Magnitude::from_int(n)
}

fn magd(n: i128, e: i32) -> Magnitude {
    Magnitude::from_decimal(n, e)
}

fn axis_x(n: i128) -> Direction {
    Direction::new(mag(n), mag(0), mag(0))
}

#[test]
fn mass_formulas() {
    let mass = Mass::from_force_acceleration(
        Force::new(mag(10), axis_x(10)),
        Acceleration::new(mag(2), axis_x(2)),
    );
    assert!(mass.m().eq_value(&mag(5)));
    assert!(mass.calc_acceleration(Force::new(mag(10), axis_x(10))).m().eq_value(&mag(2)));
    assert!(mass.calc_force(Acceleration::new(mag(2), axis_x(2))).m().eq_value(&mag(10)));
}

#[test]
fn force_formulas() {
    // Force, Acceleration & Mass
    let force = Force::from_mass_acceleration(
        Mass::new(mag(5)),
        Acceleration::without_direction(mag(2)),
    );
    assert!(force.m().eq_value(&mag(10)));
    assert!(force.calc_mass(Acceleration::without_direction(mag(2))).m().eq_value(&mag(5)));
    assert!(force.calc_acceleration(Mass::new(mag(5))).m().eq_value(&mag(2)));

    // Distance, Moment & Force
    let force = Force::from_moment_distance(
        Moment::without_direction(mag(6)),
        Length::new(magd(2, -1)),
    );
    assert!(force.m().eq_value(&mag(30)));
    assert!(force.calc_distance(Moment::without_direction(mag(6))).m().eq_value(&magd(2, -1)));
    assert!(force.calc_moment(Length::new(magd(2, -1))).m().eq_value(&mag(6)));
}

#[test]
fn moment_formulas() {
    let moment = Moment::from_force_distance(
        Force::new(mag(30), axis_x(30)),
        Length::new(magd(2, -1)),
    );
    assert!(moment.m().eq_value(&mag(6)));
    assert!(moment.calc_distance(Force::new(mag(30), axis_x(30))).m().eq_value(&magd(2, -1)));
    assert!(moment.calc_force(Length::new(magd(2, -1))).m().eq_value(&mag(30)));
}

#[test]
fn acceleration_formulas() {
    let acceleration = Acceleration::from_mass_force(
        Mass::new(mag(5)),
        Force::new(mag(10), axis_x(10)),
    );
    assert!(acceleration.m().eq_value(&mag(2)));
    assert!(acceleration.calc_mass(Force::new(mag(10), axis_x(10))).m().eq_value(&mag(5)));
    assert!(acceleration.calc_force(Mass::new(mag(5))).m().eq_value(&mag(10)));
}

#[test]
fn energy_formulas() {
    let energy = Energy::from_power_time(Power::new(mag(800)), Time::in_min(mag(3)));
    assert!(energy.m().eq_value(&Energy::in_kJ(mag(144)).m()));
    assert!(Energy::from_time_power(Time::in_min(mag(3)), Power::new(mag(800)))
        .m()
        .eq_value(&energy.m()));
    assert!(energy.calc_power(Time::in_min(mag(3))).m().eq_value(&mag(800)));
    assert!(energy.calc_time(Power::new(mag(800))).m().eq_value(&Time::in_min(mag(3)).m()));
}

#[test]
fn power_formulas() {
    let power = Power::from_energy_time(Energy::in_kJ(mag(144)), Time::in_min(mag(3)));
    assert!(power.m().eq_value(&mag(800)));
    assert!(Power::from_time_energy(Time::in_min(mag(3)), Energy::in_kJ(mag(144)))
        .m()
        .eq_value(&power.m()));
    assert!(power.calc_energy(Time::in_min(mag(3))).m().eq_value(&Energy::in_kJ(mag(144)).m()));
    assert!(power.calc_time(Energy::in_kJ(mag(144))).m().eq_value(&Time::in_min(mag(3)).m()));
}

#[test]
fn speed_constants() {
    assert!(Speed::light().m().eq_value(&mag(299_792_458)));
    assert!(Speed::sound().m().eq_value(&magd(3403, -1)));
    assert!(Speed::light_squared().m().eq_value(&mag(89_875_517_873_681_764)));
}

#[test]
fn speed_formulas() {
    let speed = Speed::from_distance_time(Length::in_m(mag(300)), Time::new(mag(25)));
    assert!(speed.m().eq_value(&mag(12)));
    assert!(speed.calc_time(Length::new(mag(300))).m().eq_value(&mag(25)));
    assert!(speed.calc_distance(Time::new(mag(25))).m().eq_value(&mag(300)));
}

#[test]
fn acceleration_from_velocity_change() {
    let v0 = fisica::units::Velocity::new(mag(10), axis_x(10));
    let v1 = fisica::units::Velocity::new(mag(30), axis_x(30));
    let a = Acceleration::from_velocities_time(v0, v1, Time::new(mag(4)));
    assert!(a.m().eq_value(&mag(5)));
    assert!(a.d().x().eq_value(&mag(5)));
    assert!(a.d().y().eq_value(&mag(0)));
    let b = Acceleration::from_time_velocities(Time::new(mag(4)), v0, v1);
    assert!(b.m().eq_value(&a.m()));
    let c = Acceleration::from_velocity_time(v1, Time::new(mag(5)));
    assert!(c.m().eq_value(&mag(6)));
}

#[test]
fn mass_energy_equivalence() {
    // E = m c^2 and back
    let e = Energy::from_mass(Mass::new(mag(2)));
    assert!(e.m().eq_value(&mag(179_751_035_747_363_528)));
    assert!(Mass::from_energy(e).m().eq_value(&mag(2)));
}

#[test]
fn weight_formulas() {
    let mass = Mass::in_kilograms(mag(60));
    let w = Force::from_mass_gfs(mass, fisica::units::Gfs::in_earth());
    assert!(w.m().eq_value(&mag(588)));
    assert!(w.calc_mass_from_gfs(fisica::units::Gfs::in_earth()).m().eq_value(&mag(60)));
    assert!(w.calc_gfs(mass).m().eq_value(&magd(98, -1)));
    assert!(Mass::from_weight_gfs(w, fisica::units::Gfs::in_earth()).m().eq_value(&mag(60)));
}
