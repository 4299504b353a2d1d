//! The full prefix ladder, on an ordinary quantity and on the
//! kilogram-based one.

use fisica::magnitude::Magnitude;
use fisica::prefix::{prefix_table, Prefix};
use fisica::units::{Length, Mass};

fn mag(n: i128) -> Magnitude {
    Magnitude::from_int(n)
}

fn magd(n: i128, e: i32) -> Magnitude {
    Magnitude::from_decimal(n, e)
}

#[test]
fn prefixes() {
    let len = Length::in_m(mag(8));
    assert!(len.as_m().eq_value(&mag(8)));

    assert!(len.as_Ym().eq_value(&magd(8, -24)));
    assert!(len.as_yottametres().eq_value(&magd(8, -24)));
    assert!(len.as_Zm().eq_value(&magd(8, -21)));
    assert!(len.as_zettametres().eq_value(&magd(8, -21)));
    assert!(len.as_Em().eq_value(&magd(8, -18)));
    assert!(len.as_exametres().eq_value(&magd(8, -18)));
    assert!(len.as_Pm().eq_value(&magd(8, -15)));
    assert!(len.as_petametres().eq_value(&magd(8, -15)));
    assert!(len.as_Tm().eq_value(&magd(8, -12)));
    assert!(len.as_terametres().eq_value(&magd(8, -12)));
    assert!(len.as_Gm().eq_value(&magd(8, -9)));
    assert!(len.as_gigametres().eq_value(&magd(8, -9)));
    assert!(len.as_Mm().eq_value(&magd(8, -6)));
    assert!(len.as_megametres().eq_value(&magd(8, -6)));
    assert!(len.as_km().eq_value(&magd(8, -3)));
    assert!(len.as_kilometres().eq_value(&magd(8, -3)));
    assert!(len.as_hm().eq_value(&magd(8, -2)));
    assert!(len.as_hectometres().eq_value(&magd(8, -2)));
    assert!(len.as_dam().eq_value(&magd(8, -1)));
    assert!(len.as_dekametres().eq_value(&magd(8, -1)));
    assert!(len.as_m().eq_value(&mag(8)));
    assert!(len.as_metres().eq_value(&mag(8)));
    assert!(len.as_dm().eq_value(&magd(8, 1)));
    assert!(len.as_decimetres().eq_value(&magd(8, 1)));
    assert!(len.as_cm().eq_value(&magd(8, 2)));
    assert!(len.as_centimetres().eq_value(&magd(8, 2)));
    assert!(len.as_mm().eq_value(&magd(8, 3)));
    assert!(len.as_millimetres().eq_value(&magd(8, 3)));
    assert!(len.as_um().eq_value(&magd(8, 6)));
    assert!(len.as_micrometres().eq_value(&magd(8, 6)));
    assert!(len.as_nm().eq_value(&magd(8, 9)));
    assert!(len.as_nanometres().eq_value(&magd(8, 9)));
    assert!(len.as_pm().eq_value(&magd(8, 12)));
    assert!(len.as_picometres().eq_value(&magd(8, 12)));
    assert!(len.as_fm().eq_value(&magd(8, 15)));
    assert!(len.as_femtometres().eq_value(&magd(8, 15)));
    assert!(len.as_am().eq_value(&magd(8, 18)));
    assert!(len.as_attometres().eq_value(&magd(8, 18)));
    assert!(len.as_zm().eq_value(&magd(8, 21)));
    assert!(len.as_zeptometres().eq_value(&magd(8, 21)));
    assert!(len.as_ym().eq_value(&magd(8, 24)));
    assert!(len.as_yoctometres().eq_value(&magd(8, 24)));

    // constructors against the base accessor
    assert!(Length::in_unit(Prefix::Kilo, mag(8)).as_m().eq_value(&mag(8000)));
    assert!(Length::in_unit(Prefix::Milli, mag(8)).as_m().eq_value(&magd(8, -3)));
    assert!(Length::in_km(mag(8)).as_m().eq_value(&mag(8000)));
}

#[test]
fn prefixes_base_kilo() {
    let mass = Mass::in_kg(mag(8));
    assert!(mass.as_kg().eq_value(&mag(8)));

    // the accessors refer to grams although storage is kilograms
    assert!(mass.as_Yg().eq_value(&magd(8, -21)));
    assert!(mass.as_yottagrams().eq_value(&magd(8, -21)));
    assert!(mass.as_Zg().eq_value(&magd(8, -18)));
    assert!(mass.as_zettagrams().eq_value(&magd(8, -18)));
    assert!(mass.as_Eg().eq_value(&magd(8, -15)));
    assert!(mass.as_exagrams().eq_value(&magd(8, -15)));
    assert!(mass.as_Pg().eq_value(&magd(8, -12)));
    assert!(mass.as_petagrams().eq_value(&magd(8, -12)));
    assert!(mass.as_Tg().eq_value(&magd(8, -9)));
    assert!(mass.as_teragrams().eq_value(&magd(8, -9)));
    assert!(mass.as_Gg().eq_value(&magd(8, -6)));
    assert!(mass.as_gigagrams().eq_value(&magd(8, -6)));
    assert!(mass.as_Mg().eq_value(&magd(8, -3)));
    assert!(mass.as_megagrams().eq_value(&magd(8, -3)));
    assert!(mass.as_unit(Prefix::Kilo).eq_value(&mag(8)));
    assert!(mass.as_hg().eq_value(&magd(8, 1)));
    assert!(mass.as_hectograms().eq_value(&magd(8, 1)));
    assert!(mass.as_dag().eq_value(&magd(8, 2)));
    assert!(mass.as_dekagrams().eq_value(&magd(8, 2)));
    assert!(mass.as_g().eq_value(&magd(8, 3)));
    assert!(mass.as_grams().eq_value(&magd(8, 3)));
    assert!(mass.as_dg().eq_value(&magd(8, 4)));
    assert!(mass.as_decigrams().eq_value(&magd(8, 4)));
    assert!(mass.as_cg().eq_value(&magd(8, 5)));
    assert!(mass.as_centigrams().eq_value(&magd(8, 5)));
    assert!(mass.as_mg().eq_value(&magd(8, 6)));
    assert!(mass.as_milligrams().eq_value(&magd(8, 6)));
    assert!(mass.as_ug().eq_value(&magd(8, 9)));
    assert!(mass.as_micrograms().eq_value(&magd(8, 9)));
    assert!(mass.as_ng().eq_value(&magd(8, 12)));
    assert!(mass.as_nanograms().eq_value(&magd(8, 12)));
    assert!(mass.as_pg().eq_value(&magd(8, 15)));
    assert!(mass.as_picograms().eq_value(&magd(8, 15)));
    assert!(mass.as_fg().eq_value(&magd(8, 18)));
    assert!(mass.as_femtograms().eq_value(&magd(8, 18)));
    assert!(mass.as_ag().eq_value(&magd(8, 21)));
    assert!(mass.as_attograms().eq_value(&magd(8, 21)));
    assert!(mass.as_zg().eq_value(&magd(8, 24)));
    assert!(mass.as_zeptograms().eq_value(&magd(8, 24)));
    assert!(mass.as_yg().eq_value(&magd(8, 27)));
    assert!(mass.as_yoctograms().eq_value(&magd(8, 27)));

    assert!(mass.as_g().eq_value(&mag(8000)));
    assert!(Mass::in_g(mag(8000)).as_kg().eq_value(&mag(8)));
}

#[test]
fn prefix_table_shape() {
    let t = prefix_table();
    assert_eq!(t.len(), 21);
    assert_eq!(t[0].exponent(), 24);
    assert_eq!(t[10].exponent(), 0);
    assert_eq!(t[20].exponent(), -24);
    for i in 0..20 {
        assert!(t[i].exponent() > t[i + 1].exponent());
    }
}

#[test]
fn prefix_round_trips_over_table() {
    for p in prefix_table() {
        let x = mag(7);
        assert!(Length::in_unit(p, x).as_unit(p).eq_value(&x));
        assert!(Mass::in_unit(p, x).as_unit(p).eq_value(&x));
    }
}

#[test]
fn prefix_names() {
    assert_eq!(Prefix::Kilo.symbol(), "k");
    assert_eq!(Prefix::Kilo.name(), "kilo");
    assert_eq!(Prefix::Micro.symbol(), "u");
    assert_eq!(Prefix::Micro.unicode_symbol(), "µ");
    assert_eq!(Prefix::Base.symbol(), "");
    assert_eq!(Prefix::Yocto.name(), "yocto");
}
