//! Physical constants that pertain to no single quantity.
//!
//! The constants tied to a quantity live on that quantity's type, e.g.
//! [`Speed::light`][crate::units::Speed::light].

use vstd::prelude::*;

use crate::magnitude::{decimal_mag, Magnitude};

verus! {

/// The [Coulomb constant][0], the electric force constant
/// (8987551792.3 N m²/C²).
///
/// [0]: https://en.wikipedia.org/wiki/Coulomb_constant
pub fn coulomb_constant() -> (r: Magnitude)
    ensures
        r.wf(),
        r == decimal_mag(89_875_517_923, -1),
{
    Magnitude::from_decimal(89_875_517_923, -1)
}

} // verus!
