//! The display facade: a trait common to all quantities.
//!
//! Every quantity renders as `"<magnitude> <name>"`; the long name is
//! singular exactly when the magnitude denotes one, plural otherwise.
//! Magnitudes are exact, so the singular test is exact equality with one,
//! not a comparison within some epsilon.

use vstd::prelude::*;

use crate::display::mag_chars;
use crate::magnitude::Magnitude;
use crate::rat::{rat_eq, rat_int};

verus! {

/// A trait common to all units.
pub trait Unit: Sized {
    /// The canonical stored magnitude, for specification.
    spec fn mag_rep(&self) -> Magnitude;

    /// The short unit symbol.
    spec fn symbol_spec() -> Seq<char>;

    /// The long unit name, singular.
    spec fn singular_spec() -> Seq<char>;

    /// The long unit name, plural.
    spec fn plural_spec() -> Seq<char>;

    /// Returns the unit in short format.
    fn unit() -> (s: String)
        ensures
            s@ == Self::symbol_spec(),
    ;

    /// Returns the unit in long format, singular.
    fn unit_long_s(&self) -> (s: String)
        ensures
            s@ == Self::singular_spec(),
    ;

    /// Returns the unit in long format, plural.
    fn unit_long_p(&self) -> (s: String)
        ensures
            s@ == Self::plural_spec(),
    ;

    /// Returns the unit in long format: singular exactly when the magnitude
    /// is one, plural otherwise.
    fn unit_long(&self) -> (s: String)
        requires
            self.mag_rep().wf(),
        ensures
            s@ == if rat_eq(self.mag_rep()@, rat_int(1)) {
                Self::singular_spec()
            } else {
                Self::plural_spec()
            },
    ;

    /// Returns the magnitude and unit in long format.
    fn long(&self) -> (s: String)
        requires
            self.mag_rep().wf(),
        ensures
            s@ == mag_chars(self.mag_rep()) + " "@ + (if rat_eq(self.mag_rep()@, rat_int(1)) {
                Self::singular_spec()
            } else {
                Self::plural_spec()
            }),
    ;

    /// Returns the magnitude and unit in short format.
    fn short(&self) -> (s: String)
        requires
            self.mag_rep().wf(),
        ensures
            s@ == mag_chars(self.mag_rep()) + " "@ + Self::symbol_spec(),
    ;
}

} // verus!
