//! A typed physical-quantity library.
//!
//! Measurable quantities (length, mass, time, force, energy, ...) are value
//! types holding one magnitude in a single canonical unit, with constructors
//! and accessors for every SI-prefixed unit and algebraic formulas relating
//! the quantities (`F = m * a`, `v = d / t`, ...).
//!
//! Magnitudes are exact decimal rationals (`Magnitude`), so every unit
//! conversion and every formula is exact and carries a proved contract; the
//! round-trip, cross-prefix, power-scaling and base-shift laws are theorems,
//! not approximations.  Every operation states both the value of its result
//! (over the rational model) and its exact representation (the `*_rep`
//! specification functions), so a verified caller can chain calls and
//! discharge the machine-limit preconditions of each next step.
//!
//! A deliberate design change follows from exactness: floating-point
//! arithmetic is total and would turn a division by zero into an infinity
//! and an oversized product into a rounded value, while the operations here
//! exclude zero divisors and results beyond the fixed-width fields by
//! contract (`requires`) instead — the verified functions never panic and
//! never round.

use vstd::prelude::*;

pub mod rat;
pub mod magnitude;
pub mod prefix;
pub mod display;
pub mod direction;
pub mod unit;
pub mod units;
pub mod constants;
pub mod laws;

pub use direction::Direction;
pub use direction::Position;
pub use magnitude::Magnitude;
