//! All the physical quantities.
//!
//! Each quantity stores one magnitude in its single canonical unit; the
//! prefixed constructors and accessors all go through the generic pair in
//! [`crate::prefix`], parameterised by the quantity's dimensional power and
//! canonical-unit offset, so the whole prefix ladder is one code path.
//!
//! Naming policy, deliberately: the full named pair-per-prefix ladder is
//! written out for [`Length`] (the plain exemplar) and [`Mass`] (the
//! kilogram-based exemplar); every other quantity carries named pairs for
//! the units its formulas, constants and laws speak of, and reaches the
//! rest of the ladder through the same `in_unit`/`as_unit` pair fixed to a
//! [`crate::prefix::Prefix`] — one call, identical behaviour and contract.

mod base;
mod geometry;
mod length;
mod mass;
mod scalars;
mod time;
mod vectors;

pub use base::Amount;
pub use base::Current;
pub use base::Intensity;
pub use base::Temperature;
pub use geometry::Area;
pub use geometry::Volume;
pub use length::Distance;
pub use length::Height;
pub use length::Length;
pub use mass::Mass;
pub use scalars::Charge;
pub use scalars::Density;
pub use scalars::Energy;
pub use scalars::Frequency;
pub use scalars::Power;
pub use scalars::Pressure;
pub use scalars::Speed;
pub use scalars::Work;
pub use time::Time;
pub use vectors::Acceleration;
pub use vectors::Force;
pub use vectors::Gfs;
pub use vectors::GravitationalFieldStrength;
pub use vectors::Moment;
pub use vectors::Momentum;
pub use vectors::Torque;
pub use vectors::Velocity;
pub use vectors::Weight;
