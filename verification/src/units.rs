//! Semantic aliases for the fixed-point quantities used throughout the crate.
//!
//! Every physical quantity is stored as an integer count of thousandths of its
//! BeerXML unit: a volume of 18.93 liters is held as `18_930`, a specific
//! gravity of 1.050 as `1_050`, an alpha-acid content of 5 percent as `5_000`,
//! a mass of 0.028 kilograms as `28`, and a time of 60 minutes as `60_000`.
use vstd::prelude::*;

verus! {

/// Thousandths of a liter (milliliters).
pub type MilliLiters = u64;

/// Thousandths of a minute.
pub type MilliMinutes = u64;

/// Thousandths of a kilogram (grams).
pub type Grams = u64;

/// Thousandths of a percent.
pub type MilliPercent = u64;

/// Thousandths of a dimensionless specific-gravity ratio.
pub type MilliGravity = u64;

/// Thousandths of an International Bitterness Unit.
pub type MilliIbu = u64;

/// Thousandths of a degree Celsius.
pub type MilliCelsius = u64;

/// Thousandths of a part per million.
pub type MilliPpm = u64;

/// Thousandths of an SRM color unit.
pub type MilliSrm = u64;

/// Thousandths of a volume of dissolved carbon dioxide.
pub type MilliVolumesCo2 = u64;

/// Upper bound on every stored quantity (one million whole units held in
/// thousandths), chosen so that the intermediate products of the linear
/// interpolation below stay well inside the machine integer range.
pub const QUANTITY_LIMIT: u64 = 1_000_000_000;

/// A stored quantity the interpolation arithmetic can accept.
pub open spec fn quantity_ok(q: u64) -> bool {
    q <= QUANTITY_LIMIT
}

} // verus!
