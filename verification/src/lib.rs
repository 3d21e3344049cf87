//! # Beer recipe
//!
//! A library for handling beer recipes.
//!
//! ## BeerXML
//!
//! The starting point is the BeerXML standard: the `beerxml` module models the
//! decoded records of that format, with every physical quantity held as an
//! integer count of thousandths of the document's unit (liters, minutes,
//! kilograms, percent, specific gravity), so that the calculations in the
//! `bryggio` module can be reasoned about exactly.
use vstd::prelude::*;

pub mod beerxml;
pub mod bryggio;
pub mod interpolation;
pub mod units;

verus! {

/// Marker for record types that the pluralized BeerXML wrappers can carry.
pub trait RecordSet {

}

/// A pluralized wrapper over any record set.
///
/// The interchange format has no list syntax of its own: a plural tag
/// encloses repeated singular tags, so a decoded list always arrives behind
/// one wrapper field.
#[verifier::reject_recursive_types(T)]
pub struct RecordSetList<T: RecordSet> {
    pub hop: Vec<T>,
}

} // verus!
