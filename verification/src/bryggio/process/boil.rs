//! The boil stage of a normalized recipe.
use vstd::prelude::*;

use crate::units::{quantity_ok, MilliLiters, MilliMinutes};

verus! {

/// The boil stage: created once at normalization time, never mutated.
#[derive(Debug, PartialEq, Clone)]
pub struct Boil {
    /// Volume of the wort before the boil begins.
    pub pre_volume: MilliLiters,
    /// Duration of the boil.
    pub boil_time: MilliMinutes,
}

impl Boil {
    /// The quantities of this stage are small enough for exact arithmetic.
    pub open spec fn wf(self) -> bool {
        quantity_ok(self.pre_volume) && quantity_ok(self.boil_time)
    }

    /// Builds the stage from the flat boil-size and boil-time fields of a
    /// source recipe.
    pub fn from_beerxml_recipe(boil_size: MilliLiters, boil_time: MilliMinutes) -> (r: Self)
        ensures
            r == (Boil { pre_volume: boil_size, boil_time }),
    {
        Self { pre_volume: boil_size, boil_time }
    }
}

} // verus!
