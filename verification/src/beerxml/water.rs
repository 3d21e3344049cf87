//! # Water
//!
//! The term "water" encompasses water profiles.  Though not strictly required
//! for recipes, the water record allows supporting programs to record the
//! water profile used for brewing a particular batch.
use vstd::prelude::*;

use crate::units::{MilliLiters, MilliPpm};

verus! {

/// A water profile of a recipe.
#[derive(Debug, PartialEq, Clone)]
pub struct Water {
    pub name: String,
    pub version: u8,
    pub amount: MilliLiters,
    pub calcium: MilliPpm,
    pub bicarbonate: MilliPpm,
    pub sulfate: MilliPpm,
    pub chloride: MilliPpm,
    pub sodium: MilliPpm,
    pub magnesium: MilliPpm,
    pub ph: Option<u64>,
    pub notes: Option<String>,
}

/// Wrapper for the plural `<WATERS>` tag of the interchange format.
#[derive(Debug, PartialEq, Clone)]
pub struct Waters {
    pub water: Vec<Water>,
}

impl Default for Waters {
    fn default() -> (r: Self)
        ensures
            r.water@ == Seq::<Water>::empty(),
    {
        let v: Vec<Water> = Vec::new();
        proof {
            assert(v@ =~= Seq::<Water>::empty());
        }
        Waters { water: v }
    }
}

} // verus!
