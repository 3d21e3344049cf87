//! # Misc
//!
//! The term "misc" encompasses all non-fermentable miscellaneous ingredients
//! that are not hops or yeast and do not significantly change the gravity of
//! the beer.  For example: spices, clarifying agents, water treatments, etc.
use vstd::prelude::*;

use crate::units::{Grams, MilliMinutes};

verus! {

/// A miscellaneous ingredient of a recipe.
#[derive(Debug, PartialEq, Clone)]
pub struct Misc {
    pub name: String,
    pub version: u8,
    pub type_: Type,
    pub use_: Use,
    /// Amount of time in thousandths of a minute.
    pub time: MilliMinutes,
    /// Amount of item used. The default measurements are by weight, but this
    /// may be the measurement in volume units if `amount_is_weight` is set to
    /// `true`.
    pub amount: Grams,
    pub amount_is_weight: Option<bool>,
    pub use_for: Option<String>,
    pub notes: Option<String>,
}

/// Wrapper for the plural `<MISCS>` tag of the interchange format.
#[derive(Debug, PartialEq, Clone)]
pub struct Miscs {
    pub misc: Vec<Misc>,
}

impl Default for Miscs {
    fn default() -> (r: Self)
        ensures
            r.misc@ == Seq::<Misc>::empty(),
    {
        let v: Vec<Misc> = Vec::new();
        proof {
            assert(v@ =~= Seq::<Misc>::empty());
        }
        Miscs { misc: v }
    }
}

/// The stage a miscellaneous ingredient is added at.
#[derive(Debug, PartialEq, Eq, Structural, Clone, Copy)]
pub enum Use {
    Boil,
    Mash,
    Primary,
    Secondary,
    Bottling,
}

/// The kind of miscellaneous ingredient.
#[derive(Debug, PartialEq, Eq, Structural, Clone, Copy)]
pub enum Type {
    Spice,
    Fining,
    WaterAgent,
    Herb,
    Flavor,
    Other,
}

impl Type {
    /// The variant a `<TYPE>` label of the interchange format names, if any.
    pub open spec fn spec_from_label(label: Seq<char>) -> Option<Type> {
        if label == "Spice"@ {
            Some(Type::Spice)
        } else if label == "Fining"@ {
            Some(Type::Fining)
        } else if label == "Water Agent"@ {
            Some(Type::WaterAgent)
        } else if label == "Herb"@ {
            Some(Type::Herb)
        } else if label == "Flavor"@ {
            Some(Type::Flavor)
        } else if label == "Other"@ {
            Some(Type::Other)
        } else {
            None
        }
    }

    /// Looks a `<TYPE>` label up in the closed set of ingredient kinds.
    pub fn from_label(label: &String) -> (r: Option<Type>)
        ensures
            r == Self::spec_from_label(label@),
    {
        if *label == "Spice".to_owned() {
            Some(Type::Spice)
        } else if *label == "Fining".to_owned() {
            Some(Type::Fining)
        } else if *label == "Water Agent".to_owned() {
            Some(Type::WaterAgent)
        } else if *label == "Herb".to_owned() {
            Some(Type::Herb)
        } else if *label == "Flavor".to_owned() {
            Some(Type::Flavor)
        } else if *label == "Other".to_owned() {
            Some(Type::Other)
        } else {
            None
        }
    }
}

} // verus!
