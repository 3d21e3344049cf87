//! # Fermentable
//!
//! The term "fermentable" encompasses all fermentable items that contribute
//! substantially to the gravity of the beer: grains, sugars, extracts and
//! adjuncts.
use vstd::prelude::*;

use crate::units::{Grams, MilliPercent, MilliSrm};

verus! {

/// A fermentable ingredient of a recipe.
#[derive(Debug, PartialEq, Clone)]
pub struct Fermentable {
    pub name: String,
    pub version: u8,
    pub type_: Type,
    pub amount: Grams,
    pub yield_: MilliPercent,
    pub color: MilliSrm,
    pub add_after_boil: Option<bool>,
    pub origin: Option<String>,
    pub supplier: Option<String>,
    pub notes: Option<String>,
    pub coarse_fine_diff: Option<MilliPercent>,
    pub moisture: Option<MilliPercent>,
    pub diastatic_power: Option<u64>,
    pub protein: Option<MilliPercent>,
    pub max_in_batch: Option<MilliPercent>,
    pub recommend_mash: Option<bool>,
    pub ibu_gal_per_lb: Option<u64>,
}

/// Wrapper for the plural `<FERMENTABLES>` tag of the interchange format.
#[derive(Debug, PartialEq, Clone)]
pub struct Fermentables {
    pub fermentable: Vec<Fermentable>,
}

impl Default for Fermentables {
    fn default() -> (r: Self)
        ensures
            r.fermentable@ == Seq::<Fermentable>::empty(),
    {
        let v: Vec<Fermentable> = Vec::new();
        proof {
            assert(v@ =~= Seq::<Fermentable>::empty());
        }
        Fermentables { fermentable: v }
    }
}

/// The kind of fermentable ingredient.
#[derive(Debug, PartialEq, Eq, Structural, Clone, Copy)]
pub enum Type {
    Grain,
    Sugar,
    Extract,
    DryExtract,
    Adjunct,
}

impl Type {
    /// The variant a `<TYPE>` label of the interchange format names, if any.
    pub open spec fn spec_from_label(label: Seq<char>) -> Option<Type> {
        if label == "Grain"@ {
            Some(Type::Grain)
        } else if label == "Sugar"@ {
            Some(Type::Sugar)
        } else if label == "Extract"@ {
            Some(Type::Extract)
        } else if label == "Dry Extract"@ {
            Some(Type::DryExtract)
        } else if label == "Adjunct"@ {
            Some(Type::Adjunct)
        } else {
            None
        }
    }

    /// Looks a `<TYPE>` label up in the closed set of fermentable kinds.
    pub fn from_label(label: &String) -> (r: Option<Type>)
        ensures
            r == Self::spec_from_label(label@),
    {
        if *label == "Grain".to_owned() {
            Some(Type::Grain)
        } else if *label == "Sugar".to_owned() {
            Some(Type::Sugar)
        } else if *label == "Extract".to_owned() {
            Some(Type::Extract)
        } else if *label == "Dry Extract".to_owned() {
            Some(Type::DryExtract)
        } else if *label == "Adjunct".to_owned() {
            Some(Type::Adjunct)
        } else {
            None
        }
    }
}

} // verus!
