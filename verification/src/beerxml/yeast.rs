//! # Yeast
use vstd::prelude::*;

use crate::units::{Grams, MilliCelsius, MilliPercent};

verus! {

/// A yeast of a recipe.
#[derive(Debug, PartialEq, Clone)]
pub struct Yeast {
    pub name: String,
    pub version: u8,
    pub type_: Type,
    pub form: Form,
    pub amount: Grams,
    pub amount_is_weight: Option<bool>,
    pub laboratory: Option<String>,
    pub product_id: Option<String>,
    pub min_temperature: Option<MilliCelsius>,
    pub max_temperature: Option<MilliCelsius>,
    pub flocculation: Option<Flocculation>,
    pub attenuation: Option<MilliPercent>,
    pub notes: Option<String>,
    pub best_for: Option<String>,
    pub times_cultured: Option<u8>,
    pub max_reuse: Option<u8>,
    pub add_to_secondary: Option<bool>,
}

/// Wrapper for the plural `<YEASTS>` tag of the interchange format.
#[derive(Debug, PartialEq, Clone)]
pub struct Yeasts {
    pub yeast: Vec<Yeast>,
}

impl Default for Yeasts {
    fn default() -> (r: Self)
        ensures
            r.yeast@ == Seq::<Yeast>::empty(),
    {
        let v: Vec<Yeast> = Vec::new();
        proof {
            assert(v@ =~= Seq::<Yeast>::empty());
        }
        Yeasts { yeast: v }
    }
}

/// The style of beer a yeast is suited for.
#[derive(Debug, PartialEq, Eq, Structural, Clone, Copy)]
pub enum Type {
    Ale,
    Lager,
    Wheat,
    Wine,
    Champagne,
}

/// The physical form a yeast is delivered in.
#[derive(Debug, PartialEq, Eq, Structural, Clone, Copy)]
pub enum Form {
    Liquid,
    Dry,
    Slant,
    Culture,
}

/// How readily a yeast settles out of suspension.
#[derive(Debug, PartialEq, Eq, Structural, Clone, Copy)]
pub enum Flocculation {
    Low,
    Medium,
    High,
    VeryHigh,
}

impl Flocculation {
    /// The variant a `<FLOCCULATION>` label of the interchange format names,
    /// if any.
    pub open spec fn spec_from_label(label: Seq<char>) -> Option<Flocculation> {
        if label == "Low"@ {
            Some(Flocculation::Low)
        } else if label == "Medium"@ {
            Some(Flocculation::Medium)
        } else if label == "High"@ {
            Some(Flocculation::High)
        } else if label == "Very High"@ {
            Some(Flocculation::VeryHigh)
        } else {
            None
        }
    }

    /// Looks a `<FLOCCULATION>` label up in the closed set of levels.
    pub fn from_label(label: &String) -> (r: Option<Flocculation>)
        ensures
            r == Self::spec_from_label(label@),
    {
        if *label == "Low".to_owned() {
            Some(Flocculation::Low)
        } else if *label == "Medium".to_owned() {
            Some(Flocculation::Medium)
        } else if *label == "High".to_owned() {
            Some(Flocculation::High)
        } else if *label == "Very High".to_owned() {
            Some(Flocculation::VeryHigh)
        } else {
            None
        }
    }
}

} // verus!
