//! # Recipe (source record)
//!
//! The `<RECIPE>` record of the interchange format, exactly as a decoded
//! document hands it over: sizing and timing fields flat on the record, the
//! ingredient lists behind their pluralized wrappers, and the bitterness
//! method optional.
use vstd::prelude::*;

use crate::beerxml::equipment::Equipment;
use crate::beerxml::fermentable::Fermentables;
use crate::beerxml::hop::{Hop, Hops};
use crate::beerxml::mash::Mash;
use crate::beerxml::misc::Miscs;
use crate::beerxml::style::Style;
use crate::beerxml::water::Waters;
use crate::beerxml::yeast::Yeasts;
use crate::units::{
    quantity_ok, MilliCelsius, MilliGravity, MilliLiters, MilliMinutes, MilliPercent,
    MilliVolumesCo2,
};

verus! {

/// A fully decoded source recipe.
#[derive(Debug, PartialEq, Clone)]
pub struct Recipe {
    pub name: String,
    pub version: u8,
    pub type_: Type,
    pub style: Style,
    pub equipment: Option<Equipment>,
    pub brewer: String,
    pub asst_brewer: Option<String>,
    pub batch_size: MilliLiters,
    pub boil_size: MilliLiters,
    pub boil_time: MilliMinutes,
    /// Not used for `Type::Extract`
    pub efficiency: MilliPercent,
    pub hops: Hops,
    pub fermentables: Fermentables,
    pub miscs: Miscs,
    pub yeasts: Yeasts,
    pub waters: Waters,
    pub mash: Mash,
    pub notes: Option<String>,
    pub taste_notes: Option<String>,
    pub taste_rating: Option<u64>,
    pub og: Option<MilliGravity>,
    pub fg: Option<MilliGravity>,
    pub fermentation_stages: Option<u8>,
    pub primary_age: Option<u64>,
    pub primary_temp: Option<MilliCelsius>,
    pub secondary_age: Option<u64>,
    pub secondary_temp: Option<MilliCelsius>,
    pub tertiary_age: Option<u64>,
    pub tertiary_temp: Option<MilliCelsius>,
    pub age: Option<u64>,
    pub age_temp: Option<MilliCelsius>,
    pub date: Option<String>,
    pub carbonation: Option<MilliVolumesCo2>,
    pub forced_carbonation: Option<bool>,
    pub priming_sugar_name: Option<String>,
    pub carbonation_temp: Option<MilliCelsius>,
    pub priming_sugar_equiv: Option<u64>,
    pub keg_priming_factor: Option<u64>,
    pub ibu_method: Option<IbuMethod>,
}

impl Recipe {
    /// The quantities that feed the bitterness calculation are small enough
    /// for exact arithmetic.
    pub open spec fn wf(self) -> bool {
        &&& quantity_ok(self.batch_size)
        &&& quantity_ok(self.boil_size)
        &&& quantity_ok(self.boil_time)
        &&& (self.og matches Some(g) ==> quantity_ok(g))
        &&& forall|i: int|
            0 <= i < self.hops.hop@.len() ==> (#[trigger] self.hops.hop@[i]).wf()
    }

    pub fn hops(&self) -> (r: &Vec<Hop>)
        ensures
            r@ == self.hops.hop@,
    {
        &self.hops.hop
    }
}

/// The production method of a recipe.
#[derive(Debug, PartialEq, Eq, Structural, Clone, Copy)]
pub enum Type {
    Extract,
    PartialMash,
    AllGrain,
}

impl Type {
    /// The variant a `<TYPE>` label of the interchange format names, if any.
    pub open spec fn spec_from_label(label: Seq<char>) -> Option<Type> {
        if label == "Extract"@ {
            Some(Type::Extract)
        } else if label == "Partial Mash"@ {
            Some(Type::PartialMash)
        } else if label == "All Grain"@ {
            Some(Type::AllGrain)
        } else {
            None
        }
    }

    /// Looks a `<TYPE>` label up in the closed set of production methods.
    pub fn from_label(label: &String) -> (r: Option<Type>)
        ensures
            r == Self::spec_from_label(label@),
    {
        if *label == "Extract".to_owned() {
            Some(Type::Extract)
        } else if *label == "Partial Mash".to_owned() {
            Some(Type::PartialMash)
        } else if *label == "All Grain".to_owned() {
            Some(Type::AllGrain)
        } else {
            None
        }
    }
}

/// IBU methods
#[derive(Debug, PartialEq, Eq, Structural, Clone, Copy)]
pub enum IbuMethod {
    Tinseth,
    Rager,
    Garetz,
}

impl IbuMethod {
    /// The variant an `<IBU_METHOD>` label of the interchange format names,
    /// if any.
    pub open spec fn spec_from_label(label: Seq<char>) -> Option<IbuMethod> {
        if label == "Tinseth"@ {
            Some(IbuMethod::Tinseth)
        } else if label == "Rager"@ {
            Some(IbuMethod::Rager)
        } else if label == "Garetz"@ {
            Some(IbuMethod::Garetz)
        } else {
            None
        }
    }

    /// Looks an `<IBU_METHOD>` label up in the closed set of methods.
    pub fn from_label(label: &String) -> (r: Option<IbuMethod>)
        ensures
            r == Self::spec_from_label(label@),
    {
        if *label == "Tinseth".to_owned() {
            Some(IbuMethod::Tinseth)
        } else if *label == "Rager".to_owned() {
            Some(IbuMethod::Rager)
        } else if *label == "Garetz".to_owned() {
            Some(IbuMethod::Garetz)
        } else {
            None
        }
    }
}

} // verus!
