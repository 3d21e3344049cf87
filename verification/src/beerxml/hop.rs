//! # Hop
use vstd::prelude::*;

use crate::units::{quantity_ok, Grams, MilliMinutes, MilliPercent};
use crate::RecordSet;

verus! {

/// A hop addition of a recipe.
#[derive(Debug, PartialEq, Clone)]
pub struct Hop {
    pub name: String,
    pub version: u8,
    pub alpha: MilliPercent,
    pub amount: Grams,
    pub use_: Use,
    /// The time as measured in thousandths of a minute.
    pub time: MilliMinutes,
    pub notes: Option<String>,
    pub type_: Option<Type>,
    pub form: Option<Form>,
    pub beta: Option<MilliPercent>,
    /// Hop Stability Index
    ///
    /// Defined as the percentage of hop alpha lost in 6 months of storage
    pub hsi: Option<MilliPercent>,
    pub origin: Option<String>,
    pub substitutes: Option<String>,
    pub humulene: Option<MilliPercent>,
    pub caryophyllene: Option<MilliPercent>,
    pub cohumulone: Option<MilliPercent>,
    pub myrcene: Option<MilliPercent>,
}

impl Hop {
    /// Whether this addition contributes bitterness: every usage does except
    /// aroma and dry-hop additions.
    pub open spec fn is_bittering(self) -> bool {
        self.use_ != Use::Aroma && self.use_ != Use::DryHop
    }

    /// The quantities of this hop are small enough for exact arithmetic.
    pub open spec fn wf(self) -> bool {
        quantity_ok(self.alpha) && quantity_ok(self.amount) && quantity_ok(self.time)
    }

    pub fn bittering(&self) -> (r: bool)
        ensures
            r == self.is_bittering(),
    {
        self.use_ != Use::Aroma && self.use_ != Use::DryHop
    }
}

impl RecordSet for Hop {

}

/// What a hop addition is used for.
#[derive(Debug, PartialEq, Eq, Structural, Clone, Copy)]
pub enum Use {
    Boil,
    DryHop,
    Mash,
    FirstWort,
    Aroma,
}

impl Use {
    /// The variant a `<USE>` label of the interchange format names, if any.
    pub open spec fn spec_from_label(label: Seq<char>) -> Option<Use> {
        if label == "Boil"@ {
            Some(Use::Boil)
        } else if label == "Dry Hop"@ {
            Some(Use::DryHop)
        } else if label == "Mash"@ {
            Some(Use::Mash)
        } else if label == "First Wort"@ {
            Some(Use::FirstWort)
        } else if label == "Aroma"@ {
            Some(Use::Aroma)
        } else {
            None
        }
    }

    /// Looks a `<USE>` label up in the closed set of usage categories.
    pub fn from_label(label: &String) -> (r: Option<Use>)
        ensures
            r == Self::spec_from_label(label@),
    {
        if *label == "Boil".to_owned() {
            Some(Use::Boil)
        } else if *label == "Dry Hop".to_owned() {
            Some(Use::DryHop)
        } else if *label == "Mash".to_owned() {
            Some(Use::Mash)
        } else if *label == "First Wort".to_owned() {
            Some(Use::FirstWort)
        } else if *label == "Aroma".to_owned() {
            Some(Use::Aroma)
        } else {
            None
        }
    }
}

/// Wrapper for the plural `<HOPS>` tag of the interchange format.
#[derive(Debug, PartialEq, Clone)]
pub struct Hops {
    pub hop: Vec<Hop>,
}

impl Default for Hops {
    fn default() -> (r: Self)
        ensures
            r.hop@ == Seq::<Hop>::empty(),
    {
        let v: Vec<Hop> = Vec::new();
        proof {
            assert(v@ =~= Seq::<Hop>::empty());
        }
        Hops { hop: v }
    }
}

/// The general bittering-versus-aroma character of a hop variety.
#[derive(Debug, PartialEq, Eq, Structural, Clone, Copy)]
pub enum Type {
    Bittering,
    Aroma,
    Both,
}

/// The physical form a hop is delivered in.
#[derive(Debug, PartialEq, Eq, Structural, Clone, Copy)]
pub enum Form {
    Pellet,
    Plug,
    Leaf,
}

} // verus!
