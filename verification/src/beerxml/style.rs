//! # Style
//!
//! The term "style" encompasses beer styles.  The beer style may be from the
//! BJCP style guide, Australian, UK or local style guides.  Generally a
//! recipe is designed to one style.
use vstd::prelude::*;

use crate::units::{MilliGravity, MilliIbu, MilliPercent, MilliSrm, MilliVolumesCo2};
use crate::RecordSet;

verus! {

/// A beer style a recipe is designed to.
#[derive(Debug, PartialEq, Clone)]
pub struct Style {
    pub name: String,
    pub category: String,
    pub version: u8,
    /// Supposed to be text but seems to be a semantic u8
    pub category_number: u8,
    pub style_letter: String,
    pub style_guide: String,
    pub type_: Type,
    /// The minimum original specific gravity as measured relative to water.
    pub og_min: MilliGravity,
    /// The maximum original specific gravity as measured relative to water.
    pub og_max: MilliGravity,
    /// The minimum final specific gravity as measured relative to water.
    pub fg_min: MilliGravity,
    /// The maximum final specific gravity as measured relative to water.
    pub fg_max: MilliGravity,
    /// The recommended minimum bitterness for this style as measured in
    /// International Bitterness Units (IBUs)
    pub ibu_min: MilliIbu,
    /// The recommended maximum bitterness for this style as measured in
    /// International Bitterness Units (IBUs)
    pub ibu_max: MilliIbu,
    pub color_min: MilliSrm,
    pub color_max: MilliSrm,
    /// Minimum recommended carbonation for this style in volumes of CO2
    pub carb_min: Option<MilliVolumesCo2>,
    /// Maximum recommended carbonation for this style in volumes of CO2
    pub carb_max: Option<MilliVolumesCo2>,
    pub abv_min: Option<MilliPercent>,
    pub abv_max: Option<MilliPercent>,
    pub notes: Option<String>,
    pub profile: Option<String>,
    pub ingredients: Option<String>,
    pub examples: Option<String>,
}

impl RecordSet for Style {

}

/// The broad family a style belongs to.
#[derive(Debug, PartialEq, Eq, Structural, Clone, Copy)]
pub enum Type {
    Lager,
    Ale,
    Mead,
    Wheat,
    Mixed,
    Cider,
}

} // verus!
