//! # Equipment
use vstd::prelude::*;

use crate::units::{Grams, MilliLiters, MilliMinutes, MilliPercent};

verus! {

/// The brewing equipment a recipe was designed for.
#[derive(Debug, PartialEq, Clone)]
pub struct Equipment {
    pub name: String,
    pub version: u8,
    pub boil_size: MilliLiters,
    pub batch_size: MilliLiters,
    pub tun_volume: Option<MilliLiters>,
    pub tun_weight: Option<Grams>,
    pub tun_specific_heat: Option<u64>,
    pub top_up_water: Option<MilliLiters>,
    pub trub_chiller_loss: Option<MilliLiters>,
    pub evap_rate: Option<MilliPercent>,
    pub boil_time: Option<MilliMinutes>,
    pub calc_boil_volume: Option<bool>,
    pub lauter_deadspace: Option<MilliLiters>,
    pub top_up_kettle: Option<MilliLiters>,
    pub hop_utilization: Option<MilliPercent>,
    pub notes: Option<String>,
}

} // verus!
