//! # Mash
//!
//! A mash profile is a record used either within a recipe or outside the
//! recipe to precisely specify the mash method used.  The record consists of
//! some informational items followed by a `<MASH_STEPS>` record that contains
//! the actual mash steps.
use vstd::prelude::*;

use crate::units::{Grams, MilliCelsius, MilliLiters, MilliMinutes};

verus! {

/// Mash profile for a recipe
#[derive(Debug, PartialEq, Clone)]
pub struct Mash {
    pub name: String,
    pub version: u8,
    /// The temperature of the grain before adding it to the mash.
    pub grain_temp: MilliCelsius,
    pub mash_steps: MashSteps,
    pub notes: Option<String>,
    /// Grain tun temperature - may be used to adjust the infusion temperature
    /// for equipment.
    pub tun_temp: Option<MilliCelsius>,
    /// Temperature of the sparge water
    pub sparge_temp: Option<MilliCelsius>,
    pub ph: Option<u64>,
    pub tun_weight: Option<Grams>,
    /// Cal/(gram deg C)
    pub tun_specific_heat: Option<u64>,
    /// If `true`, mash infusion and decoction calculations should take into
    /// account the temperature effects of the equipment (tun specific heat
    /// and tun weight).  If `false`, the tun is assumed to be pre-heated.
    /// Default is `false`.
    pub equip_adjust: Option<bool>,
}

/// Wrapper type for MashStep vectors
///
/// Awkward extra type to conform to XML not having vectors but rather having
/// a plural tag enclosing multiple single tags.
#[derive(Debug, PartialEq, Clone)]
pub struct MashSteps {
    pub mash_step: Vec<MashStep>,
}

/// A mash step is an internal record used within a mash profile to denote a
/// separate step in a multi-step mash.  A mash step is not intended for use
/// outside of a mash profile.
#[derive(Debug, PartialEq, Clone)]
pub struct MashStep {
    pub name: String,
    pub version: u8,
    pub type_: Type,
    pub infuse_amount: Option<MilliLiters>,
    pub step_temp: MilliCelsius,
    pub step_time: MilliMinutes,
    pub ramp_time: Option<MilliMinutes>,
    pub end_temp: Option<MilliCelsius>,
}

/// How a mash step reaches its target temperature.
#[derive(Debug, PartialEq, Eq, Structural, Clone, Copy)]
pub enum Type {
    Infusion,
    Temperature,
    Decoction,
}

} // verus!
