//! # Normalized recipe and the bitterness engine
//!
//! [`Recipe`] is the internal representation: the flat boil fields of a
//! source recipe become an explicit [`Boil`] stage, the pluralized wrapper
//! containers become plain vectors, and the optional bitterness method is
//! resolved to a concrete one (defaulting to Tinseth) while the originally
//! declared method is retained in [`BeerXmlSrc`] for faithful re-export.
//!
//! The bitterness engine computes, for every bittering hop, the numeric
//! inputs its calculation method consumes — mass, alpha-acid content, the
//! average boil volume and average specific gravity over the hop's exposure
//! window, and the time in the boil — and sums per-hop contributions into a
//! recipe total.
use vstd::prelude::*;

use crate::beerxml;
use crate::beerxml::fermentable::Fermentable;
use crate::beerxml::hop::{Hop, Use};
use crate::beerxml::misc::Misc;
use crate::beerxml::recipe::IbuMethod;
use crate::beerxml::water::Water;
use crate::beerxml::yeast::Yeast;
use crate::bryggio::process;
use crate::bryggio::process::Boil;
use crate::interpolation::{
    interpolated_window_average, lemma_window_average_boundary, lemma_window_average_monotonic,
    window_average,
};
use crate::units::{
    quantity_ok, Grams, MilliGravity, MilliIbu, MilliLiters, MilliMinutes, MilliPercent,
    QUANTITY_LIMIT,
};
use vstd::arithmetic::mul::lemma_mul_inequality;

verus! {

/// Why a bitterness figure cannot be produced for a recipe.
///
/// A caller must be able to distinguish "recipe underspecified" (a missing
/// gravity measurement) from "recipe malformed" (a zero-length boil), so
/// each failure carries its own variant.
#[derive(Debug, PartialEq, Eq, Structural, Clone, Copy)]
pub enum IbuError {
    /// A gravity measure was not supplied and estimating it from the grain
    /// bill is an extension point with no algorithm yet.
    EstimationUnavailable,
    /// The boil has zero duration, so interpolating over it would divide by
    /// zero.
    InvalidBoilDuration,
    /// The recipe carries no resolved bitterness method.
    MissingBitternessMethod,
}

/// The numeric inputs a bitterness method consumes for one bittering hop:
/// its mass, its alpha-acid content, the average boil volume and the average
/// specific gravity over its exposure window, and its time in the boil.
#[derive(Debug, PartialEq, Eq, Structural, Clone, Copy)]
pub struct HopExposure {
    pub method: IbuMethod,
    pub amount: Grams,
    pub alpha: MilliPercent,
    /// Average boil volume over the exposure window, in thousandths of a
    /// liter.
    pub average_volume: i64,
    pub time: MilliMinutes,
    /// Average specific gravity over the exposure window, in thousandths.
    pub average_gravity: i64,
}

/// Original values in the BeerXML source recipe
///
/// Enables faithful translation back to BeerXML: the normalized recipe
/// always carries a resolved method, so this record is what keeps the
/// distinction between "method was unspecified" and "method was explicitly
/// chosen".
#[derive(Debug, PartialEq, Eq, Structural, Clone, Copy)]
pub struct BeerXmlSrc {
    pub ibu_method: Option<IbuMethod>,
}

/// The bitterness method a recipe falls back to when its source document
/// declares none.
pub open spec fn default_ibu_method() -> IbuMethod {
    IbuMethod::Tinseth
}

/// A normalized recipe: the root aggregate, immutable after normalization.
#[derive(Debug, PartialEq, Clone)]
pub struct Recipe {
    pub name: String,
    pub type_: beerxml::recipe::Type,
    pub style: beerxml::style::Style,
    pub brewer: String,
    pub asst_brewer: Option<String>,
    pub equipment: Option<beerxml::equipment::Equipment>,
    pub batch_size: MilliLiters,
    pub pre_boil_gravity: Option<MilliGravity>,
    pub og: Option<MilliGravity>,
    pub fg: Option<MilliGravity>,
    /// Not used for `Type::Extract`
    pub efficiency: MilliPercent,
    pub hops: Vec<Hop>,
    pub fermentables: Vec<Fermentable>,
    pub yeasts: Vec<Yeast>,
    pub waters: Vec<Water>,
    pub miscs: Vec<Misc>,
    pub mash: process::Mash,
    pub boil: Boil,
    pub fermentation: process::Fermentation,
    pub carbonation: process::Carbonation,
    pub notes: Option<String>,
    pub taste_notes: Option<String>,
    pub taste_rating: Option<u64>,
    pub date: Option<String>,
    /// The resolved calculation method; `None` only for recipes built by
    /// hand without one.
    pub ibu_method: Option<IbuMethod>,
    pub recipe_src: BeerXmlSrc,
}

impl vstd::std_specs::convert::FromSpecImpl<beerxml::Recipe> for Recipe {
    open spec fn obeys_from_spec() -> bool {
        true
    }

    open spec fn from_spec(s: beerxml::Recipe) -> Recipe {
        Recipe {
            name: s.name,
            type_: s.type_,
            style: s.style,
            brewer: s.brewer,
            asst_brewer: s.asst_brewer,
            equipment: s.equipment,
            batch_size: s.batch_size,
            pre_boil_gravity: None,
            og: s.og,
            fg: s.fg,
            efficiency: s.efficiency,
            hops: s.hops.hop,
            fermentables: s.fermentables.fermentable,
            yeasts: s.yeasts.yeast,
            waters: s.waters.water,
            miscs: s.miscs.misc,
            mash: process::Mash {  },
            boil: Boil { pre_volume: s.boil_size, boil_time: s.boil_time },
            fermentation: process::Fermentation {  },
            carbonation: process::Carbonation {  },
            notes: s.notes,
            taste_notes: s.taste_notes,
            taste_rating: s.taste_rating,
            date: s.date,
            ibu_method: match s.ibu_method {
                Some(m) => Some(m),
                None => Some(default_ibu_method()),
            },
            recipe_src: BeerXmlSrc { ibu_method: s.ibu_method },
        }
    }
}

impl From<beerxml::Recipe> for Recipe {
    /// Normalizes a fully decoded source recipe.
    ///
    /// The ingredient collections are moved out of their pluralized
    /// wrappers, the boil stage is built from the flat boil fields, both
    /// gravity measures are left to be inferred from the grain bill and
    /// efficiency (the source format carries no pre-boil gravity), and the
    /// bitterness method is resolved to the declared one or the default.
    fn from(beerxml_recipe: beerxml::Recipe) -> (r: Recipe) {
        let ibu_method: Option<IbuMethod> = match beerxml_recipe.ibu_method {
            Some(m) => Some(m),
            None => Some(IbuMethod::Tinseth),
        };
        Recipe {
            name: beerxml_recipe.name,
            type_: beerxml_recipe.type_,
            style: beerxml_recipe.style,
            brewer: beerxml_recipe.brewer,
            asst_brewer: beerxml_recipe.asst_brewer,
            equipment: beerxml_recipe.equipment,
            batch_size: beerxml_recipe.batch_size,
            pre_boil_gravity: None,
            og: beerxml_recipe.og,
            fg: beerxml_recipe.fg,
            efficiency: beerxml_recipe.efficiency,
            hops: beerxml_recipe.hops.hop,
            fermentables: beerxml_recipe.fermentables.fermentable,
            yeasts: beerxml_recipe.yeasts.yeast,
            waters: beerxml_recipe.waters.water,
            miscs: beerxml_recipe.miscs.misc,
            mash: process::Mash {  },
            boil: Boil::from_beerxml_recipe(beerxml_recipe.boil_size, beerxml_recipe.boil_time),
            fermentation: process::Fermentation {  },
            carbonation: process::Carbonation {  },
            notes: beerxml_recipe.notes,
            taste_notes: beerxml_recipe.taste_notes,
            taste_rating: beerxml_recipe.taste_rating,
            date: beerxml_recipe.date,
            ibu_method,
            recipe_src: BeerXmlSrc { ibu_method: beerxml_recipe.ibu_method },
        }
    }
}

impl Recipe {
    /// The quantities that feed the bitterness calculation are small enough
    /// for exact arithmetic.
    pub open spec fn wf(self) -> bool {
        &&& quantity_ok(self.batch_size)
        &&& self.boil.wf()
        &&& (self.og matches Some(g) ==> quantity_ok(g))
        &&& (self.pre_boil_gravity matches Some(g) ==> quantity_ok(g))
        &&& forall|i: int| 0 <= i < self.hops@.len() ==> (#[trigger] self.hops@[i]).wf()
    }

    /// Decides [`Self::wf`]: a decoded document can hold anything, so a
    /// caller tests the quantities before asking for a calculation.
    pub fn quantities_in_range(&self) -> (r: bool)
        ensures
            r == self.wf(),
    {
        if self.batch_size > QUANTITY_LIMIT {
            return false;
        }
        if self.boil.pre_volume > QUANTITY_LIMIT || self.boil.boil_time > QUANTITY_LIMIT {
            return false;
        }
        if let Some(g) = self.og {
            if g > QUANTITY_LIMIT {
                return false;
            }
        }
        if let Some(g) = self.pre_boil_gravity {
            if g > QUANTITY_LIMIT {
                return false;
            }
        }
        let n: usize = self.hops.len();
        let mut i: usize = 0;
        while i < n
            invariant
                n == self.hops@.len(),
                i <= n,
                forall|k: int| 0 <= k < i ==> (#[trigger] self.hops@[k]).wf(),
            decreases n - i,
        {
            let h = &self.hops[i];
            if h.alpha > QUANTITY_LIMIT || h.amount > QUANTITY_LIMIT || h.time > QUANTITY_LIMIT {
                return false;
            }
            i = i + 1;
        }
        true
    }

    pub fn hops(&self) -> (r: &Vec<Hop>)
        ensures
            r@ == self.hops@,
    {
        &self.hops
    }

    pub fn fermentables(&self) -> (r: &Vec<Fermentable>)
        ensures
            r@ == self.fermentables@,
    {
        &self.fermentables
    }

    pub fn yeasts(&self) -> (r: &Vec<Yeast>)
        ensures
            r@ == self.yeasts@,
    {
        &self.yeasts
    }

    pub fn waters(&self) -> (r: &Vec<Water>)
        ensures
            r@ == self.waters@,
    {
        &self.waters
    }

    pub fn miscs(&self) -> (r: &Vec<Misc>)
        ensures
            r@ == self.miscs@,
    {
        &self.miscs
    }

    /// Average boil volume over the exposure window of a hop added `time`
    /// before the end of the boil: the kettle holds `boil.pre_volume` at the
    /// start of the boil and boils off linearly to `batch_size` at the end.
    pub open spec fn spec_average_boil_volume(self, time: MilliMinutes) -> int
        recommends
            self.boil.boil_time > 0,
    {
        window_average(
            self.boil.pre_volume as int,
            self.batch_size as int,
            self.boil.boil_time - time,
            self.boil.boil_time as int,
        )
    }

    /// Average specific gravity over the same window: the wort is at
    /// pre-boil gravity at the start of the boil and thickens linearly to
    /// original gravity at the end.
    pub open spec fn spec_average_specific_gravity(self, time: MilliMinutes) -> int
        recommends
            self.boil.boil_time > 0,
            self.og is Some,
            self.pre_boil_gravity is Some,
    {
        window_average(
            self.pre_boil_gravity.unwrap() as int,
            self.og.unwrap() as int,
            self.boil.boil_time - time,
            self.boil.boil_time as int,
        )
    }

    /// Estimating the original gravity from the fermentable bill and the
    /// efficiency is a required extension point with no algorithm specified
    /// yet; rather than guess, it is surfaced as a hard error.
    pub fn estimated_og(&self) -> (r: Result<MilliGravity, IbuError>)
        ensures
            r == Err::<MilliGravity, IbuError>(IbuError::EstimationUnavailable),
    {
        Err(IbuError::EstimationUnavailable)
    }

    /// Estimating the pre-boil gravity from the fermentable bill and the
    /// efficiency is a required extension point with no algorithm specified
    /// yet; rather than guess, it is surfaced as a hard error.
    pub fn estimated_pre_boil_gravity(&self) -> (r: Result<MilliGravity, IbuError>)
        ensures
            r == Err::<MilliGravity, IbuError>(IbuError::EstimationUnavailable),
    {
        Err(IbuError::EstimationUnavailable)
    }

    /// Average boil volume
    ///
    /// Linearly interpolated average of the boil volume over the window from
    /// the hop's addition to the end of the boil.  A zero boil duration
    /// leaves the interpolation undefined and is rejected.
    pub fn average_boil_volume(&self, time: MilliMinutes) -> (r: Result<i64, IbuError>)
        requires
            self.wf(),
            quantity_ok(time),
        ensures
            self.boil.boil_time == 0 ==> r == Err::<i64, IbuError>(IbuError::InvalidBoilDuration),
            self.boil.boil_time > 0 ==> (r matches Ok(v) && v == self.spec_average_boil_volume(
                time,
            )),
    {
        if self.boil.boil_time == 0 {
            return Err(IbuError::InvalidBoilDuration);
        }
        Ok(
            interpolated_window_average(
                self.boil.pre_volume,
                self.batch_size,
                time,
                self.boil.boil_time,
            ),
        )
    }

    /// Average gravity
    ///
    /// Linearly interpolated average of the specific gravity over the window
    /// from the hop's addition to the end of the boil.  A gravity measure
    /// that was not supplied must be estimated, which is not available yet;
    /// a zero boil duration leaves the interpolation undefined.
    pub fn average_specific_gravity(&self, time: MilliMinutes) -> (r: Result<i64, IbuError>)
        requires
            self.wf(),
            quantity_ok(time),
        ensures
            self.og is None ==> r == Err::<i64, IbuError>(IbuError::EstimationUnavailable),
            self.og is Some && self.pre_boil_gravity is None ==> r == Err::<i64, IbuError>(
                IbuError::EstimationUnavailable,
            ),
            self.og is Some && self.pre_boil_gravity is Some && self.boil.boil_time == 0 ==> r
                == Err::<i64, IbuError>(IbuError::InvalidBoilDuration),
            self.og is Some && self.pre_boil_gravity is Some && self.boil.boil_time > 0 ==> (
            r matches Ok(v) && v == self.spec_average_specific_gravity(time)),
    {
        let og: MilliGravity = match self.og {
            Some(g) => g,
            None => {
                return match self.estimated_og() {
                    Ok(g) => Ok(g as i64),
                    Err(e) => Err(e),
                };
            },
        };
        let pre_boil_gravity: MilliGravity = match self.pre_boil_gravity {
            Some(g) => g,
            None => {
                return match self.estimated_pre_boil_gravity() {
                    Ok(g) => Ok(g as i64),
                    Err(e) => Err(e),
                };
            },
        };
        if self.boil.boil_time == 0 {
            return Err(IbuError::InvalidBoilDuration);
        }
        Ok(interpolated_window_average(pre_boil_gravity, og, time, self.boil.boil_time))
    }

    /// The numeric inputs the resolved method consumes for one hop.
    pub open spec fn spec_exposure(self, h: Hop) -> HopExposure
        recommends
            self.ibu_method is Some,
            self.og is Some,
            self.pre_boil_gravity is Some,
            self.boil.boil_time > 0,
    {
        HopExposure {
            method: self.ibu_method->Some_0,
            amount: h.amount,
            alpha: h.alpha,
            average_volume: self.spec_average_boil_volume(h.time) as i64,
            time: h.time,
            average_gravity: self.spec_average_specific_gravity(h.time) as i64,
        }
    }

    /// The exposures of the bittering hops among `hops`, in order.
    pub open spec fn spec_exposures(self, hops: Seq<Hop>) -> Seq<HopExposure>
        decreases hops.len(),
    {
        if hops.len() == 0 {
            Seq::empty()
        } else {
            let prefix = self.spec_exposures(hops.drop_last());
            if hops.last().is_bittering() {
                prefix.push(self.spec_exposure(hops.last()))
            } else {
                prefix
            }
        }
    }

    /// The failure, if any, that a bitterness calculation over this recipe
    /// runs into.  The method must be resolved before anything else; a
    /// recipe without bittering hops needs neither the interpolation nor the
    /// gravity measures, and for each bittering hop the boil volume (which
    /// needs a positive boil duration) is computed before the gravity (which
    /// needs both measures).
    pub open spec fn spec_ibu_error(self) -> Option<IbuError> {
        if self.ibu_method is None {
            Some(IbuError::MissingBitternessMethod)
        } else if spec_has_bittering(self.hops@) && self.boil.boil_time == 0 {
            Some(IbuError::InvalidBoilDuration)
        } else if spec_has_bittering(self.hops@) && (self.og is None || self.pre_boil_gravity
            is None) {
            Some(IbuError::EstimationUnavailable)
        } else {
            None
        }
    }

    /// The per-hop inputs of the bitterness calculation: one exposure for
    /// every bittering hop, in recipe order, or the first failure the
    /// calculation runs into.
    pub fn hop_exposures(&self) -> (r: Result<Vec<HopExposure>, IbuError>)
        requires
            self.wf(),
        ensures
            match self.spec_ibu_error() {
                Some(e) => (r matches Err(e2) && e2 == e),
                None => (r matches Ok(v) && v@ == self.spec_exposures(self.hops@)),
            },
    {
        let method: IbuMethod = match self.ibu_method {
            Some(m) => m,
            None => {
                return Err(IbuError::MissingBitternessMethod);
            },
        };
        let mut exposures: Vec<HopExposure> = Vec::new();
        proof {
            assert(self.hops@.take(0) =~= Seq::<Hop>::empty());
        }
        let n: usize = self.hops.len();
        let mut i: usize = 0;
        while i < n
            invariant
                self.wf(),
                n == self.hops@.len(),
                i <= n,
                self.ibu_method == Some(method),
                exposures@ == self.spec_exposures(self.hops@.take(i as int)),
                spec_has_bittering(self.hops@.take(i as int)) ==> self.boil.boil_time > 0
                    && self.og is Some && self.pre_boil_gravity is Some,
            decreases n - i,
        {
            let h = &self.hops[i];
            if h.bittering() {
                let average_volume: i64 = match self.average_boil_volume(h.time) {
                    Ok(v) => v,
                    Err(e) => {
                        proof {
                            assert(spec_has_bittering(self.hops@)) by {
                                assert(self.hops@[i as int].is_bittering());
                            }
                        }
                        return Err(e);
                    },
                };
                let average_gravity: i64 = match self.average_specific_gravity(h.time) {
                    Ok(g) => g,
                    Err(e) => {
                        proof {
                            assert(spec_has_bittering(self.hops@)) by {
                                assert(self.hops@[i as int].is_bittering());
                            }
                        }
                        return Err(e);
                    },
                };
                exposures.push(
                    HopExposure {
                        method,
                        amount: h.amount,
                        alpha: h.alpha,
                        average_volume,
                        time: h.time,
                        average_gravity,
                    },
                );
            }
            proof {
                let pre = self.hops@.take(i as int);
                assert(self.hops@.take(i + 1) =~= pre.push(self.hops@[i as int]));
                lemma_exposures_push(*self, pre, self.hops@[i as int]);
                lemma_has_bittering_push(self.hops@, i as int);
            }
            i = i + 1;
        }
        proof {
            assert(self.hops@.take(n as int) =~= self.hops@);
        }
        Ok(exposures)
    }

    /// Total IBU for recipe
    ///
    /// Sums the contributions that the resolved method produced for the
    /// recipe's bittering hops — one per exposure of [`Self::hop_exposures`],
    /// in the same order — after running into the same failures that
    /// computing the exposures would: the total is a complete sum or no sum
    /// at all.
    pub fn ibu(&self, contributions: &Vec<MilliIbu>) -> (r: Result<MilliIbu, IbuError>)
        requires
            self.wf(),
            contributions@.len() == self.spec_exposures(self.hops@).len(),
            sum_contributions(contributions@) <= u64::MAX,
        ensures
            match self.spec_ibu_error() {
                Some(e) => (r matches Err(e2) && e2 == e),
                None => (r matches Ok(t) && t == sum_contributions(contributions@)),
            },
    {
        if self.ibu_method.is_none() {
            return Err(IbuError::MissingBitternessMethod);
        }
        let n: usize = self.hops.len();
        let mut has_bittering: bool = false;
        let mut i: usize = 0;
        proof {
            assert(self.hops@.take(0) =~= Seq::<Hop>::empty());
        }
        while i < n
            invariant
                n == self.hops@.len(),
                i <= n,
                has_bittering == spec_has_bittering(self.hops@.take(i as int)),
            decreases n - i,
        {
            proof {
                lemma_has_bittering_push(self.hops@, i as int);
            }
            if self.hops[i].bittering() {
                has_bittering = true;
            }
            i = i + 1;
        }
        proof {
            assert(self.hops@.take(n as int) =~= self.hops@);
        }
        if has_bittering {
            if self.boil.boil_time == 0 {
                return Err(IbuError::InvalidBoilDuration);
            }
            if self.og.is_none() {
                return Err(IbuError::EstimationUnavailable);
            }
            if self.pre_boil_gravity.is_none() {
                return Err(IbuError::EstimationUnavailable);
            }
        }
        let mut total: MilliIbu = 0;
        let mut j: usize = 0;
        proof {
            assert(contributions@.take(0) =~= Seq::<MilliIbu>::empty());
        }
        while j < contributions.len()
            invariant
                j <= contributions@.len(),
                total == sum_contributions(contributions@.take(j as int)),
                sum_contributions(contributions@) <= u64::MAX,
            decreases contributions@.len() - j,
        {
            proof {
                lemma_sum_take_succ(contributions@, j as int);
                lemma_sum_take_bound(contributions@, j + 1);
                lemma_sum_nonnegative(contributions@.take(j + 1));
            }
            total = total + contributions[j];
            j = j + 1;
        }
        proof {
            assert(contributions@.take(contributions@.len() as int) =~= contributions@);
        }
        Ok(total)
    }
}

/// Normalizing a source recipe whose quantities are in range yields a
/// recipe whose quantities are in range.
pub proof fn lemma_normalization_preserves_bounds(s: beerxml::Recipe)
    requires
        s.wf(),
    ensures
        <Recipe as vstd::std_specs::convert::FromSpec<beerxml::Recipe>>::from_spec(s).wf(),
{
}

/// A hop added at the very start of the boil is exposed to the mean of the
/// pre-boil volume and the batch size; one added at knockout is exposed to
/// the batch size exactly.
pub proof fn lemma_average_boil_volume_boundary(r: Recipe)
    requires
        r.boil.boil_time > 0,
    ensures
        r.spec_average_boil_volume(r.boil.boil_time) == (r.boil.pre_volume + r.batch_size) / 2,
        r.spec_average_boil_volume(0) == r.batch_size,
{
    lemma_window_average_boundary(
        r.boil.pre_volume as int,
        r.batch_size as int,
        r.boil.boil_time as int,
    );
}

/// In the boil-off case (the pre-boil volume is at least the batch size),
/// the average boil volume does not increase as the addition time shrinks
/// from the whole boil toward knockout.
pub proof fn lemma_average_boil_volume_monotonic(r: Recipe, t1: MilliMinutes, t2: MilliMinutes)
    requires
        r.boil.boil_time > 0,
        r.batch_size <= r.boil.pre_volume,
        t1 <= t2 <= r.boil.boil_time,
    ensures
        r.spec_average_boil_volume(t1) <= r.spec_average_boil_volume(t2),
{
    lemma_window_average_monotonic(
        r.boil.pre_volume as int,
        r.batch_size as int,
        t1 as int,
        t2 as int,
        r.boil.boil_time as int,
    );
}

/// A hop's mass relative to the recipe's batch size, in thousandths of a
/// gram per liter (the mass is in thousandths of a kilogram and the batch
/// size in thousandths of a liter, so the raw ratio is scaled by a million).
pub open spec fn spec_hop_rate(amount: int, batch_size: int) -> int
    recommends
        batch_size > 0,
{
    amount * 1_000_000 / batch_size
}

/// The largest single hop mass relative to the batch size among the
/// recipe's hops, dry hops excluded; `None` when every hop is a dry hop.
pub fn max_hop_amount_in_recipe(recipe: &Recipe) -> (r: Option<u64>)
    requires
        recipe.wf(),
        recipe.batch_size > 0,
    ensures
        match r {
            None => forall|i: int|
                0 <= i < recipe.hops@.len() ==> (#[trigger] recipe.hops@[i]).use_ == Use::DryHop,
            Some(m) => {
                &&& exists|i: int|
                    0 <= i < recipe.hops@.len() && (#[trigger] recipe.hops@[i]).use_ != Use::DryHop
                        && m == spec_hop_rate(
                        recipe.hops@[i].amount as int,
                        recipe.batch_size as int,
                    )
                &&& forall|i: int|
                    0 <= i < recipe.hops@.len() && (#[trigger] recipe.hops@[i]).use_ != Use::DryHop
                        ==> spec_hop_rate(recipe.hops@[i].amount as int, recipe.batch_size as int)
                        <= m
            },
        },
{
    let mut best: Option<u64> = None;
    let n: usize = recipe.hops.len();
    let mut i: usize = 0;
    while i < n
        invariant
            recipe.wf(),
            recipe.batch_size > 0,
            n == recipe.hops@.len(),
            i <= n,
            match best {
                None => forall|k: int|
                    0 <= k < i ==> (#[trigger] recipe.hops@[k]).use_ == Use::DryHop,
                Some(m) => {
                    &&& exists|k: int|
                        0 <= k < i && (#[trigger] recipe.hops@[k]).use_ != Use::DryHop && m
                            == spec_hop_rate(
                            recipe.hops@[k].amount as int,
                            recipe.batch_size as int,
                        )
                    &&& forall|k: int|
                        0 <= k < i && (#[trigger] recipe.hops@[k]).use_ != Use::DryHop
                            ==> spec_hop_rate(
                            recipe.hops@[k].amount as int,
                            recipe.batch_size as int,
                        ) <= m
                },
            },
        decreases n - i,
    {
        let h = &recipe.hops[i];
        if h.use_ != Use::DryHop {
            assert(h.amount * 1_000_000 <= 1_000_000_000_000_000) by {
                lemma_mul_inequality(h.amount as int, 1_000_000_000, 1_000_000);
            }
            let rate: u64 = h.amount * 1_000_000 / recipe.batch_size;
            let better: bool = match best {
                None => true,
                Some(m) => rate > m,
            };
            if better {
                best = Some(rate);
            }
        }
        i = i + 1;
    }
    best
}

/// Whether any hop of `hops` contributes bitterness.
pub open spec fn spec_has_bittering(hops: Seq<Hop>) -> bool {
    exists|i: int| 0 <= i < hops.len() && (#[trigger] hops[i]).is_bittering()
}

/// The sum of a sequence of per-hop bitterness contributions.
pub open spec fn sum_contributions(s: Seq<MilliIbu>) -> int
    decreases s.len(),
{
    if s.len() == 0 {
        0
    } else {
        sum_contributions(s.drop_last()) + s.last()
    }
}

/// Appending a hop to a hop list appends exactly one exposure when the hop
/// is bittering and none otherwise: a non-bittering hop is excluded from the
/// calculation, not from the collection.
pub proof fn lemma_exposures_push(r: Recipe, hops: Seq<Hop>, h: Hop)
    ensures
        h.is_bittering() ==> r.spec_exposures(hops.push(h)) == r.spec_exposures(hops).push(
            r.spec_exposure(h),
        ),
        !h.is_bittering() ==> r.spec_exposures(hops.push(h)) == r.spec_exposures(hops),
{
    assert(hops.push(h).drop_last() =~= hops);
    assert(hops.push(h).last() == h);
}

/// One more hop can only add bitterness: the extended prefix has a bittering
/// hop exactly when the prefix had one or the new hop is bittering.
proof fn lemma_has_bittering_push(hops: Seq<Hop>, i: int)
    requires
        0 <= i < hops.len(),
    ensures
        spec_has_bittering(hops.take(i + 1)) == (spec_has_bittering(hops.take(i))
            || hops[i].is_bittering()),
{
    assert(hops.take(i + 1) =~= hops.take(i).push(hops[i]));
    if spec_has_bittering(hops.take(i + 1)) {
        let j = choose|j: int|
            0 <= j < hops.take(i + 1).len() && (#[trigger] hops.take(i + 1)[j]).is_bittering();
        if j < i {
            assert(hops.take(i)[j] == hops.take(i + 1)[j]);
            assert(spec_has_bittering(hops.take(i)));
        } else {
            assert(hops.take(i + 1)[j] == hops[i]);
        }
    }
    if spec_has_bittering(hops.take(i)) {
        let j = choose|j: int|
            0 <= j < hops.take(i).len() && (#[trigger] hops.take(i)[j]).is_bittering();
        assert(hops.take(i + 1)[j] == hops.take(i)[j]);
        assert(spec_has_bittering(hops.take(i + 1)));
    }
    if hops[i].is_bittering() {
        assert(hops.take(i + 1)[i] == hops[i]);
        assert(spec_has_bittering(hops.take(i + 1)));
    }
}

/// A sum of contributions is never negative.
proof fn lemma_sum_nonnegative(s: Seq<MilliIbu>)
    ensures
        sum_contributions(s) >= 0,
    decreases s.len(),
{
    if s.len() > 0 {
        lemma_sum_nonnegative(s.drop_last());
    }
}

/// The sum of one more contribution extends the sum of the prefix.
proof fn lemma_sum_take_succ(s: Seq<MilliIbu>, i: int)
    requires
        0 <= i < s.len(),
    ensures
        sum_contributions(s.take(i + 1)) == sum_contributions(s.take(i)) + s[i],
{
    assert(s.take(i + 1).drop_last() =~= s.take(i));
    assert(s.take(i + 1).last() == s[i]);
}

/// A prefix of the contributions never sums to more than all of them.
proof fn lemma_sum_take_bound(s: Seq<MilliIbu>, i: int)
    requires
        0 <= i <= s.len(),
    ensures
        sum_contributions(s.take(i)) <= sum_contributions(s),
    decreases s.len() - i,
{
    if i == s.len() {
        assert(s.take(i) =~= s);
    } else {
        lemma_sum_take_succ(s, i);
        lemma_sum_take_bound(s, i + 1);
    }
}

/// Adding a contribution of zero — a zero-mass bittering hop — leaves the
/// summed total unchanged.
pub proof fn lemma_zero_contribution(s: Seq<MilliIbu>)
    ensures
        sum_contributions(s.push(0)) == sum_contributions(s),
{
    assert(s.push(0).drop_last() =~= s);
    assert(s.push(0).last() == 0);
}

/// The exposures of a hop list are exactly the bittering hops' exposures:
/// filter the list to its bittering hops, then take each one's exposure.
pub proof fn lemma_exposures_are_bittering_hops(r: Recipe, hops: Seq<Hop>)
    ensures
        r.spec_exposures(hops) == hops.filter(|h: Hop| h.is_bittering()).map_values(
            |h: Hop| r.spec_exposure(h),
        ),
    decreases hops.len(),
{
    let pred = |h: Hop| h.is_bittering();
    let f = |h: Hop| r.spec_exposure(h);
    reveal(Seq::filter);
    if hops.len() == 0 {
        assert(hops.filter(pred).map_values(f) =~= Seq::<HopExposure>::empty());
    } else {
        let prefix = hops.drop_last();
        lemma_exposures_are_bittering_hops(r, prefix);
        if pred(hops.last()) {
            assert(hops.filter(pred) == prefix.filter(pred).push(hops.last()));
            assert(prefix.filter(pred).push(hops.last()).map_values(f) =~= prefix.filter(
                pred,
            ).map_values(f).push(f(hops.last())));
        } else {
            assert(hops.filter(pred) == prefix.filter(pred));
        }
    }
}

/// A recipe none of whose hops is bittering — for instance one whose only
/// hop is an aroma addition, whatever its mass — runs into no failure and
/// yields no exposures, so its total bitterness is the empty sum, zero.
pub proof fn lemma_non_bittering_excluded(r: Recipe)
    requires
        r.ibu_method is Some,
        !spec_has_bittering(r.hops@),
    ensures
        r.spec_ibu_error() is None,
        r.spec_exposures(r.hops@) == Seq::<HopExposure>::empty(),
        sum_contributions(Seq::<MilliIbu>::empty()) == 0,
{
    lemma_no_bittering_no_exposures(r, r.hops@);
}

/// Without bittering hops there are no exposures at all.
proof fn lemma_no_bittering_no_exposures(r: Recipe, hops: Seq<Hop>)
    requires
        !spec_has_bittering(hops),
    ensures
        r.spec_exposures(hops) == Seq::<HopExposure>::empty(),
    decreases hops.len(),
{
    if hops.len() > 0 {
        assert(!hops[hops.len() - 1].is_bittering());
        assert forall|i: int| 0 <= i < hops.drop_last().len() implies !(#[trigger] hops.drop_last()[
            i
        ]).is_bittering() by {
            assert(hops.drop_last()[i] == hops[i]);
        }
        lemma_no_bittering_no_exposures(r, hops.drop_last());
    }
}

} // verus!
