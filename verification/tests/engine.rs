use beer_recipe::beerxml::hop::{Hop, Use};
use beer_recipe::beerxml::recipe::{IbuMethod, Type as RecipeType};
use beer_recipe::beerxml::style::{Style, Type as StyleType};
use beer_recipe::bryggio::process::{Boil, Carbonation, Fermentation, Mash};
use beer_recipe::bryggio::recipe::{BeerXmlSrc, HopExposure, IbuError};
use beer_recipe::bryggio::Recipe;

fn sample_style() -> Style {
    Style {
        name: "Dry Stout".to_string(),
        category: "Stout".to_string(),
        version: 1,
        category_number: 16,
        style_letter: "A".to_string(),
        style_guide: "BJCP".to_string(),
        type_: StyleType::Ale,
        og_min: 1035,
        og_max: 1050,
        fg_min: 1007,
        fg_max: 1011,
        ibu_min: 30_000,
        ibu_max: 50_000,
        color_min: 35_000,
        color_max: 200_000,
        carb_min: None,
        carb_max: None,
        abv_min: None,
        abv_max: None,
        notes: None,
        profile: None,
        ingredients: None,
        examples: None,
    }
}

fn hop(use_: Use, amount: u64, alpha: u64, time: u64) -> Hop {
    Hop {
        name: "Cascade".to_string(),
        version: 1,
        alpha,
        amount,
        use_,
        time,
        notes: None,
        type_: None,
        form: None,
        beta: None,
        hsi: None,
        origin: None,
        substitutes: None,
        humulene: None,
        caryophyllene: None,
        cohumulone: None,
        myrcene: None,
    }
}

/// A recipe matching the end-to-end scenario: 18.93 l batch, 20.82 l
/// pre-boil, 60 minute boil, original gravity 1.050, pre-boil gravity 1.040.
fn base_recipe() -> Recipe {
    Recipe {
        name: "Test Brew".to_string(),
        type_: RecipeType::AllGrain,
        style: sample_style(),
        brewer: "Brad Smith".to_string(),
        asst_brewer: None,
        equipment: None,
        batch_size: 18_930,
        pre_boil_gravity: Some(1040),
        og: Some(1050),
        fg: None,
        efficiency: 72_000,
        hops: vec![],
        fermentables: vec![],
        yeasts: vec![],
        waters: vec![],
        miscs: vec![],
        mash: Mash {},
        boil: Boil { pre_volume: 20_820, boil_time: 60_000 },
        fermentation: Fermentation {},
        carbonation: Carbonation {},
        notes: None,
        taste_notes: None,
        taste_rating: None,
        date: None,
        ibu_method: Some(IbuMethod::Tinseth),
        recipe_src: BeerXmlSrc { ibu_method: None },
    }
}

/// The Tinseth formula over the plain (unscaled) quantities: utilization
/// from the boil-gravity and boil-time factors, applied to the hop's
/// alpha-acid concentration in the kettle.
fn tinseth_ibu(amount_kg: f64, alpha_percent: f64, volume_l: f64, time_min: f64, gravity: f64) -> f64 {
    let bigness = 1.65 * 0.000125_f64.powf(gravity - 1.0);
    let time_factor = (1.0 - (-0.04 * time_min).exp()) / 4.15;
    let mg_alpha_per_liter = alpha_percent / 100.0 * amount_kg * 1_000_000.0 / volume_l;
    bigness * time_factor * mg_alpha_per_liter
}

fn contribution_of(exposure: &HopExposure) -> u64 {
    let ibu = tinseth_ibu(
        exposure.amount as f64 / 1000.0,
        exposure.alpha as f64 / 1000.0,
        exposure.average_volume as f64 / 1000.0,
        exposure.time as f64 / 1000.0,
        exposure.average_gravity as f64 / 1000.0,
    );
    assert!(ibu.is_finite());
    assert!(ibu >= 0.0);
    (ibu * 1000.0).round() as u64
}

#[test]
fn quantities_in_range_guards_the_bounds() {
    let recipe = base_recipe();
    assert!(recipe.quantities_in_range());

    let mut recipe = base_recipe();
    recipe.batch_size = 1_000_000_001;
    assert!(!recipe.quantities_in_range());

    let mut recipe = base_recipe();
    recipe.hops = vec![hop(Use::Boil, 28, 5_000, 1_000_000_001)];
    assert!(!recipe.quantities_in_range());
}

#[test]
fn bittering_predicate() {
    assert!(hop(Use::Boil, 100, 5_000, 60_000).bittering());
    assert!(!hop(Use::DryHop, 100, 5_000, 60_000).bittering());
    assert!(hop(Use::Mash, 100, 5_000, 60_000).bittering());
    assert!(hop(Use::FirstWort, 100, 5_000, 60_000).bittering());
    assert!(!hop(Use::Aroma, 100, 5_000, 60_000).bittering());
}

#[test]
fn average_boil_volume_at_start_of_boil_is_mean() {
    let recipe = base_recipe();
    // mean(20.82, 18.93) = 19.875 liters
    assert_eq!(recipe.average_boil_volume(60_000), Ok(19_875));
}

#[test]
fn average_boil_volume_at_knockout_is_batch_size() {
    let recipe = base_recipe();
    assert_eq!(recipe.average_boil_volume(0), Ok(18_930));
}

#[test]
fn average_boil_volume_is_monotonic_in_time() {
    let recipe = base_recipe();
    let times: Vec<u64> = vec![60_000, 52_500, 45_000, 30_000, 15_000, 7_500, 0];
    let mut previous: Option<i64> = None;
    for time in times {
        let volume = recipe.average_boil_volume(time).unwrap();
        if let Some(p) = previous {
            assert!(volume <= p);
        }
        previous = Some(volume);
    }
}

#[test]
fn hop_steeped_longer_than_the_boil_extrapolates() {
    let mut recipe = base_recipe();
    recipe.boil.pre_volume = 22_000;
    recipe.batch_size = 20_000;
    recipe.boil.boil_time = 30_000;
    // A hop carried for 45 of 30 boil minutes starts before the boil: the
    // line through 22 l and 20 l reaches 23 l fifteen minutes early, and the
    // window averages mean(23, 20) = 21.5 l.
    assert_eq!(recipe.average_boil_volume(45_000), Ok(21_500));
}

#[test]
fn average_specific_gravity_boundaries() {
    let recipe = base_recipe();
    // mean(1.040, 1.050) = 1.045 at the start of the boil, 1.050 at knockout
    assert_eq!(recipe.average_specific_gravity(60_000), Ok(1045));
    assert_eq!(recipe.average_specific_gravity(0), Ok(1050));
}

#[test]
fn non_bittering_hop_is_excluded() {
    let mut recipe = base_recipe();
    recipe.hops = vec![hop(Use::Aroma, 100, 5_000, 0)];
    let exposures = recipe.hop_exposures().unwrap();
    assert_eq!(exposures.len(), 0);
    assert_eq!(recipe.ibu(&vec![]), Ok(0));
}

#[test]
fn total_is_additive_over_bittering_hops() {
    let mut recipe = base_recipe();
    recipe.hops = vec![
        hop(Use::Boil, 28, 5_000, 60_000),
        hop(Use::Aroma, 50, 6_000, 5_000),
        hop(Use::Boil, 14, 4_500, 30_000),
    ];
    let exposures = recipe.hop_exposures().unwrap();
    assert_eq!(exposures.len(), 2);
    let contributions: Vec<u64> = exposures.iter().map(contribution_of).collect();
    let total = recipe.ibu(&contributions).unwrap();
    assert_eq!(total, contributions[0] + contributions[1]);
}

#[test]
fn zero_mass_bittering_hop_leaves_total_unchanged() {
    let mut recipe = base_recipe();
    recipe.hops = vec![hop(Use::Boil, 28, 5_000, 60_000)];
    let exposures = recipe.hop_exposures().unwrap();
    let contributions: Vec<u64> = exposures.iter().map(contribution_of).collect();
    let total = recipe.ibu(&contributions).unwrap();

    recipe.hops.push(hop(Use::Boil, 0, 5_000, 60_000));
    let more_exposures = recipe.hop_exposures().unwrap();
    assert_eq!(more_exposures.len(), 2);
    let more_contributions: Vec<u64> = more_exposures.iter().map(contribution_of).collect();
    assert_eq!(more_contributions[1], 0);
    let more_total = recipe.ibu(&more_contributions).unwrap();
    assert_eq!(more_total, total);
}

#[test]
fn zero_boil_duration_is_rejected() {
    let mut recipe = base_recipe();
    recipe.boil.boil_time = 0;
    recipe.hops = vec![hop(Use::Boil, 28, 5_000, 60_000)];
    assert_eq!(recipe.hop_exposures(), Err(IbuError::InvalidBoilDuration));
    assert_eq!(recipe.ibu(&vec![0]), Err(IbuError::InvalidBoilDuration));
    assert_eq!(recipe.average_boil_volume(60_000), Err(IbuError::InvalidBoilDuration));
}

#[test]
fn zero_boil_duration_without_bittering_hops_is_harmless() {
    let mut recipe = base_recipe();
    recipe.boil.boil_time = 0;
    recipe.hops = vec![hop(Use::DryHop, 250, 4_500, 10_080_000)];
    assert_eq!(recipe.hop_exposures().unwrap().len(), 0);
    assert_eq!(recipe.ibu(&vec![]), Ok(0));
}

#[test]
fn missing_gravity_measure_is_an_estimation_gap() {
    let mut recipe = base_recipe();
    recipe.og = None;
    recipe.hops = vec![hop(Use::Boil, 28, 5_000, 60_000)];
    assert_eq!(recipe.hop_exposures(), Err(IbuError::EstimationUnavailable));
    assert_eq!(recipe.ibu(&vec![0]), Err(IbuError::EstimationUnavailable));

    let mut recipe = base_recipe();
    recipe.pre_boil_gravity = None;
    recipe.hops = vec![hop(Use::Boil, 28, 5_000, 60_000)];
    assert_eq!(recipe.hop_exposures(), Err(IbuError::EstimationUnavailable));
}

#[test]
fn estimation_entry_points_are_hard_errors() {
    let recipe = base_recipe();
    assert_eq!(recipe.estimated_og(), Err(IbuError::EstimationUnavailable));
    assert_eq!(recipe.estimated_pre_boil_gravity(), Err(IbuError::EstimationUnavailable));
}

#[test]
fn zero_boil_duration_reported_before_estimation_gap() {
    let mut recipe = base_recipe();
    recipe.boil.boil_time = 0;
    recipe.og = None;
    recipe.hops = vec![hop(Use::Boil, 28, 5_000, 60_000)];
    assert_eq!(recipe.hop_exposures(), Err(IbuError::InvalidBoilDuration));
}

#[test]
fn missing_method_is_rejected() {
    let mut recipe = base_recipe();
    recipe.ibu_method = None;
    assert_eq!(recipe.hop_exposures(), Err(IbuError::MissingBitternessMethod));
    assert_eq!(recipe.ibu(&vec![]), Err(IbuError::MissingBitternessMethod));
}

#[test]
fn end_to_end_scenario() {
    let mut recipe = base_recipe();
    recipe.hops = vec![hop(Use::Boil, 28, 5_000, 60_000)];
    let exposures = recipe.hop_exposures().unwrap();
    assert_eq!(exposures.len(), 1);
    let exposure = &exposures[0];
    assert_eq!(exposure.method, IbuMethod::Tinseth);
    assert_eq!(exposure.amount, 28);
    assert_eq!(exposure.alpha, 5_000);
    assert_eq!(exposure.time, 60_000);
    // mean(20.82, 18.93) = 19.875 liters; mean(1.040, 1.050) = 1.045
    assert_eq!(exposure.average_volume, 19_875);
    assert_eq!(exposure.average_gravity, 1045);

    let contribution = contribution_of(exposure);
    assert!(contribution > 0);
    assert_eq!(recipe.ibu(&vec![contribution]), Ok(contribution));
}
