use beer_recipe::beerxml::equipment::Equipment;
use beer_recipe::beerxml::fermentable::{Fermentables, Type as FermentableType};
use beer_recipe::beerxml::hop::{Hop, Hops, Use};
use beer_recipe::beerxml::misc::Type as MiscType;
use beer_recipe::beerxml::yeast::Flocculation;
use beer_recipe::beerxml::mash::{Mash, MashSteps};
use beer_recipe::beerxml::misc::Miscs;
use beer_recipe::beerxml::recipe::{IbuMethod, Recipe as SourceRecipe, Type as RecipeType};
use beer_recipe::beerxml::style::{Style, Type as StyleType};
use beer_recipe::beerxml::water::Waters;
use beer_recipe::beerxml::yeast::Yeasts;
use beer_recipe::bryggio::process::Boil;
use beer_recipe::bryggio::Recipe;

fn sample_style() -> Style {
    Style {
        name: "Dry Stout".to_string(),
        category: "Stout".to_string(),
        version: 1,
        category_number: 16,
        style_letter: "A".to_string(),
        style_guide: "BJCP".to_string(),
        type_: StyleType::Ale,
        og_min: 1035,
        og_max: 1050,
        fg_min: 1007,
        fg_max: 1011,
        ibu_min: 30_000,
        ibu_max: 50_000,
        color_min: 35_000,
        color_max: 200_000,
        carb_min: None,
        carb_max: None,
        abv_min: None,
        abv_max: None,
        notes: None,
        profile: None,
        ingredients: None,
        examples: None,
    }
}

fn sample_mash() -> Mash {
    Mash {
        name: "Single Step Infusion, 68 C".to_string(),
        version: 1,
        grain_temp: 22_000,
        mash_steps: MashSteps { mash_step: vec![] },
        notes: None,
        tun_temp: None,
        sparge_temp: None,
        ph: None,
        tun_weight: None,
        tun_specific_heat: None,
        equip_adjust: None,
    }
}

fn sample_hop() -> Hop {
    Hop {
        name: "Cascade".to_string(),
        version: 1,
        alpha: 5_000,
        amount: 100,
        use_: Use::Boil,
        time: 60_000,
        notes: None,
        type_: None,
        form: None,
        beta: None,
        hsi: None,
        origin: None,
        substitutes: None,
        humulene: None,
        caryophyllene: None,
        cohumulone: None,
        myrcene: None,
    }
}

fn sample_source_recipe() -> SourceRecipe {
    SourceRecipe {
        name: "Dry Stout".to_string(),
        version: 1,
        type_: RecipeType::AllGrain,
        style: sample_style(),
        equipment: None,
        brewer: "Brad Smith".to_string(),
        asst_brewer: None,
        batch_size: 18_930,
        boil_size: 20_820,
        boil_time: 60_000,
        efficiency: 72_000,
        hops: Hops { hop: vec![sample_hop()] },
        fermentables: Fermentables { fermentable: vec![] },
        miscs: Miscs { misc: vec![] },
        yeasts: Yeasts { yeast: vec![] },
        waters: Waters { water: vec![] },
        mash: sample_mash(),
        notes: None,
        taste_notes: None,
        taste_rating: None,
        og: Some(1050),
        fg: None,
        fermentation_stages: None,
        primary_age: None,
        primary_temp: None,
        secondary_age: None,
        secondary_temp: None,
        tertiary_age: None,
        tertiary_temp: None,
        age: None,
        age_temp: None,
        date: None,
        carbonation: None,
        forced_carbonation: None,
        priming_sugar_name: None,
        carbonation_temp: None,
        priming_sugar_equiv: None,
        keg_priming_factor: None,
        ibu_method: None,
    }
}

#[test]
fn dummy() {
    assert_eq!(2, 1 + 1);
}

#[test]
fn normalizer_maps_fields() {
    let recipe: Recipe = sample_source_recipe().into();
    assert_eq!(recipe.name, "Dry Stout");
    assert_eq!(recipe.brewer, "Brad Smith");
    assert_eq!(recipe.type_, RecipeType::AllGrain);
    assert_eq!(recipe.batch_size, 18_930);
    assert_eq!(recipe.efficiency, 72_000);
    assert_eq!(recipe.og, Some(1050));
    assert_eq!(recipe.fg, None);
    assert_eq!(recipe.hops.len(), 1);
    assert_eq!(recipe.hops[0], sample_hop());
    assert_eq!(recipe.fermentables.len(), 0);
    assert_eq!(recipe.style, sample_style());
    assert_eq!(recipe.taste_rating, None);
}

#[test]
fn normalizer_builds_boil_stage() {
    let recipe: Recipe = sample_source_recipe().into();
    assert_eq!(recipe.boil, Boil { pre_volume: 20_820, boil_time: 60_000 });
}

#[test]
fn normalizer_leaves_pre_boil_gravity_to_estimation() {
    let recipe: Recipe = sample_source_recipe().into();
    assert_eq!(recipe.pre_boil_gravity, None);
}

#[test]
fn normalizer_defaults_missing_method_to_tinseth() {
    let recipe: Recipe = sample_source_recipe().into();
    assert_eq!(recipe.ibu_method, Some(IbuMethod::Tinseth));
    assert_eq!(recipe.recipe_src.ibu_method, None);
}

#[test]
fn normalizer_keeps_declared_method_and_its_provenance() {
    let mut source = sample_source_recipe();
    source.ibu_method = Some(IbuMethod::Rager);
    let recipe: Recipe = source.into();
    assert_eq!(recipe.ibu_method, Some(IbuMethod::Rager));
    assert_eq!(recipe.recipe_src.ibu_method, Some(IbuMethod::Rager));
}

#[test]
fn source_recipe_hops_getter() {
    let source = sample_source_recipe();
    assert_eq!(source.hops().len(), 1);
    assert_eq!(source.hops()[0], sample_hop());
}

#[test]
fn normalized_recipe_getters() {
    let recipe: Recipe = sample_source_recipe().into();
    assert_eq!(recipe.hops().len(), 1);
    assert_eq!(recipe.fermentables().len(), 0);
    assert_eq!(recipe.yeasts().len(), 0);
    assert_eq!(recipe.waters().len(), 0);
    assert_eq!(recipe.miscs().len(), 0);
}

#[test]
fn plural_wrappers_default_to_empty() {
    assert_eq!(Hops::default().hop.len(), 0);
    assert_eq!(Fermentables::default().fermentable.len(), 0);
    assert_eq!(Miscs::default().misc.len(), 0);
    assert_eq!(Waters::default().water.len(), 0);
    assert_eq!(Yeasts::default().yeast.len(), 0);
}

#[test]
fn use_labels_name_the_closed_set() {
    assert_eq!(Use::from_label(&"Boil".to_string()), Some(Use::Boil));
    assert_eq!(Use::from_label(&"Dry Hop".to_string()), Some(Use::DryHop));
    assert_eq!(Use::from_label(&"Mash".to_string()), Some(Use::Mash));
    assert_eq!(Use::from_label(&"First Wort".to_string()), Some(Use::FirstWort));
    assert_eq!(Use::from_label(&"Aroma".to_string()), Some(Use::Aroma));
    assert_eq!(Use::from_label(&"Dry hop".to_string()), None);
    assert_eq!(Use::from_label(&"".to_string()), None);
}

#[test]
fn ibu_method_labels_name_the_closed_set() {
    assert_eq!(IbuMethod::from_label(&"Tinseth".to_string()), Some(IbuMethod::Tinseth));
    assert_eq!(IbuMethod::from_label(&"Rager".to_string()), Some(IbuMethod::Rager));
    assert_eq!(IbuMethod::from_label(&"Garetz".to_string()), Some(IbuMethod::Garetz));
    assert_eq!(IbuMethod::from_label(&"tinseth".to_string()), None);
}

#[test]
fn recipe_type_labels_name_the_closed_set() {
    assert_eq!(RecipeType::from_label(&"Extract".to_string()), Some(RecipeType::Extract));
    assert_eq!(RecipeType::from_label(&"Partial Mash".to_string()), Some(RecipeType::PartialMash));
    assert_eq!(RecipeType::from_label(&"All Grain".to_string()), Some(RecipeType::AllGrain));
    assert_eq!(RecipeType::from_label(&"AllGrain".to_string()), None);
}

#[test]
fn misc_type_labels_name_the_closed_set() {
    assert_eq!(MiscType::from_label(&"Spice".to_string()), Some(MiscType::Spice));
    assert_eq!(MiscType::from_label(&"Fining".to_string()), Some(MiscType::Fining));
    assert_eq!(MiscType::from_label(&"Water Agent".to_string()), Some(MiscType::WaterAgent));
    assert_eq!(MiscType::from_label(&"Herb".to_string()), Some(MiscType::Herb));
    assert_eq!(MiscType::from_label(&"Flavor".to_string()), Some(MiscType::Flavor));
    assert_eq!(MiscType::from_label(&"Other".to_string()), Some(MiscType::Other));
    assert_eq!(MiscType::from_label(&"WaterAgent".to_string()), None);
}

#[test]
fn fermentable_type_labels_name_the_closed_set() {
    assert_eq!(FermentableType::from_label(&"Grain".to_string()), Some(FermentableType::Grain));
    assert_eq!(FermentableType::from_label(&"Sugar".to_string()), Some(FermentableType::Sugar));
    assert_eq!(
        FermentableType::from_label(&"Extract".to_string()),
        Some(FermentableType::Extract)
    );
    assert_eq!(
        FermentableType::from_label(&"Dry Extract".to_string()),
        Some(FermentableType::DryExtract)
    );
    assert_eq!(
        FermentableType::from_label(&"Adjunct".to_string()),
        Some(FermentableType::Adjunct)
    );
    assert_eq!(FermentableType::from_label(&"Dry extract".to_string()), None);
}

#[test]
fn flocculation_labels_name_the_closed_set() {
    assert_eq!(Flocculation::from_label(&"Low".to_string()), Some(Flocculation::Low));
    assert_eq!(Flocculation::from_label(&"Medium".to_string()), Some(Flocculation::Medium));
    assert_eq!(Flocculation::from_label(&"High".to_string()), Some(Flocculation::High));
    assert_eq!(Flocculation::from_label(&"Very High".to_string()), Some(Flocculation::VeryHigh));
    assert_eq!(Flocculation::from_label(&"VeryHigh".to_string()), None);
}

#[test]
fn equipment_record_holds_fixed_point_values() {
    let equipment = Equipment {
        name: "8 Gal pot with 5 gal Igloo Cooler".to_string(),
        version: 1,
        boil_size: 22_000,
        batch_size: 18_000,
        tun_volume: None,
        tun_weight: None,
        tun_specific_heat: None,
        top_up_water: None,
        trub_chiller_loss: None,
        evap_rate: None,
        boil_time: Some(60_000),
        calc_boil_volume: None,
        lauter_deadspace: None,
        top_up_kettle: None,
        hop_utilization: Some(100_000),
        notes: None,
    };
    assert_eq!(equipment.boil_size, 22_000);
    assert_eq!(equipment.batch_size, 18_000);
    assert_eq!(equipment.boil_time, Some(60_000));
    assert_eq!(equipment.hop_utilization, Some(100_000));
}
