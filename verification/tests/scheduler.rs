use agrosim::dto::GrowthEvent;
use agrosim::dto::GrowthStage;
use agrosim::plant_service::DAYS_TO_WAIT_BEFORE_PLANTING;
use agrosim::plant_service::FUMIGATION_TIME;
use agrosim::plant_service::PLANTING_WINDOW;
use agrosim::plant_service::WORST_STAGE_PLAN;
use agrosim::plant_service::GrowthOracle;
use agrosim::plant_service::PlantService;
use agrosim::plant_service::RandomOracle;
use agrosim::plant_service::ScriptedOracle;
use agrosim::plant_service::maintenance_plan;
use agrosim::setup::setup_farm;
use agrosim::weather_service::WeatherCondition;

fn farm_of(catalog: &str) -> agrosim::dto::Farm {
    setup_farm(catalog.as_bytes()).unwrap()
}

const SMALL_CATALOG: &str = "verbose_name,quantity_per_bag,species,is_gmo,description\n\
pea,2,legume,false,garden pea\n\
carrot,1,root,false,orange carrot\n";

const ONE_CARROT: &str = "verbose_name,quantity_per_bag,species,is_gmo,description\n\
carrot,1,root,false,orange carrot\n";

#[test]
fn maintenance_timetable_exact_days() {
    let day1 = maintenance_plan(1);
    assert!(day1.irrigate && !day1.plant && !day1.weed && !day1.fertilize && !day1.fumigate);

    let day3 = maintenance_plan(3);
    assert!(day3.irrigate && !day3.plant);

    let day7 = maintenance_plan(7);
    assert!(day7.plant && day7.weed && !day7.irrigate && !day7.fertilize);

    let day14 = maintenance_plan(14);
    assert!(day14.weed && day14.fertilize && day14.fumigate && !day14.irrigate && !day14.plant);

    let day21 = maintenance_plan(21);
    assert!(day21.weed && day21.irrigate && !day21.fertilize);

    let day28 = maintenance_plan(28);
    assert!(day28.fertilize && !day28.fumigate);

    // fertilizing stops from day 40 on, even on multiples of fourteen
    let day42 = maintenance_plan(42);
    assert!(!day42.fertilize && day42.weed && day42.irrigate);
}

#[test]
fn timetable_constants_keep_their_defaults() {
    assert_eq!(DAYS_TO_WAIT_BEFORE_PLANTING, 7);
    assert_eq!(FUMIGATION_TIME, 14);
    assert_eq!(PLANTING_WINDOW, 70);
}

#[test]
fn scripted_oracle_replays_then_falls_back() {
    let mut oracle = ScriptedOracle::new(
        vec![GrowthEvent::Fail, GrowthEvent::Sync],
        vec![WeatherCondition::Rainy],
    );
    assert_eq!(oracle.next_event(), GrowthEvent::Fail);
    assert_eq!(oracle.next_event(), GrowthEvent::Sync);
    assert_eq!(oracle.next_event(), GrowthEvent::Sync);
    assert_eq!(oracle.next_weather(), WeatherCondition::Rainy);
    assert_eq!(oracle.next_weather(), WeatherCondition::Sunny);
}

#[test]
fn new_service_starts_with_zeroed_stats() {
    let service = PlantService::new(farm_of(SMALL_CATALOG));
    assert!(!service.is_all_harvested);
    assert!(!service.planting_is_initiated);
    assert_eq!(service.harvest_stats.num_harvested, 0);
    assert_eq!(service.harvest_stats.num_rotten, 0);
    assert_eq!(service.harvest_stats.per_species.len(), 5);
    for entry in service.harvest_stats.per_species.iter() {
        assert_eq!(entry.harvested, 0);
        assert_eq!(entry.rotten, 0);
    }
}

#[test]
fn prepare_farm_changes_nothing() {
    let service = PlantService::new(farm_of(SMALL_CATALOG));
    let prepared = service.prepare_farm();
    assert_eq!(prepared.farm.crops.len(), 3);
    assert!(!prepared.is_all_harvested);
    assert!(!prepared.planting_is_initiated);
}

#[test]
fn irrigation_is_skipped_on_rain_and_storm() {
    let service = PlantService::new(farm_of(ONE_CARROT));
    assert!(service.irrigate(&WeatherCondition::Sunny));
    assert!(service.irrigate(&WeatherCondition::Cloudy));
    assert!(service.irrigate(&WeatherCondition::Snowy));
    assert!(!service.irrigate(&WeatherCondition::Rainy));
    assert!(!service.irrigate(&WeatherCondition::Stormy));
}

#[test]
fn all_sync_run_harvests_every_unit() {
    let service = PlantService::new(farm_of(SMALL_CATALOG));
    let mut oracle = ScriptedOracle::new(vec![], vec![]);
    let done = service.run(&mut oracle, 500);

    assert!(done.is_all_harvested);
    assert!(done.planting_is_initiated);
    assert_eq!(done.farm.is_ready_for_harvest, Some(true));
    assert_eq!(done.harvest_stats.num_harvested, 3);
    assert_eq!(done.harvest_stats.num_rotten, 0);
    // species breakdown: index 1 is pea, index 2 is carrot
    assert_eq!(done.harvest_stats.per_species[1].harvested, 2);
    assert_eq!(done.harvest_stats.per_species[2].harvested, 1);
    assert_eq!(done.harvest_stats.per_species[0].harvested, 0);

    for crop in done.farm.crops.iter() {
        assert_eq!(crop.current_stage, GrowthStage::Harvest);
        assert!(crop.is_sown);
        let stamp = crop.harvest_date.as_ref().unwrap();
        assert!(!stamp.is_empty());
        assert!(crop.date_rot_detected.is_none());
    }
}

#[test]
fn forced_failure_is_recorded_once() {
    let service = PlantService::new(farm_of(ONE_CARROT));
    let mut oracle = ScriptedOracle::new(vec![GrowthEvent::Fail], vec![]);
    let done = service.run(&mut oracle, 500);

    assert!(done.is_all_harvested);
    assert_eq!(done.harvest_stats.num_harvested, 0);
    assert_eq!(done.harvest_stats.num_rotten, 1);
    assert_eq!(done.harvest_stats.per_species[2].rotten, 1);

    let crop = &done.farm.crops[0];
    assert_eq!(crop.current_stage, GrowthStage::Failed);
    let stamp = crop.date_rot_detected.as_ref().unwrap();
    assert!(!stamp.is_empty());
    assert!(crop.harvest_date.is_none());
}

#[test]
fn a_run_of_zero_days_does_nothing() {
    let service = PlantService::new(farm_of(ONE_CARROT));
    let mut oracle = ScriptedOracle::new(vec![], vec![]);
    let done = service.run(&mut oracle, 0);
    assert!(!done.is_all_harvested);
    assert!(!done.planting_is_initiated);
    assert_eq!(done.harvest_stats.num_harvested, 0);
    assert_eq!(done.farm.crops[0].days_in_stage, 0);
}

#[test]
fn an_empty_farm_resolves_right_after_the_window() {
    let catalog = "verbose_name,quantity_per_bag,species,is_gmo,description\n";
    let service = PlantService::new(farm_of(catalog));
    let mut oracle = ScriptedOracle::new(vec![], vec![]);
    let done = service.run(&mut oracle, 500);
    assert!(done.is_all_harvested);
    assert_eq!(done.harvest_stats.num_harvested, 0);
    assert_eq!(done.harvest_stats.num_rotten, 0);
}

#[test]
fn stochastic_runs_terminate_within_the_bound() {
    // under the default model every unit still reaches a terminal stage,
    // so every trial resolves long before the cap
    for _ in 0..20 {
        let service = PlantService::new(farm_of(SMALL_CATALOG));
        let mut oracle = RandomOracle {};
        let done = service.run(&mut oracle, 500);
        assert!(done.is_all_harvested);
        let total = done.harvest_stats.num_harvested + done.harvest_stats.num_rotten;
        assert_eq!(total, 3);
    }
}

#[test]
fn random_weather_is_one_of_the_five() {
    for _ in 0..50 {
        let w = WeatherCondition::generate_random_weather_condition();
        assert!(matches!(
            w,
            WeatherCondition::Sunny
                | WeatherCondition::Cloudy
                | WeatherCondition::Rainy
                | WeatherCondition::Snowy
                | WeatherCondition::Stormy
        ));
    }
}

#[test]
fn weather_names_resolve_ignoring_case() {
    assert_eq!(WeatherCondition::from_str("STORMY"), Some(WeatherCondition::Stormy));
    assert_eq!(WeatherCondition::from_str("rainy"), Some(WeatherCondition::Rainy));
    assert_eq!(WeatherCondition::from_str("Cloudy"), Some(WeatherCondition::Cloudy));
    // an unknown name falls back to sunny
    assert_eq!(WeatherCondition::from_str("hail"), Some(WeatherCondition::Sunny));
    assert_eq!(WeatherCondition::from_str("snowy"), Some(WeatherCondition::Snowy));
}

#[test]
fn weather_display_names_are_lowercase() {
    assert_eq!(WeatherCondition::Stormy.get_weather_condition(), "stormy");
    assert_eq!(WeatherCondition::Sunny.get_weather_condition(), "sunny");
    assert_eq!(WeatherCondition::default(), WeatherCondition::Sunny);
}

#[test]
fn the_planting_wait_plus_the_worst_plan_suffices() {
    let service = PlantService::new(farm_of(SMALL_CATALOG));
    let mut oracle = ScriptedOracle::new(vec![], vec![]);
    let done = service.run(&mut oracle, DAYS_TO_WAIT_BEFORE_PLANTING + WORST_STAGE_PLAN);
    assert!(done.is_all_harvested);

    let service = PlantService::new(farm_of(ONE_CARROT));
    let mut oracle = RandomOracle {};
    let done = service.run(&mut oracle, DAYS_TO_WAIT_BEFORE_PLANTING + WORST_STAGE_PLAN);
    assert!(done.is_all_harvested);
}
