use agrosim::dto::GrowthEvent;
use agrosim::dto::GrowthStage;
use agrosim::dto::required_duration;
use agrosim::errors::FarmError;
use agrosim::seeds::SeedType;

fn seed(name: &str) -> SeedType {
    SeedType::from_str(name).unwrap()
}

#[test]
fn duration_table_exact_values() {
    assert_eq!(GrowthStage::Seed.get_days(seed("carrot")), 3);
    assert_eq!(GrowthStage::Seed.get_days(seed("pea")), 3);
    assert_eq!(GrowthStage::Germination.get_days(seed("carrot")), 10);
    assert_eq!(GrowthStage::Germination.get_days(seed("broccoli")), 5);
    assert_eq!(GrowthStage::Seedling.get_days(seed("pea")), 14);
    assert_eq!(GrowthStage::Vegetative.get_days(seed("broccoli")), 21);
    assert_eq!(GrowthStage::Flowering.get_days(seed("carrot")), 20);
    assert_eq!(GrowthStage::Fruiting.get_days(seed("tomato")), 5);
    assert_eq!(GrowthStage::Maturity.get_days(seed("sun flower")), 5);
    assert_eq!(GrowthStage::Harvest.get_days(seed("tomato")), 1);
    assert_eq!(GrowthStage::Failed.get_days(seed("tomato")), 0);
}

#[test]
fn duration_is_positive_for_every_active_stage() {
    let names = ["sun flower", "pea", "carrot", "tomato", "broccoli"];
    let stages = [
        GrowthStage::Seed,
        GrowthStage::Germination,
        GrowthStage::Seedling,
        GrowthStage::Vegetative,
        GrowthStage::Flowering,
        GrowthStage::Fruiting,
        GrowthStage::Maturity,
    ];
    for name in names.iter() {
        for stage in stages.iter() {
            let days = required_duration(&seed(name), stage).unwrap();
            assert!(days > 0);
        }
    }
}

#[test]
fn duration_lookup_for_failed_is_a_configuration_error() {
    let r = required_duration(&seed("pea"), &GrowthStage::Failed);
    assert_eq!(r, Err(FarmError::Configuration));
}

#[test]
fn sync_walks_the_stage_order() {
    let sync = GrowthEvent::Sync;
    assert_eq!(GrowthStage::next(&GrowthStage::Seed, &sync), GrowthStage::Germination);
    assert_eq!(GrowthStage::next(&GrowthStage::Germination, &sync), GrowthStage::Seedling);
    assert_eq!(GrowthStage::next(&GrowthStage::Seedling, &sync), GrowthStage::Vegetative);
    assert_eq!(GrowthStage::next(&GrowthStage::Vegetative, &sync), GrowthStage::Flowering);
    assert_eq!(GrowthStage::next(&GrowthStage::Flowering, &sync), GrowthStage::Fruiting);
    assert_eq!(GrowthStage::next(&GrowthStage::Fruiting, &sync), GrowthStage::Maturity);
    assert_eq!(GrowthStage::next(&GrowthStage::Maturity, &sync), GrowthStage::Harvest);
}

#[test]
fn fail_always_leads_to_failed() {
    let fail = GrowthEvent::Fail;
    assert_eq!(GrowthStage::next(&GrowthStage::Seed, &fail), GrowthStage::Failed);
    assert_eq!(GrowthStage::next(&GrowthStage::Flowering, &fail), GrowthStage::Failed);
    assert_eq!(GrowthStage::next(&GrowthStage::Maturity, &fail), GrowthStage::Failed);
}

#[test]
fn draws_divisible_by_twenty_one_fail() {
    assert_eq!(GrowthEvent::from_draw(0), GrowthEvent::Fail);
    assert_eq!(GrowthEvent::from_draw(21), GrowthEvent::Fail);
    assert_eq!(GrowthEvent::from_draw(42), GrowthEvent::Fail);
    assert_eq!(GrowthEvent::from_draw(1), GrowthEvent::Sync);
    assert_eq!(GrowthEvent::from_draw(20), GrowthEvent::Sync);
    assert_eq!(GrowthEvent::from_draw(22), GrowthEvent::Sync);
    assert_eq!(GrowthEvent::from_draw(50), GrowthEvent::Sync);
}

#[test]
fn default_stage_is_seed() {
    assert_eq!(GrowthStage::default(), GrowthStage::Seed);
}

#[test]
fn only_harvest_and_failed_are_terminal() {
    assert!(GrowthStage::Harvest.is_terminal());
    assert!(GrowthStage::Failed.is_terminal());
    assert!(!GrowthStage::Seed.is_terminal());
    assert!(!GrowthStage::Maturity.is_terminal());
}

#[test]
fn stage_display_names() {
    assert_eq!(GrowthStage::Seed.get_stage(), "seed");
    assert_eq!(GrowthStage::Flowering.get_stage(), "flowering");
    assert_eq!(GrowthStage::Harvest.get_stage(), "harvest");
    assert_eq!(GrowthStage::Failed.get_stage(), "failed");
}
