use agrosim::dto::Crop;
use agrosim::dto::GrowthEvent;
use agrosim::dto::GrowthStage;

fn carrot_unit() -> Crop {
    Crop::new(
        "Botanica".to_string(),
        "carrot".to_string(),
        "root vegetable".to_string(),
        None,
    )
}

#[test]
fn new_crop_starts_fresh() {
    let crop = carrot_unit();
    assert_eq!(crop.current_stage, GrowthStage::Seed);
    assert_eq!(crop.days_in_stage, 0);
    assert_eq!(crop.split_size, 100);
    assert!(crop.is_harvestable);
    assert!(!crop.is_sown);
    assert!(!crop.is_gmo);
    assert!(crop.harvest_date.is_none());
    assert!(crop.date_rot_detected.is_none());
    assert_eq!(crop.verbose_name, "carrot");
    assert_eq!(crop.botanica_name, "Botanica");
}

#[test]
fn grow_accumulates_days() {
    let mut crop = carrot_unit();
    crop.grow(2);
    crop.grow(3);
    assert_eq!(crop.days_in_stage, 5);
    assert_eq!(crop.current_stage, GrowthStage::Seed);
}

#[test]
fn simulate_growth_adds_between_one_and_four_days() {
    let mut crop = carrot_unit();
    crop.simulate_growth();
    assert!(crop.days_in_stage >= 1 && crop.days_in_stage <= 4);
}

#[test]
fn carrot_reaches_germination_after_three_sync_ticks() {
    let mut crop = carrot_unit();
    for expected in 1..=2u32 {
        crop.grow(1);
        crop.advance_to_next_stage(&GrowthEvent::Sync);
        assert_eq!(crop.current_stage, GrowthStage::Seed);
        assert_eq!(crop.days_in_stage, expected);
    }
    crop.grow(1);
    crop.advance_to_next_stage(&GrowthEvent::Sync);
    assert_eq!(crop.current_stage, GrowthStage::Germination);
    assert_eq!(crop.days_in_stage, 0);
}

#[test]
fn overshoot_beyond_the_exact_threshold_never_transitions() {
    let mut crop = carrot_unit();
    // required days at Seed is 3; jump straight past it
    crop.grow(4);
    crop.advance_to_next_stage(&GrowthEvent::Sync);
    assert_eq!(crop.current_stage, GrowthStage::Seed);
    assert_eq!(crop.days_in_stage, 4);
}

#[test]
fn forced_fail_at_flowering_is_absorbing() {
    let mut crop = carrot_unit();
    crop.current_stage = GrowthStage::Flowering;
    crop.days_in_stage = 20; // required days for a carrot at Flowering
    crop.advance_to_next_stage(&GrowthEvent::Fail);
    assert_eq!(crop.current_stage, GrowthStage::Failed);
    assert_eq!(crop.days_in_stage, 0);

    // a second evaluation leaves the failed unit untouched
    crop.advance_to_next_stage(&GrowthEvent::Fail);
    assert_eq!(crop.current_stage, GrowthStage::Failed);
    assert_eq!(crop.days_in_stage, 0);
    crop.advance_to_next_stage(&GrowthEvent::Sync);
    assert_eq!(crop.current_stage, GrowthStage::Failed);
    assert_eq!(crop.days_in_stage, 0);
}

#[test]
fn evaluation_is_idempotent_at_harvest() {
    let mut crop = carrot_unit();
    crop.current_stage = GrowthStage::Harvest;
    crop.days_in_stage = 5;
    crop.advance_to_next_stage(&GrowthEvent::Sync);
    assert_eq!(crop.current_stage, GrowthStage::Harvest);
    assert_eq!(crop.days_in_stage, 5);
}

#[test]
fn split_into_quarters() {
    let mut crop = carrot_unit();
    let splits = Crop::split(&mut crop, 4);
    assert_eq!(splits.len(), 4);
    for clone in splits.iter() {
        assert_eq!(clone.split_size, 25);
        assert_eq!(clone.verbose_name, "carrot");
    }
    assert_eq!(crop.split_size, 25);
}

#[test]
fn split_rounds_to_two_decimals() {
    // a whole unit split three ways: 1/3 rounds to 0.33
    let mut crop = carrot_unit();
    let splits = Crop::split(&mut crop, 3);
    assert_eq!(splits.len(), 3);
    assert_eq!(splits[0].split_size, 33);
    assert_eq!(crop.split_size, 33);

    // an eighth: 0.125 rounds up to 0.13
    let mut half = carrot_unit();
    half.split_size = 25;
    let halves = Crop::split(&mut half, 2);
    assert_eq!(halves[0].split_size, 13);
    assert_eq!(half.split_size, 13);
}

#[test]
fn split_by_one_keeps_the_share() {
    let mut crop = carrot_unit();
    let splits = Crop::split(&mut crop, 1);
    assert_eq!(splits.len(), 1);
    assert_eq!(splits[0].split_size, 100);
    assert_eq!(crop.split_size, 100);
}

#[test]
fn sow_marks_planting_only() {
    let mut crop = carrot_unit();
    crop.sow();
    assert!(crop.is_sown);
    assert_eq!(crop.current_stage, GrowthStage::Seed);
}

#[test]
fn harvest_and_issue_flags_need_their_dates() {
    let mut crop = carrot_unit();
    assert!(!crop.is_harvested());
    assert!(!crop.has_issues());

    crop.current_stage = GrowthStage::Harvest;
    crop.harvest_date = Some("2024-01-01 00:00:00 UTC".to_string());
    assert!(crop.is_harvested());
    assert!(!crop.has_issues());

    let mut failed = carrot_unit();
    failed.current_stage = GrowthStage::Failed;
    assert!(!failed.has_issues());
    failed.date_rot_detected = Some("2024-01-01 00:00:00 UTC".to_string());
    assert!(failed.has_issues());
}

#[test]
fn inactive_units_are_terminal_ones() {
    let mut crop = carrot_unit();
    assert!(!crop.is_inactive());
    crop.current_stage = GrowthStage::Harvest;
    assert!(crop.is_inactive());
    crop.current_stage = GrowthStage::Failed;
    assert!(crop.is_inactive());
}
