use agrosim::seeds::SeedBag;
use agrosim::seeds::SeedType;

#[test]
fn from_str_resolves_known_names() {
    let seed = SeedType::from_str("carrot").unwrap();
    assert!(matches!(seed, SeedType::Carrot(..)));
    assert_eq!(seed.get_verbose_name(), "carrot");
    assert_eq!(seed.get_botanica_name(), "Botanica");

    assert!(matches!(SeedType::from_str("sun flower").unwrap(), SeedType::Sunflower(..)));
    assert!(matches!(SeedType::from_str("pea").unwrap(), SeedType::Pea(..)));
    assert!(matches!(SeedType::from_str("tomato").unwrap(), SeedType::Tomato(..)));
    assert!(matches!(SeedType::from_str("broccoli").unwrap(), SeedType::Broccoli(..)));
}

#[test]
fn from_str_ignores_ascii_case() {
    let seed = SeedType::from_str("CARROT").unwrap();
    assert!(matches!(seed, SeedType::Carrot(..)));
    // the verbose name keeps the caller's spelling
    assert_eq!(seed.get_verbose_name(), "CARROT");

    assert!(matches!(SeedType::from_str("Sun Flower").unwrap(), SeedType::Sunflower(..)));
    assert!(matches!(SeedType::from_str("toMATo").unwrap(), SeedType::Tomato(..)));
}

#[test]
fn from_str_rejects_unknown_names() {
    let err = SeedType::from_str("turnip").unwrap_err();
    assert_eq!(err, "Invalid seed type");
    assert!(SeedType::from_str("").is_err());
    assert!(SeedType::from_str("carrots").is_err());
}

#[test]
fn kind_index_follows_species_order() {
    assert_eq!(SeedType::from_str("sun flower").unwrap().kind_index(), 0);
    assert_eq!(SeedType::from_str("pea").unwrap().kind_index(), 1);
    assert_eq!(SeedType::from_str("carrot").unwrap().kind_index(), 2);
    assert_eq!(SeedType::from_str("tomato").unwrap().kind_index(), 3);
    assert_eq!(SeedType::from_str("broccoli").unwrap().kind_index(), 4);
}

#[test]
fn seed_bag_new_resolves_species() {
    let bag = SeedBag::new(3, "pea", "legume".to_string()).unwrap();
    assert_eq!(bag.quantity, 3);
    assert!(matches!(bag.seed_type, SeedType::Pea(..)));
    assert_eq!(bag.species, "legume");
    assert!(bag.is_gmo.is_none());
    assert!(bag.description.is_none());
}

#[test]
fn seed_bag_new_rejects_unknown_species() {
    assert!(SeedBag::new(3, "turnip", "root".to_string()).is_none());
}
