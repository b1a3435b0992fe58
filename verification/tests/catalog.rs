use agrosim::crop_parser::extract_content;
use agrosim::crop_parser::group_crops;
use agrosim::crop_parser::find_column;
use agrosim::crop_parser::parse_bool_str;
use agrosim::crop_parser::parse_u32_str;
use agrosim::errors::FarmError;
use agrosim::seeds::SeedBag;
use agrosim::seeds::SeedType;
use agrosim::setup::load_crops_from_bags;
use agrosim::setup::setup_farm;

const CATALOG: &str = "verbose_name,quantity_per_bag,species,is_gmo,description\n\
pea,3,legume,false,garden pea\n\
tomato,1,nightshade,true,cherry tomato\n";

#[test]
fn parse_u32_accepts_decimal_cells() {
    assert_eq!(parse_u32_str("0"), Some(0));
    assert_eq!(parse_u32_str("42"), Some(42));
    assert_eq!(parse_u32_str("+42"), Some(42));
    assert_eq!(parse_u32_str("007"), Some(7));
    assert_eq!(parse_u32_str("4294967295"), Some(u32::MAX));
}

#[test]
fn parse_u32_rejects_everything_else() {
    assert_eq!(parse_u32_str(""), None);
    assert_eq!(parse_u32_str("+"), None);
    assert_eq!(parse_u32_str("-1"), None);
    assert_eq!(parse_u32_str("12a"), None);
    assert_eq!(parse_u32_str(" 3"), None);
    assert_eq!(parse_u32_str("4294967296"), None);
    assert_eq!(parse_u32_str("99999999999999999999"), None);
}

#[test]
fn parse_bool_takes_the_two_literals() {
    assert_eq!(parse_bool_str("true"), Some(true));
    assert_eq!(parse_bool_str("false"), Some(false));
    assert_eq!(parse_bool_str("True"), None);
    assert_eq!(parse_bool_str("1"), None);
    assert_eq!(parse_bool_str(""), None);
}

#[test]
fn find_column_returns_the_first_match() {
    let headers = vec![
        "name".to_string(),
        "species".to_string(),
        "name".to_string(),
    ];
    assert_eq!(find_column(&headers, "name"), Some(0));
    assert_eq!(find_column(&headers, "species"), Some(1));
    assert_eq!(find_column(&headers, "quantity"), None);
}

#[test]
fn extract_content_decodes_all_rows() {
    let rows = extract_content(CATALOG.as_bytes()).unwrap();
    assert_eq!(rows.len(), 3);
    assert_eq!(rows[0][0], "verbose_name");
    assert_eq!(rows[1], vec!["pea", "3", "legume", "false", "garden pea"]);
    assert_eq!(rows[2][1], "1");
}

#[test]
fn tear_bags_loads_every_record() {
    let bags = SeedBag::tear_bags(CATALOG.as_bytes()).unwrap();
    assert_eq!(bags.len(), 2);
    assert_eq!(bags[0].quantity, 3);
    assert!(matches!(bags[0].seed_type, SeedType::Pea(..)));
    assert_eq!(bags[0].species, "legume");
    assert_eq!(bags[0].is_gmo, Some(false));
    assert_eq!(bags[0].description.as_deref(), Some("garden pea"));
    assert_eq!(bags[1].quantity, 1);
    assert!(matches!(bags[1].seed_type, SeedType::Tomato(..)));
    assert_eq!(bags[1].is_gmo, Some(true));
}

#[test]
fn tear_bags_fails_without_all_columns() {
    let data = "verbose_name,quantity_per_bag,species,description\npea,3,legume,x\n";
    assert_eq!(SeedBag::tear_bags(data.as_bytes()).unwrap_err(), FarmError::CatalogLoad);
}

#[test]
fn tear_bags_fails_on_empty_input() {
    assert_eq!(SeedBag::tear_bags(b"").unwrap_err(), FarmError::CatalogLoad);
}

#[test]
fn tear_bags_reports_unknown_species() {
    let data = "verbose_name,quantity_per_bag,species,is_gmo,description\n\
turnip,3,root,false,a turnip\n";
    assert_eq!(SeedBag::tear_bags(data.as_bytes()).unwrap_err(), FarmError::UnknownSpecies);
}

#[test]
fn tear_bags_rejects_a_malformed_quantity() {
    let data = "verbose_name,quantity_per_bag,species,is_gmo,description\n\
pea,many,legume,false,x\n";
    assert_eq!(SeedBag::tear_bags(data.as_bytes()).unwrap_err(), FarmError::CatalogLoad);
}

#[test]
fn tear_bags_rejects_a_malformed_flag() {
    let data = "verbose_name,quantity_per_bag,species,is_gmo,description\n\
pea,3,legume,yes,x\n";
    assert_eq!(SeedBag::tear_bags(data.as_bytes()).unwrap_err(), FarmError::CatalogLoad);
}

#[test]
fn quantity_errors_win_over_species_errors() {
    // the loader reads the quantity before resolving the species
    let data = "verbose_name,quantity_per_bag,species,is_gmo,description\n\
turnip,many,root,false,x\n";
    assert_eq!(SeedBag::tear_bags(data.as_bytes()).unwrap_err(), FarmError::CatalogLoad);
}

#[test]
fn error_messages_name_the_failure() {
    assert_eq!(
        FarmError::CatalogLoad.message(),
        "catalogue input is missing or malformed"
    );
    assert_eq!(
        FarmError::UnknownSpecies.message(),
        "species name does not resolve to a known seed type"
    );
    assert_eq!(
        FarmError::Configuration.message(),
        "duration table has no entry for this stage"
    );
}

#[test]
fn three_peas_and_a_tomato_make_four_units() {
    let mut pea = SeedBag::new(3, "pea", "legume".to_string()).unwrap();
    pea.is_gmo = Some(false);
    let mut tomato = SeedBag::new(1, "tomato", "nightshade".to_string()).unwrap();
    tomato.is_gmo = Some(false);
    let crops = load_crops_from_bags(&vec![pea, tomato]);
    assert_eq!(crops.len(), 4);
    for crop in crops.iter().take(3) {
        assert_eq!(crop.verbose_name, "pea");
    }
    assert_eq!(crops[3].verbose_name, "tomato");
}

#[test]
fn setup_farm_builds_the_fixed_configuration() {
    let farm = setup_farm(CATALOG.as_bytes()).unwrap();
    assert_eq!(farm.crops.len(), 4);
    assert_eq!(farm.location.address.city, "London");
    assert_eq!(farm.location.address.post_code, "E1 8RU");
    assert!(!farm.location.is_virtual);
    assert_eq!(farm.size.width, 10);
    assert_eq!(farm.size.length, 10);
    assert_eq!(farm.owner.first_name, "John");
    assert_eq!(farm.owner.email, "Xq9u7@example.com");
    assert_eq!(farm.security_code, "Zsx12-00-RSA");
    assert!(farm.is_active);
    assert_eq!(farm.is_ready_for_harvest, Some(false));
}

#[test]
fn setup_farm_passes_loader_errors_through() {
    let data = "verbose_name,quantity_per_bag,species,is_gmo,description\n\
turnip,1,root,false,x\n";
    assert_eq!(setup_farm(data.as_bytes()).unwrap_err(), FarmError::UnknownSpecies);
    assert_eq!(setup_farm(b"").unwrap_err(), FarmError::CatalogLoad);
}

#[test]
fn group_crops_counts_by_verbose_name() {
    let mut pea = SeedBag::new(3, "pea", "legume".to_string()).unwrap();
    pea.is_gmo = Some(false);
    let mut tomato = SeedBag::new(1, "tomato", "nightshade".to_string()).unwrap();
    tomato.is_gmo = Some(false);
    let crops = load_crops_from_bags(&vec![pea, tomato]);
    let groups = group_crops(&crops);
    assert_eq!(groups.len(), 2);
    assert_eq!(groups[0].0, "pea");
    assert_eq!(groups[0].1, 3);
    assert_eq!(groups[1].0, "tomato");
    assert_eq!(groups[1].1, 1);
}

#[test]
fn group_crops_of_nothing_is_empty() {
    let groups = group_crops(&Vec::new());
    assert!(groups.is_empty());
}

#[test]
fn undecodable_bytes_are_a_load_error() {
    // invalid UTF-8 in a field
    let bad: Vec<u8> = vec![0xff, 0xfe, 0x00];
    assert!(extract_content(&bad).is_none());
    assert_eq!(SeedBag::tear_bags(&bad).unwrap_err(), FarmError::CatalogLoad);
    assert_eq!(setup_farm(&bad).unwrap_err(), FarmError::CatalogLoad);
}

#[test]
fn uneven_rows_are_a_load_error() {
    let data = b"verbose_name,quantity_per_bag,species,is_gmo,description
pea,3
";
    assert!(extract_content(data).is_none());
    assert_eq!(SeedBag::tear_bags(data).unwrap_err(), FarmError::CatalogLoad);
}
