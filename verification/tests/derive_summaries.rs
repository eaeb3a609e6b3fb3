//! Scenario tests of the two facility derivers and the registrant
//! deriver, on hand-built records.

use heatmap_backend::{Location, AphisReport};
use heatmap_backend::{get_slaughtered_animals, get_processed_animals, get_tested_animals};
use heatmap_backend::registrant::parse_positive_count;

fn yes() -> String {
    "Yes".to_string()
}

#[test]
fn slaughtered_empty_when_no_flag_set() {
    let loc = Location::default();
    assert_eq!(get_slaughtered_animals(&loc), "");
}

#[test]
fn slaughtered_beef_cow_and_duck() {
    let mut loc = Location::default();
    loc.beef_cow_slaughter = yes();
    loc.duck_slaughter = yes();
    assert_eq!(get_slaughtered_animals(&loc), "Cattle (Cows, Bulls), Ducks");
}

#[test]
fn slaughtered_one_label_per_bucket() {
    let mut loc = Location::default();
    loc.steer_slaughter = yes();
    loc.heifer_slaughter = yes();
    loc.dairy_cow_slaughter = yes();
    assert_eq!(get_slaughtered_animals(&loc), "Cattle (Cows, Bulls)");
}

#[test]
fn slaughtered_bucket_order_is_fixed() {
    let mut loc = Location::default();
    loc.squab_slaughter = yes();
    loc.lamb_slaughter = yes();
    loc.feral_swine_slaughter = yes();
    assert_eq!(get_slaughtered_animals(&loc), "Pigs, Sheep & Lambs, Pigeons (Squab)");
}

#[test]
fn slaughtered_every_bucket_fires() {
    let mut loc = Location::default();
    loc.beef_cow_slaughter = yes();
    loc.heavy_calf_slaughter = yes();
    loc.market_swine_slaughter = yes();
    loc.goat_slaughter = yes();
    loc.sheep_slaughter = yes();
    loc.deer_reindeer_slaughter = yes();
    loc.antelope_slaughter = yes();
    loc.elk_slaughter = yes();
    loc.bison_slaughter = yes();
    loc.yak_slaughter = yes();
    loc.other_voluntary_livestock_slaughter = yes();
    loc.rabbit_slaughter = yes();
    loc.young_chicken_slaughter = yes();
    loc.young_turkey_slaughter = yes();
    loc.duck_slaughter = yes();
    loc.goose_slaughter = yes();
    loc.pheasant_slaughter = yes();
    loc.quail_slaughter = yes();
    loc.guinea_slaughter = yes();
    loc.ostrich_slaughter = yes();
    loc.squab_slaughter = yes();
    loc.other_voluntary_poultry_slaughter = yes();
    assert_eq!(
        get_slaughtered_animals(&loc),
        "Cattle (Cows, Bulls), Calves (Veal), Pigs, Goats, Sheep & Lambs, \
Deer & Reindeer, Antelope, Elk, Bison & Buffalo, Yak, Other Livestock, \
Rabbits, Chickens, Turkeys, Ducks, Geese, Pheasants, Quail, Guinea Fowl, \
Ratites (Ostrich, Emu, etc.), Pigeons (Squab), Other Poultry"
    );
}

#[test]
fn slaughtered_ignores_other_flag_text() {
    let mut loc = Location::default();
    loc.beef_cow_slaughter = "yes".to_string();
    loc.duck_slaughter = "Y".to_string();
    loc.elk_slaughter = "No".to_string();
    assert_eq!(get_slaughtered_animals(&loc), "");
}

#[test]
fn processed_na_when_no_flag_set() {
    let loc = Location::default();
    assert_eq!(get_processed_animals(&loc), "N/A");
}

#[test]
fn processed_lists_one_label_per_flag() {
    let mut loc = Location::default();
    loc.beef_processing = yes();
    loc.ratite_processing = yes();
    loc.turkey_processing = yes();
    assert_eq!(get_processed_animals(&loc), "Beef, Ratite (Ostrich/Emu), Turkey");
}

#[test]
fn processed_no_bucketing_unlike_slaughter() {
    let mut loc = Location::default();
    loc.bison_processing = yes();
    loc.buffalo_processing = yes();
    assert_eq!(get_processed_animals(&loc), "Bison, Buffalo");
    let mut loc2 = Location::default();
    loc2.bison_slaughter = yes();
    loc2.buffalo_slaughter = yes();
    assert_eq!(get_slaughtered_animals(&loc2), "Bison & Buffalo");
}

#[test]
fn processed_livestock_before_poultry() {
    let mut loc = Location::default();
    loc.chicken_processing = yes();
    loc.yak_processing = yes();
    assert_eq!(get_processed_animals(&loc), "Yak, Chicken");
}

fn base_report() -> AphisReport {
    AphisReport::default()
}

#[test]
fn tested_unknown_when_all_fields_empty() {
    let rep = base_report();
    assert_eq!(get_tested_animals(&rep), "Unknown");
}

#[test]
fn tested_two_dogs_and_a_rabbit() {
    let mut rep = base_report();
    rep.dogs = "2".to_string();
    rep.cats = "0".to_string();
    rep.rabbits = "1.5".to_string();
    assert_eq!(get_tested_animals(&rep), "2 Dogs, 1 Rabbits");
}

#[test]
fn tested_excludes_nonpositive_and_malformed() {
    let mut rep = base_report();
    rep.dogs = "0".to_string();
    rep.cats = "".to_string();
    rep.guinea_pigs = "-1".to_string();
    rep.hamsters = "abc".to_string();
    assert_eq!(get_tested_animals(&rep), "Unknown");
}

#[test]
fn tested_plain_and_truncated_counts() {
    let mut rep = base_report();
    rep.dogs = "3".to_string();
    assert_eq!(get_tested_animals(&rep), "3 Dogs");
    let mut rep2 = base_report();
    rep2.sheep = "2.9".to_string();
    assert_eq!(get_tested_animals(&rep2), "2 Sheep");
}

#[test]
fn tested_field_order_is_fixed() {
    let mut rep = base_report();
    rep.all_other_animals = "4".to_string();
    rep.non_human_primates = "12".to_string();
    rep.pigs = "750".to_string();
    assert_eq!(
        get_tested_animals(&rep),
        "12 Non-Human Primates, 750 Pigs, 4 All Other Animals"
    );
}

#[test]
fn parse_accepts_positive_decimals() {
    assert_eq!(parse_positive_count("3"), Some("3".to_string()));
    assert_eq!(parse_positive_count("3.0"), Some("3".to_string()));
    assert_eq!(parse_positive_count("2.9"), Some("2".to_string()));
    assert_eq!(parse_positive_count("007"), Some("7".to_string()));
    assert_eq!(parse_positive_count("+2"), Some("2".to_string()));
    assert_eq!(parse_positive_count("0.5"), Some("0".to_string()));
    assert_eq!(parse_positive_count(".5"), Some("0".to_string()));
    assert_eq!(parse_positive_count("12."), Some("12".to_string()));
}

#[test]
fn parse_rejects_nonpositive_and_malformed() {
    assert_eq!(parse_positive_count("0"), None);
    assert_eq!(parse_positive_count("0.0"), None);
    assert_eq!(parse_positive_count(""), None);
    assert_eq!(parse_positive_count("-1"), None);
    assert_eq!(parse_positive_count("-0.5"), None);
    assert_eq!(parse_positive_count("abc"), None);
    assert_eq!(parse_positive_count("."), None);
    assert_eq!(parse_positive_count("+"), None);
    assert_eq!(parse_positive_count("1e3"), None);
    assert_eq!(parse_positive_count("1 2"), None);
    assert_eq!(parse_positive_count("2..5"), None);
    assert_eq!(parse_positive_count("3-"), None);
}

