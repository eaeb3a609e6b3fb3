//! End-to-end tests of the three dataset pipelines: header mapping,
//! strict and lenient decode modes, and the derived summary fields.

use heatmap_backend::{
    read_locations_from_csv, read_aphis_reports_from_csv, read_inspection_reports_from_csv,
    DecodeError,
};

fn facility_columns() -> Vec<&'static str> {
    vec![
        "establishment_id", "establishment_number", "establishment_name", "duns_number",
        "street", "city", "state", "zip",
        "phone", "grant_date", "type", "dbas",
        "district", "circuit", "size", "latitude",
        "longitude", "county", "fips_code", "meat_exemption_custom_slaughter",
        "poultry_exemption_custom_slaughter", "slaughter", "meat_slaughter", "beef_cow_slaughter",
        "steer_slaughter", "heifer_slaughter", "bull_stag_slaughter", "dairy_cow_slaughter",
        "heavy_calf_slaughter", "bob_veal_slaughter", "formula_fed_veal_slaughter", "non_formula_fed_veal_slaughter",
        "market_swine_slaughter", "sow_slaughter", "roaster_swine_slaughter", "boar_stag_swine_slaughter",
        "stag_swine_slaughter", "feral_swine_slaughter", "goat_slaughter", "young_goat_slaughter",
        "adult_goat_slaughter", "sheep_slaughter", "lamb_slaughter", "deer_reindeer_slaughter",
        "antelope_slaughter", "elk_slaughter", "bison_slaughter", "buffalo_slaughter",
        "water_buffalo_slaughter", "cattalo_slaughter", "yak_slaughter", "other_voluntary_livestock_slaughter",
        "rabbit_slaughter", "poultry_slaughter", "young_chicken_slaughter", "light_fowl_slaughter",
        "heavy_fowl_slaughter", "capon_slaughter", "young_turkey_slaughter", "young_breeder_turkey_slaughter",
        "old_breeder_turkey_slaughter", "fryer_roaster_turkey_slaughter", "duck_slaughter", "goose_slaughter",
        "pheasant_slaughter", "quail_slaughter", "guinea_slaughter", "ostrich_slaughter",
        "emu_slaughter", "rhea_slaughter", "squab_slaughter", "other_voluntary_poultry_slaughter",
        "slaughter_or_processing_only", "slaughter_only_class", "slaughter_only_species", "meat_slaughter_only_species",
        "poultry_slaughter_only_species", "slaughter_volume_category", "processing_volume_category", "beef_processing",
        "pork_processing", "antelope_processing", "bison_processing", "buffalo_processing",
        "deer_processing", "elk_processing", "goat_processing", "other_voluntary_livestock_processing",
        "rabbit_processing", "reindeer_processing", "sheep_processing", "yak_processing",
        "chicken_processing", "duck_processing", "goose_processing", "pigeon_processing",
        "ratite_processing", "turkey_processing", "exotic_poultry_processing", "other_voluntary_poultry_processing",
    ]
}

fn aphis_columns() -> Vec<&'static str> {
    vec![
        "Account Name", "Customer Number_x", "Certificate Number",
        "Registration Type", "Certificate Status", "Status Date",
        "Address Line 1", "Address Line 2", "City-State-Zip",
        "County", "Customer Number_y", "Year",
        "Dogs", "Cats", "Guinea Pigs",
        "Hamsters", "Rabbits", "Non-Human Primates",
        "Sheep", "Pigs", "Other Farm Animals",
        "All Other Animals", "latitude", "longitude",
    ]
}

fn inspection_columns() -> Vec<&'static str> {
    vec![
        "Account Name", "Customer Number", "Certificate Number",
        "License Type", "Certificate Status", "Status Date",
        "Address Line 1", "Address Line 2", "City-State-Zip",
        "County", "City", "State",
        "Zip", "Geocodio Latitude", "Geocodio Longitude",
    ]
}

/// Builds a dataset text: the given columns as the header, and one data
/// row per assignment list, with every unassigned column left empty.
fn csv_of(columns: &[&str], rows: &[&[(&str, &str)]]) -> String {
    let mut text = columns.join(",");
    text.push('\n');
    for assigns in rows {
        let mut fields: Vec<String> = Vec::new();
        for col in columns {
            let mut val = "";
            for (k, v) in *assigns {
                if k == col {
                    val = v;
                }
            }
            fields.push(val.to_string());
        }
        text.push_str(&fields.join(","));
        text.push('\n');
    }
    text
}

#[test]
fn locations_decode_and_derive() {
    let csv = csv_of(
        &facility_columns(),
        &[
            &[
                ("establishment_id", "77"),
                ("establishment_name", "Acme Meats"),
                ("city", "Springfield"),
                ("beef_cow_slaughter", "Yes"),
                ("duck_slaughter", "Yes"),
                ("chicken_processing", "Yes"),
            ],
            &[("establishment_id", "78"), ("establishment_name", "Birdco")],
        ],
    );
    let out = read_locations_from_csv(&csv).unwrap();
    assert_eq!(out.len(), 2);
    assert_eq!(out[0].establishment_id, "77");
    assert_eq!(out[0].establishment_name, "Acme Meats");
    assert_eq!(out[0].city, "Springfield");
    assert_eq!(out[0].animals_slaughtered, "Cattle (Cows, Bulls), Ducks");
    assert_eq!(out[0].animals_processed, "Chicken");
    assert_eq!(out[1].establishment_id, "78");
    assert_eq!(out[1].animals_slaughtered, "");
    assert_eq!(out[1].animals_processed, "N/A");
}

#[test]
fn locations_header_order_does_not_matter() {
    let mut cols = facility_columns();
    cols.reverse();
    let csv = csv_of(&cols, &[&[("establishment_id", "5"), ("goose_slaughter", "Yes")]]);
    let out = read_locations_from_csv(&csv).unwrap();
    assert_eq!(out.len(), 1);
    assert_eq!(out[0].establishment_id, "5");
    assert_eq!(out[0].animals_slaughtered, "Geese");
}

#[test]
fn locations_n_rows_give_n_records() {
    let assigns: &[(&str, &str)] = &[];
    let rows = [assigns; 7];
    let csv = csv_of(&facility_columns(), &rows);
    let out = read_locations_from_csv(&csv).unwrap();
    assert_eq!(out.len(), 7);
}

#[test]
fn locations_empty_input_misses_the_header() {
    assert_eq!(read_locations_from_csv("").unwrap_err(), DecodeError::MissingHeader);
}

#[test]
fn locations_strict_mode_aborts_on_short_row() {
    let mut csv = csv_of(&facility_columns(), &[&[("establishment_id", "1")]]);
    csv.push_str("too,short\n");
    assert_eq!(read_locations_from_csv(&csv).unwrap_err(), DecodeError::BadRow);
}

#[test]
fn locations_strict_mode_aborts_on_malformed_row() {
    let mut csv = csv_of(&facility_columns(), &[]);
    let n = facility_columns().len();
    let mut row = "bad\"quote".to_string();
    for _ in 1..n {
        row.push(',');
    }
    row.push('\n');
    csv.push_str(&row);
    assert_eq!(read_locations_from_csv(&csv).unwrap_err(), DecodeError::BadRow);
}

#[test]
fn locations_missing_column_is_an_error() {
    let mut cols = facility_columns();
    cols.retain(|c| *c != "duns_number");
    let csv = csv_of(&cols, &[&[("establishment_id", "1")]]);
    assert_eq!(read_locations_from_csv(&csv).unwrap_err(), DecodeError::BadRow);
}

#[test]
fn aphis_decode_fills_the_summary() {
    let csv = csv_of(
        &aphis_columns(),
        &[&[
            ("Account Name", "Lab One"),
            ("Dogs", "2"),
            ("Cats", "0"),
            ("Rabbits", "1.5"),
        ]],
    );
    let out = read_aphis_reports_from_csv(&csv).unwrap();
    assert_eq!(out.len(), 1);
    assert_eq!(out[0].account_name, "Lab One");
    assert_eq!(out[0].dogs, "2");
    assert_eq!(out[0].animals_tested, Some("2 Dogs, 1 Rabbits".to_string()));
}

#[test]
fn aphis_summary_unknown_when_nothing_positive() {
    let csv = csv_of(&aphis_columns(), &[&[("Account Name", "Lab Two"), ("Dogs", "abc")]]);
    let out = read_aphis_reports_from_csv(&csv).unwrap();
    assert_eq!(out[0].animals_tested, Some("Unknown".to_string()));
}

#[test]
fn aphis_lenient_mode_skips_bad_rows() {
    let mut csv = csv_of(&aphis_columns(), &[&[("Account Name", "Keep Me"), ("Pigs", "3")]]);
    csv.push_str("short,row\n");
    let good = csv_of(&aphis_columns(), &[&[("Account Name", "Also Kept")]]);
    let second_row = good.lines().nth(1).unwrap();
    csv.push_str(second_row);
    csv.push('\n');
    let out = read_aphis_reports_from_csv(&csv).unwrap();
    assert_eq!(out.len(), 2);
    assert_eq!(out[0].account_name, "Keep Me");
    assert_eq!(out[0].animals_tested, Some("3 Pigs".to_string()));
    assert_eq!(out[1].account_name, "Also Kept");
}

#[test]
fn aphis_missing_column_skips_every_row() {
    let mut cols = aphis_columns();
    cols.retain(|c| *c != "Dogs");
    let csv = csv_of(&cols, &[&[("Account Name", "x")], &[("Account Name", "y")]]);
    let out = read_aphis_reports_from_csv(&csv).unwrap();
    assert_eq!(out.len(), 0);
}

#[test]
fn aphis_empty_input_misses_the_header() {
    assert_eq!(read_aphis_reports_from_csv("").unwrap_err(), DecodeError::MissingHeader);
}

#[test]
fn aphis_malformed_header_is_fatal() {
    let csv = "\"unclosed\n";
    assert_eq!(read_aphis_reports_from_csv(csv).unwrap_err(), DecodeError::MissingHeader);
}

#[test]
fn inspections_pass_rows_through() {
    let csv = csv_of(
        &inspection_columns(),
        &[&[
            ("Account Name", "Site A"),
            ("License Type", "Class B"),
            ("City", "Reno"),
            ("Geocodio Latitude", "39.52"),
        ]],
    );
    let out = read_inspection_reports_from_csv(&csv).unwrap();
    assert_eq!(out.len(), 1);
    assert_eq!(out[0].account_name, "Site A");
    assert_eq!(out[0].license_type, "Class B");
    assert_eq!(out[0].city, "Reno");
    assert_eq!(out[0].latitude, "39.52");
}

#[test]
fn inspections_strict_mode_aborts_on_bad_row() {
    let mut csv = csv_of(&inspection_columns(), &[]);
    csv.push_str("only,three,fields\n");
    assert_eq!(read_inspection_reports_from_csv(&csv).unwrap_err(), DecodeError::BadRow);
}

#[test]
fn quoted_fields_reach_the_record() {
    let header = aphis_columns().join(",");
    let n = aphis_columns().len();
    let mut row = "\"Labs, Inc.\"".to_string();
    for _ in 1..n {
        row.push(',');
    }
    let csv = format!("{}\n{}\n", header, row);
    let out = read_aphis_reports_from_csv(&csv).unwrap();
    assert_eq!(out.len(), 1);
    assert_eq!(out[0].account_name, "Labs, Inc.");
}


#[test]
fn header_only_dataset_yields_no_records() {
    let csv = csv_of(&facility_columns(), &[]);
    assert_eq!(read_locations_from_csv(&csv).unwrap().len(), 0);
    let csv2 = csv_of(&inspection_columns(), &[]);
    assert_eq!(read_inspection_reports_from_csv(&csv2).unwrap().len(), 0);
    let csv3 = csv_of(&aphis_columns(), &[]);
    assert_eq!(read_aphis_reports_from_csv(&csv3).unwrap().len(), 0);
}

#[test]
fn quoted_header_columns_still_map() {
    let quoted: Vec<String> =
        inspection_columns().iter().map(|c| format!("\"{}\"", c)).collect();
    let mut csv = quoted.join(",");
    csv.push('\n');
    let n = inspection_columns().len();
    let mut row = "Site Q".to_string();
    for _ in 1..n {
        row.push(',');
    }
    csv.push_str(&row);
    csv.push('\n');
    let out = read_inspection_reports_from_csv(&csv).unwrap();
    assert_eq!(out.len(), 1);
    assert_eq!(out[0].account_name, "Site Q");
}
