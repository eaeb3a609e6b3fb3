//! Inspection records: one row per inspected site. The passthrough kind:
//! no derived fields; rows are validated, decoded, and repackaged as they
//! stand.

use vstd::prelude::*;

use crate::rows::{lookup, get_field};

verus! {

/// One row of the inspection dataset. The geocode fields keep the source
/// text unparsed.
#[derive(Default, Debug)]
pub struct InspectionReport {
    pub account_name: String,
    pub customer_number: String,
    pub certificate_number: String,
    pub license_type: String,
    pub certificate_status: String,
    pub status_date: String,
    pub address_line_1: String,
    pub address_line_2: String,
    pub city_state_zip: String,
    pub county: String,
    pub city: String,
    pub state: String,
    pub zip: String,
    pub latitude: String,
    pub longitude: String,
}

/// Every declared inspection column is present in the header and the row
/// reaches it.
pub open spec fn inspection_cols_present(h: Seq<Seq<char>>, r: Seq<Seq<char>>) -> bool {
    &&& lookup(h, r, "Account Name"@) is Some
    &&& lookup(h, r, "Customer Number"@) is Some
    &&& lookup(h, r, "Certificate Number"@) is Some
    &&& lookup(h, r, "License Type"@) is Some
    &&& lookup(h, r, "Certificate Status"@) is Some
    &&& lookup(h, r, "Status Date"@) is Some
    &&& lookup(h, r, "Address Line 1"@) is Some
    &&& lookup(h, r, "Address Line 2"@) is Some
    &&& lookup(h, r, "City-State-Zip"@) is Some
    &&& lookup(h, r, "County"@) is Some
    &&& lookup(h, r, "City"@) is Some
    &&& lookup(h, r, "State"@) is Some
    &&& lookup(h, r, "Zip"@) is Some
    &&& lookup(h, r, "Geocodio Latitude"@) is Some
    &&& lookup(h, r, "Geocodio Longitude"@) is Some
}

/// Every field of the record equals its row value under the matching
/// header column.
pub open spec fn inspection_matches(a: InspectionReport, h: Seq<Seq<char>>, r: Seq<Seq<char>>) -> bool {
    &&& lookup(h, r, "Account Name"@) == Some(a.account_name@)
    &&& lookup(h, r, "Customer Number"@) == Some(a.customer_number@)
    &&& lookup(h, r, "Certificate Number"@) == Some(a.certificate_number@)
    &&& lookup(h, r, "License Type"@) == Some(a.license_type@)
    &&& lookup(h, r, "Certificate Status"@) == Some(a.certificate_status@)
    &&& lookup(h, r, "Status Date"@) == Some(a.status_date@)
    &&& lookup(h, r, "Address Line 1"@) == Some(a.address_line_1@)
    &&& lookup(h, r, "Address Line 2"@) == Some(a.address_line_2@)
    &&& lookup(h, r, "City-State-Zip"@) == Some(a.city_state_zip@)
    &&& lookup(h, r, "County"@) == Some(a.county@)
    &&& lookup(h, r, "City"@) == Some(a.city@)
    &&& lookup(h, r, "State"@) == Some(a.state@)
    &&& lookup(h, r, "Zip"@) == Some(a.zip@)
    &&& lookup(h, r, "Geocodio Latitude"@) == Some(a.latitude@)
    &&& lookup(h, r, "Geocodio Longitude"@) == Some(a.longitude@)
}

/// Builds an inspection record from a decoded row under its header; fails
/// exactly when a declared column is missing from the header or the row.
#[verifier::rlimit(60)]
pub fn inspection_from_row(header: &Vec<String>, row: &Vec<String>) -> (res: Option<
    InspectionReport,
>)
    ensures
        (res is Some) <==> inspection_cols_present(header.deep_view(), row.deep_view()),
        res matches Some(a) ==> inspection_matches(a, header.deep_view(), row.deep_view()),
{
    let account_name = match get_field(header, row, "Account Name") {
        Some(v) => v,
        None => { return None; },
    };
    let customer_number = match get_field(header, row, "Customer Number") {
        Some(v) => v,
        None => { return None; },
    };
    let certificate_number = match get_field(header, row, "Certificate Number") {
        Some(v) => v,
        None => { return None; },
    };
    let license_type = match get_field(header, row, "License Type") {
        Some(v) => v,
        None => { return None; },
    };
    let certificate_status = match get_field(header, row, "Certificate Status") {
        Some(v) => v,
        None => { return None; },
    };
    let status_date = match get_field(header, row, "Status Date") {
        Some(v) => v,
        None => { return None; },
    };
    let address_line_1 = match get_field(header, row, "Address Line 1") {
        Some(v) => v,
        None => { return None; },
    };
    let address_line_2 = match get_field(header, row, "Address Line 2") {
        Some(v) => v,
        None => { return None; },
    };
    let city_state_zip = match get_field(header, row, "City-State-Zip") {
        Some(v) => v,
        None => { return None; },
    };
    let county = match get_field(header, row, "County") {
        Some(v) => v,
        None => { return None; },
    };
    let city = match get_field(header, row, "City") {
        Some(v) => v,
        None => { return None; },
    };
    let state = match get_field(header, row, "State") {
        Some(v) => v,
        None => { return None; },
    };
    let zip = match get_field(header, row, "Zip") {
        Some(v) => v,
        None => { return None; },
    };
    let latitude = match get_field(header, row, "Geocodio Latitude") {
        Some(v) => v,
        None => { return None; },
    };
    let longitude = match get_field(header, row, "Geocodio Longitude") {
        Some(v) => v,
        None => { return None; },
    };
    Some(InspectionReport {
        account_name,
        customer_number,
        certificate_number,
        license_type,
        certificate_status,
        status_date,
        address_line_1,
        address_line_2,
        city_state_zip,
        county,
        city,
        state,
        zip,
        latitude,
        longitude,
    })
}

} // verus!
