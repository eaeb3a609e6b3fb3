//! Normalization pipeline for USDA/APHIS animal-facility datasets.
//!
//! Three record kinds flow through parallel pipelines: slaughter
//! establishments (`Location`), animal-testing registrants (`AphisReport`),
//! and inspected sites (`InspectionReport`). Each dataset arrives as
//! delimited text with a header row; the decoder turns rows into typed
//! records, and the derivers condense wide sparse flag sets and textual
//! count fields into short human-readable summary strings.

pub mod dataset;
pub mod facility;
pub mod inspection;
pub mod pick;
pub mod registrant;
pub mod rows;
pub mod strutil;

pub use dataset::{
    DecodeError, read_locations_from_csv, read_aphis_reports_from_csv,
    read_inspection_reports_from_csv,
};
pub use facility::{Location, LocationResponse, get_slaughtered_animals, get_processed_animals};
pub use inspection::InspectionReport;
pub use registrant::{AphisReport, get_tested_animals};
