//! Normalization layer for a small vehicle-incident data warehouse.
//!
//! Four kinds of raw CSV rows (crashes, involved persons, lunar-phase
//! calendars, hourly weather observations) are turned into strongly typed
//! domain records.  Every transform in this crate is specified by a
//! contract and verified: categorical text fields fold case and
//! whitespace and are looked up in closed catalogs, dates and times are
//! parsed against fixed grammars, and the hourly time dimension is derived
//! from the weather and moon inputs.

pub mod base_database;
pub mod calendar;
pub mod error;
pub mod parse;
pub mod raw;
pub mod text;
