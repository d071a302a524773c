//! Domain records, normalized from the raw rows and ready for warehouse
//! loading: crashes, involved persons, and the hourly time dimension.

pub mod crash;
pub mod person;
pub mod time;
