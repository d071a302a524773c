//! Raw records: one per CSV row, with fields read from fixed column
//! positions.  The file reading itself stays outside this crate; each
//! record type offers a verified `from_row` that turns one row of fields
//! into a raw record or a fatal [`crate::error::LoadError`].

pub mod crashes;
pub mod moon;
pub mod persons;
pub mod weather;
