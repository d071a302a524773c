//! Raw hourly weather observations: an RFC 3339 timestamp followed by
//! three numeric columns (temperature, precipitation, rain).  The numeric
//! columns are floating-point in the source file; this crate carries them
//! as their IEEE 754 bit patterns, which the caller obtains with
//! `f32::to_bits` and turns back with `f32::from_bits`.

use crate::calendar::Instant;
use crate::error::LoadError;
use crate::parse::{parse_rfc3339, parse_rfc3339_spec};
use crate::text::{trim, trim_spec};
use vstd::prelude::*;

verus! {

/// One row of the weather source file, prior to normalization.
#[derive(Clone, Copy, Debug, PartialEq, Eq, Structural)]
pub struct RawWeatherRecord {
    /// The observation instant, resolved to UTC offset zero.
    pub time: Instant,
    pub temperature_bits: u32,
    pub precipitation_bits: u32,
    pub rain_bits: u32,
}

impl RawWeatherRecord {
    /// Turns one row of CSV fields into a raw weather record.  The
    /// timestamp in column 0 is mandatory; the three numeric values are
    /// parsed by the caller (they are floating point) and handed in as
    /// bit patterns.  A row of fewer than four columns, or one whose
    /// timestamp is malformed, aborts the load.
    pub fn from_row(
        fields: &Vec<String>,
        temperature_bits: u32,
        precipitation_bits: u32,
        rain_bits: u32,
    ) -> (r: Result<RawWeatherRecord, LoadError>)
        ensures
            ({
                let fv = fields.deep_view();
                if fv.len() < 4 {
                    r matches Err(LoadError::MissingColumns)
                } else if parse_rfc3339_spec(trim_spec(fv[0])) is None {
                    r matches Err(LoadError::InvalidTimestamp)
                } else {
                    r matches Ok(w) && Some(w.time) == parse_rfc3339_spec(trim_spec(fv[0]))
                        && w.temperature_bits == temperature_bits && w.precipitation_bits
                        == precipitation_bits && w.rain_bits == rain_bits
                }
            }),
    {
        if fields.len() < 4 {
            return Err(LoadError::MissingColumns);
        }
        let time = match parse_rfc3339(trim(fields[0].as_str()).as_str()) {
            Some(v) => v,
            None => {
                return Err(LoadError::InvalidTimestamp);
            },
        };
        Ok(RawWeatherRecord { time, temperature_bits, precipitation_bits, rain_bits })
    }
}

} // verus!
