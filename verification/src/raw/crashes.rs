//! Raw vehicle-collision rows.  Column positions are fixed: crash date 0,
//! crash time 1, injury and fatality counts 10 through 17, the five
//! contributing-factor texts 18 through 22, and the collision identifier
//! 23 — twenty-four columns in all.

use crate::calendar::{Date, TimeOfDay};
use crate::error::LoadError;
use crate::parse::{
    parse_date, parse_date_spec, parse_time, parse_time_spec, parse_u16, parse_u16_spec, parse_u32,
    parse_u32_spec,
};
use crate::text::{trim, trim_spec};
use vstd::prelude::*;

verus! {

/// One row of the collision source file, fields trimmed, prior to
/// normalization.
#[derive(Clone, Debug)]
pub struct RawCrashRecord {
    pub collision_id: u32,
    pub crash_date: Date,
    pub crash_time: TimeOfDay,
    pub number_of_persons_injured: u16,
    pub number_of_persons_killed: u16,
    pub number_of_pedestrians_injured: u16,
    pub number_of_pedestrians_killed: u16,
    pub number_of_cyclist_injured: u16,
    pub number_of_cyclist_killed: u16,
    pub number_of_motorist_injured: u16,
    pub number_of_motorist_killed: u16,
    pub contributing_factor_vehicle_1: String,
    pub contributing_factor_vehicle_2: String,
    pub contributing_factor_vehicle_3: String,
    pub contributing_factor_vehicle_4: String,
    pub contributing_factor_vehicle_5: String,
}

/// An injury or fatality count: the parsed field, or zero when the field
/// does not parse.
pub open spec fn count_or_zero(s: Seq<char>) -> u16 {
    match parse_u16_spec(s) {
        Some(v) => v,
        None => 0,
    }
}

fn count_field(s: &String) -> (r: u16)
    ensures
        r == count_or_zero(trim_spec(s@)),
{
    match parse_u16(trim(s.as_str()).as_str()) {
        Some(v) => v,
        None => 0,
    }
}

impl RawCrashRecord {
    /// How a loaded record relates to the trimmed fields of its row.
    pub open spec fn matches_row(self, fv: Seq<Seq<char>>) -> bool {
        &&& Some(self.collision_id) == parse_u32_spec(trim_spec(fv[23]))
        &&& Some(self.crash_date) == parse_date_spec(trim_spec(fv[0]))
        &&& Some(self.crash_time) == parse_time_spec(trim_spec(fv[1]))
        &&& self.number_of_persons_injured == count_or_zero(trim_spec(fv[10]))
        &&& self.number_of_persons_killed == count_or_zero(trim_spec(fv[11]))
        &&& self.number_of_pedestrians_injured == count_or_zero(trim_spec(fv[12]))
        &&& self.number_of_pedestrians_killed == count_or_zero(trim_spec(fv[13]))
        &&& self.number_of_cyclist_injured == count_or_zero(trim_spec(fv[14]))
        &&& self.number_of_cyclist_killed == count_or_zero(trim_spec(fv[15]))
        &&& self.number_of_motorist_injured == count_or_zero(trim_spec(fv[16]))
        &&& self.number_of_motorist_killed == count_or_zero(trim_spec(fv[17]))
        &&& self.contributing_factor_vehicle_1@ == trim_spec(fv[18])
        &&& self.contributing_factor_vehicle_2@ == trim_spec(fv[19])
        &&& self.contributing_factor_vehicle_3@ == trim_spec(fv[20])
        &&& self.contributing_factor_vehicle_4@ == trim_spec(fv[21])
        &&& self.contributing_factor_vehicle_5@ == trim_spec(fv[22])
    }

    /// Turns one row of CSV fields into a raw crash record.  Whitespace is
    /// trimmed from every field; the mandatory identifier, date and time
    /// fields abort the load when malformed, the count fields fall back to
    /// zero.
    pub fn from_row(fields: &Vec<String>) -> (r: Result<RawCrashRecord, LoadError>)
        ensures
            ({
                let fv = fields.deep_view();
                if fv.len() < 24 {
                    r matches Err(LoadError::MissingColumns)
                } else if parse_u32_spec(trim_spec(fv[23])) is None {
                    r matches Err(LoadError::InvalidId)
                } else if parse_date_spec(trim_spec(fv[0])) is None {
                    r matches Err(LoadError::InvalidDate)
                } else if parse_time_spec(trim_spec(fv[1])) is None {
                    r matches Err(LoadError::InvalidTime)
                } else {
                    r matches Ok(c) && c.matches_row(fv) && c.crash_date.valid()
                        && c.crash_time.valid()
                }
            }),
    {
        if fields.len() < 24 {
            return Err(LoadError::MissingColumns);
        }
        let collision_id = match parse_u32(trim(fields[23].as_str()).as_str()) {
            Some(v) => v,
            None => {
                return Err(LoadError::InvalidId);
            },
        };
        let crash_date = match parse_date(trim(fields[0].as_str()).as_str()) {
            Some(v) => v,
            None => {
                return Err(LoadError::InvalidDate);
            },
        };
        let crash_time = match parse_time(trim(fields[1].as_str()).as_str()) {
            Some(v) => v,
            None => {
                return Err(LoadError::InvalidTime);
            },
        };
        Ok(
            RawCrashRecord {
                collision_id,
                crash_date,
                crash_time,
                number_of_persons_injured: count_field(&fields[10]),
                number_of_persons_killed: count_field(&fields[11]),
                number_of_pedestrians_injured: count_field(&fields[12]),
                number_of_pedestrians_killed: count_field(&fields[13]),
                number_of_cyclist_injured: count_field(&fields[14]),
                number_of_cyclist_killed: count_field(&fields[15]),
                number_of_motorist_injured: count_field(&fields[16]),
                number_of_motorist_killed: count_field(&fields[17]),
                contributing_factor_vehicle_1: trim(fields[18].as_str()),
                contributing_factor_vehicle_2: trim(fields[19].as_str()),
                contributing_factor_vehicle_3: trim(fields[20].as_str()),
                contributing_factor_vehicle_4: trim(fields[21].as_str()),
                contributing_factor_vehicle_5: trim(fields[22].as_str()),
            },
        )
    }
}

} // verus!
