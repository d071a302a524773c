//! Raw person-involved rows.  Column positions are fixed: unique id 0,
//! collision id 1, crash date 2, crash time 3, person type 5, age 8,
//! position in vehicle 12, role 17, sex 20 — twenty-one columns in all.

use crate::calendar::{Date, TimeOfDay};
use crate::error::LoadError;
use crate::parse::{
    parse_date, parse_date_spec, parse_time, parse_time_spec, parse_u32, parse_u32_spec, parse_u8,
    parse_u8_spec,
};
use crate::text::{trim, trim_spec};
use vstd::prelude::*;

verus! {

/// One row of the person-involved source file, fields trimmed, prior to
/// normalization.
#[derive(Clone, Debug)]
pub struct RawPersonRecord {
    pub unique_id: String,
    pub collision_id: u32,
    pub crash_date: Date,
    pub crash_time: TimeOfDay,
    pub person_type: Option<String>,
    pub person_age: Option<u8>,
    pub person_sex: Option<char>,
    pub person_position_in_vehicle: Option<String>,
    pub person_ped_role: Option<String>,
}

impl RawPersonRecord {
    /// How a loaded record relates to the trimmed fields of its row.
    pub open spec fn matches_row(self, fv: Seq<Seq<char>>) -> bool {
        &&& self.unique_id@ == trim_spec(fv[0])
        &&& Some(self.collision_id) == parse_u32_spec(trim_spec(fv[1]))
        &&& Some(self.crash_date) == parse_date_spec(trim_spec(fv[2]))
        &&& Some(self.crash_time) == parse_time_spec(trim_spec(fv[3]))
        &&& (self.person_type matches Some(s) ==> s@ == trim_spec(fv[5]) && trim_spec(
            fv[5],
        ).len() > 0)
        &&& (self.person_type is None ==> trim_spec(fv[5]).len() == 0)
        &&& self.person_age == parse_u8_spec(trim_spec(fv[8]))
        &&& self.person_sex == (if trim_spec(fv[20]).len() == 1 {
            Some(trim_spec(fv[20])[0])
        } else {
            None::<char>
        })
        &&& (self.person_position_in_vehicle matches Some(s) ==> s@ == trim_spec(fv[12])
            && trim_spec(fv[12]).len() > 0)
        &&& (self.person_position_in_vehicle is None ==> trim_spec(fv[12]).len() == 0)
        &&& (self.person_ped_role matches Some(s) ==> s@ == trim_spec(fv[17]) && trim_spec(
            fv[17],
        ).len() > 0)
        &&& (self.person_ped_role is None ==> trim_spec(fv[17]).len() == 0)
    }

    /// Turns one row of CSV fields into a raw person record.  Whitespace
    /// is trimmed from every field; the mandatory identifier, date and
    /// time fields abort the load when malformed, the optional fields
    /// fall back to absent.
    pub fn from_row(fields: &Vec<String>) -> (r: Result<RawPersonRecord, LoadError>)
        ensures
            ({
                let fv = fields.deep_view();
                if fv.len() < 21 {
                    r matches Err(LoadError::MissingColumns)
                } else if parse_u32_spec(trim_spec(fv[1])) is None {
                    r matches Err(LoadError::InvalidId)
                } else if parse_date_spec(trim_spec(fv[2])) is None {
                    r matches Err(LoadError::InvalidDate)
                } else if parse_time_spec(trim_spec(fv[3])) is None {
                    r matches Err(LoadError::InvalidTime)
                } else {
                    r matches Ok(p) && p.matches_row(fv) && p.crash_date.valid()
                        && p.crash_time.valid()
                }
            }),
    {
        if fields.len() < 21 {
            return Err(LoadError::MissingColumns);
        }
        let collision_id = match parse_u32(trim(fields[1].as_str()).as_str()) {
            Some(v) => v,
            None => {
                return Err(LoadError::InvalidId);
            },
        };
        let crash_date = match parse_date(trim(fields[2].as_str()).as_str()) {
            Some(v) => v,
            None => {
                return Err(LoadError::InvalidDate);
            },
        };
        let crash_time = match parse_time(trim(fields[3].as_str()).as_str()) {
            Some(v) => v,
            None => {
                return Err(LoadError::InvalidTime);
            },
        };
        let unique_id = trim(fields[0].as_str());
        let pt = trim(fields[5].as_str());
        let person_type = if pt.as_str().is_empty() {
            None
        } else {
            Some(pt)
        };
        let person_age = parse_u8(trim(fields[8].as_str()).as_str());
        let sx = trim(fields[20].as_str());
        let person_sex = if sx.as_str().unicode_len() == 1 {
            Some(sx.as_str().get_char(0))
        } else {
            None
        };
        let pv = trim(fields[12].as_str());
        let person_position_in_vehicle = if pv.as_str().is_empty() {
            None
        } else {
            Some(pv)
        };
        let pr = trim(fields[17].as_str());
        let person_ped_role = if pr.as_str().is_empty() {
            None
        } else {
            Some(pr)
        };
        Ok(
            RawPersonRecord {
                unique_id,
                collision_id,
                crash_date,
                crash_time,
                person_type,
                person_age,
                person_sex,
                person_position_in_vehicle,
                person_ped_role,
            },
        )
    }
}

} // verus!
