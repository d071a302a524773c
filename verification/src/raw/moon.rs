//! Raw lunar-phase calendar rows: four date columns, one per primary
//! lunar event (new moon, first quarter, full moon, third quarter).  Any
//! column that is not a date is simply absent — a sparse calendar, not an
//! error.

use crate::calendar::Date;
use crate::error::LoadError;
use crate::parse::{parse_date, parse_date_spec};
use crate::text::{trim, trim_spec};
use vstd::prelude::*;

verus! {

/// One row of the lunar-phase source file, prior to normalization.
#[derive(Clone, Copy, Debug, PartialEq, Eq, Structural)]
pub struct RawMoonRecord {
    pub new_moon: Option<Date>,
    pub first_quarter_moon: Option<Date>,
    pub full_moon: Option<Date>,
    pub third_quarter_moon: Option<Date>,
}

fn date_field_ok(d: &Option<Date>) -> (r: bool)
    ensures
        r == match d {
            Some(x) => x.valid() && x.year <= 9999,
            None => true,
        },
{
    match d {
        Some(x) => x.is_valid() && x.year <= 9999,
        None => true,
    }
}

impl RawMoonRecord {
    /// Every present date is a real calendar day of a four-digit year.
    pub open spec fn wf(self) -> bool {
        &&& (self.new_moon matches Some(d) ==> d.valid() && d.year <= 9999)
        &&& (self.first_quarter_moon matches Some(d) ==> d.valid() && d.year <= 9999)
        &&& (self.full_moon matches Some(d) ==> d.valid() && d.year <= 9999)
        &&& (self.third_quarter_moon matches Some(d) ==> d.valid() && d.year <= 9999)
    }

    /// Runtime check of [`RawMoonRecord::wf`], for callers outside
    /// verified code.
    pub fn is_wf(&self) -> (r: bool)
        ensures
            r == self.wf(),
    {
        date_field_ok(&self.new_moon) && date_field_ok(&self.first_quarter_moon) && date_field_ok(
            &self.full_moon,
        ) && date_field_ok(&self.third_quarter_moon)
    }

    /// Turns one row of CSV fields into a raw lunar-event record.  Each of
    /// the four columns holds a `month/day/year` date or becomes absent.
    pub fn from_row(fields: &Vec<String>) -> (r: Result<RawMoonRecord, LoadError>)
        ensures
            ({
                let fv = fields.deep_view();
                if fv.len() < 4 {
                    r matches Err(LoadError::MissingColumns)
                } else {
                    r matches Ok(m) && m.wf() && m.new_moon == parse_date_spec(trim_spec(fv[0]))
                        && m.first_quarter_moon == parse_date_spec(trim_spec(fv[1]))
                        && m.full_moon == parse_date_spec(trim_spec(fv[2]))
                        && m.third_quarter_moon == parse_date_spec(trim_spec(fv[3]))
                }
            }),
    {
        if fields.len() < 4 {
            return Err(LoadError::MissingColumns);
        }
        Ok(
            RawMoonRecord {
                new_moon: parse_date(trim(fields[0].as_str()).as_str()),
                first_quarter_moon: parse_date(trim(fields[1].as_str()).as_str()),
                full_moon: parse_date(trim(fields[2].as_str()).as_str()),
                third_quarter_moon: parse_date(trim(fields[3].as_str()).as_str()),
            },
        )
    }
}

} // verus!
