//! The fatal load errors: a raw CSV row that cannot become a raw record
//! aborts the load, as opposed to the silent normalization gaps that map
//! unrecognized categorical text to "absent".

use vstd::prelude::*;

verus! {

/// Why a raw CSV row could not be loaded.
#[derive(Clone, Copy, Debug, PartialEq, Eq, Structural)]
pub enum LoadError {
    /// The row has fewer columns than the fixed layout requires.
    MissingColumns,
    /// The mandatory record identifier is not an unsigned integer.
    InvalidId,
    /// A mandatory date field is not a `month/day/year` calendar date.
    InvalidDate,
    /// A mandatory time-of-day field is not an `hour:minute` clock time.
    InvalidTime,
    /// A mandatory weather timestamp is not an RFC 3339 timestamp.
    InvalidTimestamp,
}

} // verus!
