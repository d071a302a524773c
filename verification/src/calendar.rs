//! Calendar and clock types for the warehouse records.
//!
//! Dates are proleptic-Gregorian calendar dates; a date's `index` is its
//! day offset from `0000-01-01`, which orders dates and drives the hourly
//! time dimension.

use vstd::prelude::*;

verus! {

/// A calendar date (proleptic Gregorian).
#[derive(Clone, Copy, Debug, PartialEq, Eq, Structural)]
pub struct Date {
    pub year: u16,
    pub month: u8,
    pub day: u8,
}

/// A wall-clock time of day, to minute precision.
#[derive(Clone, Copy, Debug, PartialEq, Eq, Structural)]
pub struct TimeOfDay {
    pub hour: u8,
    pub minute: u8,
}

/// A date and time of day, taken to be at UTC offset zero.
#[derive(Clone, Copy, Debug, PartialEq, Eq, Structural)]
pub struct DateTime {
    pub date: Date,
    pub time: TimeOfDay,
}

/// A point in time at UTC offset zero: seconds since 0000-01-01T00:00:00Z,
/// plus a sub-second part in nanoseconds.
#[derive(Clone, Copy, Debug, PartialEq, Eq, Structural)]
pub struct Instant {
    pub secs: i64,
    pub nanos: u32,
}

pub open spec fn is_leap_year(y: int) -> bool {
    y % 4 == 0 && (y % 100 != 0 || y % 400 == 0)
}

pub open spec fn days_in_year(y: int) -> int {
    if is_leap_year(y) {
        366
    } else {
        365
    }
}

pub open spec fn days_in_month(y: int, m: int) -> int {
    if m == 2 {
        if is_leap_year(y) {
            29
        } else {
            28
        }
    } else if m == 4 || m == 6 || m == 9 || m == 11 {
        30
    } else {
        31
    }
}

/// Days in all years before year `y`, counting from year 0.
pub open spec fn days_before_year(y: int) -> int
    decreases y,
{
    if y <= 0 {
        0
    } else {
        days_before_year(y - 1) + days_in_year(y - 1)
    }
}

/// Days in all months of year `y` before month `m`.
pub open spec fn days_before_month(y: int, m: int) -> int
    decreases m,
{
    if m <= 1 {
        0
    } else {
        days_before_month(y, m - 1) + days_in_month(y, m - 1)
    }
}

impl Date {
    /// A well-formed calendar date.
    pub open spec fn valid(self) -> bool {
        1 <= self.month <= 12 && 1 <= self.day <= days_in_month(
            self.year as int,
            self.month as int,
        )
    }

    /// Day offset of this date from 0000-01-01.
    pub open spec fn index(self) -> int {
        days_before_year(self.year as int) + days_before_month(self.year as int, self.month as int)
            + self.day - 1
    }
}

impl TimeOfDay {
    pub open spec fn valid(self) -> bool {
        self.hour < 24 && self.minute < 60
    }
}

impl DateTime {
    pub open spec fn valid(self) -> bool {
        self.date.valid() && self.time.valid()
    }

    /// Hour offset of this date-time from 0000-01-01T00:00.
    pub open spec fn hour_index(self) -> int {
        self.date.index() * 24 + self.time.hour
    }
}

fn is_leap_year_exec(y: u16) -> (r: bool)
    ensures
        r == is_leap_year(y as int),
{
    y % 4 == 0 && (y % 100 != 0 || y % 400 == 0)
}

/// Length of month `m` of year `y`.
pub fn days_in_month_exec(y: u16, m: u8) -> (r: u8)
    requires
        1 <= m <= 12,
    ensures
        r == days_in_month(y as int, m as int),
{
    if m == 2 {
        if is_leap_year_exec(y) {
            29
        } else {
            28
        }
    } else if m == 4 || m == 6 || m == 9 || m == 11 {
        30
    } else {
        31
    }
}

/// Coarse bounds on the days before year `y`.
pub proof fn lemma_days_before_year_bound(y: int)
    requires
        y >= 0,
    ensures
        365 * y <= days_before_year(y) <= 366 * y,
    decreases y,
{
    if y > 0 {
        lemma_days_before_year_bound(y - 1);
    }
}

impl Date {
    /// Whether this is a real calendar day.
    pub fn is_valid(&self) -> (r: bool)
        ensures
            r == self.valid(),
    {
        if self.month < 1 || self.month > 12 {
            return false;
        }
        1 <= self.day && self.day <= days_in_month_exec(self.year, self.month)
    }

    /// Day offset of this date from 0000-01-01, computed exactly.
    pub fn day_index(&self) -> (r: u32)
        requires
            self.valid(),
        ensures
            r == self.index(),
            r <= 24_000_366,
    {
        let mut acc: u32 = 0;
        let mut y: u16 = 0;
        while y < self.year
            invariant
                y <= self.year,
                acc == days_before_year(y as int),
                acc <= 366 * (y as u32),
            decreases self.year - y,
        {
            acc = acc + if is_leap_year_exec(y) {
                366
            } else {
                365
            };
            y = y + 1;
        }
        let mut m: u8 = 1;
        proof {
            lemma_days_before_year_bound(self.year as int);
        }
        while m < self.month
            invariant
                1 <= m <= self.month,
                self.valid(),
                acc == days_before_year(self.year as int) + days_before_month(
                    self.year as int,
                    m as int,
                ),
                acc <= 366 * (self.year as u32) + 31 * (m as u32),
            decreases self.month - m,
        {
            acc = acc + days_in_month_exec(self.year, m) as u32;
            m = m + 1;
        }
        acc + (self.day - 1) as u32
    }
}

/// The calendar date one day after `d`.
pub open spec fn next_date(d: Date) -> Date {
    if d.day < days_in_month(d.year as int, d.month as int) {
        Date { year: d.year, month: d.month, day: (d.day + 1) as u8 }
    } else if d.month < 12 {
        Date { year: d.year, month: (d.month + 1) as u8, day: 1 }
    } else {
        Date { year: (d.year + 1) as u16, month: 1, day: 1 }
    }
}

/// `d` advanced by `n` days.
pub open spec fn date_plus(d: Date, n: nat) -> Date
    decreases n,
{
    if n == 0 {
        d
    } else {
        date_plus(next_date(d), (n - 1) as nat)
    }
}

/// Advancing one more day is taking the next date of the advanced date.
pub proof fn lemma_date_plus_snoc(d: Date, n: nat)
    ensures
        date_plus(d, n + 1) == next_date(date_plus(d, n)),
    decreases n,
{
    if n == 0 {
        assert(date_plus(d, 1) == date_plus(next_date(d), 0));
        assert(date_plus(next_date(d), 0) == next_date(d));
    } else {
        lemma_date_plus_snoc(next_date(d), (n - 1) as nat);
        assert(date_plus(d, n + 1) == date_plus(next_date(d), n));
    }
}

/// The next date of a valid date is valid and lies one day later.
pub proof fn lemma_next_date(d: Date)
    requires
        d.valid(),
        d.year < 0xffff,
    ensures
        next_date(d).valid(),
        next_date(d).index() == d.index() + 1,
{
    if !(d.day < days_in_month(d.year as int, d.month as int)) && !(d.month < 12) {
        lemma_year_day_sum(d.year as int);
    }
}

/// The calendar date one day after `d`, computed.
pub fn next_day(d: Date) -> (r: Date)
    requires
        d.valid(),
        d.year < 0xffff,
    ensures
        r == next_date(d),
        r.valid(),
        r.index() == d.index() + 1,
{
    proof {
        lemma_next_date(d);
    }
    let dim = days_in_month_exec(d.year, d.month);
    if d.day < dim {
        Date { year: d.year, month: d.month, day: d.day + 1 }
    } else if d.month < 12 {
        Date { year: d.year, month: d.month + 1, day: 1 }
    } else {
        Date { year: d.year + 1, month: 1, day: 1 }
    }
}

proof fn lemma_days_before_month_monotone(y: int, m1: int, m2: int)
    requires
        m1 <= m2,
    ensures
        days_before_month(y, m1) <= days_before_month(y, m2),
    decreases m2 - m1,
{
    if m1 < m2 {
        lemma_days_before_month_monotone(y, m1, m2 - 1);
    }
}

/// Years before `y1` contribute no more days than years before `y2 >= y1`.
pub proof fn lemma_days_before_year_monotone(y1: int, y2: int)
    requires
        y1 <= y2,
    ensures
        days_before_year(y1) <= days_before_year(y2),
    decreases y2 - y1,
{
    if y1 < y2 {
        lemma_days_before_year_monotone(y1, y2 - 1);
    }
}

/// A valid date's index lies within its year's days.
pub proof fn lemma_index_within_year(d: Date)
    requires
        d.valid(),
    ensures
        days_before_year(d.year as int) <= d.index() < days_before_year(d.year as int + 1),
{
    lemma_days_before_month_monotone(d.year as int, 1, d.month as int);
    lemma_days_before_month_monotone(d.year as int, d.month as int + 1, 13);
    lemma_year_day_sum(d.year as int);
}

/// Date indices order years: an earlier or equal index cannot belong to a
/// later year.
pub proof fn lemma_index_year_le(d1: Date, d2: Date)
    requires
        d1.valid(),
        d2.valid(),
        d1.index() <= d2.index(),
    ensures
        d1.year <= d2.year,
{
    if d1.year > d2.year {
        lemma_index_within_year(d1);
        lemma_index_within_year(d2);
        lemma_days_before_year_monotone(d2.year as int + 1, d1.year as int);
    }
}

/// The months of year `y` sum to the length of year `y`.
proof fn lemma_year_day_sum(y: int)
    ensures
        days_before_month(y, 12) + days_in_month(y, 12) == days_in_year(y),
{
    reveal_with_fuel(days_before_month, 13);
}

} // verus!
