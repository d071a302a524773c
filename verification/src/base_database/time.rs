//! The hourly time dimension.  One record per hour of the fixed global
//! range [2000-01-01T00:00Z, 2022-12-31T00:00Z], each carrying the moon
//! phase in force on its calendar date (a fill-forward over the sparse
//! lunar events) and the weather observation at exactly that hour, when
//! one exists.

use crate::calendar::{date_plus, next_day, Date, DateTime, TimeOfDay};
use crate::raw::moon::RawMoonRecord;
use crate::raw::weather::RawWeatherRecord;
use vstd::arithmetic::div_mod::{
    lemma_fundamental_div_mod, lemma_fundamental_div_mod_converse_div,
    lemma_fundamental_div_mod_converse_mod,
};
use vstd::prelude::*;

verus! {

/// One hour of the time dimension, normalized for the warehouse.  The
/// weather values carry the IEEE 754 bit patterns of the source floats
/// (see [`RawWeatherRecord`]); all three are present together or absent
/// together.
#[derive(Clone, Copy, Debug, PartialEq, Eq, Structural)]
pub struct Time {
    pub time_id: u32,
    pub timestamp: DateTime,
    pub moon_phase: Option<MoonPhase>,
    pub temperature_bits: Option<u32>,
    pub precipitation_bits: Option<u32>,
    pub rain_bits: Option<u32>,
}

/// The eight-phase lunar cycle.  The source data names only the four
/// primary events, so only `New`, `FirstQuarter`, `Full` and
/// `LastQuarter` are ever derived; the intermediate phases stay in the
/// domain model for richer future data.
#[derive(Clone, Copy, Debug, PartialEq, Eq, Structural)]
pub enum MoonPhase {
    New,
    WaxingCrescent,
    FirstQuarter,
    WaxingGibbous,
    Full,
    WaningGibbous,
    LastQuarter,
    WaningCrescent,
}

/// First day of the time dimension.
pub open spec fn start_date() -> Date {
    Date { year: 2000, month: 1, day: 1 }
}

/// Last day of the time dimension; its hour zero is the final record.
pub open spec fn end_date() -> Date {
    Date { year: 2022, month: 12, day: 31 }
}

/// Number of records in the dimension: one per hour, both endpoints
/// included.
pub open spec fn total_hours() -> int {
    (end_date().index() - start_date().index()) * 24 + 1
}

/// The instant of dimension hour `i`, in seconds from 0000-01-01T00:00:00
/// at UTC offset zero.
pub open spec fn hour_secs(i: int) -> int {
    start_date().index() * 86400 + i * 3600
}

/// The lunar events of one raw row poured into the date-keyed pool; a
/// later event on an already-seen date replaces the earlier one.
pub open spec fn record_pool(m: Map<int, MoonPhase>, r: RawMoonRecord) -> Map<int, MoonPhase> {
    let m1 = match r.new_moon {
        Some(d) => m.insert(d.index(), MoonPhase::New),
        None => m,
    };
    let m2 = match r.first_quarter_moon {
        Some(d) => m1.insert(d.index(), MoonPhase::FirstQuarter),
        None => m1,
    };
    let m3 = match r.full_moon {
        Some(d) => m2.insert(d.index(), MoonPhase::Full),
        None => m2,
    };
    match r.third_quarter_moon {
        Some(d) => m3.insert(d.index(), MoonPhase::LastQuarter),
        None => m3,
    }
}

/// All lunar events pooled across all raw rows, keyed by day index.
pub open spec fn moon_pool(raw: Seq<RawMoonRecord>) -> Map<int, MoonPhase>
    decreases raw.len(),
{
    if raw.len() == 0 {
        Map::empty()
    } else {
        record_pool(moon_pool(raw.drop_last()), raw.last())
    }
}

/// A day is covered when some event falls on or before it and some event
/// falls strictly after it.
pub open spec fn covers(pool: Map<int, MoonPhase>, day: int) -> bool {
    (exists|a: int| #[trigger] pool.contains_key(a) && a <= day) && (exists|b: int|
        #[trigger] pool.contains_key(b) && day < b)
}

/// `a` is the latest event day at or before `day`.
pub open spec fn is_floor_key(pool: Map<int, MoonPhase>, day: int, a: int) -> bool {
    pool.contains_key(a) && a <= day && (forall|k: int|
        #[trigger] pool.contains_key(k) && k <= day ==> k <= a)
}

pub open spec fn floor_key(pool: Map<int, MoonPhase>, day: int) -> int {
    choose|a: int| is_floor_key(pool, day, a)
}

/// The phase in force on `day`: the phase of the latest event at or
/// before it, holding until the day before the next event.  Days before
/// the first event or from the last event on have no phase.
pub open spec fn phase_on(pool: Map<int, MoonPhase>, day: int) -> Option<MoonPhase> {
    if covers(pool, day) {
        Some(pool[floor_key(pool, day)])
    } else {
        None
    }
}

/// The weather values to attach at instant `t`: those of the last raw
/// observation stamped exactly `t` (whole seconds, no sub-second part),
/// or nothing.
pub open spec fn weather_at(ws: Seq<RawWeatherRecord>, t: int) -> Option<(u32, u32, u32)>
    decreases ws.len(),
{
    if ws.len() == 0 {
        None
    } else if ws.last().time.secs == t && ws.last().time.nanos == 0 {
        Some((ws.last().temperature_bits, ws.last().precipitation_bits, ws.last().rain_bits))
    } else {
        weather_at(ws.drop_last(), t)
    }
}

/// One pooled lunar event, carried with its day index.
#[derive(Clone, Copy, Debug)]
struct MoonEvent {
    idx: u32,
    date: Date,
    phase: MoonPhase,
}

spec fn events_wf(es: Seq<MoonEvent>) -> bool {
    &&& forall|j: int|
        0 <= j < es.len() ==> (#[trigger] es[j]).date.valid() && es[j].date.year <= 9999
            && es[j].idx == es[j].date.index()
    &&& forall|j1: int, j2: int| 0 <= j1 < j2 < es.len() ==> es[j1].idx < es[j2].idx
}

spec fn events_represent(es: Seq<MoonEvent>, pool: Map<int, MoonPhase>) -> bool {
    &&& forall|j: int|
        0 <= j < es.len() ==> pool.contains_key((#[trigger] es[j]).idx as int) && pool[es[j].idx
            as int] == es[j].phase
    &&& forall|k: int|
        #[trigger] pool.contains_key(k) ==> exists|j: int|
            0 <= j < es.len() && (#[trigger] es[j]).idx == k
}

/// Merges one event into the sorted, distinct event list; an event on an
/// already-seen date replaces the earlier one, as the pool does.
#[verifier::rlimit(100)]
fn insert_event(
    events: &mut Vec<MoonEvent>,
    date: Date,
    phase: MoonPhase,
    Ghost(pool): Ghost<Map<int, MoonPhase>>,
)
    requires
        events_wf(old(events)@),
        events_represent(old(events)@, pool),
        date.valid(),
        date.year <= 9999,
    ensures
        events_wf(final(events)@),
        events_represent(final(events)@, pool.insert(date.index(), phase)),
{
    let idx = date.day_index();
    let ghost es0 = events@;
    let ghost pool2 = pool.insert(date.index(), phase);
    let mut p: usize = events.len();
    while p > 0 && events[p - 1].idx > idx
        invariant
            p <= events@.len(),
            events@ == es0,
            forall|q: int| p <= q < es0.len() ==> (#[trigger] es0[q]).idx > idx,
        decreases p,
    {
        p = p - 1;
    }
    let e = MoonEvent { idx, date, phase };
    if p > 0 && events[p - 1].idx == idx {
        events[p - 1] = e;
        proof {
            let es = events@;
            assert(es == es0.update(p - 1, e));
            assert forall|j1: int, j2: int| 0 <= j1 < j2 < es.len() implies es[j1].idx
                < es[j2].idx by {
                assert(es0[j1].idx < es0[j2].idx);
            }
            assert forall|j: int|
                0 <= j < es.len() implies pool2.contains_key((#[trigger] es[j]).idx as int)
                && pool2[es[j].idx as int] == es[j].phase by {
                if j != p - 1 {
                    if j < p - 1 {
                        assert(es0[j].idx < es0[p - 1].idx);
                    } else {
                        assert(es0[p - 1].idx < es0[j].idx);
                    }
                }
            }
            assert forall|k: int| #[trigger] pool2.contains_key(k) implies exists|j: int|
                0 <= j < es.len() && (#[trigger] es[j]).idx == k by {
                if k == date.index() {
                    assert(0 <= p - 1 < es.len() && (es[p - 1]).idx == k);
                } else {
                    assert(pool.contains_key(k));
                    let j0 = choose|j: int| 0 <= j < es0.len() && (#[trigger] es0[j]).idx == k;
                    assert(j0 != p - 1);
                    assert(0 <= j0 < es.len() && (es[j0]).idx == k);
                }
            }
        }
    } else {
        proof {
            if p > 0 {
                assert(es0[p - 1].idx < idx);
            }
        }
        events.insert(p, e);
        proof {
            let es = events@;
            es0.insert_ensures(p as int, e);
            assert forall|j: int|
                0 <= j < es.len() implies (#[trigger] es[j]).date.valid() && es[j].date.year
                <= 9999 && es[j].idx == es[j].date.index() by {
                if j < p {
                    assert(es[j] == es0[j]);
                } else if j > p {
                    assert(es[j] == es0[j - 1]);
                }
            }
            assert forall|j1: int, j2: int| 0 <= j1 < j2 < es.len() implies es[j1].idx
                < es[j2].idx by {
                if j2 < p {
                    assert(es0[j1].idx < es0[j2].idx);
                } else if j1 < p && j2 == p {
                    if j1 < p - 1 {
                        assert(es0[j1].idx < es0[p - 1].idx);
                    }
                } else if j1 < p && j2 > p {
                    assert(es[j2] == es0[j2 - 1]);
                    assert(es0[j2 - 1].idx > idx);
                    if j1 < p - 1 {
                        assert(es0[j1].idx < es0[p - 1].idx);
                    }
                } else if j1 == p {
                    assert(es[j2] == es0[j2 - 1]);
                    assert(es0[j2 - 1].idx > idx);
                } else {
                    assert(es[j1] == es0[j1 - 1]);
                    assert(es[j2] == es0[j2 - 1]);
                    assert(es0[j1 - 1].idx < es0[j2 - 1].idx);
                }
            }
            assert forall|j: int|
                0 <= j < es.len() implies pool2.contains_key((#[trigger] es[j]).idx as int)
                && pool2[es[j].idx as int] == es[j].phase by {
                if j < p {
                    assert(es[j] == es0[j]);
                    assert(es0[j].idx <= es0[p - 1].idx);
                    assert(es0[j].idx < idx);
                } else if j > p {
                    assert(es[j] == es0[j - 1]);
                    assert(es0[j - 1].idx > idx);
                }
            }
            assert forall|k: int| #[trigger] pool2.contains_key(k) implies exists|j: int|
                0 <= j < es.len() && (#[trigger] es[j]).idx == k by {
                if k == date.index() {
                    assert(0 <= p < es.len() && (es[p as int]).idx == k);
                } else {
                    assert(pool.contains_key(k));
                    let j0 = choose|j: int| 0 <= j < es0.len() && (#[trigger] es0[j]).idx == k;
                    if j0 < p {
                        assert(0 <= j0 < es.len() && (es[j0]).idx == k);
                    } else {
                        assert(es[j0 + 1] == es0[j0]);
                        assert(0 <= j0 + 1 < es.len() && (es[j0 + 1]).idx == k);
                    }
                }
            }
        }
    }
}

/// On a day between two consecutive events, the earlier event's phase is
/// in force.
proof fn lemma_phase_interval(es: Seq<MoonEvent>, pool: Map<int, MoonPhase>, j: int, day: int)
    requires
        events_wf(es),
        events_represent(es, pool),
        0 <= j < es.len() - 1,
        es[j].idx <= day < es[j + 1].idx,
    ensures
        phase_on(pool, day) == Some(es[j].phase),
{
    let a0 = es[j].idx as int;
    assert(pool.contains_key(a0) && a0 <= day);
    assert(pool.contains_key(es[j + 1].idx as int) && day < es[j + 1].idx);
    assert(covers(pool, day));
    assert forall|k: int| #[trigger] pool.contains_key(k) && k <= day implies k <= a0 by {
        let q = choose|q: int| 0 <= q < es.len() && (#[trigger] es[q]).idx == k;
        if q > j {
            if q > j + 1 {
                assert(es[j + 1].idx < es[q].idx);
            }
        } else if q < j {
            assert(es[q].idx < es[j].idx);
        }
    }
    assert(is_floor_key(pool, day, a0));
    let a = floor_key(pool, day);
    assert(is_floor_key(pool, day, a));
    assert(a <= a0 && a0 <= a);
}

/// Outside the event span — before the first event or from the last event
/// on — no phase is in force.
proof fn lemma_phase_outside(es: Seq<MoonEvent>, pool: Map<int, MoonPhase>, day: int)
    requires
        events_wf(es),
        events_represent(es, pool),
        es.len() == 0 || day < es[0].idx || day >= es[es.len() - 1].idx,
    ensures
        phase_on(pool, day) is None,
{
    if covers(pool, day) {
        let a = choose|a: int| #[trigger] pool.contains_key(a) && a <= day;
        let b = choose|b: int| #[trigger] pool.contains_key(b) && day < b;
        let ja = choose|q: int| 0 <= q < es.len() && (#[trigger] es[q]).idx == a;
        let jb = choose|q: int| 0 <= q < es.len() && (#[trigger] es[q]).idx == b;
        if day < es[0].idx {
            if ja > 0 {
                assert(es[0].idx < es[ja].idx);
            }
        } else {
            if jb < es.len() - 1 {
                assert(es[jb].idx < es[es.len() - 1].idx);
            }
        }
    }
}

/// How the dense day-to-phase table relates to the pooled events: its
/// entries are exactly the covered days, in date order, each with the
/// phase in force.
pub open spec fn moon_map_matches(m: Seq<(Date, MoonPhase)>, pool: Map<int, MoonPhase>) -> bool {
    &&& forall|q: int| 0 <= q < m.len() ==> (#[trigger] m[q]).0.valid()
    &&& forall|q1: int, q2: int| 0 <= q1 < q2 < m.len() ==> m[q1].0.index() < m[q2].0.index()
    &&& forall|q: int|
        0 <= q < m.len() ==> phase_on(pool, (#[trigger] m[q]).0.index()) == Some(m[q].1)
    &&& forall|day: int|
        #[trigger] phase_on(pool, day) is Some ==> exists|q: int|
            0 <= q < m.len() && (#[trigger] m[q]).0.index() == day
}

/// Pools the lunar events of all raw rows and fills each phase forward,
/// day by day, until the next event: the complete day-to-phase table.
pub fn extract_moon_phases(raw_moon: Vec<RawMoonRecord>) -> (r: Vec<(Date, MoonPhase)>)
    requires
        forall|i: int| 0 <= i < raw_moon@.len() ==> (#[trigger] raw_moon@[i]).wf(),
    ensures
        moon_map_matches(r@, moon_pool(raw_moon@)),
{
    let mut events: Vec<MoonEvent> = Vec::new();
    let ghost mut pool = Map::<int, MoonPhase>::empty();
    proof {
        assert(raw_moon@.take(0) =~= Seq::<RawMoonRecord>::empty());
    }
    let mut k: usize = 0;
    while k < raw_moon.len()
        invariant
            k <= raw_moon@.len(),
            forall|i: int| 0 <= i < raw_moon@.len() ==> (#[trigger] raw_moon@[i]).wf(),
            events_wf(events@),
            events_represent(events@, pool),
            pool == moon_pool(raw_moon@.take(k as int)),
        decreases raw_moon@.len() - k,
    {
        let rec = raw_moon[k];
        let ghost pool0 = pool;
        if let Some(d) = rec.new_moon {
            insert_event(&mut events, d, MoonPhase::New, Ghost(pool));
            proof {
                pool = pool.insert(d.index(), MoonPhase::New);
            }
        }
        if let Some(d) = rec.first_quarter_moon {
            insert_event(&mut events, d, MoonPhase::FirstQuarter, Ghost(pool));
            proof {
                pool = pool.insert(d.index(), MoonPhase::FirstQuarter);
            }
        }
        if let Some(d) = rec.full_moon {
            insert_event(&mut events, d, MoonPhase::Full, Ghost(pool));
            proof {
                pool = pool.insert(d.index(), MoonPhase::Full);
            }
        }
        if let Some(d) = rec.third_quarter_moon {
            insert_event(&mut events, d, MoonPhase::LastQuarter, Ghost(pool));
            proof {
                pool = pool.insert(d.index(), MoonPhase::LastQuarter);
            }
        }
        proof {
            assert(pool == record_pool(pool0, rec));
            assert(raw_moon@.take(k + 1).drop_last() =~= raw_moon@.take(k as int));
            assert(raw_moon@.take(k + 1).last() == raw_moon@[k as int]);
        }
        k = k + 1;
    }
    proof {
        assert(raw_moon@.take(raw_moon@.len() as int) =~= raw_moon@);
    }
    let ghost es = events@;
    let mut r: Vec<(Date, MoonPhase)> = Vec::new();
    if events.len() >= 2 {
        let base = events[0].idx;
        let mut j: usize = 0;
        let mut d: Date = events[0].date;
        let mut idx: u32 = base;
        while j < events.len() - 1
            invariant
                events@ == es,
                events_wf(es),
                events_represent(es, pool),
                es.len() >= 2,
                j < es.len(),
                base == es[0].idx,
                idx == es[j as int].idx,
                d.valid(),
                d.index() == idx,
                r@.len() == idx - base,
                forall|q: int|
                    0 <= q < r@.len() ==> (#[trigger] r@[q]).0.valid() && r@[q].0.index() == base
                        + q,
                forall|q: int| 0 <= q < r@.len() ==> phase_on(pool, base + q) == Some(r@[q].1),
            decreases es.len() - j,
        {
            let phase = events[j].phase;
            let next_idx = events[j + 1].idx;
            proof {
                assert(es[j as int].idx < es[j + 1].idx);
            }
            while idx < next_idx
                invariant
                    events@ == es,
                    events_wf(es),
                    events_represent(es, pool),
                    es.len() >= 2,
                    j < es.len() - 1,
                    base == es[0].idx,
                    next_idx == es[j + 1].idx,
                    phase == es[j as int].phase,
                    es[j as int].idx <= idx <= next_idx,
                    d.valid(),
                    d.index() == idx,
                    r@.len() == idx - base,
                    forall|q: int|
                        0 <= q < r@.len() ==> (#[trigger] r@[q]).0.valid() && r@[q].0.index()
                            == base + q,
                    forall|q: int| 0 <= q < r@.len() ==> phase_on(pool, base + q) == Some(r@[q].1),
                decreases next_idx - idx,
            {
                r.push((d, phase));
                proof {
                    lemma_phase_interval(es, pool, j as int, idx as int);
                    crate::calendar::lemma_index_year_le(d, es[j + 1].date);
                }
                d = next_day(d);
                idx = idx + 1;
            }
            j = j + 1;
        }
        proof {
            assert(idx == es[es.len() - 1].idx);
        }
    }
    proof {
        assert forall|day: int| #[trigger] phase_on(pool, day) is Some implies exists|q: int|
            0 <= q < r@.len() && (#[trigger] r@[q]).0.index() == day by {
            if es.len() < 2 || day < es[0].idx || day >= es[es.len() - 1].idx {
                lemma_phase_outside(es, pool, day);
            } else {
                let q = day - es[0].idx;
                assert(0 <= q < r@.len() && r@[q].0.index() == day);
            }
        }
    }
    r
}

/// How the derived time dimension relates to its raw inputs: one record
/// per hour of the fixed range, identified by its hour offset, stamped
/// with the hour's date and clock time, carrying the phase in force on
/// its date and the weather observed at exactly its instant.
pub open spec fn time_matches(
    ts: Seq<Time>,
    ws: Seq<RawWeatherRecord>,
    ms: Seq<RawMoonRecord>,
) -> bool {
    &&& ts.len() == total_hours()
    &&& forall|i: int| 0 <= i < ts.len() ==> (#[trigger] ts[i]).time_id == i
    &&& forall|i: int|
        0 <= i < ts.len() ==> (#[trigger] ts[i]).timestamp == (DateTime {
            date: date_plus(start_date(), (i / 24) as nat),
            time: TimeOfDay { hour: (i % 24) as u8, minute: 0 },
        })
    &&& forall|i: int|
        0 <= i < ts.len() ==> (#[trigger] ts[i]).timestamp.date.valid()
            && ts[i].timestamp.date.index() == start_date().index() + i / 24
    &&& forall|i: int|
        0 <= i < ts.len() ==> (#[trigger] ts[i]).moon_phase == phase_on(
            moon_pool(ms),
            start_date().index() + i / 24,
        )
    &&& forall|i: int|
        0 <= i < ts.len() ==> match weather_at(ws, hour_secs(i)) {
            Some(w) => (#[trigger] ts[i]).temperature_bits == Some(w.0) && ts[i].precipitation_bits
                == Some(w.1) && ts[i].rain_bits == Some(w.2),
            None => (#[trigger] ts[i]).temperature_bits is None && ts[i].precipitation_bits is None
                && ts[i].rain_bits is None,
        }
}

impl Time {
    /// Derives the complete hourly time dimension from the raw weather
    /// observations and lunar-event rows.  The sequence is total and
    /// deterministic: one record per hour of the fixed range whatever the
    /// raw data holds, with strictly increasing timestamps at one-hour
    /// spacing and sequential zero-based identifiers.
    #[verifier::rlimit(100)]
    pub fn from(raw_weather: Vec<RawWeatherRecord>, raw_moon: Vec<RawMoonRecord>) -> (r: Vec<Time>)
        requires
            forall|i: int| 0 <= i < raw_moon@.len() ==> (#[trigger] raw_moon@[i]).wf(),
        ensures
            time_matches(r@, raw_weather@, raw_moon@),
            r@.len() == total_hours(),
            forall|i: int|
                0 <= i < r@.len() ==> (#[trigger] r@[i]).timestamp.hour_index() == start_date().index()
                    * 24 + i,
            forall|i: int, j: int|
                0 <= i < j < r@.len() ==> r@[i].timestamp.hour_index()
                    < r@[j].timestamp.hour_index(),
    {
        let ghost pool = moon_pool(raw_moon@);
        let moon = extract_moon_phases(raw_moon);
        let ghost mm = moon@;
        let mut moon_idx: Vec<(u32, MoonPhase)> = Vec::new();
        let mut q: usize = 0;
        while q < moon.len()
            invariant
                q <= mm.len(),
                moon@ == mm,
                moon_map_matches(mm, pool),
                moon_idx@.len() == q,
                forall|t: int|
                    0 <= t < q ==> (#[trigger] moon_idx@[t]).0 == mm[t].0.index()
                        && moon_idx@[t].1 == mm[t].1,
            decreases mm.len() - q,
        {
            moon_idx.push((moon[q].0.day_index(), moon[q].1));
            q = q + 1;
        }
        let start = Date { year: 2000, month: 1, day: 1 };
        let end = Date { year: 2022, month: 12, day: 31 };
        let start_idx = start.day_index();
        let end_idx = end.day_index();
        proof {
            crate::calendar::lemma_index_within_year(start);
            crate::calendar::lemma_index_within_year(end);
            crate::calendar::lemma_days_before_year_monotone(2001, 2022);
        }
        let total: usize = ((end_idx - start_idx) as usize) * 24 + 1;
        let mut table: Vec<Option<(u32, u32, u32)>> = vec![None; total];
        let start_secs: i64 = (start_idx as i64) * 86400;
        proof {
            crate::calendar::lemma_days_before_year_bound(2000);
            assert(raw_weather@.take(0) =~= Seq::<RawWeatherRecord>::empty());
        }
        let mut k: usize = 0;
        while k < raw_weather.len()
            invariant
                k <= raw_weather@.len(),
                table@.len() == total,
                total == total_hours(),
                start_idx == start_date().index(),
                start_secs == start_date().index() * 86400,
                start_secs >= 1,
                forall|t: int|
                    0 <= t < total ==> table@[t] == weather_at(
                        raw_weather@.take(k as int),
                        hour_secs(t),
                    ),
            decreases raw_weather@.len() - k,
        {
            let rec = raw_weather[k];
            proof {
                assert(raw_weather@.take(k + 1).drop_last() =~= raw_weather@.take(k as int));
                assert(raw_weather@.take(k + 1).last() == raw_weather@[k as int]);
            }
            let ghost ws1 = raw_weather@.take(k + 1);
            if rec.time.nanos == 0 && rec.time.secs >= start_secs {
                let relu: u64 = (rec.time.secs - start_secs) as u64;
                if relu % 3600 == 0 && relu / 3600 < total as u64 {
                    let h = (relu / 3600) as usize;
                    table[h] = Some(
                        (rec.temperature_bits, rec.precipitation_bits, rec.rain_bits),
                    );
                    proof {
                        lemma_fundamental_div_mod(relu as int, 3600);
                        assert(rec.time.secs == hour_secs(h as int));
                        assert forall|t: int| 0 <= t < total implies table@[t] == weather_at(
                            ws1,
                            hour_secs(t),
                        ) by {
                            if t != h {
                                assert(hour_secs(t) != rec.time.secs);
                            }
                        }
                    }
                } else {
                    proof {
                        assert forall|t: int| 0 <= t < total implies table@[t] == weather_at(
                            ws1,
                            hour_secs(t),
                        ) by {
                            if rec.time.secs == hour_secs(t) {
                                lemma_fundamental_div_mod_converse_mod(relu as int, 3600, t, 0);
                                lemma_fundamental_div_mod_converse_div(relu as int, 3600, t, 0);
                            }
                        }
                    }
                }
            } else {
                proof {
                    assert forall|t: int| 0 <= t < total implies table@[t] == weather_at(
                        ws1,
                        hour_secs(t),
                    ) by {
                        assert(hour_secs(t) >= start_secs);
                    }
                }
            }
            k = k + 1;
        }
        proof {
            assert(raw_weather@.take(raw_weather@.len() as int) =~= raw_weather@);
        }
        let mut r: Vec<Time> = Vec::new();
        let mut i: usize = 0;
        let mut cur_date = start;
        let mut cur_hour: u8 = 0;
        let mut cur_idx: u32 = start_idx;
        let mut mp: usize = 0;
        while i < total
            invariant
                i <= total,
                total == total_hours(),
                start_idx == start_date().index(),
                end_idx == end_date().index(),
                end_idx <= 24_000_366,
                end == end_date(),
                r@.len() == i,
                cur_hour < 24,
                cur_date.valid(),
                cur_idx == cur_date.index(),
                start_idx <= cur_idx <= end_idx,
                24 * (cur_idx - start_idx) + cur_hour == i,
                cur_date == date_plus(start_date(), (cur_idx - start_idx) as nat),
                table@.len() == total,
                forall|t: int|
                    0 <= t < total ==> table@[t] == weather_at(raw_weather@, hour_secs(t)),
                moon_map_matches(mm, pool),
                pool == moon_pool(raw_moon@),
                moon_idx@.len() == mm.len(),
                forall|t: int|
                    0 <= t < mm.len() ==> (#[trigger] moon_idx@[t]).0 == mm[t].0.index()
                        && moon_idx@[t].1 == mm[t].1,
                mp <= moon_idx@.len(),
                forall|t: int| 0 <= t < mp ==> (#[trigger] moon_idx@[t]).0 < cur_idx,
                forall|p: int| 0 <= p < i ==> (#[trigger] r@[p]).time_id == p,
                forall|p: int|
                    0 <= p < i ==> (#[trigger] r@[p]).timestamp == (DateTime {
                        date: date_plus(start_date(), (p / 24) as nat),
                        time: TimeOfDay { hour: (p % 24) as u8, minute: 0 },
                    }),
                forall|p: int|
                    0 <= p < i ==> (#[trigger] r@[p]).timestamp.date.valid()
                        && r@[p].timestamp.date.index() == start_date().index() + p / 24,
                forall|p: int|
                    0 <= p < i ==> (#[trigger] r@[p]).moon_phase == phase_on(
                        pool,
                        start_date().index() + p / 24,
                    ),
                forall|p: int|
                    0 <= p < i ==> match weather_at(raw_weather@, hour_secs(p)) {
                        Some(w) => (#[trigger] r@[p]).temperature_bits == Some(w.0)
                            && r@[p].precipitation_bits == Some(w.1) && r@[p].rain_bits == Some(
                            w.2,
                        ),
                        None => (#[trigger] r@[p]).temperature_bits is None
                            && r@[p].precipitation_bits is None && r@[p].rain_bits is None,
                    },
            decreases total - i,
        {
            while mp < moon_idx.len() && moon_idx[mp].0 < cur_idx
                invariant
                    mp <= moon_idx@.len(),
                    forall|t: int| 0 <= t < mp ==> (#[trigger] moon_idx@[t]).0 < cur_idx,
                decreases moon_idx@.len() - mp,
            {
                mp = mp + 1;
            }
            let moon_phase = if mp < moon_idx.len() && moon_idx[mp].0 == cur_idx {
                Some(moon_idx[mp].1)
            } else {
                None
            };
            proof {
                if mp < moon_idx@.len() && moon_idx@[mp as int].0 == cur_idx {
                    assert(phase_on(pool, mm[mp as int].0.index()) == Some(mm[mp as int].1));
                } else {
                    if phase_on(pool, cur_idx as int) is Some {
                        let q0 = choose|qq: int|
                            0 <= qq < mm.len() && (#[trigger] mm[qq]).0.index() == cur_idx as int;
                        if q0 < mp {
                            assert(moon_idx@[q0].0 < cur_idx);
                        } else if q0 == mp {
                            assert(moon_idx@[mp as int].0 == cur_idx);
                        } else {
                            assert(mm[mp as int].0.index() < mm[q0].0.index());
                            assert(moon_idx@[mp as int].0 >= cur_idx);
                        }
                        assert(false);
                    }
                }
            }
            let weather = table[i];
            let rec = Time {
                time_id: i as u32,
                timestamp: DateTime {
                    date: cur_date,
                    time: TimeOfDay { hour: cur_hour, minute: 0 },
                },
                moon_phase,
                temperature_bits: match weather {
                    Some(w) => Some(w.0),
                    None => None,
                },
                precipitation_bits: match weather {
                    Some(w) => Some(w.1),
                    None => None,
                },
                rain_bits: match weather {
                    Some(w) => Some(w.2),
                    None => None,
                },
            };
            r.push(rec);
            proof {
                lemma_fundamental_div_mod_converse_div(
                    i as int,
                    24,
                    cur_idx - start_idx,
                    cur_hour as int,
                );
                lemma_fundamental_div_mod_converse_mod(
                    i as int,
                    24,
                    cur_idx - start_idx,
                    cur_hour as int,
                );
            }
            i = i + 1;
            if cur_hour == 23 {
                cur_hour = 0;
                proof {
                    crate::calendar::lemma_index_year_le(cur_date, end);
                    crate::calendar::lemma_date_plus_snoc(
                        start_date(),
                        (cur_idx - start_idx) as nat,
                    );
                }
                cur_date = next_day(cur_date);
                cur_idx = cur_idx + 1;
            } else {
                cur_hour = cur_hour + 1;
            }
        }
        proof {
            assert forall|p: int|
                0 <= p < r@.len() implies (#[trigger] r@[p]).timestamp.hour_index()
                == start_date().index() * 24 + p by {
                lemma_fundamental_div_mod(p, 24);
            }
        }
        r
    }
}

/// Time-dimension derivation is deterministic: any two sequences that
/// match the same raw inputs are equal, record for record.
pub proof fn lemma_time_normalization_deterministic(
    ts1: Seq<Time>,
    ts2: Seq<Time>,
    ws: Seq<RawWeatherRecord>,
    ms: Seq<RawMoonRecord>,
)
    requires
        time_matches(ts1, ws, ms),
        time_matches(ts2, ws, ms),
    ensures
        ts1 == ts2,
{
    assert forall|i: int| 0 <= i < ts1.len() implies ts1[i] == ts2[i] by {
        match weather_at(ws, hour_secs(i)) {
            Some(w) => {},
            None => {},
        }
    }
    assert(ts1 =~= ts2);
}

} // verus!
