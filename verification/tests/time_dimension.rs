use nyc_incidents::base_database::time::{extract_moon_phases, MoonPhase, Time};
use nyc_incidents::calendar::Date;
use nyc_incidents::parse::parse_rfc3339;
use nyc_incidents::raw::moon::RawMoonRecord;
use nyc_incidents::raw::weather::RawWeatherRecord;

const TOTAL_HOURS: usize = 201_601;

fn moon_events() -> Vec<RawMoonRecord> {
    vec![RawMoonRecord {
        new_moon: Some(Date { year: 2000, month: 1, day: 6 }),
        first_quarter_moon: Some(Date { year: 2000, month: 1, day: 14 }),
        full_moon: Some(Date { year: 2000, month: 1, day: 21 }),
        third_quarter_moon: None,
    }]
}

fn phase_of(map: &[(Date, MoonPhase)], date: Date) -> Option<MoonPhase> {
    map.iter().find(|e| e.0 == date).map(|e| e.1)
}

#[test]
fn moon_phase_fill_forward() {
    let map = extract_moon_phases(moon_events());
    for day in 6..=13 {
        let d = Date { year: 2000, month: 1, day };
        assert_eq!(phase_of(&map, d), Some(MoonPhase::New), "Jan {day}");
    }
    for day in 14..=20 {
        let d = Date { year: 2000, month: 1, day };
        assert_eq!(phase_of(&map, d), Some(MoonPhase::FirstQuarter), "Jan {day}");
    }
    for day in 1..=5 {
        let d = Date { year: 2000, month: 1, day };
        assert_eq!(phase_of(&map, d), None, "before the first event");
    }
    assert_eq!(
        phase_of(&map, Date { year: 2000, month: 1, day: 21 }),
        None,
        "the last event starts no interval"
    );
}

#[test]
fn moon_phase_same_date_pooling() {
    // Two events on one date: one of the two phases wins; other dates are
    // unaffected.
    let mut recs = moon_events();
    recs.push(RawMoonRecord {
        new_moon: None,
        first_quarter_moon: None,
        full_moon: Some(Date { year: 2000, month: 1, day: 14 }),
        third_quarter_moon: None,
    });
    let map = extract_moon_phases(recs);
    let d = Date { year: 2000, month: 1, day: 14 };
    let p = phase_of(&map, d);
    assert!(p == Some(MoonPhase::Full) || p == Some(MoonPhase::FirstQuarter));
    assert_eq!(phase_of(&map, Date { year: 2000, month: 1, day: 13 }), Some(MoonPhase::New));
}

#[test]
fn time_sequence_shape() {
    let times = Time::from(vec![], vec![]);
    assert_eq!(times.len(), TOTAL_HOURS);
    assert_eq!(times[0].time_id, 0);
    assert_eq!(times[0].timestamp.date, Date { year: 2000, month: 1, day: 1 });
    assert_eq!(times[0].timestamp.time.hour, 0);
    let last = &times[TOTAL_HOURS - 1];
    assert_eq!(last.time_id, (TOTAL_HOURS - 1) as u32);
    assert_eq!(last.timestamp.date, Date { year: 2022, month: 12, day: 31 });
    assert_eq!(last.timestamp.time.hour, 0);
    assert_eq!(last.timestamp.time.minute, 0);
    let mut prev = times[0].timestamp;
    for (i, t) in times.iter().enumerate() {
        assert_eq!(t.time_id as usize, i);
        assert_eq!(t.timestamp.time.minute, 0);
        if i > 0 {
            let hop = if t.timestamp.time.hour > 0 {
                t.timestamp.time.hour == prev.time.hour + 1 && t.timestamp.date == prev.date
            } else {
                prev.time.hour == 23 && t.timestamp.date != prev.date
            };
            assert!(hop, "one-hour spacing broken at {i}");
        }
        prev = t.timestamp;
    }
    // Without raw data no record carries weather or a phase.
    assert!(times[12345].moon_phase.is_none());
    assert!(times[12345].temperature_bits.is_none());
}

fn hour_of(date: Date, hour: u32) -> usize {
    let start = Date { year: 2000, month: 1, day: 1 };
    ((date.day_index() - start.day_index()) * 24 + hour) as usize
}

#[test]
fn weather_joins_on_the_exact_hour() {
    let stamp = "2016-01-03T05:00:00+00:00";
    let w = RawWeatherRecord {
        time: parse_rfc3339(stamp).unwrap(),
        temperature_bits: 5.5f32.to_bits(),
        precipitation_bits: 0.25f32.to_bits(),
        rain_bits: 0.0f32.to_bits(),
    };
    let off_hour = RawWeatherRecord {
        time: parse_rfc3339("2016-01-03T06:30:00+00:00").unwrap(),
        temperature_bits: 9.0f32.to_bits(),
        precipitation_bits: 9.0f32.to_bits(),
        rain_bits: 9.0f32.to_bits(),
    };
    let times = Time::from(vec![w, off_hour], vec![]);
    let at = &times[hour_of(Date { year: 2016, month: 1, day: 3 }, 5)];
    assert_eq!(at.temperature_bits.map(f32::from_bits), Some(5.5));
    assert_eq!(at.precipitation_bits.map(f32::from_bits), Some(0.25));
    assert_eq!(at.rain_bits.map(f32::from_bits), Some(0.0));
    let next = &times[hour_of(Date { year: 2016, month: 1, day: 3 }, 6)];
    assert!(next.temperature_bits.is_none(), "a half-hour stamp matches no dimension hour");
    assert!(next.precipitation_bits.is_none());
    assert!(next.rain_bits.is_none());
    let before = &times[hour_of(Date { year: 2016, month: 1, day: 3 }, 4)];
    assert!(
        before.temperature_bits.is_none() && before.precipitation_bits.is_none()
            && before.rain_bits.is_none(),
        "absent weather leaves all three fields absent together"
    );
}

#[test]
fn weather_offset_resolves_to_utc() {
    let w = RawWeatherRecord {
        time: parse_rfc3339("2016-06-01T07:00:00+02:00").unwrap(),
        temperature_bits: 20.0f32.to_bits(),
        precipitation_bits: 0.0f32.to_bits(),
        rain_bits: 0.0f32.to_bits(),
    };
    let times = Time::from(vec![w], vec![]);
    let at = &times[hour_of(Date { year: 2016, month: 6, day: 1 }, 5)];
    assert_eq!(at.temperature_bits.map(f32::from_bits), Some(20.0));
}

#[test]
fn weather_duplicate_timestamp_last_wins() {
    let stamp = parse_rfc3339("2020-02-29T12:00:00Z").unwrap();
    let first = RawWeatherRecord {
        time: stamp,
        temperature_bits: 1.0f32.to_bits(),
        precipitation_bits: 0.0f32.to_bits(),
        rain_bits: 0.0f32.to_bits(),
    };
    let second = RawWeatherRecord {
        time: stamp,
        temperature_bits: 2.0f32.to_bits(),
        precipitation_bits: 0.5f32.to_bits(),
        rain_bits: 0.5f32.to_bits(),
    };
    let times = Time::from(vec![first, second], vec![]);
    let at = &times[hour_of(Date { year: 2020, month: 2, day: 29 }, 12)];
    assert_eq!(at.temperature_bits.map(f32::from_bits), Some(2.0));
}

#[test]
fn moon_phase_reaches_the_dimension() {
    let times = Time::from(vec![], moon_events());
    let at = |day: u8, hour: u32| {
        times[hour_of(Date { year: 2000, month: 1, day }, hour)].moon_phase
    };
    assert_eq!(at(6, 0), Some(MoonPhase::New));
    assert_eq!(at(13, 23), Some(MoonPhase::New));
    assert_eq!(at(14, 0), Some(MoonPhase::FirstQuarter));
    assert_eq!(at(20, 11), Some(MoonPhase::FirstQuarter));
    assert_eq!(at(5, 23), None);
    assert_eq!(at(21, 0), None);
}

#[test]
fn time_derivation_is_deterministic() {
    let weather = vec![RawWeatherRecord {
        time: parse_rfc3339("2016-01-03T05:00:00Z").unwrap(),
        temperature_bits: 5.5f32.to_bits(),
        precipitation_bits: 0.0f32.to_bits(),
        rain_bits: 0.0f32.to_bits(),
    }];
    let once = Time::from(weather.clone(), moon_events());
    let twice = Time::from(weather, moon_events());
    assert_eq!(once, twice);
}
