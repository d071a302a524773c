use nyc_incidents::calendar::{Date, Instant, TimeOfDay};
use nyc_incidents::error::LoadError;
use nyc_incidents::parse::{parse_date, parse_rfc3339, parse_time, parse_u16, parse_u32, parse_u8};
use nyc_incidents::raw::crashes::RawCrashRecord;
use nyc_incidents::raw::moon::RawMoonRecord;
use nyc_incidents::raw::persons::RawPersonRecord;
use nyc_incidents::raw::weather::RawWeatherRecord;

#[test]
fn unsigned_parsing_follows_str_parse() {
    assert_eq!(parse_u8("0"), Some(0));
    assert_eq!(parse_u8("255"), Some(255));
    assert_eq!(parse_u8("+25"), Some(25));
    assert_eq!(parse_u8("256"), None);
    assert_eq!(parse_u8("-1"), None);
    assert_eq!(parse_u8(""), None);
    assert_eq!(parse_u8("1.5"), None);
    assert_eq!(parse_u16("00042"), Some(42));
    assert_eq!(parse_u16("65536"), None);
    assert_eq!(parse_u32("4294967295"), Some(u32::MAX));
    assert_eq!(parse_u32("4294967296"), None);
    assert_eq!(parse_u32("99999999999999999999"), None);
}

#[test]
fn date_parsing() {
    assert_eq!(parse_date("09/23/2021"), Some(Date { year: 2021, month: 9, day: 23 }));
    assert_eq!(parse_date("9/3/2021"), Some(Date { year: 2021, month: 9, day: 3 }));
    assert_eq!(parse_date("2/29/2000"), Some(Date { year: 2000, month: 2, day: 29 }));
    assert_eq!(parse_date("2/29/2001"), None, "2001 is not a leap year");
    assert_eq!(parse_date("2/29/1900"), None, "1900 is not a leap year");
    assert_eq!(parse_date("2/29/2004"), Some(Date { year: 2004, month: 2, day: 29 }));
    assert_eq!(parse_date("13/01/2000"), None);
    assert_eq!(parse_date("0/10/2000"), None);
    assert_eq!(parse_date("4/31/2000"), None);
    assert_eq!(parse_date("09/23/21"), None, "the year takes four digits");
    assert_eq!(parse_date("09-23-2021"), None);
    assert_eq!(parse_date(""), None);
}

#[test]
fn time_parsing() {
    assert_eq!(parse_time("7:05"), Some(TimeOfDay { hour: 7, minute: 5 }));
    assert_eq!(parse_time("07:05"), Some(TimeOfDay { hour: 7, minute: 5 }));
    assert_eq!(parse_time("23:59"), Some(TimeOfDay { hour: 23, minute: 59 }));
    assert_eq!(parse_time("0:00"), Some(TimeOfDay { hour: 0, minute: 0 }));
    assert_eq!(parse_time("24:00"), None);
    assert_eq!(parse_time("7:60"), None);
    assert_eq!(parse_time("7:5"), None, "the minute takes two digits");
    assert_eq!(parse_time("7:051"), None);
    assert_eq!(parse_time(""), None);
}

#[test]
fn rfc3339_parsing() {
    let base = parse_rfc3339("2016-01-01T00:00:00+00:00").unwrap();
    assert_eq!(parse_rfc3339("2016-01-01T00:00:00Z"), Some(base));
    assert_eq!(parse_rfc3339("2016-01-01t00:00:00z"), Some(base));
    let shifted = parse_rfc3339("2016-01-01T05:00:00+05:00").unwrap();
    assert_eq!(shifted.secs, base.secs, "the offset resolves to the same instant");
    let behind = parse_rfc3339("2015-12-31T19:00:00-05:00").unwrap();
    assert_eq!(behind.secs, base.secs);
    let hour_later = parse_rfc3339("2016-01-01T01:00:00Z").unwrap();
    assert_eq!(hour_later.secs - base.secs, 3600);
    let frac = parse_rfc3339("2016-01-01T00:00:00.5Z").unwrap();
    assert_eq!(frac, Instant { secs: base.secs, nanos: 500_000_000 });
    assert_eq!(parse_rfc3339("2016-01-01T00:00:00.1234567890Z"), None);
    assert_eq!(parse_rfc3339("2016-01-01 00:00:00Z"), None);
    assert_eq!(parse_rfc3339("2016-02-30T00:00:00Z"), None);
    assert_eq!(parse_rfc3339("2016-01-01T24:00:00Z"), None);
    assert_eq!(parse_rfc3339("2016-01-01T00:00:00"), None, "the offset is mandatory");
    assert_eq!(parse_rfc3339(""), None);
}

#[test]
fn crash_row_errors() {
    let mut fields: Vec<String> = vec![String::new(); 24];
    fields[0] = "09/23/2021".to_string();
    fields[1] = "7:05".to_string();
    fields[23] = "123".to_string();
    assert!(RawCrashRecord::from_row(&fields).is_ok());

    let short: Vec<String> = vec![String::new(); 23];
    assert_eq!(RawCrashRecord::from_row(&short).unwrap_err(), LoadError::MissingColumns);

    let mut bad_id = fields.clone();
    bad_id[23] = "abc".to_string();
    assert_eq!(RawCrashRecord::from_row(&bad_id).unwrap_err(), LoadError::InvalidId);

    let mut bad_date = fields.clone();
    bad_date[0] = "2021-09-23".to_string();
    assert_eq!(RawCrashRecord::from_row(&bad_date).unwrap_err(), LoadError::InvalidDate);

    let mut bad_time = fields.clone();
    bad_time[1] = "7 o'clock".to_string();
    assert_eq!(RawCrashRecord::from_row(&bad_time).unwrap_err(), LoadError::InvalidTime);
}

#[test]
fn person_row_errors() {
    let mut fields: Vec<String> = vec![String::new(); 21];
    fields[0] = "1".to_string();
    fields[1] = "2".to_string();
    fields[2] = "1/2/2003".to_string();
    fields[3] = "4:05".to_string();
    assert!(RawPersonRecord::from_row(&fields).is_ok());

    let short: Vec<String> = vec![String::new(); 20];
    assert_eq!(RawPersonRecord::from_row(&short).unwrap_err(), LoadError::MissingColumns);

    let mut bad_id = fields.clone();
    bad_id[1] = String::new();
    assert_eq!(RawPersonRecord::from_row(&bad_id).unwrap_err(), LoadError::InvalidId);

    let mut bad_date = fields.clone();
    bad_date[2] = "1/32/2003".to_string();
    assert_eq!(RawPersonRecord::from_row(&bad_date).unwrap_err(), LoadError::InvalidDate);

    let mut bad_time = fields.clone();
    bad_time[3] = "25:00".to_string();
    assert_eq!(RawPersonRecord::from_row(&bad_time).unwrap_err(), LoadError::InvalidTime);
}

#[test]
fn moon_row_tolerates_sparse_dates() {
    let fields = vec![
        "1/6/2000".to_string(),
        String::new(),
        "not a date".to_string(),
        "1/31/2000".to_string(),
    ];
    let m = RawMoonRecord::from_row(&fields).unwrap();
    assert_eq!(m.new_moon, Some(Date { year: 2000, month: 1, day: 6 }));
    assert_eq!(m.first_quarter_moon, None);
    assert_eq!(m.full_moon, None);
    assert_eq!(m.third_quarter_moon, Some(Date { year: 2000, month: 1, day: 31 }));

    let short = vec![String::new(); 3];
    assert_eq!(RawMoonRecord::from_row(&short), Err(LoadError::MissingColumns));
}

#[test]
fn weather_row_errors() {
    let fields = vec![
        "2016-01-01T05:00:00+00:00".to_string(),
        "5.5".to_string(),
        "0.0".to_string(),
        "0.1".to_string(),
    ];
    let bits = (5.5f32.to_bits(), 0.0f32.to_bits(), 0.1f32.to_bits());
    let w = RawWeatherRecord::from_row(&fields, bits.0, bits.1, bits.2).unwrap();
    assert_eq!(w.time, parse_rfc3339("2016-01-01T05:00:00Z").unwrap());
    assert_eq!(f32::from_bits(w.temperature_bits), 5.5);
    assert_eq!(f32::from_bits(w.rain_bits), 0.1);

    let short = vec![String::new(); 3];
    assert_eq!(
        RawWeatherRecord::from_row(&short, 0, 0, 0),
        Err(LoadError::MissingColumns)
    );

    let mut bad = fields.clone();
    bad[0] = "01/01/2016 05:00".to_string();
    assert_eq!(
        RawWeatherRecord::from_row(&bad, 0, 0, 0),
        Err(LoadError::InvalidTimestamp)
    );
}

#[test]
fn fields_are_trimmed() {
    let mut fields: Vec<String> = vec![String::new(); 24];
    fields[0] = " 09/23/2021 ".to_string();
    fields[1] = "\t7:05".to_string();
    fields[18] = "  Unsafe Speed  ".to_string();
    fields[23] = " 99 ".to_string();
    let raw = RawCrashRecord::from_row(&fields).unwrap();
    assert_eq!(raw.collision_id, 99);
    assert_eq!(raw.crash_date, Date { year: 2021, month: 9, day: 23 });
    assert_eq!(raw.contributing_factor_vehicle_1, "Unsafe Speed".to_string());
}
