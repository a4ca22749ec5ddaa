//! Tests of the time value model: parsing, formatting, round trips.

use somoy::DateTime;
use somoy::errors::Error;

#[test]
fn original_is_utc_plus_offset() {
    let d = DateTime { time: 100, offset: Some(3600), ms: None };
    assert_eq!(d.to_utc(), 100);
    assert_eq!(d.to_original(), 3700);
    let n = DateTime { time: 100, offset: None, ms: None };
    assert_eq!(n.to_original(), n.to_utc());
}

#[test]
fn parse_bare_timestamp() {
    let d = DateTime::from_string("2023-05-01 10:15:00").unwrap();
    assert_eq!(d.time, 1682936100);
    assert_eq!(d.offset, None);
    assert_eq!(d.ms, None);
    let t = DateTime::from_string("2023-05-01T10:15:00").unwrap();
    assert_eq!(t.time, 1682936100);
    assert_eq!(t.offset, None);
}

#[test]
fn parse_with_explicit_offset() {
    let d = DateTime::from_string("2023-05-01T10:15:00+02:00").unwrap();
    assert_eq!(d.offset, Some(7200));
    assert_eq!(d.time, 1682936100 - 7200);
    assert_eq!(d.to_original(), 1682936100);

    let w = DateTime::from_string("2023-05-01T10:15:00-05:30").unwrap();
    assert_eq!(w.offset, Some(-19800));
    assert_eq!(w.time, 1682936100 + 19800);
    assert_eq!(w.to_original(), 1682936100);

    let z = DateTime::from_string("2023-05-01T10:15:00Z").unwrap();
    assert_eq!(z.offset, Some(0));
    assert_eq!(z.time, 1682936100);
}

#[test]
fn parse_drops_fraction() {
    let d = DateTime::from_string("2023-05-01T10:15:00.739").unwrap();
    assert_eq!(d.time, 1682936100);
    assert_eq!(d.ms, None);
    let o = DateTime::from_string("2023-05-01T10:15:00.5+02:00").unwrap();
    assert_eq!(o.to_original(), 1682936100);
}

#[test]
fn parse_rejects_bad_texts() {
    assert_eq!(DateTime::from_string("hello"), Err(Error::Parse));
    assert_eq!(DateTime::from_string(""), Err(Error::Parse));
    assert_eq!(DateTime::from_string("2023-05-01"), Err(Error::Parse));
    assert_eq!(DateTime::from_string("2023-13-01 00:00:00"), Err(Error::Parse));
    assert_eq!(DateTime::from_string("2023-02-30 00:00:00"), Err(Error::Parse));
    assert_eq!(DateTime::from_string("2023-05-01 24:00:00"), Err(Error::Parse));
    assert_eq!(DateTime::from_string("2023-05-01 10:15:00."), Err(Error::Parse));
    assert_eq!(DateTime::from_string("2023-05-01 10:15:00+24:00"), Err(Error::Parse));
    assert_eq!(DateTime::from_string("2023-05-01 10:15:00 junk"), Err(Error::Parse));
}

#[test]
fn parse_handles_leap_years() {
    let d = DateTime::from_string("2024-02-29 00:00:00").unwrap();
    assert_eq!(d.time, 1709164800);
    assert_eq!(DateTime::from_string("2023-02-29 00:00:00"), Err(Error::Parse));
    assert_eq!(DateTime::from_string("1900-02-29 00:00:00"), Err(Error::Parse));
    let c = DateTime::from_string("2000-02-29 00:00:00").unwrap();
    assert_eq!(c.time, 951782400);
}

#[test]
fn parse_before_epoch() {
    let d = DateTime::from_string("1969-12-31 23:59:59").unwrap();
    assert_eq!(d.time, -1);
}

#[test]
fn format_matches_calendar() {
    let d = DateTime { time: 1682936100, offset: None, ms: None };
    assert_eq!(d.as_string().unwrap(), "2023-05-01 10:15:00");
    let o = DateTime { time: 1682936100 - 7200, offset: Some(7200), ms: None };
    // The wall-clock value is formatted; the offset is not re-applied.
    assert_eq!(o.as_string().unwrap(), "2023-05-01 10:15:00");
}

#[test]
fn format_parse_round_trip() {
    for &(time, offset) in
        [(1682936100i64, None), (0, None), (-1, None), (1682928900, Some(7200i64)), (
            951782400,
            Some(-19800),
        )].iter()
    {
        let d = DateTime { time, offset, ms: None };
        let text = d.as_string().unwrap();
        let back = DateTime::from_string(&text).unwrap();
        assert_eq!(back.to_original(), d.to_original());
    }
}

#[test]
fn sony_time_parses_vendor_format() {
    assert_eq!(somoy::sony_time("2022:03:04 05:06:07"), Some(1646370367));
    assert_eq!(somoy::sony_time("2022-03-04 05:06:07"), None);
    assert_eq!(somoy::sony_time(""), None);
}

#[test]
fn error_messages_are_short_texts() {
    assert!(!Error::Parse.message().is_empty());
    assert!(!Error::NotFound(somoy::errors::Role::CreateDate).message().is_empty());
}

#[test]
fn parse_calendar_extremes() {
    let lo = DateTime::from_string("0001-01-01 00:00:00").unwrap();
    assert_eq!(lo.time, -62135596800);
    let hi = DateTime::from_string("9999-12-31 23:59:59").unwrap();
    assert_eq!(hi.time, 253402300799);
    // Year zero lies outside the grammar.
    assert_eq!(DateTime::from_string("0000-01-01 00:00:00"), Err(Error::Parse));
}
