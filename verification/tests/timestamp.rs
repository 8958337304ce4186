use lotide::timestamp::{read_http_date, Timestamp, FIRST_SECOND, LAST_SECOND};
use lotide::{TimestampOrLatest, TimestampOrLatestParseError};

#[test]
fn latest_and_seconds_are_read() {
    assert_eq!(TimestampOrLatest::from_str("latest").unwrap(), TimestampOrLatest::Latest);
    assert_eq!(
        TimestampOrLatest::from_str("1431648000").unwrap(),
        TimestampOrLatest::Timestamp(Timestamp { secs: 1431648000, nanos: 0, offset: 0 })
    );
    assert_eq!(
        TimestampOrLatest::from_str("-1").unwrap(),
        TimestampOrLatest::Timestamp(Timestamp { secs: -1, nanos: 0, offset: 0 })
    );
}

#[test]
fn what_is_no_number_is_refused_as_number() {
    for s in ["", "Latest", "12a", "1.5", "99999999999999999999"] {
        assert!(matches!(
            TimestampOrLatest::from_str(s),
            Err(TimestampOrLatestParseError::Number(_))
        ));
    }
}

#[test]
fn seconds_beyond_the_calendar_are_refused_as_timestamp() {
    assert!(matches!(
        TimestampOrLatest::from_str("9223372036854775807"),
        Err(TimestampOrLatestParseError::Timestamp)
    ));
    assert!(matches!(
        TimestampOrLatest::from_str("-9223372036854775808"),
        Err(TimestampOrLatestParseError::Timestamp)
    ));
}

#[test]
fn positions_are_written_back() {
    assert_eq!(TimestampOrLatest::Latest.to_string(), "latest");
    let t = TimestampOrLatest::from_str("1431648000").unwrap();
    assert_eq!(t.to_string(), "1431648000");
    assert_eq!(TimestampOrLatest::from_str(&t.to_string()).unwrap(), t);
}

#[test]
fn moments_are_written_after_rfc3339() {
    let t = Timestamp { secs: 1431648000, nanos: 0, offset: 0 };
    assert_eq!(t.to_rfc3339().unwrap(), "2015-05-15T00:00:00+00:00");
    let t = Timestamp { secs: 1431648000, nanos: 500_000_000, offset: 3600 };
    assert_eq!(t.to_rfc3339().unwrap(), "2015-05-15T01:00:00.500+01:00");
    assert_eq!(Timestamp { secs: i64::MAX, nanos: 0, offset: 0 }.to_rfc3339(), None);
    assert_eq!(Timestamp { secs: 0, nanos: 0, offset: 100_000 }.to_rfc3339(), None);
    assert_eq!(t.timestamp(), 1431648000);
}

#[test]
fn the_calendar_runs_from_its_first_second_to_its_last() {
    assert_eq!((FIRST_SECOND, LAST_SECOND), (-8334601228800, 8210266876799));
    for secs in [FIRST_SECOND, FIRST_SECOND + 1, 0, 1600000000, LAST_SECOND - 1, LAST_SECOND] {
        assert_eq!(
            TimestampOrLatest::from_str(&secs.to_string()).unwrap(),
            TimestampOrLatest::Timestamp(Timestamp { secs, nanos: 0, offset: 0 })
        );
    }
    for secs in [FIRST_SECOND - 1, LAST_SECOND + 1] {
        assert!(matches!(
            TimestampOrLatest::from_str(&secs.to_string()),
            Err(TimestampOrLatestParseError::Timestamp)
        ));
    }
    let first = Timestamp { secs: FIRST_SECOND, nanos: 0, offset: 0 };
    assert_eq!(first.to_rfc3339().unwrap(), "-262143-01-01T00:00:00+00:00");
    let last = Timestamp { secs: LAST_SECOND, nanos: 0, offset: 0 };
    assert_eq!(last.to_rfc3339().unwrap(), "+262142-12-31T23:59:59+00:00");
}

#[test]
fn moments_at_the_edge_of_the_calendar_are_written_in_any_zone() {
    for secs in [FIRST_SECOND, LAST_SECOND] {
        for offset in [-86_399, -3600, 3600, 86_399] {
            let written = Timestamp { secs, nanos: 999_999_999, offset }.to_rfc3339();
            assert!(written.is_some(), "{} {}", secs, offset);
        }
        for offset in [-86_400, 86_400, i32::MIN, i32::MAX] {
            assert_eq!(Timestamp { secs, nanos: 0, offset }.to_rfc3339(), None);
        }
    }
    assert_eq!(Timestamp { secs: 0, nanos: 2_000_000_000, offset: 0 }.to_rfc3339(), None);
}

#[test]
fn the_date_of_a_request_is_read() {
    assert_eq!(read_http_date("Thu, 05 Jan 2023 21:31:40 GMT"), Some(1672954300));
    assert_eq!(read_http_date("Thu, 01 Jan 1970 00:00:00 GMT"), Some(0));
    assert_eq!(read_http_date("Fri, 15 May 2015 02:00:00 +0200"), Some(1431648000));
    assert_eq!(read_http_date("2015-05-15T00:00:00Z"), None);
    assert_eq!(read_http_date(""), None);
}
