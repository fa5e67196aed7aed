use chrono::{DateTime, Utc};
use content_archiver::clock::Timestamp;

#[test]
fn the_epoch_has_this_text() {
    let epoch = Timestamp::new(0, 0).unwrap();
    assert_eq!(epoch.to_rfc3339(), "1970-01-01T00:00:00+00:00");
}

#[test]
fn a_known_instant_has_this_text() {
    let instant = Timestamp::new(1_431_648_000, 0).unwrap();
    assert_eq!(instant.to_rfc3339(), "2015-05-15T00:00:00+00:00");
    let other = Timestamp::new(851_042_397, 0).unwrap();
    assert_eq!(other.to_rfc3339(), "1996-12-20T00:39:57+00:00");
    let late = Timestamp::new(253_402_300_799, 0).unwrap();
    assert_eq!(late.to_rfc3339(), "9999-12-31T23:59:59+00:00");
}

#[test]
fn fractions_of_a_second_are_written_as_needed() {
    assert_eq!(
        Timestamp::new(0, 500_000_000).unwrap().to_rfc3339(),
        "1970-01-01T00:00:00.500+00:00"
    );
    assert_eq!(
        Timestamp::new(0, 1_000).unwrap().to_rfc3339(),
        "1970-01-01T00:00:00.000001+00:00"
    );
    assert_eq!(
        Timestamp::new(0, 1).unwrap().to_rfc3339(),
        "1970-01-01T00:00:00.000000001+00:00"
    );
}

#[test]
fn instants_before_the_epoch_are_represented() {
    assert_eq!(Timestamp::new(-1, 0).unwrap().to_rfc3339(), "1969-12-31T23:59:59+00:00");
}

#[test]
fn an_instant_keeps_its_parts() {
    let instant = Timestamp::new(1_700_000_000, 123_456_789).unwrap();
    assert_eq!(instant.seconds(), 1_700_000_000);
    assert_eq!(instant.nanos(), 123_456_789);
}

#[test]
fn instants_out_of_range_are_refused() {
    assert_eq!(Timestamp::new(i64::MAX, 0), None);
    assert_eq!(Timestamp::new(i64::MIN, 0), None);
    assert_eq!(Timestamp::new(0, 2_000_000_000), None);
    assert_eq!(Timestamp::new(0, u32::MAX), None);
}

#[test]
fn a_leap_second_is_only_at_the_end_of_a_minute() {
    assert!(Timestamp::new(59, 1_500_000_000).is_some());
    assert_eq!(Timestamp::new(58, 1_500_000_000), None);
}

#[test]
fn the_text_parses_back_to_the_instant() {
    for (seconds, nanos) in [(0, 0), (1_431_648_000, 0), (1_700_000_000, 123_456_789), (-86_400, 5)] {
        let text = Timestamp::new(seconds, nanos).unwrap().to_rfc3339();
        let parsed = DateTime::parse_from_rfc3339(&text).unwrap();
        assert_eq!(parsed.timestamp(), seconds);
        assert_eq!(parsed.timestamp_subsec_nanos(), nanos);
    }
}

#[test]
fn a_reading_of_the_clock_is_an_instant() {
    let now = Utc::now();
    let reading = Timestamp::new(now.timestamp(), now.timestamp_subsec_nanos()).unwrap();
    assert_eq!(reading.seconds(), now.timestamp());
    assert_eq!(reading.nanos(), now.timestamp_subsec_nanos());
    assert_eq!(reading.to_rfc3339(), now.to_rfc3339());
    let parsed = DateTime::parse_from_rfc3339(&reading.to_rfc3339()).unwrap().with_timezone(&Utc);
    assert_eq!(parsed, now);
}

#[test]
fn an_instant_can_be_built_again_from_its_parts() {
    let instant = Timestamp::new(1_700_000_000, 123_456_789).unwrap();
    assert_eq!(Timestamp::new(instant.seconds(), instant.nanos()), Some(instant));
}
