use sentry_ingest::payload::EventTimestamp;
use sentry_ingest::timestamp::parse_timestamp;

#[test]
fn numeric_seconds_are_used() {
    let ts = EventTimestamp::Seconds { raw: "1700000000.5".to_string(), micros: 1_700_000_000_500_000 };
    assert_eq!(parse_timestamp(&ts, 7), 1_700_000_000_500_000);
}

#[test]
fn text_seconds_are_used() {
    let ts = EventTimestamp::Text { text: "12.25".to_string(), seconds_micros: Some(12_250_000) };
    assert_eq!(parse_timestamp(&ts, 7), 12_250_000);
}

#[test]
fn rfc3339_text_is_parsed() {
    let ts = EventTimestamp::Text { text: "2024-01-01T00:00:00Z".to_string(), seconds_micros: None };
    assert_eq!(parse_timestamp(&ts, 7), 1_704_067_200_000_000);
    let ts = EventTimestamp::Text { text: "2024-01-01T01:00:00.000250+01:00".to_string(), seconds_micros: None };
    assert_eq!(parse_timestamp(&ts, 7), 1_704_067_200_000_250);
}

#[test]
fn unreadable_timestamps_use_now() {
    let ts = EventTimestamp::Text { text: "yesterday".to_string(), seconds_micros: None };
    assert_eq!(parse_timestamp(&ts, 42), 42);
    let ts = EventTimestamp::Other { raw: "true".to_string() };
    assert_eq!(parse_timestamp(&ts, 42), 42);
}
