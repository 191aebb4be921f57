use sentry_ingest::event::{issue_data, prepare_event, prepare_event_with, record_fields, SENTRY_ERRORS_STREAM};
use sentry_ingest::payload::{
    EventTimestamp, SentryEventPayload, SentryException, SentryExceptionValue, SentryUser,
};

fn payload() -> SentryEventPayload {
    SentryEventPayload {
        event_id: None,
        timestamp: None,
        level: Some("error".to_string()),
        platform: Some("python".to_string()),
        release: Some("1.0".to_string()),
        environment: None,
        server_name: None,
        transaction: None,
        message: None,
        exception: Some(SentryException {
            values: vec![SentryExceptionValue {
                exc_type: Some("ValueError".to_string()),
                value: Some("bad".to_string()),
                module: None,
                stacktrace: None,
            }],
        }),
        user: Some(SentryUser { id: None, email: Some("a@b.c".to_string()), username: None, ip_address: None }),
        tags: Some("{\"a\":\"b\"}".to_string()),
        extra: None,
        breadcrumbs: None,
        request: None,
        contexts: None,
        sdk: None,
        fingerprint: None,
    }
}

#[test]
fn prepared_event_with_given_id_and_clock() {
    let mut p = payload();
    p.timestamp = Some(EventTimestamp::Text { text: "2024-01-01T00:00:00Z".to_string(), seconds_micros: None });
    let ev = prepare_event_with(&p, "fresh".to_string(), 99);
    assert_eq!(ev.event_id, "fresh");
    assert_eq!(ev.event_ts, 1_704_067_200_000_000);
    assert_eq!(ev.fingerprint, sha256::digest("ValueError::"));
    assert_eq!(ev.title, "ValueError: bad");
    assert_eq!(ev.culprit, "");
    assert_eq!(ev.exception_type, "ValueError");
    assert_eq!(ev.user_id.as_deref(), Some("a@b.c"));
    assert_eq!(ev.platform.as_deref(), Some("python"));
    assert_eq!(ev.release.as_deref(), Some("1.0"));
    assert_eq!(ev.environment, None);
}

#[test]
fn own_event_id_and_missing_timestamp() {
    let mut p = payload();
    p.event_id = Some("abc123".to_string());
    let ev = prepare_event_with(&p, "fresh".to_string(), 99);
    assert_eq!(ev.event_id, "abc123");
    assert_eq!(ev.event_ts, 99);
}

#[test]
fn prepare_event_generates_id_and_reads_clock() {
    let ev = prepare_event(&payload());
    assert_eq!(ev.event_id.len(), 27);
    assert!(ev.event_ts > 1_600_000_000_000_000);
    let mut p = payload();
    p.event_id = Some("mine".to_string());
    p.timestamp = Some(EventTimestamp::Seconds { raw: "5".to_string(), micros: 5_000_000 });
    let ev = prepare_event(&p);
    assert_eq!(ev.event_id, "mine");
    assert_eq!(ev.event_ts, 5_000_000);
}

#[test]
fn issue_data_and_record_fields() {
    let ev = prepare_event_with(&payload(), "id1".to_string(), 7);
    let d = issue_data(&ev);
    assert_eq!(d.fingerprint, ev.fingerprint);
    assert_eq!(d.event_id, "id1");
    assert_eq!(d.event_ts, 7);
    assert_eq!(d.user_id, Some("a@b.c"));
    assert_eq!(d.platform, Some("python"));
    let f = record_fields(&ev);
    let keys: Vec<&str> = f.iter().map(|(k, _)| k.as_str()).collect();
    assert_eq!(keys, vec!["event_id", "fingerprint", "title", "culprit", "exception_type"]);
    assert_eq!(f[0].1, "id1");
    assert_eq!(f[2].1, "ValueError: bad");
    assert_eq!(SENTRY_ERRORS_STREAM, "_sentry_errors");
}
