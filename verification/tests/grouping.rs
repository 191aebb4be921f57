use sentry_ingest::grouping::{
    compute_fingerprint, exception_type, fingerprint_source, make_culprit, make_title, user_id,
};
use sentry_ingest::text::join_strings;
use sentry_ingest::payload::{
    top_frame_position, EventTimestamp, SentryEventPayload, SentryException,
    SentryExceptionValue, SentryFrame, SentryStacktrace, SentryUser,
};

fn s(x: &str) -> Option<String> {
    Some(x.to_string())
}

fn empty_payload() -> SentryEventPayload {
    SentryEventPayload {
        event_id: None,
        timestamp: None,
        level: None,
        platform: None,
        release: None,
        environment: None,
        server_name: None,
        transaction: None,
        message: None,
        exception: None,
        user: None,
        tags: None,
        extra: None,
        breadcrumbs: None,
        request: None,
        contexts: None,
        sdk: None,
        fingerprint: None,
    }
}

fn frame(function: &str, module: Option<&str>, filename: Option<&str>, in_app: Option<bool>) -> SentryFrame {
    SentryFrame {
        filename: filename.map(|x| x.to_string()),
        function: s(function),
        module: module.map(|x| x.to_string()),
        lineno: Some(10),
        colno: None,
        context_line: None,
        in_app,
    }
}

fn with_exception(exc_type: Option<&str>, value: Option<&str>, frames: Vec<SentryFrame>) -> SentryEventPayload {
    let mut p = empty_payload();
    p.exception = Some(SentryException {
        values: vec![SentryExceptionValue {
            exc_type: exc_type.map(|x| x.to_string()),
            value: value.map(|x| x.to_string()),
            module: None,
            stacktrace: Some(SentryStacktrace { frames }),
        }],
    });
    p
}

#[test]
fn top_frame_prefers_last_in_app_frame() {
    let frames = vec![
        frame("main", Some("app"), None, Some(true)),
        frame("handle", Some("app.views"), None, Some(true)),
        frame("query", Some("django.db"), None, Some(false)),
        frame("exec", Some("psycopg"), None, None),
    ];
    assert_eq!(top_frame_position(&frames), Some(1));
}

#[test]
fn top_frame_falls_back_to_last_frame() {
    let frames = vec![
        frame("a", Some("x"), None, Some(false)),
        frame("b", Some("y"), None, None),
    ];
    assert_eq!(top_frame_position(&frames), Some(1));
    assert_eq!(top_frame_position(&Vec::new()), None);
}

#[test]
fn fingerprint_source_from_exception_top_frame() {
    let p = with_exception(
        Some("ValueError"),
        Some("bad input"),
        vec![
            frame("handle", Some("app.views"), Some("views.py"), Some(true)),
            frame("lib_fn", Some("lib"), None, Some(false)),
        ],
    );
    assert_eq!(fingerprint_source(&p), "ValueError:handle:app.views");
    assert_eq!(compute_fingerprint(&p), sha256::digest("ValueError:handle:app.views"));
}

#[test]
fn fingerprint_source_module_falls_back_to_filename() {
    let p = with_exception(None, None, vec![frame("f", None, Some("main.js"), None)]);
    assert_eq!(fingerprint_source(&p), "UnknownError:f:main.js");
}

#[test]
fn fingerprint_source_without_frames() {
    let p = with_exception(Some("KeyError"), None, vec![]);
    assert_eq!(fingerprint_source(&p), "KeyError::");
}

#[test]
fn fingerprint_of_message_is_its_sha256() {
    let mut p = empty_payload();
    p.message = s("hello");
    assert_eq!(fingerprint_source(&p), "hello");
    assert_eq!(
        compute_fingerprint(&p),
        "2cf24dba5fb0a30e26e83b2ac5b9e29e1b161e5c1fa7425e73043362938b9824"
    );
}

#[test]
fn fingerprint_without_anything_is_unknown() {
    let p = empty_payload();
    assert_eq!(fingerprint_source(&p), "unknown");
    assert_eq!(compute_fingerprint(&p).len(), 64);
}

#[test]
fn custom_fingerprint_is_honoured() {
    let mut p = with_exception(Some("ValueError"), None, vec![]);
    p.fingerprint = Some(vec!["checkout".to_string(), "payment".to_string()]);
    assert_eq!(fingerprint_source(&p), "checkout:payment");
    assert_eq!(compute_fingerprint(&p), sha256::digest("checkout:payment"));
}

#[test]
fn default_placeholder_fingerprint_is_ignored() {
    let mut p = with_exception(Some("ValueError"), None, vec![]);
    p.fingerprint = Some(vec!["{{ default }}".to_string()]);
    assert_eq!(fingerprint_source(&p), "ValueError::");
    p.fingerprint = Some(vec![]);
    assert_eq!(fingerprint_source(&p), "ValueError::");
}

#[test]
fn same_origin_groups_together() {
    let frames = || vec![frame("handle", Some("app.views"), None, Some(true))];
    let mut a = with_exception(Some("ValueError"), Some("one"), frames());
    a.message = s("first");
    a.event_id = s("e1");
    a.timestamp = Some(EventTimestamp::Seconds { raw: "1.0".to_string(), micros: 1_000_000 });
    let mut b = with_exception(Some("ValueError"), Some("two"), frames());
    b.message = s("second");
    assert_eq!(compute_fingerprint(&a), compute_fingerprint(&b));
    let c = with_exception(Some("TypeError"), Some("one"), frames());
    assert_ne!(compute_fingerprint(&a), compute_fingerprint(&c));
}

#[test]
fn join_strings_puts_separator_between() {
    let parts = vec!["a".to_string(), "b".to_string(), "c".to_string()];
    assert_eq!(join_strings(&parts, ":"), "a:b:c");
    assert_eq!(join_strings(&Vec::new(), ":"), "");
}

#[test]
fn title_type_and_value() {
    let p = with_exception(Some("ValueError"), Some("bad input"), vec![]);
    assert_eq!(make_title(&p), "ValueError: bad input");
}

#[test]
fn title_type_only_when_value_empty() {
    let p = with_exception(Some("ValueError"), Some(""), vec![]);
    assert_eq!(make_title(&p), "ValueError");
    let p = with_exception(None, None, vec![]);
    assert_eq!(make_title(&p), "Error");
}

#[test]
fn title_from_message_or_placeholder() {
    let mut p = empty_payload();
    assert_eq!(make_title(&p), "<no message>");
    p.message = s("disk full");
    assert_eq!(make_title(&p), "disk full");
}

#[test]
fn culprit_prefers_transaction() {
    let mut p = with_exception(
        Some("E"),
        None,
        vec![frame("handle", Some("app.views"), None, Some(true))],
    );
    p.transaction = s("/api/orders");
    assert_eq!(make_culprit(&p), "/api/orders");
    p.transaction = s("");
    assert_eq!(make_culprit(&p), "app.views in handle");
}

#[test]
fn culprit_module_only_or_nothing() {
    let mut f = frame("", Some("app.views"), None, None);
    f.function = None;
    let p = with_exception(Some("E"), None, vec![f]);
    assert_eq!(make_culprit(&p), "app.views");
    let p = with_exception(Some("E"), None, vec![frame("handle", None, None, None)]);
    assert_eq!(make_culprit(&p), "");
    assert_eq!(make_culprit(&empty_payload()), "");
}

#[test]
fn exception_type_defaults_to_error() {
    assert_eq!(exception_type(&empty_payload()), "Error");
    let p = with_exception(Some("ZeroDivisionError"), None, vec![]);
    assert_eq!(exception_type(&p), "ZeroDivisionError");
}

#[test]
fn user_id_precedence() {
    let mut p = empty_payload();
    assert_eq!(user_id(&p), None);
    p.user = Some(SentryUser { id: None, email: s("a@b.c"), username: s("ann"), ip_address: None });
    assert_eq!(user_id(&p), s("a@b.c"));
    p.user = Some(SentryUser { id: s("42"), email: s("a@b.c"), username: None, ip_address: None });
    assert_eq!(user_id(&p), s("42"));
    p.user = Some(SentryUser { id: None, email: None, username: s("ann"), ip_address: None });
    assert_eq!(user_id(&p), s("ann"));
}

#[test]
fn fingerprint_is_lowercase_hex() {
    let p = with_exception(Some("E"), Some("v"), vec![frame("f", Some("m"), None, None)]);
    let fp = compute_fingerprint(&p);
    assert_eq!(fp.len(), 64);
    assert!(fp.chars().all(|c| c.is_ascii_digit() || ('a'..='f').contains(&c)));
}

#[test]
fn culprit_file_and_line_without_module_or_function() {
    let mut f = frame("", None, Some("app.py"), None);
    f.function = None;
    f.lineno = Some(42);
    let p = with_exception(Some("E"), None, vec![f.clone()]);
    assert_eq!(make_culprit(&p), "app.py:42");
    f.lineno = None;
    let p = with_exception(Some("E"), None, vec![f.clone()]);
    assert_eq!(make_culprit(&p), "app.py");
    f.lineno = Some(-7);
    f.module = Some(String::new());
    let p = with_exception(Some("E"), None, vec![f]);
    assert_eq!(make_culprit(&p), "app.py:-7");
}

#[test]
fn culprit_file_and_function_reads_as_module() {
    let p = with_exception(Some("E"), None, vec![frame("handle", None, Some("app.py"), None)]);
    assert_eq!(make_culprit(&p), "app.py in handle");
}
