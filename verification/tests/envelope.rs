use sentry_ingest::envelope::{envelope_event_item, split_lines};

#[test]
fn lines_split_like_str_lines() {
    for text in ["", "a", "a\n", "a\nb", "a\r\nb\r\n", "\n", "\n\n", "a\r", "a\rb\n", "x\r\r\ny"] {
        let expected: Vec<String> = text.lines().map(|l| l.to_string()).collect();
        assert_eq!(split_lines(text), expected, "text {:?}", text);
    }
}

#[test]
fn envelope_returns_event_item() {
    let body = b"{\"event_id\":\"abc\"}\n{\"type\":\"event\",\"length\":20}\n{\"message\":\"boom\"}\n";
    assert_eq!(envelope_event_item(body), Some("{\"message\":\"boom\"}".to_string()));
}

#[test]
fn envelope_skips_other_items() {
    let body = b"{}\n{\"type\":\"session\"}\n{\"sid\":\"1\"}\n{\"type\":\"event\"}\n{\"message\":\"second\"}\n";
    assert_eq!(envelope_event_item(body), Some("{\"message\":\"second\"}".to_string()));
}

#[test]
fn envelope_takes_first_event() {
    let body = b"{}\r\n{\"type\":\"event\"}\r\n{\"n\":1}\r\n{\"type\":\"event\"}\r\n{\"n\":2}";
    assert_eq!(envelope_event_item(body), Some("{\"n\":1}".to_string()));
}

#[test]
fn envelope_without_event_is_none() {
    assert_eq!(envelope_event_item(b"{}\n{\"type\":\"session\"}\n{\"sid\":\"1\"}\n"), None);
    assert_eq!(envelope_event_item(b""), None);
    assert_eq!(envelope_event_item(b"{}"), None);
    // A header without its payload line ends the envelope.
    assert_eq!(envelope_event_item(b"{}\n{\"type\":\"event\"}\n"), None);
    // A header that is not JSON has no type.
    assert_eq!(envelope_event_item(b"{}\nnot json\n{\"message\":\"x\"}\n"), None);
    // A type that is not a string does not count.
    assert_eq!(envelope_event_item(b"{}\n{\"type\":1}\n{\"message\":\"x\"}\n"), None);
}

#[test]
fn envelope_rejects_invalid_utf8() {
    let body = b"{}\n{\"type\":\"event\"}\n{\"m\":\"\xff\"}\n";
    assert_eq!(envelope_event_item(body), None);
}

#[test]
fn envelope_payload_keeps_non_ascii_text() {
    let body = "{}\n{\"type\":\"event\"}\n{\"message\":\"héllo ✓\"}\n".as_bytes();
    assert_eq!(envelope_event_item(body), Some("{\"message\":\"héllo ✓\"}".to_string()));
}
