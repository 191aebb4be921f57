use sentry_ingest::text::push_decimal;

#[test]
fn decimal_like_display() {
    for n in [0i64, 7, 10, 42, 1_000_000, -1, -305, i64::MAX, i64::MIN] {
        let mut s = String::from("x=");
        push_decimal(&mut s, n);
        assert_eq!(s, format!("x={}", n));
    }
}
