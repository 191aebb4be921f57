use sentry_ingest::issues::{
    conflict_update, issue_not_found_message, issue_row_for, new_issue_row, page_request,
    update_issue_row, IssueNotFound, ListIssuesParams, NewIssueData,
};
use sentry_ingest::text::truncate_chars;

fn data<'a>(title: &'a str, user: Option<&'a str>) -> NewIssueData<'a> {
    NewIssueData {
        fingerprint: "fp",
        title,
        culprit: "app.views in handle",
        exception_type: "ValueError",
        platform: Some("python"),
        release: None,
        environment: Some("prod"),
        event_id: "ev1",
        event_ts: 1_000,
        user_id: user,
    }
}

#[test]
fn first_event_row() {
    let m = issue_row_for("org1", &data("ValueError: x", Some("u1")), "KSUID".to_string(), 5_000);
    assert_eq!(m.id, "KSUID");
    assert_eq!(m.org_id, "org1");
    assert_eq!(m.fingerprint, "fp");
    assert_eq!(m.status, "open");
    assert_eq!(m.title, "ValueError: x");
    assert_eq!(m.platform.as_deref(), Some("python"));
    assert_eq!(m.release, None);
    assert_eq!(m.times_seen, 1);
    assert_eq!(m.users_seen, 1);
    assert_eq!(m.first_seen, 1_000);
    assert_eq!(m.last_seen, 1_000);
    assert_eq!(m.last_event_id, "ev1");
    assert_eq!(m.assigned_to, None);
    assert_eq!(m.created_at, 5_000);
    assert_eq!(m.updated_at, 5_000);
    let anon = issue_row_for("org1", &data("t", None), "K".to_string(), 1);
    assert_eq!(anon.users_seen, 0);
}

#[test]
fn new_row_gets_a_ksuid() {
    let m = new_issue_row("org1", &data("t", None), );
    assert_eq!(m.id.len(), 27);
    assert!(m.id.chars().all(|c| c.is_ascii_alphanumeric()));
    assert!(m.created_at > 1_600_000_000_000_000);
}

#[test]
fn long_titles_are_cut_to_500_chars() {
    let long: String = "é".repeat(600);
    let m = issue_row_for("o", &data(&long, None), "K".to_string(), 0);
    assert_eq!(m.title.chars().count(), 500);
    assert!(long.starts_with(&m.title));
    assert_eq!(truncate_chars("abc", 2), "ab");
    assert_eq!(truncate_chars("abc", 5), "abc");
    assert_eq!(truncate_chars("", 0), "");
}

#[test]
fn repeat_event_update() {
    let u = conflict_update(&data("t", Some("u")), 9);
    assert_eq!(u.times_seen_increment, 1);
    assert_eq!(u.users_seen_increment, 1);
    assert_eq!(u.last_seen, 1_000);
    assert_eq!(u.last_event_id, "ev1");
    assert_eq!(u.updated_at, 9);
    assert_eq!(conflict_update(&data("t", None), 9).users_seen_increment, 0);
}

fn params(limit: u64, offset: u64) -> ListIssuesParams<'static> {
    ListIssuesParams { status: None, environment: None, release: None, limit, offset }
}

#[test]
fn paging() {
    let p = page_request(&params(25, 0));
    assert_eq!((p.page_size, p.page), (25, 0));
    let p = page_request(&params(25, 60));
    assert_eq!((p.page_size, p.page), (25, 2));
    let p = page_request(&params(0, 3));
    assert_eq!((p.page_size, p.page), (1, 3));
    let p = page_request(&params(10, 9));
    assert!(p.page * p.page_size <= 9 && 9 < (p.page + 1) * p.page_size);
}

#[test]
fn update_status_and_assignee() {
    let m = issue_row_for("org1", &data("t", None), "K".to_string(), 5);
    let r = update_issue_row(Some(&m), Some("resolved"), Some(Some("ann@x.io")), 77).unwrap();
    assert_eq!(r.status, "resolved");
    assert_eq!(r.assigned_to.as_deref(), Some("ann@x.io"));
    assert_eq!(r.updated_at, 77);
    assert_eq!(r.created_at, 5);
    assert_eq!(r.times_seen, 1);
    let r2 = update_issue_row(Some(&r), None, Some(None), 78).unwrap();
    assert_eq!(r2.status, "resolved");
    assert_eq!(r2.assigned_to, None);
    let r3 = update_issue_row(Some(&r), None, None, 79).unwrap();
    assert_eq!(r3.assigned_to.as_deref(), Some("ann@x.io"));
    assert_eq!(r3.title, r.title);
}

#[test]
fn update_of_missing_issue_fails() {
    assert_eq!(update_issue_row(None, Some("open"), None, 1).err(), Some(IssueNotFound));
    assert_eq!(issue_not_found_message(), "Issue not found");
}

/// Runs an upsert the way the ON CONFLICT statement does, on an in-memory table.
fn upsert(rows: &mut Vec<sentry_ingest::issues::Model>, d: &NewIssueData, id: &str, now: i64) {
    let inserted = issue_row_for("org1", d, id.to_string(), now);
    let u = conflict_update(d, now);
    match rows.iter_mut().find(|r| r.org_id == inserted.org_id && r.fingerprint == inserted.fingerprint) {
        Some(r) => {
            r.times_seen += u.times_seen_increment;
            r.users_seen += u.users_seen_increment;
            r.last_seen = u.last_seen;
            r.last_event_id = u.last_event_id;
            r.updated_at = u.updated_at;
        }
        None => rows.push(inserted),
    }
}

#[test]
fn table_stays_consistent_over_upserts() {
    let mut rows = Vec::new();
    upsert(&mut rows, &data("t", Some("u")), "K1", 1);
    let mut d2 = data("t", None);
    d2.event_ts = 2_000;
    d2.event_id = "ev2";
    upsert(&mut rows, &d2, "K2", 2);
    let mut other = data("t", None);
    other.fingerprint = "fp2";
    upsert(&mut rows, &other, "K3", 3);
    assert_eq!(rows.len(), 2);
    let r = &rows[0];
    assert_eq!((r.id.as_str(), r.times_seen, r.users_seen), ("K1", 2, 1));
    assert_eq!((r.first_seen, r.last_seen, r.last_event_id.as_str()), (1_000, 2_000, "ev2"));
    assert_eq!(rows[1].times_seen, 1);
    for r in &rows {
        assert!(1 <= r.times_seen && 0 <= r.users_seen && r.users_seen <= r.times_seen);
    }
}
