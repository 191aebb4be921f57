use sentry_ingest::api::{
    default_limit, list_params, rejection_message, validate_update, AssigneeValue,
    ListIssuesQuery, UpdateIssueBody, UpdateRejection,
};

#[test]
fn default_listing_limit() {
    assert_eq!(default_limit(), 25);
}

#[test]
fn listing_parameters_follow_the_query() {
    let q = ListIssuesQuery {
        status: Some("open".to_string()),
        environment: None,
        release: Some("1.2".to_string()),
        limit: 10,
        offset: 20,
    };
    let p = list_params(&q);
    assert_eq!(p.status, Some("open"));
    assert_eq!(p.environment, None);
    assert_eq!(p.release, Some("1.2"));
    assert_eq!((p.limit, p.offset), (10, 20));
}

#[test]
fn valid_updates() {
    for st in ["open", "resolved", "ignored"] {
        let b = UpdateIssueBody { status: Some(st.to_string()), assigned_to: None };
        let u = validate_update(&b).unwrap();
        assert_eq!(u.status.as_deref(), Some(st));
        assert_eq!(u.assigned_to, None);
    }
    let b = UpdateIssueBody { status: None, assigned_to: Some(AssigneeValue::Null) };
    assert_eq!(validate_update(&b).unwrap().assigned_to, Some(None));
    let b = UpdateIssueBody {
        status: None,
        assigned_to: Some(AssigneeValue::Text("ann@x.io".to_string())),
    };
    assert_eq!(validate_update(&b).unwrap().assigned_to, Some(Some("ann@x.io".to_string())));
}

#[test]
fn invalid_status_is_refused() {
    let b = UpdateIssueBody {
        status: Some("closed".to_string()),
        assigned_to: Some(AssigneeValue::Other("5".to_string())),
    };
    let e = validate_update(&b).unwrap_err();
    assert!(matches!(&e, UpdateRejection::InvalidStatus(s) if s == "closed"));
    assert_eq!(
        rejection_message(&e),
        "invalid status 'closed': must be one of open, resolved, ignored"
    );
}

#[test]
fn invalid_assignee_is_refused() {
    let b = UpdateIssueBody {
        status: Some("open".to_string()),
        assigned_to: Some(AssigneeValue::Other("[1]".to_string())),
    };
    let e = validate_update(&b).unwrap_err();
    assert!(matches!(e, UpdateRejection::InvalidAssignee));
    assert_eq!(
        rejection_message(&e),
        "assigned_to must be a string (email) or null to unassign"
    );
}
