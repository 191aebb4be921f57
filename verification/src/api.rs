//! The request rules of the issue-management endpoints: listing queries and
//! the validation of issue updates.

use vstd::prelude::*;
use vstd::string::*;

use crate::issues::ListIssuesParams;
use crate::text::{as_opt_str, opt_str_text, opt_text};

verus! {

/// The page size of a listing when the query names none.
pub fn default_limit() -> (r: u64)
    ensures
        r == 25,
{
    25
}

/// The query of a listing of issues.
pub struct ListIssuesQuery {
    pub status: Option<String>,
    pub environment: Option<String>,
    pub release: Option<String>,
    /// 25 when the query names no limit.
    pub limit: u64,
    /// 0 when the query names no offset.
    pub offset: u64,
}

/// The table listing parameters of a listing query: the same filters, limit and offset.
pub fn list_params(q: &ListIssuesQuery) -> (r: ListIssuesParams<'_>)
    ensures
        opt_str_text(r.status) == opt_text(q.status),
        opt_str_text(r.environment) == opt_text(q.environment),
        opt_str_text(r.release) == opt_text(q.release),
        r.limit == q.limit,
        r.offset == q.offset,
{
    ListIssuesParams {
        status: as_opt_str(&q.status),
        environment: as_opt_str(&q.environment),
        release: as_opt_str(&q.release),
        limit: q.limit,
        offset: q.offset,
    }
}

/// The `assigned_to` member of an update request.
#[derive(Debug, Clone)]
pub enum AssigneeValue {
    /// JSON `null`: unassign.
    Null,
    /// A JSON string: assign to that user.
    Text(String),
    /// Any other JSON value, as JSON text.
    Other(String),
}

/// The body of an update request.
#[derive(Debug, Clone)]
pub struct UpdateIssueBody {
    pub status: Option<String>,
    pub assigned_to: Option<AssigneeValue>,
}

/// A validated update: the new status, and the new assignee (`Some(None)`
/// unassigns), each only when given.
#[derive(Debug, Clone)]
pub struct IssueUpdate {
    pub status: Option<String>,
    pub assigned_to: Option<Option<String>>,
}

/// Why an update request was refused.
#[derive(Debug, Clone)]
pub enum UpdateRejection {
    /// The status is none of `open`, `resolved`, `ignored`.
    InvalidStatus(String),
    /// `assigned_to` is neither a string nor `null`.
    InvalidAssignee,
}

/// The statuses an issue can have.
pub open spec fn is_valid_status(s: Seq<char>) -> bool {
    s == "open"@ || s == "resolved"@ || s == "ignored"@
}

/// Whether a status is one of `open`, `resolved`, `ignored`.
pub fn valid_status(s: &String) -> (r: bool)
    ensures
        r == is_valid_status(s@),
{
    *s == String::from_str("open") || *s == String::from_str("resolved") || *s == String::from_str(
        "ignored",
    )
}

/// The outcome of validating an update request.
pub open spec fn update_accepted(body: UpdateIssueBody, u: IssueUpdate) -> bool {
    &&& u.status == body.status
    &&& match body.assigned_to {
        None => u.assigned_to is None,
        Some(AssigneeValue::Null) => u.assigned_to == Some(None::<String>),
        Some(AssigneeValue::Text(a)) => u.assigned_to == Some(Some(a)),
        Some(AssigneeValue::Other(_)) => false,
    }
}

/// Validates an update request: a status must be `open`, `resolved` or
/// `ignored` (checked first); `assigned_to` must be a string, which assigns,
/// or `null`, which unassigns.
pub fn validate_update(body: &UpdateIssueBody) -> (r: Result<IssueUpdate, UpdateRejection>)
    ensures
        match r {
            Ok(u) => update_accepted(*body, u),
            Err(UpdateRejection::InvalidStatus(s)) => body.status == Some(s) && !is_valid_status(
                s@,
            ),
            Err(UpdateRejection::InvalidAssignee) => (body.status is None || is_valid_status(
                body.status->0@,
            )) && body.assigned_to matches Some(AssigneeValue::Other(_)),
        },
        r is Ok <==> (body.status is None || is_valid_status(body.status->0@)) && !(
        body.assigned_to matches Some(AssigneeValue::Other(_))),
{
    if let Some(s) = &body.status {
        if !valid_status(s) {
            return Err(UpdateRejection::InvalidStatus(s.clone()));
        }
    }
    let assigned_to = match &body.assigned_to {
        None => None,
        Some(AssigneeValue::Null) => Some(None),
        Some(AssigneeValue::Text(a)) => Some(Some(a.clone())),
        Some(AssigneeValue::Other(_)) => return Err(UpdateRejection::InvalidAssignee),
    };
    let status = match &body.status {
        Some(s) => Some(s.clone()),
        None => None,
    };
    Ok(IssueUpdate { status, assigned_to })
}

/// The message a refused update request is answered with.
pub fn rejection_message(r: &UpdateRejection) -> (m: String)
    ensures
        m@ == match r {
            UpdateRejection::InvalidStatus(s) => "invalid status '"@ + s@
                + "': must be one of open, resolved, ignored"@,
            UpdateRejection::InvalidAssignee => "assigned_to must be a string (email) or null to unassign"@,
        },
{
    match r {
        UpdateRejection::InvalidStatus(s) => {
            let mut m = String::from_str("invalid status '");
            m.append(s.as_str());
            m.append("': must be one of open, resolved, ignored");
            m
        },
        UpdateRejection::InvalidAssignee => String::from_str(
            "assigned_to must be a string (email) or null to unassign",
        ),
    }
}

/// Exactly `open`, `resolved` and `ignored` are statuses.
pub proof fn lemma_valid_statuses(s: Seq<char>)
    ensures
        is_valid_status("open"@),
        is_valid_status("resolved"@),
        is_valid_status("ignored"@),
        s != "open"@ && s != "resolved"@ && s != "ignored"@ ==> !is_valid_status(s),
{
}

/// An accepted update carries the request's status as given, and the
/// assignee it asks for: none asked keeps the assignee, `null` clears it, a
/// string assigns it.
pub proof fn lemma_accepted_update(body: UpdateIssueBody, u: IssueUpdate)
    requires
        update_accepted(body, u),
    ensures
        u.status == body.status,
        body.assigned_to is None ==> u.assigned_to is None,
        body.assigned_to matches Some(AssigneeValue::Null) ==> u.assigned_to == Some(
            None::<String>,
        ),
        body.assigned_to matches Some(AssigneeValue::Text(a)) ==> u.assigned_to == Some(Some(a)),
        !(body.assigned_to matches Some(AssigneeValue::Other(_))),
{
}

} // verus!
