//! The rules of the `sentry_issues` table: the row written on an issue's
//! first event, the counters bumped on a repeat, the update of status and
//! assignee, and the paging of listings.

use vstd::prelude::*;
use vstd::string::*;

use crate::schema::{is_sentry_issues_table, ColumnType, TableSpec};
use crate::text::{copy_opt, opt_str_text, opt_text, own_opt, truncate_chars, truncate_text};

use svix_ksuid::KsuidLike;

verus! {

/// Titles and culprits are stored truncated to this many characters.
pub const MAX_TEXT_CHARS: usize = 500;

/// One row of the `sentry_issues` table.
#[derive(Debug, Clone)]
pub struct Model {
    /// KSUID (27 chars)
    pub id: String,
    pub org_id: String,
    /// SHA256 hex fingerprint (64 chars), unique per org
    pub fingerprint: String,
    /// open, resolved, ignored
    pub status: String,
    /// "{exc_type}: {value}" truncated to 500 chars
    pub title: String,
    /// "{module} in {function}" or "filename:lineno", truncated to 500 chars
    pub culprit: String,
    pub exception_type: String,
    pub platform: Option<String>,
    pub release: Option<String>,
    pub environment: Option<String>,
    /// Running count of events matched to this issue
    pub times_seen: i64,
    /// Approximate distinct user count
    pub users_seen: i64,
    /// Timestamps in microseconds
    pub first_seen: i64,
    pub last_seen: i64,
    /// Id of the most recent event
    pub last_event_id: String,
    pub assigned_to: Option<String>,
    pub created_at: i64,
    pub updated_at: i64,
}

/// What an ingested event contributes to its issue.
pub struct NewIssueData<'a> {
    pub fingerprint: &'a str,
    pub title: &'a str,
    pub culprit: &'a str,
    pub exception_type: &'a str,
    pub platform: Option<&'a str>,
    pub release: Option<&'a str>,
    pub environment: Option<&'a str>,
    pub event_id: &'a str,
    pub event_ts: i64,
    pub user_id: Option<&'a str>,
}

/// How much an event adds to the distinct-user counter of its issue: one when
/// the event names a user.
pub open spec fn spec_users_delta(user_id: Option<&str>) -> i64 {
    if user_id is Some {
        1
    } else {
        0
    }
}

/// The row written for the first event of an issue (see `issue_row_for`).
pub open spec fn is_new_issue_row(
    m: Model,
    org_id: Seq<char>,
    data: NewIssueData,
    id: Seq<char>,
    now: i64,
) -> bool {
    &&& m.id@ == id
    &&& m.org_id@ == org_id
    &&& m.fingerprint@ == data.fingerprint@
    &&& m.status@ == "open"@
    &&& m.title@ == truncate_text(data.title@, 500)
    &&& m.culprit@ == truncate_text(data.culprit@, 500)
    &&& m.exception_type@ == data.exception_type@
    &&& opt_text(m.platform) == opt_str_text(data.platform)
    &&& opt_text(m.release) == opt_str_text(data.release)
    &&& opt_text(m.environment) == opt_str_text(data.environment)
    &&& m.times_seen == 1
    &&& m.users_seen == spec_users_delta(data.user_id)
    &&& m.first_seen == data.event_ts
    &&& m.last_seen == data.event_ts
    &&& m.last_event_id@ == data.event_id@
    &&& m.assigned_to is None
    &&& m.created_at == now
    &&& m.updated_at == now
}

/// The row inserted for the first event of an issue, with the row id and the
/// current time given: status `open`, seen once, by one user when the event
/// names one, title and culprit cut to 500 characters.
pub fn issue_row_for(org_id: &str, data: &NewIssueData, id: String, now: i64) -> (r: Model)
    ensures
        is_new_issue_row(r, org_id@, *data, id@, now),
{
    let users_delta: i64 = if data.user_id.is_some() {
        1
    } else {
        0
    };
    Model {
        id,
        org_id: String::from_str(org_id),
        fingerprint: String::from_str(data.fingerprint),
        status: String::from_str("open"),
        title: truncate_chars(data.title, MAX_TEXT_CHARS),
        culprit: truncate_chars(data.culprit, MAX_TEXT_CHARS),
        exception_type: String::from_str(data.exception_type),
        platform: own_opt(data.platform),
        release: own_opt(data.release),
        environment: own_opt(data.environment),
        times_seen: 1,
        users_seen: users_delta,
        first_seen: data.event_ts,
        last_seen: data.event_ts,
        last_event_id: String::from_str(data.event_id),
        assigned_to: None,
        created_at: now,
        updated_at: now,
    }
}

/// A base-62 digit: `0`-`9`, `A`-`Z`, `a`-`z`.
pub open spec fn is_base62_char(c: char) -> bool {
    ('0' <= c && c <= '9') || ('A' <= c && c <= 'Z') || ('a' <= c && c <= 'z')
}

/// A KSUID in its text form: 27 base-62 digits.
pub open spec fn is_ksuid_text(s: Seq<char>) -> bool {
    s.len() == 27 && forall|i: int| 0 <= i < 27 ==> is_base62_char(#[trigger] s[i])
}

/// A fresh id from `svix_ksuid::Ksuid::new(None, None)`, rendered as its
/// base-62 text: the crate encodes the id's 20 bytes with the digits
/// `0-9A-Za-z` (at most 27 of them, as 62^27 exceeds 2^160, counting one `0`
/// per leading zero byte) and left-pads the text with `0` to 27 characters.
/// The id holds the current time and random bytes, so only its form is stated.
/// (The crate panics when the system's random source fails.)
#[verifier::external_body]
pub(crate) fn new_ksuid() -> (r: String)
    ensures
        is_ksuid_text(r@),
{
    <svix_ksuid::Ksuid as KsuidLike>::new(None, None).to_string()
}

/// The row inserted for the first event of an issue, with a fresh KSUID (27
/// base-62 characters) as its id and the clock's time as its creation time.
pub fn new_issue_row(org_id: &str, data: &NewIssueData) -> (r: Model)
    ensures
        exists|now: i64| is_new_issue_row(r, org_id@, *data, r.id@, now),
        is_ksuid_text(r.id@),
{
    let id = new_ksuid();
    let now = crate::timestamp::now_micros();
    issue_row_for(org_id, data, id, now)
}

/// What a repeat event of an existing issue writes into its row: the counters
/// are raised by these increments and the other three columns are set.
pub struct ConflictUpdate {
    pub times_seen_increment: i64,
    pub users_seen_increment: i64,
    pub last_seen: i64,
    pub last_event_id: String,
    pub updated_at: i64,
}

/// The conflict update for an event (see `conflict_update`).
pub open spec fn is_conflict_update(u: ConflictUpdate, data: NewIssueData, now: i64) -> bool {
    &&& u.times_seen_increment == 1
    &&& u.users_seen_increment == spec_users_delta(data.user_id)
    &&& u.last_seen == data.event_ts
    &&& u.last_event_id@ == data.event_id@
    &&& u.updated_at == now
}

/// The update applied when an event's issue already exists: seen once more,
/// by one more user when the event names one, last seen at the event's time,
/// with the event as the latest, updated now.
pub fn conflict_update(data: &NewIssueData, now: i64) -> (r: ConflictUpdate)
    ensures
        is_conflict_update(r, *data, now),
{
    ConflictUpdate {
        times_seen_increment: 1,
        users_seen_increment: if data.user_id.is_some() {
            1
        } else {
            0
        },
        last_seen: data.event_ts,
        last_event_id: String::from_str(data.event_id),
        updated_at: now,
    }
}

/// The row after a conflict update: the update's columns replaced, the
/// counters raised, every other column kept.
pub open spec fn after_conflict_update(m: Model, u: ConflictUpdate) -> Model {
    Model {
        times_seen: (m.times_seen + u.times_seen_increment) as i64,
        users_seen: (m.users_seen + u.users_seen_increment) as i64,
        last_seen: u.last_seen,
        last_event_id: u.last_event_id,
        updated_at: u.updated_at,
        ..m
    }
}

/// The row after an upsert of an event's issue: the new row when the issue is
/// not there yet, else the existing row with the conflict update applied.
pub open spec fn spec_upsert(
    existing: Option<Model>,
    inserted: Model,
    u: ConflictUpdate,
) -> Model {
    match existing {
        Some(m) => after_conflict_update(m, u),
        None => inserted,
    }
}

/// The parameters of a listing of issues.
pub struct ListIssuesParams<'a> {
    pub status: Option<&'a str>,
    pub environment: Option<&'a str>,
    pub release: Option<&'a str>,
    pub limit: u64,
    pub offset: u64,
}

/// Which page of a listing is fetched: pages of `page_size` rows, numbered from 0.
pub struct PageRequest {
    pub page_size: u64,
    pub page: u64,
}

/// The page size of a listing: its limit, but at least one row.
pub open spec fn spec_page_size(limit: u64) -> u64 {
    if limit < 1 {
        1
    } else {
        limit
    }
}

/// The page of a listing: pages as large as the limit (at least one row), and
/// the page that holds the row at the requested offset.
pub fn page_request(params: &ListIssuesParams) -> (r: PageRequest)
    ensures
        r.page_size == spec_page_size(params.limit),
        r.page == params.offset / r.page_size,
{
    let page_size = if params.limit < 1 {
        1
    } else {
        params.limit
    };
    PageRequest { page_size, page: params.offset / page_size }
}

/// The issue to update was not found.
#[derive(Debug, Clone, Copy, PartialEq, Eq)]
pub struct IssueNotFound;

/// The message of the not-found error.
pub fn issue_not_found_message() -> (r: String)
    ensures
        r@ == "Issue not found"@,
{
    String::from_str("Issue not found")
}

/// The row after an update of status and assignee (see `update_issue_row`).
pub open spec fn is_updated_row(
    old: Model,
    new: Model,
    status: Option<&str>,
    assigned_to: Option<Option<&str>>,
    now: i64,
) -> bool {
    &&& new.id == old.id
    &&& new.org_id == old.org_id
    &&& new.fingerprint == old.fingerprint
    &&& new.status@ == match status {
        Some(s) => s@,
        None => old.status@,
    }
    &&& new.title == old.title
    &&& new.culprit == old.culprit
    &&& new.exception_type == old.exception_type
    &&& new.platform == old.platform
    &&& new.release == old.release
    &&& new.environment == old.environment
    &&& new.times_seen == old.times_seen
    &&& new.users_seen == old.users_seen
    &&& new.first_seen == old.first_seen
    &&& new.last_seen == old.last_seen
    &&& new.last_event_id == old.last_event_id
    &&& opt_text(new.assigned_to) == match assigned_to {
        Some(a) => opt_str_text(a),
        None => opt_text(old.assigned_to),
    }
    &&& new.created_at == old.created_at
    &&& new.updated_at == now
}

/// Updates the status and/or the assignee of an issue: a given status
/// replaces the old one; `Some(None)` unassigns, `Some(Some(a))` assigns `a`,
/// `None` keeps the assignee; the update time becomes `now`.  An issue that
/// was not found is an error.
pub fn update_issue_row(
    found: Option<&Model>,
    status: Option<&str>,
    assigned_to: Option<Option<&str>>,
    now: i64,
) -> (r: Result<Model, IssueNotFound>)
    ensures
        found is None <==> r is Err,
        r matches Ok(m) ==> is_updated_row(*found->0, m, status, assigned_to, now),
{
    let old = match found {
        Some(m) => m,
        None => return Err(IssueNotFound),
    };
    let new_status = match status {
        Some(s) => String::from_str(s),
        None => old.status.clone(),
    };
    let new_assignee = match assigned_to {
        Some(a) => own_opt(a),
        None => copy_opt(&old.assigned_to),
    };
    Ok(
        Model {
            id: old.id.clone(),
            org_id: old.org_id.clone(),
            fingerprint: old.fingerprint.clone(),
            status: new_status,
            title: old.title.clone(),
            culprit: old.culprit.clone(),
            exception_type: old.exception_type.clone(),
            platform: copy_opt(&old.platform),
            release: copy_opt(&old.release),
            environment: copy_opt(&old.environment),
            times_seen: old.times_seen,
            users_seen: old.users_seen,
            first_seen: old.first_seen,
            last_seen: old.last_seen,
            last_event_id: old.last_event_id.clone(),
            assigned_to: new_assignee,
            created_at: old.created_at,
            updated_at: now,
        },
    )
}

/// Updates the status and/or the assignee of an issue as `update_issue_row`
/// does, with the clock's time as the update time.
pub fn apply_issue_update(
    found: Option<&Model>,
    status: Option<&str>,
    assigned_to: Option<Option<&str>>,
) -> (r: Result<Model, IssueNotFound>)
    ensures
        found is None <==> r is Err,
        r matches Ok(m) ==> exists|now: i64|
            is_updated_row(*found->0, m, status, assigned_to, now),
{
    let now = crate::timestamp::now_micros();
    update_issue_row(found, status, assigned_to, now)
}

/// A stored title or culprit fits its column: at most `n` characters, and a
/// prefix of the full text.
pub proof fn lemma_truncated_text_fits(s: Seq<char>, n: nat)
    ensures
        truncate_text(s, n).len() <= n,
        truncate_text(s, n) == s.take(truncate_text(s, n).len() as int),
        s.len() <= n ==> truncate_text(s, n) == s,
{
    assert(s.take(s.len() as int) =~= s);
}

/// The counters of an issue row: seen at least once, by no more users than events.
pub open spec fn counters_consistent(m: Model) -> bool {
    1 <= m.times_seen && 0 <= m.users_seen <= m.times_seen
}

/// Upserts insert on an issue's first event and count on every repeat: the
/// first event leaves the issue seen once, by one user when it names one; a
/// repeat raises the count by one and the user count by the event's user, moves
/// `last_seen` and the latest event, and keeps the id, the first sighting, the
/// status, the assignee and the creation time.  Either way the counters stay
/// consistent.
pub proof fn lemma_upsert_first_and_repeat(
    org_id: Seq<char>,
    data: NewIssueData,
    id: Seq<char>,
    now: i64,
    inserted: Model,
    u: ConflictUpdate,
    existing: Model,
)
    requires
        is_new_issue_row(inserted, org_id, data, id, now),
        is_conflict_update(u, data, now),
        counters_consistent(existing),
        existing.times_seen < i64::MAX,
    ensures
        spec_upsert(None, inserted, u) == inserted,
        inserted.times_seen == 1,
        inserted.users_seen == spec_users_delta(data.user_id),
        counters_consistent(inserted),
        ({
            let r = spec_upsert(Some(existing), inserted, u);
            &&& r.times_seen == existing.times_seen + 1
            &&& r.users_seen == existing.users_seen + spec_users_delta(data.user_id)
            &&& r.last_seen == data.event_ts
            &&& r.last_event_id@ == data.event_id@
            &&& r.updated_at == now
            &&& r.id == existing.id
            &&& r.org_id == existing.org_id
            &&& r.fingerprint == existing.fingerprint
            &&& r.first_seen == existing.first_seen
            &&& r.status == existing.status
            &&& r.assigned_to == existing.assigned_to
            &&& r.created_at == existing.created_at
            &&& counters_consistent(r)
        }),
{
}

/// Updating status or assignee leaves the counters as they were.
pub proof fn lemma_update_keeps_counters(
    old: Model,
    new: Model,
    status: Option<&str>,
    assigned_to: Option<Option<&str>>,
    now: i64,
)
    requires
        is_updated_row(old, new, status, assigned_to, now),
    ensures
        counters_consistent(old) ==> counters_consistent(new),
        new.times_seen == old.times_seen && new.users_seen == old.users_seen,
{
}

/// The page fetched for a listing holds the row at the requested offset: the
/// offset, rounded down to a whole page, starts the page.
pub proof fn lemma_page_holds_offset(limit: u64, offset: u64)
    ensures
        ({
            let size = spec_page_size(limit);
            let page = offset / size;
            &&& size >= 1
            &&& page * size <= offset < (page + 1) * size
        }),
{
    let size = spec_page_size(limit);
    let page = offset / size;
    assert(page * size <= offset < (page + 1) * size) by (nonlinear_arith)
        requires
            size >= 1,
            page == offset / size,
    {
        vstd::arithmetic::div_mod::lemma_fundamental_div_mod(offset as int, size as int);
    }
}

/// The row written for an issue's first event fits the table's columns: the
/// title and the culprit within their 500 characters, the status within 20, a
/// KSUID id in its 27 characters and a SHA-256 hex fingerprint in its 64.
pub proof fn lemma_new_row_fits_columns(
    m: Model,
    org_id: Seq<char>,
    data: NewIssueData,
    id: Seq<char>,
    now: i64,
    t: TableSpec,
)
    requires
        is_new_issue_row(m, org_id, data, id, now),
        is_sentry_issues_table(t),
    ensures
        t.columns@[4].column_type == ColumnType::Varchar(500) && m.title@.len() <= 500,
        t.columns@[5].column_type == ColumnType::Varchar(500) && m.culprit@.len() <= 500,
        t.columns@[3].column_type == ColumnType::Varchar(20) && m.status@.len() <= 20,
        is_ksuid_text(id) ==> t.columns@[0].column_type == ColumnType::Char(27) && m.id@.len()
            == 27,
        data.fingerprint@.len() == 64 ==> t.columns@[2].column_type == ColumnType::Char(64)
            && m.fingerprint@.len() == 64,
{
    lemma_truncated_text_fits(data.title@, 500);
    lemma_truncated_text_fits(data.culprit@, 500);
    reveal_strlit("open");
}

/// Whether a row belongs to the issue of an organization and a fingerprint.
pub open spec fn has_key(m: Model, org_id: Seq<char>, fingerprint: Seq<char>) -> bool {
    m.org_id@ == org_id && m.fingerprint@ == fingerprint
}

/// What the table keeps true: consistent counters in every row, and one row
/// at most per organization and fingerprint (the table's unique index).
pub open spec fn table_consistent(rows: Seq<Model>) -> bool {
    &&& forall|i: int| 0 <= i < rows.len() ==> counters_consistent(#[trigger] rows[i])
    &&& forall|i: int, j: int|
        #![trigger rows[i], rows[j]]
        0 <= i < rows.len() && 0 <= j < rows.len() && i != j ==> !has_key(
            rows[i],
            rows[j].org_id@,
            rows[j].fingerprint@,
        )
}

/// The position of the row with the given key among the first `n` rows.
pub open spec fn find_key(rows: Seq<Model>, org_id: Seq<char>, fingerprint: Seq<char>, n: int) -> Option<
    int,
>
    decreases n,
{
    if n <= 0 {
        None
    } else if has_key(rows[n - 1], org_id, fingerprint) {
        Some(n - 1)
    } else {
        find_key(rows, org_id, fingerprint, n - 1)
    }
}

proof fn lemma_find_key(rows: Seq<Model>, org_id: Seq<char>, fingerprint: Seq<char>, n: int)
    requires
        0 <= n <= rows.len(),
    ensures
        match find_key(rows, org_id, fingerprint, n) {
            Some(i) => 0 <= i < n && has_key(rows[i], org_id, fingerprint),
            None => forall|j: int| 0 <= j < n ==> !has_key(#[trigger] rows[j], org_id, fingerprint),
        },
    decreases n,
{
    if n > 0 {
        lemma_find_key(rows, org_id, fingerprint, n - 1);
    }
}

/// The table after the upsert of an event's issue: `INSERT … ON CONFLICT
/// (org_id, fingerprint) DO UPDATE` applies the conflict update to the row
/// with the inserted row's key when there is one, and adds the row otherwise.
pub open spec fn table_after_upsert(rows: Seq<Model>, inserted: Model, u: ConflictUpdate) -> Seq<
    Model,
> {
    match find_key(rows, inserted.org_id@, inserted.fingerprint@, rows.len() as int) {
        Some(i) => rows.update(i, after_conflict_update(rows[i], u)),
        None => rows.push(inserted),
    }
}

/// Upserts keep the table consistent, and leave exactly one row for the
/// event's issue: created by this event (seen once, first seen at the event's
/// time) or the earlier row seen once more, with its first sighting kept.  The
/// other rows are untouched.
pub proof fn lemma_upsert_keeps_table_consistent(
    rows: Seq<Model>,
    org_id: Seq<char>,
    data: NewIssueData,
    id: Seq<char>,
    now: i64,
    inserted: Model,
    u: ConflictUpdate,
)
    requires
        table_consistent(rows),
        forall|i: int| 0 <= i < rows.len() ==> #[trigger] rows[i].times_seen < i64::MAX,
        is_new_issue_row(inserted, org_id, data, id, now),
        is_conflict_update(u, data, now),
    ensures
        ({
            let after = table_after_upsert(rows, inserted, u);
            &&& table_consistent(after)
            &&& exists|k: int|
                0 <= k < after.len() && has_key(#[trigger] after[k], org_id, data.fingerprint@)
            &&& forall|k: int|
                0 <= k < after.len() && has_key(#[trigger] after[k], org_id, data.fingerprint@)
                    ==> match find_key(rows, org_id, data.fingerprint@, rows.len() as int) {
                    Some(i) => k == i && after[k].first_seen == rows[i].first_seen
                        && after[k].times_seen == rows[i].times_seen + 1,
                    None => k == rows.len() && after[k] == inserted && after[k].first_seen
                        == data.event_ts && after[k].times_seen == 1,
                }
            &&& forall|k: int|
                0 <= k < rows.len() && !has_key(#[trigger] rows[k], org_id, data.fingerprint@)
                    ==> after[k] == rows[k]
        }),
{
    let fp = data.fingerprint@;
    lemma_find_key(rows, org_id, fp, rows.len() as int);
    let after = table_after_upsert(rows, inserted, u);
    match find_key(rows, org_id, fp, rows.len() as int) {
        Some(i) => {
            let r = after_conflict_update(rows[i], u);
            assert(counters_consistent(rows[i]));
            assert(counters_consistent(r));
            assert forall|a: int, b: int|
                #![trigger after[a], after[b]]
                0 <= a < after.len() && 0 <= b < after.len() && a != b implies !has_key(
                after[a],
                after[b].org_id@,
                after[b].fingerprint@,
            ) by {
                assert(!has_key(rows[a], rows[b].org_id@, rows[b].fingerprint@));
            }
            assert(has_key(after[i], org_id, fp));
        },
        None => {
            assert forall|a: int, b: int|
                #![trigger after[a], after[b]]
                0 <= a < after.len() && 0 <= b < after.len() && a != b implies !has_key(
                after[a],
                after[b].org_id@,
                after[b].fingerprint@,
            ) by {
                if a < rows.len() && b < rows.len() {
                    assert(!has_key(rows[a], rows[b].org_id@, rows[b].fingerprint@));
                } else if a < rows.len() {
                    assert(!has_key(rows[a], org_id, fp));
                } else {
                    assert(!has_key(rows[b], org_id, fp));
                }
            }
            assert(has_key(after[rows.len() as int], org_id, fp));
        },
    }
}

/// Updating the status or assignee of a row keeps the table consistent.
pub proof fn lemma_update_keeps_table_consistent(
    rows: Seq<Model>,
    k: int,
    new: Model,
    status: Option<&str>,
    assigned_to: Option<Option<&str>>,
    now: i64,
)
    requires
        table_consistent(rows),
        0 <= k < rows.len(),
        is_updated_row(rows[k], new, status, assigned_to, now),
    ensures
        table_consistent(rows.update(k, new)),
{
    let after = rows.update(k, new);
    assert forall|a: int, b: int|
        #![trigger after[a], after[b]]
        0 <= a < after.len() && 0 <= b < after.len() && a != b implies !has_key(
        after[a],
        after[b].org_id@,
        after[b].fingerprint@,
    ) by {
        assert(!has_key(rows[a], rows[b].org_id@, rows[b].fingerprint@));
    }
}

/// The first `n` characters of a text (all of it when shorter), stated by
/// length and character.
pub open spec fn is_prefix_cut(r: Seq<char>, s: Seq<char>, n: nat) -> bool {
    &&& r.len() == if s.len() <= n {
        s.len()
    } else {
        n
    }
    &&& forall|k: int| 0 <= k < r.len() ==> r[k] == s[k]
}

/// The row inserted for an issue's first event holds the event's own data:
/// its culprit and its title each cut to their first 500 characters, the
/// given id, organization and time, the event's fingerprint, type, platform,
/// release, environment, time and id; status `open`, seen once, by one user
/// exactly when the event names one, nobody assigned.
pub proof fn lemma_new_row_holds_event_data(
    m: Model,
    org_id: Seq<char>,
    data: NewIssueData,
    id: Seq<char>,
    now: i64,
)
    requires
        is_new_issue_row(m, org_id, data, id, now),
    ensures
        is_prefix_cut(m.culprit@, data.culprit@, 500),
        is_prefix_cut(m.title@, data.title@, 500),
        data.culprit@.len() <= 500 ==> m.culprit@ == data.culprit@,
        data.title@.len() <= 500 ==> m.title@ == data.title@,
        m.id@ == id,
        m.org_id@ == org_id,
        m.fingerprint@ == data.fingerprint@,
        m.exception_type@ == data.exception_type@,
        m.status@ == "open"@,
        m.times_seen == 1,
        data.user_id is Some ==> m.users_seen == 1,
        data.user_id is None ==> m.users_seen == 0,
        m.first_seen == data.event_ts && m.last_seen == data.event_ts,
        m.last_event_id@ == data.event_id@,
        m.assigned_to is None,
        m.created_at == now && m.updated_at == now,
        opt_text(m.platform) == opt_str_text(data.platform),
        opt_text(m.release) == opt_str_text(data.release),
        opt_text(m.environment) == opt_str_text(data.environment),
{
}

/// A repeat event counts once more, once more for users exactly when it names
/// a user, and becomes the issue's latest sighting at the given time.
pub proof fn lemma_conflict_update_counts_event(u: ConflictUpdate, data: NewIssueData, now: i64)
    requires
        is_conflict_update(u, data, now),
    ensures
        u.times_seen_increment == 1,
        data.user_id is Some ==> u.users_seen_increment == 1,
        data.user_id is None ==> u.users_seen_increment == 0,
        u.last_seen == data.event_ts,
        u.last_event_id@ == data.event_id@,
        u.updated_at == now,
{
}

/// An update sets exactly what it is given: the status only when one is
/// given, the assignee only when one is given (`Some(None)` clearing it), the
/// update time always; every other column, and anything not given, stays.
pub proof fn lemma_update_sets_only_given(
    old: Model,
    new: Model,
    status: Option<&str>,
    assigned_to: Option<Option<&str>>,
    now: i64,
)
    requires
        is_updated_row(old, new, status, assigned_to, now),
    ensures
        status is None ==> new.status@ == old.status@,
        status is Some ==> new.status@ == status->0@,
        assigned_to is None ==> opt_text(new.assigned_to) == opt_text(old.assigned_to),
        assigned_to == Some(None::<&str>) ==> new.assigned_to is None,
        assigned_to is Some && assigned_to->0 is Some ==> new.assigned_to is Some
            && new.assigned_to->0@ == assigned_to->0->0@,
        new.updated_at == now,
        new.id == old.id && new.org_id == old.org_id && new.fingerprint == old.fingerprint,
        new.title == old.title && new.culprit == old.culprit,
        new.exception_type == old.exception_type,
        new.platform == old.platform && new.release == old.release && new.environment
            == old.environment,
        new.times_seen == old.times_seen && new.users_seen == old.users_seen,
        new.first_seen == old.first_seen && new.last_seen == old.last_seen,
        new.last_event_id == old.last_event_id && new.created_at == old.created_at,
{
}

/// Pages are as large as the limit, and one row large when the limit is 0.
pub proof fn lemma_page_size_is_limit(limit: u64)
    ensures
        limit >= 1 ==> spec_page_size(limit) == limit,
        limit == 0 ==> spec_page_size(limit) == 1,
{
}

} // verus!
