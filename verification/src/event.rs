//! What the ingestion of one event decides before it touches storage: the
//! event's id and time, its issue's fingerprint and description, and the
//! metadata added to the stored record.

use vstd::prelude::*;
use vstd::string::*;

use crate::grouping::{
    compute_fingerprint, exception_type, make_culprit, make_title, spec_culprit,
    spec_exception_type, spec_fingerprint, spec_fingerprint_source, spec_sha256_hex, spec_title,
    spec_user_id, user_id,
};
use crate::issues::{is_ksuid_text, new_ksuid, NewIssueData};
use crate::payload::SentryEventPayload;
use crate::text::{as_opt_str, copy_opt, opt_str_text, opt_text, text_or};
use crate::timestamp::{now_micros, parse_timestamp, spec_event_micros};

verus! {

/// Everything the ingestion derives from one event.
pub struct PreparedEvent {
    pub event_id: String,
    /// Microseconds since the Unix epoch.
    pub event_ts: i64,
    pub fingerprint: String,
    pub title: String,
    pub culprit: String,
    pub exception_type: String,
    pub user_id: Option<String>,
    pub platform: Option<String>,
    pub release: Option<String>,
    pub environment: Option<String>,
}

/// The instant an event is recorded at: its timestamp, or `now` when it has none.
pub open spec fn spec_event_ts(p: SentryEventPayload, now: i64) -> i64 {
    match p.timestamp {
        Some(ts) => spec_event_micros(ts, now),
        None => now,
    }
}

/// The parts of a prepared event that do not depend on the clock or on chance.
pub open spec fn describes_event(r: PreparedEvent, p: SentryEventPayload) -> bool {
    &&& r.fingerprint@ == spec_fingerprint(p)
    &&& r.fingerprint@.len() == 64
    &&& r.title@ == spec_title(p)
    &&& r.culprit@ == spec_culprit(p)
    &&& r.exception_type@ == spec_exception_type(p)
    &&& opt_text(r.user_id) == spec_user_id(p)
    &&& r.platform == p.platform
    &&& r.release == p.release
    &&& r.environment == p.environment
}

/// Prepares an event, with `fresh_id` standing for a newly generated event id
/// and `now` for the clock: the event's own id, else `fresh_id`; the instant
/// of its timestamp, else `now`.
pub fn prepare_event_with(p: &SentryEventPayload, fresh_id: String, now: i64) -> (r: PreparedEvent)
    ensures
        describes_event(r, *p),
        r.event_id@ == text_or(p.event_id, fresh_id@),
        r.event_ts == spec_event_ts(*p, now),
{
    let event_id = match &p.event_id {
        Some(id) => id.clone(),
        None => fresh_id,
    };
    let event_ts = match &p.timestamp {
        Some(ts) => parse_timestamp(ts, now),
        None => now,
    };
    PreparedEvent {
        event_id,
        event_ts,
        fingerprint: compute_fingerprint(p),
        title: make_title(p),
        culprit: make_culprit(p),
        exception_type: exception_type(p),
        user_id: user_id(p),
        platform: copy_opt(&p.platform),
        release: copy_opt(&p.release),
        environment: copy_opt(&p.environment),
    }
}

/// Prepares an event: an event without an id gets a fresh KSUID, and the clock
/// stands in for a missing or unreadable timestamp.
pub fn prepare_event(p: &SentryEventPayload) -> (r: PreparedEvent)
    ensures
        describes_event(r, *p),
        p.event_id is Some ==> r.event_id@ == p.event_id->0@,
        p.event_id is None ==> is_ksuid_text(r.event_id@),
        exists|now: i64| r.event_ts == spec_event_ts(*p, now),
{
    let fresh_id = if p.event_id.is_some() {
        String::new()
    } else {
        new_ksuid()
    };
    let now = now_micros();
    prepare_event_with(p, fresh_id, now)
}

/// The data an event contributes to its issue.
pub fn issue_data<'a>(ev: &'a PreparedEvent) -> (r: NewIssueData<'a>)
    ensures
        r.fingerprint@ == ev.fingerprint@,
        r.title@ == ev.title@,
        r.culprit@ == ev.culprit@,
        r.exception_type@ == ev.exception_type@,
        opt_str_text(r.platform) == opt_text(ev.platform),
        opt_str_text(r.release) == opt_text(ev.release),
        opt_str_text(r.environment) == opt_text(ev.environment),
        r.event_id@ == ev.event_id@,
        r.event_ts == ev.event_ts,
        opt_str_text(r.user_id) == opt_text(ev.user_id),
{
    NewIssueData {
        fingerprint: ev.fingerprint.as_str(),
        title: ev.title.as_str(),
        culprit: ev.culprit.as_str(),
        exception_type: ev.exception_type.as_str(),
        platform: as_opt_str(&ev.platform),
        release: as_opt_str(&ev.release),
        environment: as_opt_str(&ev.environment),
        event_id: ev.event_id.as_str(),
        event_ts: ev.event_ts,
        user_id: as_opt_str(&ev.user_id),
    }
}

/// The members added to the stored event record, as (name, text) pairs:
/// `event_id`, `fingerprint`, `title`, `culprit`, `exception_type`.
pub fn record_fields(ev: &PreparedEvent) -> (r: Vec<(String, String)>)
    ensures
        r@.len() == 5,
        r@[0].0@ == "event_id"@ && r@[0].1@ == ev.event_id@,
        r@[1].0@ == "fingerprint"@ && r@[1].1@ == ev.fingerprint@,
        r@[2].0@ == "title"@ && r@[2].1@ == ev.title@,
        r@[3].0@ == "culprit"@ && r@[3].1@ == ev.culprit@,
        r@[4].0@ == "exception_type"@ && r@[4].1@ == ev.exception_type@,
{
    let mut r: Vec<(String, String)> = Vec::new();
    r.push((String::from_str("event_id"), ev.event_id.clone()));
    r.push((String::from_str("fingerprint"), ev.fingerprint.clone()));
    r.push((String::from_str("title"), ev.title.clone()));
    r.push((String::from_str("culprit"), ev.culprit.clone()));
    r.push((String::from_str("exception_type"), ev.exception_type.clone()));
    r
}

/// The name of the stream that ingested Sentry events are written to.
pub const SENTRY_ERRORS_STREAM: &'static str = "_sentry_errors";

/// A prepared event keeps the event's own id when it has one and uses the
/// fresh id only otherwise; it is recorded at the event's timestamp, or at
/// `now` when it has none; its description is the event's fingerprint, title,
/// culprit, type, user, platform, release and environment.
pub proof fn lemma_prepared_event_fields(
    r: PreparedEvent,
    p: SentryEventPayload,
    fresh_id: Seq<char>,
    now: i64,
)
    requires
        describes_event(r, p),
        r.event_id@ == text_or(p.event_id, fresh_id),
        r.event_ts == spec_event_ts(p, now),
    ensures
        p.event_id is Some ==> r.event_id@ == p.event_id->0@,
        p.event_id is None ==> r.event_id@ == fresh_id,
        p.timestamp is None ==> r.event_ts == now,
        p.timestamp is Some ==> r.event_ts == spec_event_micros(p.timestamp->0, now),
        r.fingerprint@ == spec_sha256_hex(spec_fingerprint_source(p)),
        r.title@ == spec_title(p),
        r.culprit@ == spec_culprit(p),
        r.exception_type@ == spec_exception_type(p),
        opt_text(r.user_id) == spec_user_id(p),
        r.platform == p.platform && r.release == p.release && r.environment == p.environment,
{
}

} // verus!
