//! Event timestamps: what instant, in microseconds since the Unix epoch, an
//! event is recorded at.

use vstd::prelude::*;

use crate::payload::EventTimestamp;

verus! {

/// The instant, in microseconds since the Unix epoch, that a text denotes when
/// it is an RFC 3339 date-time; none when it is not one.
pub uninterp spec fn spec_rfc3339_micros(text: Seq<char>) -> Option<i64>;

/// Parses a text with `chrono::DateTime::parse_from_rfc3339` and converts the
/// result with `timestamp_micros`.  The date-time carries its own UTC offset,
/// so the result depends on the text alone; the microsecond count of every
/// date-time chrono represents fits in an `i64`.  Which texts parse to which
/// instants is left to the name `spec_rfc3339_micros`.
#[verifier::external_body]
fn rfc3339_micros(text: &str) -> (r: Option<i64>)
    ensures
        r == spec_rfc3339_micros(text@),
{
    chrono::DateTime::parse_from_rfc3339(text).ok().map(|dt| dt.timestamp_micros())
}

/// The current time in microseconds since the Unix epoch, from
/// `chrono::Utc::now().timestamp_micros()`.  It depends on the clock, so
/// nothing is stated of it.  (chrono panics when the system clock reads
/// earlier than the Unix epoch.)
#[verifier::external_body]
pub(crate) fn now_micros() -> i64 {
    chrono::Utc::now().timestamp_micros()
}

/// Whether the instant of a timestamp comes from the clock: a string that is
/// neither a number of seconds nor an RFC 3339 date-time, or any JSON value
/// other than a number or a string.
pub open spec fn uses_clock(ts: EventTimestamp) -> bool {
    match ts {
        EventTimestamp::Seconds { .. } => false,
        EventTimestamp::Text { text, seconds_micros } => seconds_micros is None
            && spec_rfc3339_micros(text@) is None,
        EventTimestamp::Other { .. } => true,
    }
}

/// The instant of a timestamp: a number of seconds; a string holding a number
/// of seconds; a string holding an RFC 3339 date-time; otherwise `now`.
pub open spec fn spec_event_micros(ts: EventTimestamp, now: i64) -> i64 {
    match ts {
        EventTimestamp::Seconds { micros, .. } => micros,
        EventTimestamp::Text { text, seconds_micros } => match seconds_micros {
            Some(m) => m,
            None => match spec_rfc3339_micros(text@) {
                Some(m) => m,
                None => now,
            },
        },
        EventTimestamp::Other { .. } => now,
    }
}

/// The instant of an event's timestamp, with `now` standing for the clock
/// (see `spec_event_micros`).
pub fn parse_timestamp(ts: &EventTimestamp, now: i64) -> (r: i64)
    ensures
        r == spec_event_micros(*ts, now),
        !uses_clock(*ts) ==> r == spec_event_micros(*ts, 0),
{
    match ts {
        EventTimestamp::Seconds { micros, .. } => *micros,
        EventTimestamp::Text { text, seconds_micros } => match seconds_micros {
            Some(m) => *m,
            None => match rfc3339_micros(text.as_str()) {
                Some(m) => m,
                None => now,
            },
        },
        EventTimestamp::Other { .. } => now,
    }
}

/// What each form of timestamp stands for: a number of seconds is used as
/// given; a string is read as seconds first, then as an RFC 3339 date-time;
/// anything else, or an unreadable string, stands for the clock's time.
pub proof fn lemma_timestamp_forms(ts: EventTimestamp, now: i64)
    ensures
        ts matches EventTimestamp::Seconds { micros, .. } ==> spec_event_micros(ts, now) == micros,
        ts matches EventTimestamp::Text { seconds_micros: Some(m), .. } ==> spec_event_micros(
            ts,
            now,
        ) == m,
        ts matches EventTimestamp::Text { text, seconds_micros: None } ==> spec_event_micros(
            ts,
            now,
        ) == match spec_rfc3339_micros(text@) {
            Some(m) => m,
            None => now,
        },
        ts is Other ==> spec_event_micros(ts, now) == now,
        !uses_clock(ts) ==> forall|other: i64| spec_event_micros(ts, other) == spec_event_micros(
            ts,
            now,
        ),
{
}

} // verus!
