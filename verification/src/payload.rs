//! The Sentry event payload, as the grouping logic reads it.

use vstd::prelude::*;

use crate::text::text_or;

verus! {

/// One stack frame of an exception.
#[derive(Debug, Clone)]
pub struct SentryFrame {
    pub filename: Option<String>,
    pub function: Option<String>,
    pub module: Option<String>,
    pub lineno: Option<i64>,
    pub colno: Option<i64>,
    pub context_line: Option<String>,
    pub in_app: Option<bool>,
}

/// The frames of an exception, outermost call first.
#[derive(Debug, Clone)]
pub struct SentryStacktrace {
    pub frames: Vec<SentryFrame>,
}

/// One exception of a chain.
#[derive(Debug, Clone)]
pub struct SentryExceptionValue {
    pub exc_type: Option<String>,
    pub value: Option<String>,
    pub module: Option<String>,
    pub stacktrace: Option<SentryStacktrace>,
}

/// The exception chain of an event; the last value is the one that was raised.
#[derive(Debug, Clone)]
pub struct SentryException {
    pub values: Vec<SentryExceptionValue>,
}

/// The user an event was reported for.
#[derive(Debug, Clone)]
pub struct SentryUser {
    pub id: Option<String>,
    pub email: Option<String>,
    pub username: Option<String>,
    pub ip_address: Option<String>,
}

/// The SDK that sent an event.
#[derive(Debug, Clone)]
pub struct SentrySdk {
    pub name: Option<String>,
    pub version: Option<String>,
}

/// A full Sentry event as the library reads it.  The free-form JSON members
/// (`tags`, `extra`, `breadcrumbs`, `request`, `contexts`) are carried as their
/// JSON text; the timestamp is carried in the forms the ingest distinguishes.
#[derive(Debug, Clone)]
pub struct SentryEventPayload {
    pub event_id: Option<String>,
    pub timestamp: Option<EventTimestamp>,
    pub level: Option<String>,
    pub platform: Option<String>,
    pub release: Option<String>,
    pub environment: Option<String>,
    pub server_name: Option<String>,
    pub transaction: Option<String>,
    pub message: Option<String>,
    pub exception: Option<SentryException>,
    pub user: Option<SentryUser>,
    pub tags: Option<String>,
    pub extra: Option<String>,
    pub breadcrumbs: Option<String>,
    pub request: Option<String>,
    pub contexts: Option<String>,
    pub sdk: Option<SentrySdk>,
    /// A grouping override supplied by the SDK.
    pub fingerprint: Option<Vec<String>>,
}

/// The `timestamp` member of an event, which SDKs send either as a number of
/// seconds since the Unix epoch or as a string.
#[derive(Debug, Clone)]
pub enum EventTimestamp {
    /// A JSON number: `raw` is its JSON text and `micros` its value in
    /// microseconds, as the reader of the JSON converted it.
    Seconds { raw: String, micros: i64 },
    /// A JSON string: `seconds_micros` is its value in microseconds when the
    /// string reads as a number of seconds.
    Text { text: String, seconds_micros: Option<i64> },
    /// Any other JSON value, as JSON text.
    Other { raw: String },
}

/// The exception that was raised last, if the event carries one.
pub open spec fn last_exception(p: SentryEventPayload) -> Option<SentryExceptionValue> {
    match p.exception {
        Some(e) => if e.values@.len() > 0 {
            Some(e.values@.last())
        } else {
            None
        },
        None => None,
    }
}

/// The last exception value of the event (see `last_exception`).
pub fn last_exception_value(p: &SentryEventPayload) -> (r: Option<&SentryExceptionValue>)
    ensures
        match r {
            Some(v) => last_exception(*p) == Some(*v),
            None => last_exception(*p) is None,
        },
{
    match &p.exception {
        Some(e) => {
            let n = e.values.len();
            if n > 0 {
                Some(&e.values[n - 1])
            } else {
                None
            }
        },
        None => None,
    }
}

/// A frame counts as application code only when the SDK said so explicitly.
pub open spec fn is_in_app(f: SentryFrame) -> bool {
    f.in_app == Some(true)
}

/// The index of the last in-app frame among the first `n` frames.
pub open spec fn last_in_app_before(frames: Seq<SentryFrame>, n: int) -> Option<int>
    decreases n,
{
    if n <= 0 {
        None
    } else if is_in_app(frames[n - 1]) {
        Some(n - 1)
    } else {
        last_in_app_before(frames, n - 1)
    }
}

/// The frame that represents where an error happened: the last in-app frame,
/// or else the last frame; none when there are no frames.
pub open spec fn top_frame_index(frames: Seq<SentryFrame>) -> Option<int> {
    match last_in_app_before(frames, frames.len() as int) {
        Some(i) => Some(i),
        None => if frames.len() > 0 {
            Some(frames.len() - 1)
        } else {
            None
        },
    }
}

/// The top frame of an exception value, if it has a stack trace with frames.
pub open spec fn spec_top_frame(v: SentryExceptionValue) -> Option<SentryFrame> {
    match v.stacktrace {
        Some(st) => match top_frame_index(st.frames@) {
            Some(i) => Some(st.frames@[i]),
            None => None,
        },
        None => None,
    }
}

/// The top frame is the last frame the SDK marked as application code; when
/// no frame is marked so, it is the last frame; it exists when there are frames.
pub proof fn lemma_top_frame_choice(frames: Seq<SentryFrame>)
    ensures
        top_frame_index(frames) is Some <==> frames.len() > 0,
        (exists|j: int| 0 <= j < frames.len() && is_in_app(#[trigger] frames[j])) ==> {
            let i = top_frame_index(frames)->0;
            &&& 0 <= i < frames.len()
            &&& is_in_app(frames[i])
            &&& forall|j: int| i < j < frames.len() ==> !is_in_app(#[trigger] frames[j])
        },
        (forall|j: int| 0 <= j < frames.len() ==> !is_in_app(#[trigger] frames[j]))
            && frames.len() > 0 ==> top_frame_index(frames) == Some(frames.len() - 1),
{
    lemma_last_in_app_before(frames, frames.len() as int);
}

/// Frame `i` is where an error happened: the last frame marked in-app, or,
/// when no frame is marked in-app, the last frame.
pub open spec fn is_top_frame_at(frames: Seq<SentryFrame>, i: int) -> bool {
    &&& 0 <= i < frames.len()
    &&& {
        ||| (frames[i].in_app == Some(true) && forall|j: int|
            i < j < frames.len() ==> (#[trigger] frames[j]).in_app != Some(true))
        ||| (i == frames.len() - 1 && forall|j: int|
            0 <= j < frames.len() ==> (#[trigger] frames[j]).in_app != Some(true))
    }
}

/// The top frame chosen is the frame at `i` whenever `i` is where the error
/// happened, and the top frame of an exception is that frame of its trace.
pub proof fn lemma_top_frame_is_at(v: SentryExceptionValue, i: int)
    requires
        v.stacktrace is Some,
        is_top_frame_at(v.stacktrace->0.frames@, i),
    ensures
        top_frame_index(v.stacktrace->0.frames@) == Some(i),
        spec_top_frame(v) == Some(v.stacktrace->0.frames@[i]),
{
    let frames = v.stacktrace->0.frames@;
    lemma_top_frame_choice(frames);
    if exists|j: int| 0 <= j < frames.len() && is_in_app(#[trigger] frames[j]) {
        let t = top_frame_index(frames)->0;
        if t < i {
            assert(is_in_app(frames[i]));
        } else if i < t {
            assert(is_in_app(frames[t]));
        }
    }
}

proof fn lemma_last_in_app_before(frames: Seq<SentryFrame>, n: int)
    requires
        0 <= n <= frames.len(),
    ensures
        match last_in_app_before(frames, n) {
            Some(i) => 0 <= i < n && is_in_app(frames[i]) && forall|j: int|
                i < j < n ==> !is_in_app(#[trigger] frames[j]),
            None => forall|j: int| 0 <= j < n ==> !is_in_app(#[trigger] frames[j]),
        },
    decreases n,
{
    if n > 0 {
        lemma_last_in_app_before(frames, n - 1);
    }
}

/// Finds the index of the top frame (see `top_frame_index`).
pub fn top_frame_position(frames: &Vec<SentryFrame>) -> (r: Option<usize>)
    ensures
        match r {
            Some(i) => i < frames@.len() && top_frame_index(frames@) == Some(i as int),
            None => top_frame_index(frames@) is None,
        },
{
    let mut n = frames.len();
    while n > 0
        invariant
            n <= frames@.len(),
            last_in_app_before(frames@, frames@.len() as int) == last_in_app_before(frames@, n as int),
        decreases n,
    {
        if frames[n - 1].in_app == Some(true) {
            return Some(n - 1);
        }
        n = n - 1;
    }
    if frames.len() > 0 {
        Some(frames.len() - 1)
    } else {
        None
    }
}

/// The top frame of an exception value (see `spec_top_frame`).
pub fn top_frame(v: &SentryExceptionValue) -> (r: Option<&SentryFrame>)
    ensures
        match r {
            Some(f) => spec_top_frame(*v) == Some(*f),
            None => spec_top_frame(*v) is None,
        },
{
    match &v.stacktrace {
        Some(st) => match top_frame_position(&st.frames) {
            Some(i) => Some(&st.frames[i]),
            None => None,
        },
        None => None,
    }
}

} // verus!
