//! How events are grouped into issues and described: the fingerprint, the
//! title, the culprit, the exception type and the reporting user.

use vstd::prelude::*;
use vstd::string::*;

use crate::payload::{
    is_top_frame_at, lemma_top_frame_is_at, last_exception, last_exception_value, spec_top_frame, top_frame, SentryEventPayload,
    SentryFrame,
};
use crate::text::{
    decimal_text, join_strings, join_with, push_decimal, text_or, text_or_default, texts,
};

verus! {

/// The SHA-256 digest, in lowercase hexadecimal, of the UTF-8 encoding of a
/// text; the result of `sha256::digest` on a string.
pub uninterp spec fn spec_sha256_hex(input: Seq<char>) -> Seq<char>;

/// A lowercase hexadecimal digit.
pub open spec fn is_lower_hex_digit(c: char) -> bool {
    ('0' <= c && c <= '9') || ('a' <= c && c <= 'f')
}

/// Calls `sha256::digest` on a string slice.  The crate hashes the slice's
/// UTF-8 bytes with SHA-256 and encodes the 32-byte digest with `hex::encode`,
/// so the result is a function of the text alone and is 64 lowercase
/// hexadecimal digits; which digits is left to the name `spec_sha256_hex`.
#[verifier::external_body]
fn sha256_hex(input: &str) -> (r: String)
    ensures
        r@ == spec_sha256_hex(input@),
        r@.len() == 64,
        forall|i: int| 0 <= i < 64 ==> is_lower_hex_digit(#[trigger] r@[i]),
{
    sha256::digest(input)
}

/// The placeholder fingerprint `["{{ default }}"]`, which asks for the default grouping.
pub open spec fn is_default_marker(fp: Seq<String>) -> bool {
    fp.len() == 1 && fp[0]@ == "{{ default }}"@
}

/// Whether the SDK supplied a fingerprint that overrides the default grouping.
pub open spec fn honours_custom_fingerprint(p: SentryEventPayload) -> bool {
    match p.fingerprint {
        Some(fp) => fp@.len() > 0 && !is_default_marker(fp@),
        None => false,
    }
}

/// The function name of a frame, or nothing.
pub open spec fn frame_function(f: Option<SentryFrame>) -> Seq<char> {
    match f {
        Some(f) => text_or(f.function, Seq::empty()),
        None => Seq::empty(),
    }
}

/// The module of a frame, falling back to its file name, or nothing.
pub open spec fn frame_module(f: Option<SentryFrame>) -> Seq<char> {
    match f {
        Some(f) => match f.module {
            Some(m) => m@,
            None => text_or(f.filename, Seq::empty()),
        },
        None => Seq::empty(),
    }
}

/// The text whose digest is the fingerprint: the SDK's fingerprint joined with
/// `:`; else `{type}:{function}:{module}` of the last exception's top frame;
/// else the message (or `unknown`).
pub open spec fn spec_fingerprint_source(p: SentryEventPayload) -> Seq<char> {
    if honours_custom_fingerprint(p) {
        join_with(texts(p.fingerprint->0@), ":"@)
    } else {
        match last_exception(p) {
            Some(v) => text_or(v.exc_type, "UnknownError"@) + ":"@ + frame_function(
                spec_top_frame(v),
            ) + ":"@ + frame_module(spec_top_frame(v)),
            None => text_or(p.message, "unknown"@),
        }
    }
}

/// The fingerprint that groups an event into an issue.
pub open spec fn spec_fingerprint(p: SentryEventPayload) -> Seq<char> {
    spec_sha256_hex(spec_fingerprint_source(p))
}

/// The title of an issue: `{type}: {value}` of the last exception (just the
/// type when the value is empty); else the message, or `<no message>`.
pub open spec fn spec_title(p: SentryEventPayload) -> Seq<char> {
    match last_exception(p) {
        Some(v) => {
            let t = text_or(v.exc_type, "Error"@);
            let val = text_or(v.value, Seq::empty());
            if val.len() == 0 {
                t
            } else {
                t + ": "@ + val
            }
        },
        None => text_or(p.message, "<no message>"@),
    }
}

/// The culprit a frame names: `{module} in {function}` when both are known
/// (the module falling back to the file name); else the frame's own module;
/// else `{filename}:{lineno}` when the file name and the line are known; else
/// the file name, or nothing.
pub open spec fn frame_culprit(f: SentryFrame) -> Seq<char> {
    let m = frame_module(Some(f));
    let func = frame_function(Some(f));
    if m.len() > 0 && func.len() > 0 {
        m + " in "@ + func
    } else if f.module is Some && f.module->0@.len() > 0 {
        f.module->0@
    } else if f.filename is Some && f.filename->0@.len() > 0 && f.lineno is Some {
        f.filename->0@ + ":"@ + decimal_text(f.lineno->0 as int)
    } else {
        m
    }
}

/// Where an error happened: a non-empty transaction name; else the culprit
/// named by the last exception's top frame (see `frame_culprit`); else nothing.
pub open spec fn spec_culprit(p: SentryEventPayload) -> Seq<char> {
    if p.transaction is Some && p.transaction->0@.len() > 0 {
        p.transaction->0@
    } else {
        match last_exception(p) {
            Some(v) => match spec_top_frame(v) {
                Some(f) => frame_culprit(f),
                None => Seq::empty(),
            },
            None => Seq::empty(),
        }
    }
}

/// The exception type of the last exception, or `Error`.
pub open spec fn spec_exception_type(p: SentryEventPayload) -> Seq<char> {
    match last_exception(p) {
        Some(v) => text_or(v.exc_type, "Error"@),
        None => "Error"@,
    }
}

/// The user an event is attributed to: the user's id, else e-mail, else user name.
pub open spec fn spec_user_id(p: SentryEventPayload) -> Option<Seq<char>> {
    match p.user {
        Some(u) => if u.id is Some {
            Some(u.id->0@)
        } else if u.email is Some {
            Some(u.email->0@)
        } else if u.username is Some {
            Some(u.username->0@)
        } else {
            None
        },
        None => None,
    }
}

fn frame_module_text(f: &SentryFrame) -> (r: &str)
    ensures
        r@ == frame_module(Some(*f)),
{
    proof {
        reveal_strlit("");
    }
    match &f.module {
        Some(m) => m.as_str(),
        None => text_or_default(&f.filename, ""),
    }
}

/// The text whose digest is the fingerprint (see `spec_fingerprint_source`).
pub fn fingerprint_source(p: &SentryEventPayload) -> (r: String)
    ensures
        r@ == spec_fingerprint_source(*p),
{
    proof {
        reveal_strlit("");
    }
    if let Some(fp) = &p.fingerprint {
        let marker = String::from_str("{{ default }}");
        let is_marker = fp.len() == 1 && fp[0] == marker;
        if fp.len() > 0 && !is_marker {
            return join_strings(fp, ":");
        }
    }
    match last_exception_value(p) {
        Some(v) => {
            let mut r = String::from_str(text_or_default(&v.exc_type, "UnknownError"));
            r.append(":");
            let top = top_frame(v);
            match top {
                Some(f) => {
                    r.append(text_or_default(&f.function, ""));
                    r.append(":");
                    r.append(frame_module_text(f));
                },
                None => {
                    r.append("");
                    r.append(":");
                    r.append("");
                },
            }
            r
        },
        None => String::from_str(text_or_default(&p.message, "unknown")),
    }
}

/// The fingerprint that groups an event into an issue: the SHA-256 hex digest
/// of `fingerprint_source`.
pub fn compute_fingerprint(p: &SentryEventPayload) -> (r: String)
    ensures
        r@ == spec_fingerprint(*p),
        r@.len() == 64,
        forall|i: int| 0 <= i < 64 ==> is_lower_hex_digit(#[trigger] r@[i]),
{
    let source = fingerprint_source(p);
    sha256_hex(source.as_str())
}

/// The title of the issue an event belongs to (see `spec_title`).
pub fn make_title(p: &SentryEventPayload) -> (r: String)
    ensures
        r@ == spec_title(*p),
{
    match last_exception_value(p) {
        Some(v) => {
            let t = text_or_default(&v.exc_type, "Error");
            let val = text_or_default(&v.value, "");
            proof {
                reveal_strlit("");
            }
            if val.is_empty() {
                return String::from_str(t);
            }
            let mut r = String::from_str(t);
            r.append(": ");
            r.append(val);
            r
        },
        None => String::from_str(text_or_default(&p.message, "<no message>")),
    }
}

/// The culprit a frame names (see `frame_culprit`).
pub fn frame_culprit_text(frame: &SentryFrame) -> (r: String)
    ensures
        r@ == frame_culprit(*frame),
{
    proof {
        reveal_strlit("");
    }
    let module = frame_module_text(frame);
    let func = text_or_default(&frame.function, "");
    if !module.is_empty() && !func.is_empty() {
        let mut r = String::from_str(module);
        r.append(" in ");
        r.append(func);
        return r;
    }
    if let Some(m) = &frame.module {
        if !m.as_str().is_empty() {
            return m.clone();
        }
    }
    if let (Some(file), Some(line)) = (&frame.filename, frame.lineno) {
        if !file.as_str().is_empty() {
            let mut r = file.clone();
            r.append(":");
            push_decimal(&mut r, line);
            return r;
        }
    }
    String::from_str(module)
}

/// Where the error of an event happened (see `spec_culprit`).
pub fn make_culprit(p: &SentryEventPayload) -> (r: String)
    ensures
        r@ == spec_culprit(*p),
{
    if let Some(tx) = &p.transaction {
        if !tx.as_str().is_empty() {
            return tx.clone();
        }
    }
    if let Some(v) = last_exception_value(p) {
        if let Some(frame) = top_frame(v) {
            return frame_culprit_text(frame);
        }
    }
    String::new()
}

/// The exception type recorded for an event (see `spec_exception_type`).
pub fn exception_type(p: &SentryEventPayload) -> (r: String)
    ensures
        r@ == spec_exception_type(*p),
{
    match last_exception_value(p) {
        Some(v) => String::from_str(text_or_default(&v.exc_type, "Error")),
        None => String::from_str("Error"),
    }
}

/// The user an event is attributed to (see `spec_user_id`).
pub fn user_id(p: &SentryEventPayload) -> (r: Option<String>)
    ensures
        match r {
            Some(s) => spec_user_id(*p) == Some(s@),
            None => spec_user_id(*p) is None,
        },
{
    match &p.user {
        Some(u) => {
            if let Some(id) = &u.id {
                Some(id.clone())
            } else if let Some(e) = &u.email {
                Some(e.clone())
            } else if let Some(n) = &u.username {
                Some(n.clone())
            } else {
                None
            }
        },
        None => None,
    }
}

/// An SDK-supplied fingerprint decides the grouping: the fingerprint is the
/// digest of its parts joined with `:`.
pub proof fn lemma_custom_fingerprint_decides(p: SentryEventPayload)
    requires
        honours_custom_fingerprint(p),
    ensures
        spec_fingerprint(p) == spec_sha256_hex(join_with(texts(p.fingerprint->0@), ":"@)),
{
}

/// The placeholder `["{{ default }}"]`, like an empty list, groups the event
/// as if it had no fingerprint.
pub proof fn lemma_placeholder_fingerprint_is_default(p: SentryEventPayload)
    requires
        p.fingerprint is Some,
        p.fingerprint->0@.len() == 0 || is_default_marker(p.fingerprint->0@),
    ensures
        spec_fingerprint(p) == spec_fingerprint(SentryEventPayload { fingerprint: None, ..p }),
{
}

/// Without an SDK fingerprint, events whose last exceptions have the same
/// type and the same top-frame function and module share one fingerprint,
/// whatever else differs between them (messages, values, ids, times).
pub proof fn lemma_same_origin_same_fingerprint(p1: SentryEventPayload, p2: SentryEventPayload)
    requires
        !honours_custom_fingerprint(p1),
        !honours_custom_fingerprint(p2),
        last_exception(p1) is Some,
        last_exception(p2) is Some,
        text_or(last_exception(p1)->0.exc_type, "UnknownError"@) == text_or(
            last_exception(p2)->0.exc_type,
            "UnknownError"@,
        ),
        frame_function(spec_top_frame(last_exception(p1)->0)) == frame_function(
            spec_top_frame(last_exception(p2)->0),
        ),
        frame_module(spec_top_frame(last_exception(p1)->0)) == frame_module(
            spec_top_frame(last_exception(p2)->0),
        ),
    ensures
        spec_fingerprint(p1) == spec_fingerprint(p2),
{
}

/// Without an SDK fingerprint or an exception, events with the same message
/// share one fingerprint.
pub proof fn lemma_same_message_same_fingerprint(p1: SentryEventPayload, p2: SentryEventPayload)
    requires
        !honours_custom_fingerprint(p1),
        !honours_custom_fingerprint(p2),
        last_exception(p1) is None,
        last_exception(p2) is None,
        text_or(p1.message, "unknown"@) == text_or(p2.message, "unknown"@),
    ensures
        spec_fingerprint(p1) == spec_fingerprint(p2),
{
}

/// A non-empty transaction name is the culprit, whatever the stack trace says.
pub proof fn lemma_transaction_is_culprit(p: SentryEventPayload)
    requires
        p.transaction is Some,
        p.transaction->0@.len() > 0,
    ensures
        spec_culprit(p) == p.transaction->0@,
{
}

/// An SDK fingerprint of one or more parts, other than `["{{ default }}"]`, is
/// the fingerprint's source: its parts joined with `:` (a single part as it
/// is), whatever exception or message the event carries.
pub proof fn lemma_sdk_fingerprint_honoured(p: SentryEventPayload)
    requires
        p.fingerprint is Some,
        p.fingerprint->0@.len() >= 1,
        !(p.fingerprint->0@.len() == 1 && p.fingerprint->0@[0]@ == "{{ default }}"@),
    ensures
        spec_fingerprint_source(p) == join_with(texts(p.fingerprint->0@), ":"@),
        p.fingerprint->0@.len() == 1 ==> spec_fingerprint_source(p) == p.fingerprint->0@[0]@,
        p.fingerprint->0@.len() == 2 ==> spec_fingerprint_source(p) == p.fingerprint->0@[0]@
            + ":"@ + p.fingerprint->0@[1]@,
        spec_fingerprint(p) == spec_sha256_hex(join_with(texts(p.fingerprint->0@), ":"@)),
{
    let parts = texts(p.fingerprint->0@);
    if parts.len() == 2 {
        assert(parts.drop_last().len() == 1);
        assert(parts.drop_last()[0] == parts[0]);
        assert(join_with(parts.drop_last(), ":"@) == parts[0]);
        assert(parts.last() == parts[1]);
        assert(parts[1] == p.fingerprint->0@[1]@);
    }
}

/// Joining puts the separator between consecutive parts: one part is itself,
/// and adding a part after others adds the separator and the part.
pub proof fn lemma_join_with_parts(parts: Seq<Seq<char>>, last: Seq<char>, sep: Seq<char>)
    ensures
        join_with(seq![last], sep) == last,
        parts.len() >= 1 ==> join_with(parts.push(last), sep) == join_with(parts, sep) + sep
            + last,
        join_with(Seq::empty(), sep) == Seq::<char>::empty(),
{
    assert(parts.push(last).drop_last() =~= parts);
}

/// Without an SDK fingerprint (none, an empty one, or `["{{ default }}"]`),
/// an event with an exception is grouped by `{type}:{function}:{module}`: the
/// last exception's type (`UnknownError` when unknown), and the function and
/// module (else file name) of the frame where the error happened, whatever
/// the other frames and the message are.
pub proof fn lemma_default_fingerprint_from_top_frame(p: SentryEventPayload, i: int)
    requires
        p.fingerprint is None || p.fingerprint->0@.len() == 0 || (p.fingerprint->0@.len() == 1
            && p.fingerprint->0@[0]@ == "{{ default }}"@),
        p.exception is Some,
        p.exception->0.values@.len() > 0,
        p.exception->0.values@.last().stacktrace is Some,
        is_top_frame_at(p.exception->0.values@.last().stacktrace->0.frames@, i),
    ensures
        ({
            let v = p.exception->0.values@.last();
            let f = v.stacktrace->0.frames@[i];
            let t = if v.exc_type is Some {
                v.exc_type->0@
            } else {
                "UnknownError"@
            };
            let func = if f.function is Some {
                f.function->0@
            } else {
                Seq::empty()
            };
            let module = if f.module is Some {
                f.module->0@
            } else if f.filename is Some {
                f.filename->0@
            } else {
                Seq::empty()
            };
            spec_fingerprint_source(p) == t + ":"@ + func + ":"@ + module
        }),
{
    lemma_top_frame_is_at(p.exception->0.values@.last(), i);
}

/// Without an SDK fingerprint and without an exception, the source is the
/// message, or `unknown`.
pub proof fn lemma_default_fingerprint_from_message(p: SentryEventPayload)
    requires
        p.fingerprint is None || p.fingerprint->0@.len() == 0 || (p.fingerprint->0@.len() == 1
            && p.fingerprint->0@[0]@ == "{{ default }}"@),
        p.exception is None || p.exception->0.values@.len() == 0,
    ensures
        spec_fingerprint_source(p) == if p.message is Some {
            p.message->0@
        } else {
            "unknown"@
        },
{
}

/// An event with an exception is titled by its last exception, whatever its
/// message: the type (`Error` when unknown), then `: ` and the value when the
/// value is non-empty.
pub proof fn lemma_title_from_last_exception(p: SentryEventPayload, message: Option<String>)
    requires
        p.exception is Some,
        p.exception->0.values@.len() > 0,
    ensures
        ({
            let v = p.exception->0.values@.last();
            let t = if v.exc_type is Some {
                v.exc_type->0@
            } else {
                "Error"@
            };
            &&& (v.value is None || v.value->0@.len() == 0) ==> spec_title(p) == t
            &&& (v.value is Some && v.value->0@.len() > 0) ==> spec_title(p) == t + ": "@
                + v.value->0@
        }),
        spec_title(SentryEventPayload { message, ..p }) == spec_title(p),
{
}

/// An event without an exception is titled by its message, or `<no message>`.
pub proof fn lemma_title_from_message(p: SentryEventPayload)
    requires
        p.exception is None || p.exception->0.values@.len() == 0,
    ensures
        spec_title(p) == if p.message is Some {
            p.message->0@
        } else {
            "<no message>"@
        },
{
}

/// Without a non-empty transaction, the culprit is named by the frame where the
/// last exception happened, whatever the other frames are: `{module} in
/// {function}` when the frame has both.
pub proof fn lemma_culprit_from_top_frame(p: SentryEventPayload, i: int)
    requires
        p.transaction is None || p.transaction->0@.len() == 0,
        p.exception is Some,
        p.exception->0.values@.len() > 0,
        p.exception->0.values@.last().stacktrace is Some,
        is_top_frame_at(p.exception->0.values@.last().stacktrace->0.frames@, i),
    ensures
        ({
            let f = p.exception->0.values@.last().stacktrace->0.frames@[i];
            &&& (f.module is Some && f.module->0@.len() > 0 && f.function is Some
                && f.function->0@.len() > 0) ==> spec_culprit(p) == f.module->0@ + " in "@
                + f.function->0@
            &&& ((f.module is None || f.module->0@.len() == 0) && (f.function is None
                || f.function->0@.len() == 0) && f.filename is Some && f.filename->0@.len() > 0
                && f.lineno is Some) ==> spec_culprit(p) == f.filename->0@ + ":"@ + decimal_text(
                f.lineno->0 as int,
            )
            &&& (f.module is Some && f.module->0@.len() > 0 && (f.function is None
                || f.function->0@.len() == 0)) ==> spec_culprit(p) == f.module->0@
            &&& spec_culprit(p) == frame_culprit(f)
        }),
{
    lemma_top_frame_is_at(p.exception->0.values@.last(), i);
}

/// Without a non-empty transaction or a frame, there is no culprit.
pub proof fn lemma_no_frame_no_culprit(p: SentryEventPayload)
    requires
        p.transaction is None || p.transaction->0@.len() == 0,
        p.exception is None || p.exception->0.values@.len() == 0 || p.exception->0.values@.last(
        ).stacktrace is None || p.exception->0.values@.last().stacktrace->0.frames@.len() == 0,
    ensures
        spec_culprit(p) == Seq::<char>::empty(),
{
}

/// The exception type recorded is the last exception's type, else `Error`.
pub proof fn lemma_exception_type_of_last(p: SentryEventPayload)
    ensures
        (p.exception is Some && p.exception->0.values@.len() > 0
            && p.exception->0.values@.last().exc_type is Some) ==> spec_exception_type(p)
            == p.exception->0.values@.last().exc_type->0@,
        !(p.exception is Some && p.exception->0.values@.len() > 0
            && p.exception->0.values@.last().exc_type is Some) ==> spec_exception_type(p)
            == "Error"@,
{
}

/// The user an event is attributed to: the id when present, else the e-mail,
/// else the user name; none without a user.
pub proof fn lemma_user_id_precedence(p: SentryEventPayload)
    ensures
        p.user is None ==> spec_user_id(p) is None,
        p.user is Some && p.user->0.id is Some ==> spec_user_id(p) == Some(p.user->0.id->0@),
        p.user is Some && p.user->0.id is None && p.user->0.email is Some ==> spec_user_id(p)
            == Some(p.user->0.email->0@),
        p.user is Some && p.user->0.id is None && p.user->0.email is None
            && p.user->0.username is Some ==> spec_user_id(p) == Some(p.user->0.username->0@),
        p.user is Some && p.user->0.id is None && p.user->0.email is None
            && p.user->0.username is None ==> spec_user_id(p) is None,
{
}

} // verus!
