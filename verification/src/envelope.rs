//! The Sentry envelope framing: newline-separated JSON lines, a header line
//! followed by pairs of item header and item payload.

use vstd::prelude::*;
use vstd::string::*;

use crate::text::push_char;
use vstd::utf8::{
    decode_utf8, encode_utf8, encode_utf8_decode_utf8, encode_utf8_valid_utf8, valid_utf8,
};

verus! {

/// A line without the carriage return of a `\r\n` ending.
pub open spec fn strip_cr(line: Seq<char>) -> Seq<char> {
    if line.len() > 0 && line.last() == '\r' {
        line.drop_last()
    } else {
        line
    }
}

/// Reading a text from the start: the lines completed so far and the line in progress.
pub open spec fn split_state(s: Seq<char>) -> (Seq<Seq<char>>, Seq<char>)
    decreases s.len(),
{
    if s.len() == 0 {
        (Seq::empty(), Seq::empty())
    } else {
        let (done, cur) = split_state(s.drop_last());
        if s.last() == '\n' {
            (done.push(strip_cr(cur)), Seq::empty())
        } else {
            (done, cur.push(s.last()))
        }
    }
}

/// The lines of a text as `str::lines` yields them: split at `\n` or `\r\n`,
/// without the line endings; a final line ending adds no empty line.
pub open spec fn spec_lines(s: Seq<char>) -> Seq<Seq<char>> {
    let (done, cur) = split_state(s);
    if cur.len() > 0 {
        done.push(cur)
    } else {
        done
    }
}

/// The line in progress: the characters kept so far, and a carriage return
/// held back until it is known not to end the line.
pub open spec fn pending_line(kept: Seq<char>, held_cr: bool) -> Seq<char> {
    if held_cr {
        kept.push('\r')
    } else {
        kept
    }
}

/// Splits a text into its lines (see `spec_lines`).
pub fn split_lines(text: &str) -> (r: Vec<String>)
    ensures
        r@.map_values(|l: String| l@) == spec_lines(text@),
{
    let mut done: Vec<String> = Vec::new();
    let mut cur = String::new();
    let mut held_cr = false;
    for c in it: text.chars()
        invariant
            it.seq() == text@,
            !held_cr ==> (cur@.len() == 0 || cur@.last() != '\r'),
            (done@.map_values(|l: String| l@), pending_line(cur@, held_cr)) == split_state(
                text@.take(it.index() as int),
            ),
    {
        let ghost before = text@.take(it.index() as int);
        let ghost old_done = done@;
        let ghost old_cur = cur@;
        let ghost old_held = held_cr;
        let ghost after = text@.take(it.index() + 1);
        assert(after.drop_last() =~= before);
        assert(after.last() == c);
        if c == '\n' {
            assert(strip_cr(pending_line(old_cur, old_held)) == old_cur);
            assert(split_state(after).0 == split_state(before).0.push(old_cur));
            done.push(cur);
            cur = String::new();
            held_cr = false;
            assert(done@.map_values(|l: String| l@) =~= old_done.map_values(|l: String| l@).push(
                old_cur,
            ));
        } else {
            if held_cr {
                push_char(&mut cur, '\r');
            }
            if c == '\r' {
                held_cr = true;
            } else {
                push_char(&mut cur, c);
                held_cr = false;
            }
        }
    }
    if held_cr {
        push_char(&mut cur, '\r');
    }
    assert(text@.take(text@.len() as int) =~= text@);
    if cur.as_str().is_empty() {
        done
    } else {
        let ghost old_done = done@;
        done.push(cur);
        assert(done@.map_values(|l: String| l@) =~= old_done.map_values(|l: String| l@).push(
            split_state(text@).1,
        ));
        done
    }
}

/// Decodes bytes as UTF-8 with `std::str::from_utf8`, which succeeds exactly
/// on valid UTF-8 and then yields the text the bytes encode.
#[verifier::external_body]
fn decode_utf8_text(bytes: &[u8]) -> (r: Option<&str>)
    ensures
        r is Some <==> valid_utf8(bytes@),
        r matches Some(t) ==> t@ == decode_utf8(bytes@),
{
    std::str::from_utf8(bytes).ok()
}

/// The `type` member of an envelope item header, as `serde_json` reads the
/// header line into a map of JSON values.
pub uninterp spec fn spec_item_type(header: Seq<char>) -> Option<Seq<char>>;

/// Reads an item header line with `serde_json::from_str` into a map from
/// member names to JSON values (a line that does not parse counts as an empty
/// map) and returns the `type` member when it is a JSON string.  The result
/// depends on the line alone; which lines give which type is left to the
/// name `spec_item_type`.
#[verifier::external_body]
fn item_header_type(line: &str) -> (r: Option<String>)
    ensures
        match r {
            Some(t) => spec_item_type(line@) == Some(t@),
            None => spec_item_type(line@) is None,
        },
{
    let header: std::collections::HashMap<String, serde_json::Value> =
        serde_json::from_str(line).unwrap_or_default();
    header.get("type").and_then(|v| v.as_str()).map(|t| t.to_string())
}

/// The payload of the first `event` item among the item pairs that start at
/// line `i`: lines `i` and `i + 1` are a header and its payload, and a header
/// without a payload line ends the search.
pub open spec fn event_item_from(lines: Seq<Seq<char>>, i: int) -> Option<Seq<char>>
    decreases lines.len() - i,
{
    if i < 0 || i + 1 >= lines.len() {
        None
    } else if spec_item_type(lines[i]) == Some("event"@) {
        Some(lines[i + 1])
    } else {
        event_item_from(lines, i + 2)
    }
}

/// The event item of an envelope: none unless the body is UTF-8; the first
/// line is the envelope header; then the payload line of the first item whose
/// header has type `event`.
pub open spec fn spec_envelope_event_item(body: Seq<u8>) -> Option<Seq<char>> {
    if !valid_utf8(body) {
        None
    } else {
        let lines = spec_lines(decode_utf8(body));
        if lines.len() == 0 {
            None
        } else {
            event_item_from(lines, 1)
        }
    }
}

/// Finds the payload line of the event item of an envelope (see
/// `spec_envelope_event_item`); items of other types (sessions,
/// transactions, ...) are skipped.
pub fn envelope_event_item(body: &[u8]) -> (r: Option<String>)
    ensures
        match r {
            Some(s) => spec_envelope_event_item(body@) == Some(s@),
            None => spec_envelope_event_item(body@) is None,
        },
{
    let text = match decode_utf8_text(body) {
        Some(t) => t,
        None => return None,
    };
    let lines = split_lines(text);
    let ghost ls = lines@.map_values(|l: String| l@);
    if lines.len() == 0 {
        return None;
    }
    let event = String::from_str("event");
    let mut i: usize = 1;
    while lines.len() - i > 1
        invariant
            1 <= i <= lines@.len(),
            ls == lines@.map_values(|l: String| l@),
            ls == spec_lines(text@),
            valid_utf8(body@),
            text@ == decode_utf8(body@),
            event@ == "event"@,
            event_item_from(ls, 1) == event_item_from(ls, i as int),
        decreases lines.len() - i,
    {
        assert(ls[i as int] == lines@[i as int]@);
        if let Some(t) = item_header_type(lines[i].as_str()) {
            if t == event {
                assert(ls.len() == lines@.len());
                assert(ls[i + 1] == lines@[i + 1]@);
                assert(spec_item_type(ls[i as int]) == Some("event"@));
                assert(event_item_from(ls, i as int) == Some(ls[i + 1]));
                return Some(lines[i + 1].clone());
            }
        }
        i = i + 2;
    }
    None
}

/// A line that reads back as itself: it holds no line feed and does not end
/// in a carriage return.
pub open spec fn is_plain_line(l: Seq<char>) -> bool {
    !l.contains('\n') && (l.len() == 0 || l.last() != '\r')
}

/// Lines written one after the other, each ended by a line feed.
pub open spec fn terminated_lines(ls: Seq<Seq<char>>) -> Seq<char>
    decreases ls.len(),
{
    if ls.len() == 0 {
        Seq::empty()
    } else {
        terminated_lines(ls.drop_last()) + ls.last().push('\n')
    }
}

/// Reading on through text without line feeds only extends the line in progress.
proof fn lemma_split_state_extend(s: Seq<char>, t: Seq<char>)
    requires
        !t.contains('\n'),
    ensures
        split_state(s + t) == (split_state(s).0, split_state(s).1 + t),
    decreases t.len(),
{
    if t.len() == 0 {
        assert(s + t =~= s);
        assert(split_state(s).1 + t =~= split_state(s).1);
    } else {
        let t0 = t.drop_last();
        assert(!t0.contains('\n')) by {
            if t0.contains('\n') {
                let k = choose|k: int| 0 <= k < t0.len() && t0[k] == '\n';
                assert(t[k] == '\n');
            }
        }
        lemma_split_state_extend(s, t0);
        assert((s + t).drop_last() =~= s + t0);
        assert((s + t).last() == t.last());
        assert(t[t.len() - 1] != '\n');
        assert((split_state(s).1 + t0).push(t.last()) =~= split_state(s).1 + t);
    }
}

/// Lines written with line-feed endings read back as the same lines.
pub proof fn lemma_lines_of_terminated(ls: Seq<Seq<char>>)
    requires
        forall|i: int| 0 <= i < ls.len() ==> is_plain_line(#[trigger] ls[i]),
    ensures
        split_state(terminated_lines(ls)) == (ls, Seq::<char>::empty()),
        spec_lines(terminated_lines(ls)) == ls,
    decreases ls.len(),
{
    if ls.len() > 0 {
        let prev = ls.drop_last();
        let l = ls.last();
        assert(forall|i: int| 0 <= i < prev.len() ==> is_plain_line(#[trigger] prev[i])) by {
            assert forall|i: int| 0 <= i < prev.len() implies is_plain_line(#[trigger] prev[i]) by {
                assert(prev[i] == ls[i]);
            }
        }
        lemma_lines_of_terminated(prev);
        assert(is_plain_line(ls[ls.len() - 1]));
        let s = terminated_lines(prev) + l;
        lemma_split_state_extend(terminated_lines(prev), l);
        assert(Seq::<char>::empty() + l =~= l);
        let full = terminated_lines(ls);
        assert(full =~= s.push('\n'));
        assert(full.drop_last() =~= s);
        assert(strip_cr(l) == l);
        assert(prev.push(l) =~= ls);
    }
}

/// An envelope written as UTF-8 lines, each ended by a line feed, yields the
/// payload of its first `event` item: the framing reads back what was written.
pub proof fn lemma_envelope_of_written_lines(ls: Seq<Seq<char>>)
    requires
        ls.len() > 0,
        forall|i: int| 0 <= i < ls.len() ==> is_plain_line(#[trigger] ls[i]),
    ensures
        spec_envelope_event_item(encode_utf8(terminated_lines(ls))) == event_item_from(ls, 1),
{
    encode_utf8_valid_utf8(terminated_lines(ls));
    encode_utf8_decode_utf8(terminated_lines(ls));
    lemma_lines_of_terminated(ls);
}

/// The item found is the payload of the first item pair whose header has type
/// `event`: every earlier header has another type.
pub proof fn lemma_event_item_is_first(lines: Seq<Seq<char>>, i: int)
    requires
        i >= 0,
    ensures
        event_item_from(lines, i) matches Some(payload) ==> exists|k: int|
            #![trigger lines[k]]
            i <= k && k + 1 < lines.len() && (k - i) % 2 == 0 && lines[k + 1] == payload
                && spec_item_type(lines[k]) == Some("event"@) && forall|j: int|
                i <= j < k && (j - i) % 2 == 0 ==> spec_item_type(#[trigger] lines[j]) != Some(
                "event"@,
            ),
        event_item_from(lines, i) is None ==> forall|j: int|
            i <= j && j + 1 < lines.len() && (j - i) % 2 == 0 ==> spec_item_type(
                #[trigger] lines[j],
            ) != Some("event"@),
    decreases lines.len() - i,
{
    if i + 1 < lines.len() && spec_item_type(lines[i]) != Some("event"@) {
        lemma_event_item_is_first(lines, i + 2);
        if let Some(payload) = event_item_from(lines, i) {
            let k = choose|k: int|
                #![trigger lines[k]]
                i + 2 <= k && k + 1 < lines.len() && (k - (i + 2)) % 2 == 0 && lines[k + 1]
                    == payload && spec_item_type(lines[k]) == Some("event"@) && forall|j: int|
                    i + 2 <= j < k && (j - (i + 2)) % 2 == 0 ==> spec_item_type(
                        #[trigger] lines[j],
                    ) != Some("event"@);
            assert forall|j: int|
                i <= j < k && (j - i) % 2 == 0 implies spec_item_type(#[trigger] lines[j]) != Some(
                "event"@,
            ) by {
                if j != i {
                    assert((j - (i + 2)) % 2 == 0);
                }
            }
        } else {
            assert forall|j: int|
                i <= j && j + 1 < lines.len() && (j - i) % 2 == 0 implies spec_item_type(
                #[trigger] lines[j],
            ) != Some("event"@) by {
                if j != i {
                    assert((j - (i + 2)) % 2 == 0);
                }
            }
        }
    }
}

/// Lines written one after the other, each ended by `\r\n`.
pub open spec fn crlf_terminated_lines(ls: Seq<Seq<char>>) -> Seq<char>
    decreases ls.len(),
{
    if ls.len() == 0 {
        Seq::empty()
    } else {
        crlf_terminated_lines(ls.drop_last()) + ls.last().push('\r').push('\n')
    }
}

/// Lines ended by `\r\n` read back without the carriage returns.
pub proof fn lemma_lines_of_crlf_terminated(ls: Seq<Seq<char>>)
    requires
        forall|i: int| 0 <= i < ls.len() ==> !(#[trigger] ls[i]).contains('\n'),
    ensures
        split_state(crlf_terminated_lines(ls)) == (ls, Seq::<char>::empty()),
        spec_lines(crlf_terminated_lines(ls)) == ls,
    decreases ls.len(),
{
    if ls.len() > 0 {
        let prev = ls.drop_last();
        let l = ls.last();
        assert forall|i: int| 0 <= i < prev.len() implies !(#[trigger] prev[i]).contains('\n') by {
            assert(prev[i] == ls[i]);
        }
        lemma_lines_of_crlf_terminated(prev);
        assert(!ls[ls.len() - 1].contains('\n'));
        let lr = l.push('\r');
        assert(!lr.contains('\n')) by {
            if lr.contains('\n') {
                let k = choose|k: int| 0 <= k < lr.len() && lr[k] == '\n';
                assert(l[k] == '\n');
            }
        }
        lemma_split_state_extend(crlf_terminated_lines(prev), lr);
        assert(Seq::<char>::empty() + lr =~= lr);
        let full = crlf_terminated_lines(ls);
        assert(full =~= (crlf_terminated_lines(prev) + lr).push('\n'));
        assert(full.drop_last() =~= crlf_terminated_lines(prev) + lr);
        assert(lr.drop_last() =~= l);
        assert(strip_cr(lr) == l);
        assert(prev.push(l) =~= ls);
    }
}

/// A last line without a line ending is still a line, kept as it is (a
/// carriage return at its end included); an empty text has no lines.
pub proof fn lemma_unterminated_last_line(ls: Seq<Seq<char>>, last: Seq<char>)
    requires
        forall|i: int| 0 <= i < ls.len() ==> is_plain_line(#[trigger] ls[i]),
        !last.contains('\n'),
        last.len() > 0,
    ensures
        spec_lines(terminated_lines(ls) + last) == ls.push(last),
        spec_lines(Seq::empty()) == Seq::<Seq<char>>::empty(),
{
    lemma_lines_of_terminated(ls);
    lemma_split_state_extend(terminated_lines(ls), last);
    assert(Seq::<char>::empty() + last =~= last);
}

} // verus!
