//! Decoding of the `agent.run_stream` server-sent event stream.
//!
//! Each `data:` line of the stream carries one JSON envelope. Reading is
//! lenient: unknown event types are classified as `Unknown`, unknown fields
//! are ignored, and a frame without an integer `v` or a string `type` is
//! not an event. The byte stream is cut into lines at `\n`; a line may span
//! several chunks of the stream.

use vstd::prelude::*;

pub mod gen;

use crate::json::{Json, JsonValue, json_as_i64, json_text_parse, member, parse_json};
use vstd::utf8::{decode_utf8, valid_utf8};
use crate::text::{has_prefix, str_eq, str_starts_with, str_trim, trim_spec};
use gen::{
    AIRY_RS_K_DATA, AIRY_RS_K_EPOCH, AIRY_RS_K_ID, AIRY_RS_K_RUN_ID, AIRY_RS_K_SESSION,
    AIRY_RS_K_TS, AIRY_RS_K_TYPE, AIRY_RS_K_V, AIRY_RS_TYPE_ERROR, AIRY_RS_TYPE_MESSAGE,
    AIRY_RS_TYPE_PLAN, AIRY_RS_TYPE_RUN_END, AIRY_RS_TYPE_RUN_START, AIRY_RS_TYPE_TOKEN_DELTA,
    AIRY_RS_TYPE_TOOL_DELTA, AIRY_RS_TYPE_TOOL_END, AIRY_RS_TYPE_TOOL_START,
};
use vstd::string::StrSliceExecFns;

verus! {

broadcast use {vstd::std_specs::vec::group_vec_axioms, vstd::string::group_string_axioms};

/// One event of the stream.
#[derive(Debug)]
pub struct RunStreamEnvelope {
    /// Protocol version (`v`).
    pub protocol_v: i64,
    /// Event type (`type`).
    pub event_type: String,
    /// Frame sequence number within a run (`id`, zero when absent).
    pub id: i64,
    /// Identifier of the run.
    pub run_id: Option<String>,
    /// Identifier of the session.
    pub session_id: Option<String>,
    /// Monotonic millisecond timestamp (`ts`, zero when absent).
    pub ts: i64,
    /// Policy epoch (`epoch`, zero when absent).
    pub epoch: i64,
    /// Typed payload (`data`, null when absent).
    pub data: JsonValue,
}

/// Layer an event type belongs to.
#[derive(Debug, Clone, Copy, PartialEq, Eq, Structural)]
pub enum RunStreamKind {
    Control,
    Cognition,
    Execution,
    Outcome,
    Unknown,
}

/// The view of an optional string.
pub open spec fn opt_text(o: Option<String>) -> Option<Seq<char>> {
    match o {
        Some(s) => Some(s@),
        None => None,
    }
}

/// The string member `key` of a value, if it has one.
pub open spec fn str_member(v: Json, key: Seq<char>) -> Option<Seq<char>> {
    match member(v, key) {
        Some(Json::Str(s)) => Some(s),
        _ => None,
    }
}

/// The member `key` of a value read as `i64`, if it is such an integer.
pub open spec fn i64_member(v: Json, key: Seq<char>) -> Option<i64> {
    match member(v, key) {
        Some(x) => json_as_i64(x),
        None => None,
    }
}

/// The member `key` of a value read as `i64`, or zero.
pub open spec fn i64_member_or_zero(v: Json, key: Seq<char>) -> i64 {
    match i64_member(v, key) {
        Some(i) => i,
        None => 0,
    }
}

/// A JSON value is an envelope when it has an integer `v` and a string
/// `type`.
pub open spec fn is_envelope(v: Json) -> bool {
    i64_member(v, AIRY_RS_K_V@) is Some && str_member(v, AIRY_RS_K_TYPE@) is Some
}

/// `e` holds the fields of the envelope `v`, each optional field defaulted.
pub open spec fn envelope_fields(v: Json, e: RunStreamEnvelope) -> bool {
    &&& i64_member(v, AIRY_RS_K_V@) == Some(e.protocol_v)
    &&& str_member(v, AIRY_RS_K_TYPE@) == Some(e.event_type@)
    &&& e.id == i64_member_or_zero(v, AIRY_RS_K_ID@)
    &&& opt_text(e.run_id) == str_member(v, AIRY_RS_K_RUN_ID@)
    &&& opt_text(e.session_id) == str_member(v, AIRY_RS_K_SESSION@)
    &&& e.ts == i64_member_or_zero(v, AIRY_RS_K_TS@)
    &&& e.epoch == i64_member_or_zero(v, AIRY_RS_K_EPOCH@)
    &&& e.data.model() == match member(v, AIRY_RS_K_DATA@) {
        Some(d) => d,
        None => Json::Null,
    }
}

/// The layer of an event type; types this version does not know are
/// `Unknown`.
pub open spec fn kind_of(t: Seq<char>) -> RunStreamKind {
    if t == AIRY_RS_TYPE_RUN_START@ || t == AIRY_RS_TYPE_RUN_END@ || t == AIRY_RS_TYPE_ERROR@ {
        RunStreamKind::Control
    } else if t == AIRY_RS_TYPE_PLAN@ {
        RunStreamKind::Cognition
    } else if t == AIRY_RS_TYPE_TOOL_START@ || t == AIRY_RS_TYPE_TOOL_END@ || t
        == AIRY_RS_TYPE_TOOL_DELTA@ {
        RunStreamKind::Execution
    } else if t == AIRY_RS_TYPE_TOKEN_DELTA@ || t == AIRY_RS_TYPE_MESSAGE@ {
        RunStreamKind::Outcome
    } else {
        RunStreamKind::Unknown
    }
}

/// The layers of the protocol's event types: run start, run end and error
/// events are control; a plan is cognition; the start, end and progress of a
/// tool call are execution; token deltas and messages, and only they, are
/// outcomes; any other type is unknown.
pub proof fn law_event_layers(t: Seq<char>)
    ensures
        (t == "run_start"@ || t == "run_end"@ || t == "error"@) ==> kind_of(t) == RunStreamKind::Control,
        t == "plan"@ ==> kind_of(t) == RunStreamKind::Cognition,
        (t == "tool_start"@ || t == "tool_end"@ || t == "tool_delta"@) <==> kind_of(t) == RunStreamKind::Execution,
        (t == "token_delta"@ || t == "message"@) <==> kind_of(t) == RunStreamKind::Outcome,
        !(t == "run_start"@ || t == "run_end"@ || t == "error"@ || t == "plan"@ || t == "tool_start"@ || t
            == "tool_end"@ || t == "tool_delta"@ || t == "token_delta"@ || t == "message"@) ==> kind_of(t)
            == RunStreamKind::Unknown,
{
    reveal_strlit("run_start");
    reveal_strlit("run_end");
    reveal_strlit("error");
    reveal_strlit("plan");
    reveal_strlit("tool_start");
    reveal_strlit("tool_end");
    reveal_strlit("tool_delta");
    reveal_strlit("token_delta");
    reveal_strlit("message");
    assert("run_start"@.len() == 9);
    assert("run_end"@.len() == 7);
    assert("error"@.len() == 5);
    assert("plan"@.len() == 4);
    assert("tool_start"@.len() == 10);
    assert("tool_end"@.len() == 8);
    assert("tool_delta"@.len() == 10);
    assert("token_delta"@.len() == 11);
    assert("message"@.len() == 7);
    assert("run_start"@[0] == 'r');
    assert("run_end"@[0] == 'r');
    assert("error"@[0] == 'e');
    assert("plan"@[0] == 'p');
    assert("tool_start"@[0] == 't');
    assert("tool_end"@[0] == 't');
    assert("tool_delta"@[0] == 't');
    assert("token_delta"@[0] == 't');
    assert("message"@[0] == 'm');
    assert("tool_start"@[5] == 's');
    assert("tool_delta"@[5] == 'd');
}

/// The JSON document an SSE line carries: after trimming, the line must be
/// neither empty nor a `:` comment, must start with `data:`, and the rest,
/// trimmed again, must be JSON text.
pub open spec fn frame_payload(line: Seq<char>) -> Option<Json> {
    let t = trim_spec(line);
    if t.len() == 0 || has_prefix(t, ":"@) || !has_prefix(t, "data:"@) {
        None
    } else {
        json_text_parse(trim_spec(t.skip("data:"@.len() as int)))
    }
}

/// The event an SSE line decodes to.
pub open spec fn frame_decodes_to(line: Seq<char>, r: Option<RunStreamEnvelope>) -> bool {
    match frame_payload(line) {
        Some(j) => if is_envelope(j) {
            r matches Some(e) && envelope_fields(j, e)
        } else {
            r is None
        },
        None => r is None,
    }
}

fn i64_member_or_zero_exec(v: &JsonValue, key: &str) -> (r: i64)
    ensures
        r == i64_member_or_zero(v.model(), key@),
{
    match v.get(key) {
        Some(x) => match x.as_i64() {
            Some(i) => i,
            None => 0,
        },
        None => 0,
    }
}

fn str_member_exec(v: &JsonValue, key: &str) -> (r: Option<String>)
    ensures
        opt_text(r) == str_member(v.model(), key@),
{
    match v.get(key) {
        Some(x) => match x.as_str() {
            Some(s) => Some(s.to_string()),
            None => None,
        },
        None => None,
    }
}

impl RunStreamEnvelope {
    /// Reads an envelope out of a parsed JSON value.
    pub fn from_value(v: &JsonValue) -> (r: Option<Self>)
        ensures
            r is Some <==> is_envelope(v.model()),
            r matches Some(e) ==> envelope_fields(v.model(), e),
    {
        let protocol_v = match v.get(AIRY_RS_K_V) {
            Some(x) => match x.as_i64() {
                Some(i) => i,
                None => return None,
            },
            None => return None,
        };
        let event_type = match str_member_exec(v, AIRY_RS_K_TYPE) {
            Some(t) => t,
            None => return None,
        };
        let data = match v.get(AIRY_RS_K_DATA) {
            Some(d) => d.deep_clone(),
            None => JsonValue::Null,
        };
        Some(
            RunStreamEnvelope {
                protocol_v,
                event_type,
                id: i64_member_or_zero_exec(v, AIRY_RS_K_ID),
                run_id: str_member_exec(v, AIRY_RS_K_RUN_ID),
                session_id: str_member_exec(v, AIRY_RS_K_SESSION),
                ts: i64_member_or_zero_exec(v, AIRY_RS_K_TS),
                epoch: i64_member_or_zero_exec(v, AIRY_RS_K_EPOCH),
                data,
            },
        )
    }

    /// The layer of this event.
    pub fn kind(&self) -> (r: RunStreamKind)
        ensures
            r == kind_of(self.event_type@),
    {
        let t = self.event_type.as_str();
        if str_eq(t, AIRY_RS_TYPE_RUN_START) || str_eq(t, AIRY_RS_TYPE_RUN_END) || str_eq(
            t,
            AIRY_RS_TYPE_ERROR,
        ) {
            RunStreamKind::Control
        } else if str_eq(t, AIRY_RS_TYPE_PLAN) {
            RunStreamKind::Cognition
        } else if str_eq(t, AIRY_RS_TYPE_TOOL_START) || str_eq(t, AIRY_RS_TYPE_TOOL_END) || str_eq(
            t,
            AIRY_RS_TYPE_TOOL_DELTA,
        ) {
            RunStreamKind::Execution
        } else if str_eq(t, AIRY_RS_TYPE_TOKEN_DELTA) || str_eq(t, AIRY_RS_TYPE_MESSAGE) {
            RunStreamKind::Outcome
        } else {
            RunStreamKind::Unknown
        }
    }
}

/// Decodes one SSE line (`data: <json>`); comment lines, empty lines, other
/// fields and invalid frames give `None`.
pub fn decode_sse_frame(line: &str) -> (r: Option<RunStreamEnvelope>)
    ensures
        frame_decodes_to(line@, r),
{
    let t = str_trim(line);
    if t.is_empty() || str_starts_with(t, ":") {
        return None;
    }
    if !str_starts_with(t, "data:") {
        return None;
    }
    proof {
        reveal_strlit("data:");
    }
    let rest = t.substring_char(5, t.unicode_len());
    assert(rest@ == t@.skip("data:"@.len() as int));
    let payload = str_trim(rest);
    match parse_json(payload) {
        Some(v) => RunStreamEnvelope::from_value(&v),
        None => None,
    }
}

/// Cuts a byte buffer at newlines: the complete lines, each ending in `\n`,
/// and the unfinished rest after the last newline.
pub open spec fn split_lines(b: Seq<u8>) -> (Seq<Seq<u8>>, Seq<u8>)
    decreases b.len(),
{
    if b.len() == 0 {
        (Seq::empty(), Seq::empty())
    } else {
        let prev = split_lines(b.drop_last());
        if b.last() == 10u8 {
            (prev.0.push(prev.1.push(10u8)), Seq::empty())
        } else {
            (prev.0, prev.1.push(b.last()))
        }
    }
}

/// The text of a byte string with invalid UTF-8 replaced, as
/// `String::from_utf8_lossy` produces it.
pub uninterp spec fn utf8_lossy(bytes: Seq<u8>) -> Seq<char>;

/// Decodes bytes as UTF-8, replacing invalid sequences.
///
/// Trusted: `String::from_utf8_lossy`. Its result is named `utf8_lossy`;
/// std documents that valid UTF-8 input is decoded as it is.
#[verifier::external_body]
pub(crate) fn string_from_utf8_lossy(bytes: &[u8]) -> (r: String)
    ensures
        r@ == utf8_lossy(bytes@),
        valid_utf8(bytes@) ==> r@ == decode_utf8(bytes@),
{
    String::from_utf8_lossy(bytes).into_owned()
}

/// The envelopes, in order, that a sequence of lines carries.
pub open spec fn line_envelopes(lines: Seq<Seq<u8>>) -> Seq<Json>
    decreases lines.len(),
{
    if lines.len() == 0 {
        Seq::empty()
    } else {
        let prev = line_envelopes(lines.drop_last());
        match frame_payload(utf8_lossy(lines.last())) {
            Some(j) => if is_envelope(j) {
                prev.push(j)
            } else {
                prev
            },
            None => prev,
        }
    }
}

/// `events` are the envelopes `js`, field by field.
pub open spec fn events_match(js: Seq<Json>, events: Seq<RunStreamEnvelope>) -> bool {
    &&& js.len() == events.len()
    &&& forall|i: int| 0 <= i < js.len() ==> envelope_fields(js[i], #[trigger] events[i])
}

/// Decodes the bytes of one line.
pub fn decode_sse_line(line: &[u8]) -> (r: Option<RunStreamEnvelope>)
    ensures
        frame_decodes_to(utf8_lossy(line@), r),
{
    let text = string_from_utf8_lossy(line);
    decode_sse_frame(text.as_str())
}

/// The decoder of an event stream: the bytes received after the last
/// newline.
pub struct SseDecoder {
    pub pending: Vec<u8>,
}

impl SseDecoder {
    /// A decoder that has received nothing.
    pub fn new() -> (r: SseDecoder)
        ensures
            r.pending@ == Seq::<u8>::empty(),
    {
        SseDecoder { pending: Vec::new() }
    }

    /// Takes the next chunk of the stream and returns the events of the
    /// lines it completes; the bytes after the last newline wait for the
    /// next chunk.
    pub fn feed(&mut self, chunk: &[u8]) -> (r: Vec<RunStreamEnvelope>)
        ensures
            final(self).pending@ == split_lines(old(self).pending@ + chunk@).1,
            events_match(line_envelopes(split_lines(old(self).pending@ + chunk@).0), r@),
    {
        let mut buf: Vec<u8> = Vec::new();
        buf.append(&mut self.pending);
        let mut k: usize = 0;
        while k < chunk.len()
            invariant
                k <= chunk@.len(),
                buf@ == old(self).pending@ + chunk@.take(k as int),
            decreases chunk@.len() - k,
        {
            buf.push(chunk[k]);
            assert(old(self).pending@ + chunk@.take(k + 1) =~= (old(self).pending@ + chunk@.take(
                k as int,
            )).push(chunk@[k as int]));
            k = k + 1;
        }
        assert(chunk@.take(chunk@.len() as int) =~= chunk@);
        let ghost b = buf@;
        let mut out: Vec<RunStreamEnvelope> = Vec::new();
        let mut start: usize = 0;
        let mut i: usize = 0;
        while i < buf.len()
            invariant
                b == buf@,
                start <= i <= buf@.len(),
                split_lines(b.take(i as int)).1 == b.subrange(start as int, i as int),
                events_match(line_envelopes(split_lines(b.take(i as int)).0), out@),
            decreases buf@.len() - i,
        {
            assert(b.take(i + 1).drop_last() =~= b.take(i as int));
            if buf[i] == 10u8 {
                let mut line: Vec<u8> = Vec::new();
                let mut j: usize = start;
                while j <= i
                    invariant
                        b == buf@,
                        start <= j <= i + 1,
                        i < buf@.len(),
                        buf@.len() <= usize::MAX,
                        line@ == b.subrange(start as int, j as int),
                    decreases i + 1 - j,
                {
                    line.push(buf[j]);
                    assert(b.subrange(start as int, j + 1) =~= b.subrange(start as int, j as int).push(
                        b[j as int],
                    ));
                    j = j + 1;
                }
                assert(line@ =~= b.subrange(start as int, i as int).push(10u8));
                let decoded = decode_sse_line(line.as_slice());
                let ghost before = out@;
                match decoded {
                    Some(e) => {
                        out.push(e);
                    },
                    None => {},
                }
                proof {
                    let ls = split_lines(b.take(i as int)).0;
                    assert(split_lines(b.take(i + 1)).0 == ls.push(line@));
                    assert(ls.push(line@).drop_last() =~= ls);
                    if decoded is Some {
                        assert forall|q: int|
                            0 <= q < line_envelopes(ls.push(line@)).len() implies envelope_fields(
                            line_envelopes(ls.push(line@))[q],
                            #[trigger] out@[q],
                        ) by {
                            if q < before.len() {
                                assert(out@[q] == before[q]);
                            }
                        }
                    }
                }
                start = i + 1;
            } else {
                assert(b.subrange(start as int, i + 1) =~= b.subrange(start as int, i as int).push(
                    b[i as int],
                ));
            }
            i = i + 1;
        }
        assert(b.take(b.len() as int) =~= b);
        let mut tail: Vec<u8> = Vec::new();
        let mut j: usize = start;
        while j < buf.len()
            invariant
                b == buf@,
                start <= j <= buf@.len(),
                tail@ == b.subrange(start as int, j as int),
            decreases buf@.len() - j,
        {
            tail.push(buf[j]);
            assert(b.subrange(start as int, j + 1) =~= b.subrange(start as int, j as int).push(
                b[j as int],
            ));
            j = j + 1;
        }
        self.pending = tail;
        out
    }

    /// Ends the stream: the bytes after the last newline, when there are
    /// any, are decoded as a last line.
    pub fn finish(self) -> (r: Option<RunStreamEnvelope>)
        ensures
            if self.pending@.len() == 0 {
                r is None
            } else {
                frame_decodes_to(utf8_lossy(self.pending@), r)
            },
    {
        if self.pending.len() == 0 {
            None
        } else {
            decode_sse_line(self.pending.as_slice())
        }
    }
}

/// The rest after the last newline holds no newline, and every complete
/// line ends with its only newline; the lines and the rest together are the
/// input.
pub proof fn law_split_lines_shape(b: Seq<u8>)
    ensures
        forall|i: int| 0 <= i < split_lines(b).1.len() ==> split_lines(b).1[i] != 10u8,
        forall|i: int|
            0 <= i < split_lines(b).0.len() ==> {
                let l = #[trigger] split_lines(b).0[i];
                &&& l.len() > 0
                &&& l.last() == 10u8
                &&& forall|k: int| 0 <= k < l.len() - 1 ==> l[k] != 10u8
            },
        split_lines(b).0.fold_left(Seq::<u8>::empty(), |acc: Seq<u8>, l: Seq<u8>| acc + l)
            + split_lines(b).1 == b,
    decreases b.len(),
{
    if b.len() > 0 {
        law_split_lines_shape(b.drop_last());
        let prev = split_lines(b.drop_last());
        let f = |acc: Seq<u8>, l: Seq<u8>| acc + l;
        if b.last() == 10u8 {
            let line = prev.1.push(10u8);
            assert(prev.0.push(line).drop_last() =~= prev.0);
            assert(prev.0.push(line).fold_left(Seq::<u8>::empty(), f) == f(
                prev.0.fold_left(Seq::<u8>::empty(), f),
                line,
            ));
            let acc = prev.0.fold_left(Seq::<u8>::empty(), f);
            assert(acc + prev.1 == b.drop_last());
            assert(acc + line =~= (acc + prev.1).push(10u8));
            assert(b.drop_last().push(b.last()) =~= b);
            assert(acc + line + Seq::<u8>::empty() =~= b);
        } else {
            let acc = prev.0.fold_left(Seq::<u8>::empty(), f);
            assert(acc + prev.1 == b.drop_last());
            assert(acc + prev.1.push(b.last()) =~= (acc + prev.1).push(b.last()));
            assert(b.drop_last().push(b.last()) =~= b);
        }
    }
}

/// Lines do not depend on where the stream was cut into chunks: reading `a`
/// and then `b` gives the lines of `a`, then the lines that the rest of `a`
/// followed by `b` completes, and the same final rest as reading `a + b` at
/// once.
pub proof fn law_split_lines_chunked(a: Seq<u8>, b: Seq<u8>)
    ensures
        split_lines(a + b).0 == split_lines(a).0 + split_lines(split_lines(a).1 + b).0,
        split_lines(a + b).1 == split_lines(split_lines(a).1 + b).1,
    decreases b.len(),
{
    if b.len() == 0 {
        assert(a + b =~= a);
        lemma_rest_no_newline(a);
        lemma_split_no_newline(split_lines(a).1);
        assert(split_lines(a).1 + b =~= split_lines(a).1);
        assert(split_lines(a).0 + Seq::<Seq<u8>>::empty() =~= split_lines(a).0);
    } else {
        law_split_lines_chunked(a, b.drop_last());
        let t = split_lines(a).1;
        assert((a + b).drop_last() =~= a + b.drop_last());
        assert((t + b).drop_last() =~= t + b.drop_last());
        assert((a + b).last() == b.last());
        assert((t + b).last() == b.last());
        let p = split_lines(t + b.drop_last());
        if b.last() == 10u8 {
            assert(split_lines(a).0 + p.0.push(p.1.push(10u8)) =~= (split_lines(a).0 + p.0).push(
                p.1.push(10u8),
            ));
        }
    }
}

/// Bytes without a newline are all rest and no line.
proof fn lemma_split_no_newline(t: Seq<u8>)
    requires
        forall|i: int| 0 <= i < t.len() ==> t[i] != 10u8,
    ensures
        split_lines(t).0 == Seq::<Seq<u8>>::empty(),
        split_lines(t).1 == t,
    decreases t.len(),
{
    if t.len() > 0 {
        lemma_split_no_newline(t.drop_last());
        assert(t.drop_last().push(t.last()) =~= t);
    }
}

proof fn lemma_rest_no_newline(a: Seq<u8>)
    ensures
        forall|i: int| 0 <= i < split_lines(a).1.len() ==> split_lines(a).1[i] != 10u8,
{
    law_split_lines_shape(a);
}


/// The bytes of chunks received one after another.
pub open spec fn concat_chunks(cs: Seq<Seq<u8>>) -> Seq<u8>
    decreases cs.len(),
{
    if cs.len() == 0 {
        Seq::empty()
    } else {
        cs[0] + concat_chunks(cs.drop_first())
    }
}

/// The lines of a whole body: each line that a newline ends, then the
/// bytes after the last newline as a last line when there are any.
pub open spec fn body_lines(b: Seq<u8>) -> Seq<Seq<u8>> {
    let s = split_lines(b);
    if s.1.len() > 0 {
        s.0.push(s.1)
    } else {
        s.0
    }
}

/// The envelopes a decoder holding back `pending` hands out when it is fed
/// these chunks and then finished: those `feed` returns for each chunk, in
/// order, then the one `finish` gives for the bytes left.
pub open spec fn fed_envelopes(pending: Seq<u8>, cs: Seq<Seq<u8>>) -> Seq<Json>
    decreases cs.len(),
{
    if cs.len() == 0 {
        line_envelopes(if pending.len() > 0 {
            seq![pending]
        } else {
            Seq::empty()
        })
    } else {
        let s = split_lines(pending + cs[0]);
        line_envelopes(s.0) + fed_envelopes(s.1, cs.drop_first())
    }
}

/// The envelopes of two runs of lines are those of each, in order.
proof fn lemma_line_envelopes_concat(x: Seq<Seq<u8>>, y: Seq<Seq<u8>>)
    ensures
        line_envelopes(x + y) == line_envelopes(x) + line_envelopes(y),
    decreases y.len(),
{
    if y.len() == 0 {
        assert(x + y =~= x);
        assert(line_envelopes(x) + line_envelopes(y) =~= line_envelopes(x));
    } else {
        lemma_line_envelopes_concat(x, y.drop_last());
        assert((x + y).drop_last() =~= x + y.drop_last());
        assert((x + y).last() == y.last());
        let a = line_envelopes(x);
        let b = line_envelopes(y.drop_last());
        match frame_payload(utf8_lossy(y.last())) {
            Some(j) => {
                if is_envelope(j) {
                    assert((a + b).push(j) =~= a + b.push(j));
                }
            },
            None => {},
        }
    }
}

/// Feeding the chunks to a decoder that holds back bytes without a newline
/// gives the envelopes of the lines of those bytes followed by the chunks.
proof fn lemma_fed_envelopes(pending: Seq<u8>, cs: Seq<Seq<u8>>)
    requires
        forall|i: int| 0 <= i < pending.len() ==> pending[i] != 10u8,
    ensures
        fed_envelopes(pending, cs) == line_envelopes(body_lines(pending + concat_chunks(cs))),
    decreases cs.len(),
{
    if cs.len() == 0 {
        assert(pending + concat_chunks(cs) =~= pending);
        lemma_split_no_newline(pending);
        if pending.len() > 0 {
            assert(Seq::<Seq<u8>>::empty().push(pending) =~= seq![pending]);
        }
    } else {
        let c = cs[0];
        let rest = cs.drop_first();
        let a = pending + c;
        let s = split_lines(a);
        lemma_rest_no_newline(a);
        lemma_fed_envelopes(s.1, rest);
        law_split_lines_chunked(a, concat_chunks(rest));
        assert(pending + concat_chunks(cs) =~= a + concat_chunks(rest));
        let t = split_lines(s.1 + concat_chunks(rest));
        if t.1.len() > 0 {
            assert(s.0 + t.0.push(t.1) =~= (s.0 + t.0).push(t.1));
        }
        assert(body_lines(a + concat_chunks(rest)) =~= s.0 + body_lines(s.1 + concat_chunks(rest)));
        lemma_line_envelopes_concat(s.0, body_lines(s.1 + concat_chunks(rest)));
    }
}

/// Events do not depend on how the stream was cut into chunks: a fresh
/// decoder fed any chunks and then finished hands out the envelopes of the
/// lines of the whole body, in order, so two cuts of the same body give the
/// same events.
pub proof fn law_stream_events_chunked(cs: Seq<Seq<u8>>, ds: Seq<Seq<u8>>)
    ensures
        fed_envelopes(Seq::empty(), cs) == line_envelopes(body_lines(concat_chunks(cs))),
        concat_chunks(cs) == concat_chunks(ds) ==> fed_envelopes(Seq::empty(), cs) == fed_envelopes(Seq::empty(), ds),
{
    lemma_fed_envelopes(Seq::empty(), cs);
    lemma_fed_envelopes(Seq::empty(), ds);
    assert(Seq::<u8>::empty() + concat_chunks(cs) =~= concat_chunks(cs));
    assert(Seq::<u8>::empty() + concat_chunks(ds) =~= concat_chunks(ds));
}

/// The body of a run-stream subscription: a JSON-RPC call of
/// `agent.run_stream` with id 1.
pub open spec fn run_stream_body(params: Json) -> Json {
    Json::Object(seq![
        ("jsonrpc"@, Json::Str("2.0"@)),
        ("id"@, Json::Number(crate::json::NumberModel::PosInt(1))),
        ("method"@, Json::Str("agent.run_stream"@)),
        ("params"@, params),
    ])
}

/// The request that subscribes to a run's event stream.
pub fn run_stream_request(params: JsonValue) -> (r: crate::client::ApiRequest)
    ensures
        r.method == crate::client::HttpMethod::Post,
        r.path@ == "/api/v1/agent/run/stream"@,
        r.body matches Some(b) && b.model() == run_stream_body(params.model()),
{
    let ghost pm = params.model();
    let mut entries: Vec<(String, JsonValue)> = Vec::new();
    entries.push((crate::text::owned("jsonrpc"), JsonValue::String(crate::text::owned("2.0"))));
    entries.push((crate::text::owned("id"), JsonValue::from_u64(1)));
    entries.push((crate::text::owned("method"), JsonValue::String(crate::text::owned("agent.run_stream"))));
    entries.push((crate::text::owned("params"), params));
    let map = crate::json::JsonMap { entries };
    assert(map.model() =~= run_stream_body(pm)->Object_0);
    crate::client::ApiRequest {
        method: crate::client::HttpMethod::Post,
        path: crate::text::owned("/api/v1/agent/run/stream"),
        body: Some(JsonValue::Object(map)),
    }
}

} // verus!
