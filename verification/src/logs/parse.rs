//! Structuring of raw PMP log lines.

use vstd::prelude::*;
use crate::digest::{hex_of, hex_text, sha256, sha256_digest};
use crate::json::{Json, JsonV, NumV, dec_text, json_parsed, number_text, parse_json, u64_text};
use crate::text::{
    append_chars, chars_eq, chars_eq_str, chars_of, find_char, find_ws, first_index_of, first_ws, lower,
    own, slice_chars, string_from_chars, strip_brackets, strip_brackets_chars, to_lower_chars, trim,
    trim_chars, trim_start, trim_start_chars, char_is_whitespace, is_bracket, lemma_first_ws,
};

verus! {

#[derive(Debug)]
/// One PMP log occurrence.
pub struct LogLine {
    pub seq: Option<u64>,
    pub line: String,
}

#[derive(Debug)]
/// Structured log entry. `service` is `pmp` for entries from PMP.
pub struct LogEntry {
    pub log_id: String,
    pub timestamp: String,
    pub service: String,
    pub level: String,
    pub event: Option<String>,
    pub message: String,
    pub error_code: Option<String>,
    pub request_id: Option<String>,
    pub command_id: Option<String>,
    pub room_uuid: Option<String>,
    pub user_id: Option<String>,
}

// ── occurrence ids ───────────────────────────────────────────────────

/// The occurrence id of a line: `pmp-<seq>` when PMP numbers it, otherwise
/// `pmp-legacy-` and the hex of the first 8 bytes of the line's SHA-256.
pub open spec fn log_id_text(line: Seq<char>, seq: Option<u64>) -> Seq<char> {
    match seq {
        Some(n) => "pmp-"@ + dec_text(n as nat),
        None => "pmp-legacy-"@ + hex_text(sha256_digest(vstd::utf8::encode_utf8(line)).take(8)),
    }
}

/// Stable occurrence id.
pub fn log_id_for(line: &str, seq: Option<u64>) -> (id: String)
    ensures
        id@ == log_id_text(line@, seq),
{
    match seq {
        Some(n) => {
            let mut s = own("pmp-");
            let d = u64_text(n);
            append_chars(&mut s, d.as_slice());
            s
        },
        None => {
            let bytes = line.as_bytes();
            let digest = sha256(bytes);
            let mut first: Vec<u8> = Vec::new();
            let mut i: usize = 0;
            while i < 8
                invariant
                    i <= 8,
                    digest@.len() == 32,
                    first@ == digest@.take(i as int),
                decreases 8 - i,
            {
                first.push(digest[i]);
                i = i + 1;
                assert(first@ =~= digest@.take(i as int));
            }
            let h = hex_of(first.as_slice());
            let mut s = own("pmp-legacy-");
            append_chars(&mut s, h.as_slice());
            s
        },
    }
}

proof fn lemma_dec_text_nonempty_digits(n: nat)
    ensures
        dec_text(n).len() >= 1,
        forall|i: int| 0 <= i < dec_text(n).len() ==> '0' <= #[trigger] dec_text(n)[i] <= '9',
    decreases n,
{
    if n >= 10 {
        lemma_dec_text_nonempty_digits(n / 10);
    }
}

proof fn lemma_digit_char_injective(a: nat, b: nat)
    requires
        a < 10,
        b < 10,
        crate::json::digit_char(a) == crate::json::digit_char(b),
    ensures
        a == b,
{
    assert(crate::json::digit_char(a) as u32 == 48 + a);
    assert(crate::json::digit_char(b) as u32 == 48 + b);
}

proof fn lemma_dec_text_injective(a: nat, b: nat)
    requires
        dec_text(a) == dec_text(b),
    ensures
        a == b,
    decreases a,
{
    lemma_dec_text_nonempty_digits(a / 10);
    lemma_dec_text_nonempty_digits(b / 10);
    if a < 10 && b < 10 {
        assert(dec_text(a) == seq![crate::json::digit_char(a)]);
        assert(dec_text(b) == seq![crate::json::digit_char(b)]);
        assert(dec_text(a)[0] == crate::json::digit_char(a));
        assert(dec_text(b)[0] == crate::json::digit_char(b));
        lemma_digit_char_injective(a, b);
    } else if a < 10 && b >= 10 {
        assert(dec_text(b).len() >= 2);
    } else if a >= 10 && b < 10 {
        assert(dec_text(a).len() >= 2);
    } else if a >= 10 && b >= 10 {
        assert(dec_text(a).drop_last() =~= dec_text(a / 10));
        assert(dec_text(b).drop_last() =~= dec_text(b / 10));
        lemma_dec_text_injective(a / 10, b / 10);
        assert(dec_text(a) == dec_text(a / 10).push(crate::json::digit_char(a % 10)));
        assert(dec_text(b) == dec_text(b / 10).push(crate::json::digit_char(b % 10)));
        assert(dec_text(a).last() == crate::json::digit_char(a % 10));
        assert(dec_text(b).last() == crate::json::digit_char(b % 10));
        lemma_digit_char_injective(a % 10, b % 10);
        assert(a == 10 * (a / 10) + a % 10) by (nonlinear_arith);
        assert(b == 10 * (b / 10) + b % 10) by (nonlinear_arith);
    }
}

/// Distinct sequence numbers give distinct ids, and a sequenced id never
/// equals a legacy (hash-derived) id.
pub proof fn lemma_log_ids_distinct(l1: Seq<char>, l2: Seq<char>, a: u64, b: u64)
    ensures
        a != b ==> log_id_text(l1, Some(a)) != log_id_text(l2, Some(b)),
        log_id_text(l1, Some(a)) != log_id_text(l2, None),
{
    reveal_strlit("pmp-");
    reveal_strlit("pmp-legacy-");
    lemma_dec_text_nonempty_digits(a as nat);
    if a != b && log_id_text(l1, Some(a)) == log_id_text(l2, Some(b)) {
        assert(("pmp-"@ + dec_text(a as nat)).skip(4) =~= dec_text(a as nat));
        assert(("pmp-"@ + dec_text(b as nat)).skip(4) =~= dec_text(b as nat));
        lemma_dec_text_injective(a as nat, b as nat);
    }
    assert(log_id_text(l1, Some(a))[4] == dec_text(a as nat)[0]);
    assert(log_id_text(l2, None)[4] == 'l');
}

// ── line structure ────────────────────────────────────────────────────

pub open spec fn is_ascii_digit(c: char) -> bool {
    '0' <= c <= '9'
}

/// An RFC-3339-ish timestamp token: at least 10 bytes, 4 digits then `-`.
pub open spec fn looks_like_timestamp(s: Seq<char>) -> bool {
    crate::text::byte_len(s) >= 10 && s.len() >= 5 && is_ascii_digit(s[0]) && is_ascii_digit(s[1])
        && is_ascii_digit(s[2]) && is_ascii_digit(s[3]) && s[4] == '-'
}

pub open spec fn is_known_level(s: Seq<char>) -> bool {
    s == "trace"@ || s == "debug"@ || s == "info"@ || s == "warn"@ || s == "warning"@ || s == "error"@ || s
        == "fatal"@
}

/// `warning` is spelled `warn`; every other level is kept.
pub open spec fn normalize_level(s: Seq<char>) -> Seq<char> {
    if s == "warning"@ {
        "warn"@
    } else {
        s
    }
}

/// `[timestamp] [LEVEL] message`: (timestamp, level, message) of a trimmed
/// line starting with `[`.
pub open spec fn bracketed_fields(t: Seq<char>) -> (Seq<char>, Seq<char>, Seq<char>) {
    let rest = t.skip(1);
    match first_index_of(rest, ']') {
        None => (Seq::empty(), "info"@, t),
        Some(c) => {
            let ts = rest.take(c);
            let after = trim_start(rest.skip(c + 1));
            if after.len() > 0 && after[0] == '[' {
                let a2 = after.skip(1);
                match first_index_of(a2, ']') {
                    Some(c2) => (ts, normalize_level(lower(a2.take(c2))), trim_start(a2.skip(c2 + 1))),
                    None => (ts, "info"@, t),
                }
            } else {
                (ts, "info"@, t)
            }
        },
    }
}

/// The first word of `t`, the next word after any run of whitespace, and
/// what follows that word's ending whitespace character; absent parts empty.
pub open spec fn split3_ws(t: Seq<char>) -> (Seq<char>, Seq<char>, Seq<char>) {
    match first_ws(t) {
        None => (t, Seq::empty(), Seq::empty()),
        Some(i) => {
            let rest = trim_start(t.skip(i + 1));
            match first_ws(rest) {
                None => (t.take(i), rest, Seq::empty()),
                Some(j) => (t.take(i), rest.take(j), rest.skip(j + 1)),
            }
        },
    }
}

/// `2026-08-13T10:00:00.123Z  INFO target: msg`: (timestamp, level,
/// message) of an unbracketed trimmed line.
pub open spec fn plain_fields(t: Seq<char>) -> (Seq<char>, Seq<char>, Seq<char>) {
    let parts = split3_ws(t);
    if looks_like_timestamp(parts.0) {
        let lvl = lower(strip_brackets(parts.1));
        if is_known_level(lvl) {
            (parts.0, normalize_level(lvl), trim_start(parts.2))
        } else {
            (parts.0, "info"@, trim_start(t.skip(parts.0.len() as int)))
        }
    } else {
        (Seq::empty(), "info"@, t)
    }
}

/// A plain line made of a timestamp, one space, a word, one space and the
/// rest: when the word, lower-cased, is one of trace, debug, info, warn,
/// warning, error or fatal, the entry's level is that word (warning spelled
/// warn) and its message is the rest; for any other word the level is info
/// and the message is everything after the timestamp's space.
pub proof fn lemma_plain_line_level(ts: Seq<char>, w: Seq<char>, rest: Seq<char>)
    requires
        looks_like_timestamp(ts),
        forall|k: int| 0 <= k < ts.len() ==> !char_is_whitespace(#[trigger] ts[k]),
        w.len() > 0,
        forall|k: int| 0 <= k < w.len() ==> !char_is_whitespace(#[trigger] w[k]) && !is_bracket(w[k]),
        rest.len() > 0,
        !char_is_whitespace(rest[0]),
    ensures
        ({
            let t = ts + seq![' '] + w + seq![' '] + rest;
            let lw = lower(w);
            if lw == "trace"@ || lw == "debug"@ || lw == "info"@ || lw == "warn"@ || lw == "warning"@ || lw
                == "error"@ || lw == "fatal"@ {
                line_fields(t, None) == (ts, if lw == "warning"@ { "warn"@ } else { lw }, rest)
            } else {
                line_fields(t, None) == (ts, "info"@, w + seq![' '] + rest)
            }
        }),
{
    let t = ts + seq![' '] + w + seq![' '] + rest;
    let after = w + seq![' '] + rest;
    // the first word is the timestamp
    assert forall|k: int| 0 <= k < ts.len() implies !char_is_whitespace(#[trigger] t[k]) by {
        assert(t[k] == ts[k]);
    }
    assert(char_is_whitespace(t[ts.len() as int]));
    lemma_first_ws(t, ts.len() as int);
    assert(t.take(ts.len() as int) =~= ts);
    assert(t.skip(ts.len() as int + 1) =~= after);
    assert(trim_start(after) == after);
    // the second word
    assert forall|k: int| 0 <= k < w.len() implies !char_is_whitespace(#[trigger] after[k]) by {
        assert(after[k] == w[k]);
    }
    assert(char_is_whitespace(after[w.len() as int]));
    lemma_first_ws(after, w.len() as int);
    assert(after.take(w.len() as int) =~= w);
    assert(after.skip(w.len() as int + 1) =~= rest);
    assert(split3_ws(t) == (ts, w, rest));
    // no brackets to strip
    assert(!is_bracket(w[0]));
    assert(!is_bracket(w.last()));
    assert(crate::text::strip_brackets_start(w) == w);
    assert(strip_brackets(w) == w);
    assert(trim_start(rest) == rest);
    assert(t[0] == ts[0]);
    assert(t.skip(ts.len() as int) =~= seq![' '] + after);
    assert(trim_start(seq![' '] + after) == trim_start(after)) by {
        assert((seq![' '] + after).drop_first() =~= after);
    }
    reveal_strlit("trace");
    reveal_strlit("debug");
    reveal_strlit("info");
    reveal_strlit("warn");
    reveal_strlit("warning");
    reveal_strlit("error");
    reveal_strlit("fatal");
}

/// A tracing field as text: a non-empty string, or a number's JSON text.
pub open spec fn string_field(v: JsonV, key: Seq<char>) -> Option<Seq<char>> {
    match v.get(key) {
        Some(JsonV::Str(s)) => if s.len() > 0 { Some(s) } else { None },
        Some(JsonV::Number(n)) => Some(n.text()),
        _ => None,
    }
}

/// The object holding a tracing document's fields (`fields`, else itself).
pub open spec fn fields_of(doc: JsonV) -> JsonV {
    match doc.get("fields"@) {
        Some(f) => f,
        None => doc,
    }
}

/// (timestamp, level, message) of a tracing JSON document `doc` whose text
/// is the trimmed line `t`.
pub open spec fn json_fields(t: Seq<char>, doc: JsonV) -> (Seq<char>, Seq<char>, Seq<char>) {
    let fields = fields_of(doc);
    let ts = match doc.get_str("timestamp"@) {
        Some(s) => s,
        None => Seq::empty(),
    };
    let level = match doc.get_str("level"@) {
        Some(l) => normalize_level(lower(l)),
        None => "info"@,
    };
    let m = match fields.get("message"@) {
        Some(v) => Some(v),
        None => doc.get("message"@),
    };
    let msg = match m {
        Some(v) => match v.as_str() {
            Some(s) => s,
            None => t,
        },
        None => t,
    };
    (ts, level, msg)
}

/// (timestamp, level, message) of the trimmed line `t`; `doc` is the JSON
/// value `t` parses to, when it parses.
pub open spec fn line_fields(t: Seq<char>, doc: Option<JsonV>) -> (Seq<char>, Seq<char>, Seq<char>) {
    let f = match doc {
        Some(d) => json_fields(t, d),
        None => if t.len() > 0 && t[0] == '[' {
            bracketed_fields(t)
        } else {
            plain_fields(t)
        },
    };
    if f.2.len() == 0 {
        (f.0, f.1, t)
    } else {
        f
    }
}

/// An operational field of a tracing document (none for plain lines).
pub open spec fn doc_field(doc: Option<JsonV>, key: Seq<char>) -> Option<Seq<char>> {
    match doc {
        Some(d) => string_field(fields_of(d), key),
        None => None,
    }
}

/// The room of a tracing document: `room_uuid`, else `room_id`.
pub open spec fn doc_room(doc: Option<JsonV>) -> Option<Seq<char>> {
    match doc_field(doc, "room_uuid"@) {
        Some(r) => Some(r),
        None => doc_field(doc, "room_id"@),
    }
}

pub open spec fn opt_view(o: Option<String>) -> Option<Seq<char>> {
    match o {
        Some(s) => Some(s@),
        None => None,
    }
}

fn is_digit_char(c: char) -> (b: bool)
    ensures
        b == is_ascii_digit(c),
{
    '0' <= c && c <= '9'
}

fn byte_len_of(cs: &[char]) -> (n: u128)
    ensures
        n == crate::text::byte_len(cs@),
{
    let mut acc: u128 = 0;
    let mut i: usize = 0;
    while i < cs.len()
        invariant
            i <= cs@.len(),
            acc == crate::text::byte_len(cs@.take(i as int)),
            acc <= 4 * i,
        decreases cs@.len() - i,
    {
        proof {
            crate::text::lemma_byte_len_step(cs@, i as int);
        }
        let c = cs[i];
        let u = c as u32;
        let w: u128 = if u < 0x80 {
            1
        } else if u < 0x800 {
            2
        } else if u < 0x10000 {
            3
        } else {
            4
        };
        acc = acc + w;
        i = i + 1;
    }
    assert(cs@.take(cs@.len() as int) =~= cs@);
    acc
}

fn looks_like_timestamp_exec(s: &[char]) -> (b: bool)
    ensures
        b == looks_like_timestamp(s@),
{
    byte_len_of(s) >= 10 && s.len() >= 5 && is_digit_char(s[0]) && is_digit_char(s[1]) && is_digit_char(s[2])
        && is_digit_char(s[3]) && s[4] == '-'
}

fn is_known_level_exec(s: &[char]) -> (b: bool)
    ensures
        b == is_known_level(s@),
{
    chars_eq_str(s, "trace") || chars_eq_str(s, "debug") || chars_eq_str(s, "info") || chars_eq_str(s, "warn")
        || chars_eq_str(s, "warning") || chars_eq_str(s, "error") || chars_eq_str(s, "fatal")
}

fn normalize_level_exec(s: &[char]) -> (r: Vec<char>)
    ensures
        r@ == normalize_level(s@),
{
    if chars_eq_str(s, "warning") {
        chars_of("warn")
    } else {
        slice_chars(s, 0, s.len())
    }
}

fn bracketed_exec(t: &[char]) -> (r: (Vec<char>, Vec<char>, Vec<char>))
    requires
        t@.len() > 0,
    ensures
        (r.0@, r.1@, r.2@) == bracketed_fields(t@),
{
    let n = t.len();
    let rest = slice_chars(t, 1, n);
    assert(rest@ =~= t@.skip(1));
    match find_char(rest.as_slice(), ']') {
        None => (Vec::new(), chars_of("info"), slice_chars(t, 0, n)),
        Some(c) => {
            let ts = slice_chars(rest.as_slice(), 0, c);
            assert(ts@ =~= rest@.take(c as int));
            let tail = slice_chars(rest.as_slice(), c + 1, rest.len());
            assert(tail@ =~= rest@.skip(c + 1));
            let after = trim_start_chars(tail.as_slice());
            if after.len() > 0 && after[0] == '[' {
                let a2 = slice_chars(after.as_slice(), 1, after.len());
                assert(a2@ =~= after@.skip(1));
                match find_char(a2.as_slice(), ']') {
                    Some(c2) => {
                        let lv = slice_chars(a2.as_slice(), 0, c2);
                        assert(lv@ =~= a2@.take(c2 as int));
                        let low = to_lower_chars(lv.as_slice());
                        let level = normalize_level_exec(low.as_slice());
                        let m0 = slice_chars(a2.as_slice(), c2 + 1, a2.len());
                        assert(m0@ =~= a2@.skip(c2 + 1));
                        let msg = trim_start_chars(m0.as_slice());
                        (ts, level, msg)
                    },
                    None => (ts, chars_of("info"), slice_chars(t, 0, n)),
                }
            } else {
                (ts, chars_of("info"), slice_chars(t, 0, n))
            }
        },
    }
}

fn split3_exec(t: &[char]) -> (r: (Vec<char>, Vec<char>, Vec<char>))
    ensures
        (r.0@, r.1@, r.2@) == split3_ws(t@),
        r.0@.len() <= t@.len(),
{
    let n = t.len();
    match find_ws(t) {
        None => (slice_chars(t, 0, n), Vec::new(), Vec::new()),
        Some(i) => {
            let first = slice_chars(t, 0, i);
            assert(first@ =~= t@.take(i as int));
            let after = slice_chars(t, i + 1, n);
            assert(after@ =~= t@.skip(i + 1));
            let rest = trim_start_chars(after.as_slice());
            let rl = rest.len();
            match find_ws(rest.as_slice()) {
                None => (first, rest, Vec::new()),
                Some(j) => {
                    let second = slice_chars(rest.as_slice(), 0, j);
                    assert(second@ =~= rest@.take(j as int));
                    assert(j < rl);
                    let third = slice_chars(rest.as_slice(), j + 1, rl);
                    assert(third@ =~= rest@.skip(j + 1));
                    (first, second, third)
                },
            }
        },
    }
}

fn plain_exec(t: &[char]) -> (r: (Vec<char>, Vec<char>, Vec<char>))
    ensures
        (r.0@, r.1@, r.2@) == plain_fields(t@),
{
    let (first, second, third) = split3_exec(t);
    if looks_like_timestamp_exec(first.as_slice()) {
        let stripped = strip_brackets_chars(second.as_slice());
        let lvl = to_lower_chars(stripped.as_slice());
        if is_known_level_exec(lvl.as_slice()) {
            let level = normalize_level_exec(lvl.as_slice());
            let msg = trim_start_chars(third.as_slice());
            (first, level, msg)
        } else {
            let k = first.len();
            let tail = slice_chars(t, k, t.len());
            assert(tail@ =~= t@.skip(first@.len() as int));
            let msg = trim_start_chars(tail.as_slice());
            (first, chars_of("info"), msg)
        }
    } else {
        (Vec::new(), chars_of("info"), slice_chars(t, 0, t.len()))
    }
}

fn string_field_exec(v: &Json, key: &str) -> (r: Option<String>)
    ensures
        opt_view(r) == string_field(v@, key@),
{
    match v.get(key) {
        Some(x) => match x {
            Json::Str(s) => {
                if s.unicode_len() > 0 {
                    Some(own(s.as_str()))
                } else {
                    None
                }
            },
            Json::Number(n) => {
                let t = number_text(n);
                Some(string_from_chars(t.as_slice()))
            },
            _ => None,
        },
        None => None,
    }
}

fn json_exec(t: &[char], doc: &Json) -> (r: (Vec<char>, Vec<char>, Vec<char>))
    ensures
        (r.0@, r.1@, r.2@) == json_fields(t@, doc@),
{
    let fields = match doc.get("fields") {
        Some(f) => f,
        None => doc,
    };
    let ts = match doc.get_str("timestamp") {
        Some(s) => chars_of(s),
        None => Vec::new(),
    };
    let level = match doc.get_str("level") {
        Some(l) => {
            let low = to_lower_chars(chars_of(l).as_slice());
            normalize_level_exec(low.as_slice())
        },
        None => chars_of("info"),
    };
    let m = match fields.get("message") {
        Some(v) => Some(v),
        None => doc.get("message"),
    };
    let msg = match m {
        Some(v) => match v.as_str() {
            Some(s) => chars_of(s),
            None => slice_chars(t, 0, t.len()),
        },
        None => slice_chars(t, 0, t.len()),
    };
    (ts, level, msg)
}

/// `e` is the structure of the trimmed line `t` (sequence `seq`), where `d`
/// is the JSON value `t` parses to, when it does.
pub open spec fn structured(e: LogEntry, t: Seq<char>, seq: Option<u64>, d: Option<JsonV>) -> bool {
    &&& e.log_id@ == log_id_text(t, seq)
    &&& (e.timestamp@, e.level@, e.message@) == line_fields(t, d)
    &&& e.service@ == "pmp"@
    &&& opt_view(e.event) == doc_field(d, "event"@)
    &&& opt_view(e.error_code) == doc_field(d, "error_code"@)
    &&& opt_view(e.request_id) == doc_field(d, "request_id"@)
    &&& opt_view(e.command_id) == doc_field(d, "command_id"@)
    &&& opt_view(e.room_uuid) == doc_room(d)
    &&& opt_view(e.user_id) == doc_field(d, "user_id"@)
}

/// Best-effort structure of one raw PMP log occurrence, given `doc`, the
/// JSON value the trimmed line parses to when it does (tracing JSON output).
pub fn parse_log_line_doc(line: &str, seq: Option<u64>, doc: Option<&Json>) -> (e: LogEntry)
    ensures
        structured(
            e,
            trim(line@),
            seq,
            match doc {
                Some(j) => Some(j@),
                None => None,
            },
        ),
{
    let t = trim_chars(chars_of(line).as_slice());
    let (ts, level, msg) = match doc {
        Some(d) => json_exec(t.as_slice(), d),
        None => {
            if t.len() > 0 && t[0] == '[' {
                bracketed_exec(t.as_slice())
            } else {
                plain_exec(t.as_slice())
            }
        },
    };
    let message = if msg.len() == 0 {
        let m = slice_chars(t.as_slice(), 0, t.len());
        assert(m@ =~= t@);
        m
    } else {
        msg
    };
    let (event, error_code, request_id, command_id, room_uuid, user_id) = match doc {
        Some(d) => {
            let fields = match d.get("fields") {
                Some(f) => f,
                None => d,
            };
            let room = match string_field_exec(fields, "room_uuid") {
                Some(r) => Some(r),
                None => string_field_exec(fields, "room_id"),
            };
            (
                string_field_exec(fields, "event"),
                string_field_exec(fields, "error_code"),
                string_field_exec(fields, "request_id"),
                string_field_exec(fields, "command_id"),
                room,
                string_field_exec(fields, "user_id"),
            )
        },
        None => (None, None, None, None, None, None),
    };
    let trimmed = string_from_chars(t.as_slice());
    LogEntry {
        log_id: log_id_for(trimmed.as_str(), seq),
        timestamp: string_from_chars(ts.as_slice()),
        service: own("pmp"),
        level: string_from_chars(level.as_slice()),
        event,
        message: string_from_chars(message.as_slice()),
        error_code,
        request_id,
        command_id,
        room_uuid,
        user_id,
    }
}

/// Best-effort structure of one raw PMP log occurrence: a line that parses
/// as JSON (tracing JSON output) is read by its fields, any other by its
/// text.
pub fn parse_log_line_with_seq(line: &str, seq: Option<u64>) -> (e: LogEntry)
    ensures
        structured(e, trim(line@), seq, json_parsed(trim(line@))),
{
    let trimmed = string_from_chars(trim_chars(chars_of(line).as_slice()).as_slice());
    let doc = parse_json(trimmed.as_str());
    match &doc {
        Some(d) => parse_log_line_doc(line, seq, Some(d)),
        None => parse_log_line_doc(line, seq, None),
    }
}

/// `parse_log_line_with_seq` for an unsequenced line.
pub fn parse_log_line(line: &str) -> (e: LogEntry)
    ensures
        structured(e, trim(line@), None, json_parsed(trim(line@))),
{
    parse_log_line_with_seq(line, None)
}

} // verus!
