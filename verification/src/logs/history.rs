//! Log occurrences from `logs` stream frames and `logs.history` replies.

use vstd::prelude::*;
use crate::json::{Json, JsonV};
use crate::logs::parse::LogLine;
use crate::text::own;

verus! {

/// Model of a log occurrence: (sequence number, line).
pub type LineV = (Option<u64>, Seq<char>);

pub open spec fn line_view(l: LogLine) -> LineV {
    (l.seq, l.line@)
}

pub open spec fn lines_view(s: Seq<LogLine>) -> Seq<LineV> {
    Seq::new(s.len(), |i: int| line_view(s[i]))
}

/// The shapes an occurrence may take.
#[derive(Clone, Copy)]
pub enum LineShape {
    /// A stream frame: a bare string, or `{line, seq?}`.
    Frame,
    /// A history entry: `{line, seq?}`.
    Entry,
    /// A legacy history line: a bare string.
    Plain,
}

pub open spec fn seq_of(v: JsonV) -> Option<u64> {
    match v.get("seq"@) {
        Some(s) => s.as_u64(),
        None => None,
    }
}

/// The occurrence one JSON value holds in a given shape, if any.
pub open spec fn shape_line(shape: LineShape, v: JsonV) -> Option<LineV> {
    match shape {
        LineShape::Frame => match v.as_str() {
            Some(s) => Some((None, s)),
            None => match v.get_str("line"@) {
                Some(l) => Some((seq_of(v), l)),
                None => None,
            },
        },
        LineShape::Entry => match v.get_str("line"@) {
            Some(l) => Some((seq_of(v), l)),
            None => None,
        },
        LineShape::Plain => match v.as_str() {
            Some(s) => Some((None, s)),
            None => None,
        },
    }
}

/// The occurrences of `items` in shape `shape`, in order, skipping others.
pub open spec fn shape_lines(shape: LineShape, items: Seq<JsonV>) -> Seq<LineV>
    decreases items.len(),
{
    if items.len() == 0 {
        Seq::empty()
    } else {
        let prefix = shape_lines(shape, items.drop_last());
        match shape_line(shape, items.last()) {
            Some(l) => prefix.push(l),
            None => prefix,
        }
    }
}

/// Occurrences of a `logs` stream frame: an array of frames, one frame
/// object, or nothing.
pub open spec fn frame_occurrences(frames: JsonV) -> Seq<LineV> {
    match frames {
        JsonV::Array(items) => shape_lines(LineShape::Frame, items),
        JsonV::Object(_) => match shape_line(LineShape::Frame, frames) {
            Some(l) => seq![l],
            None => Seq::empty(),
        },
        _ => Seq::empty(),
    }
}

/// Occurrences of a `logs.history` reply: its `{line, seq}` entries when
/// any parse; otherwise its legacy `lines`; otherwise it read as a frame.
pub open spec fn history_occurrences(value: JsonV) -> Seq<LineV> {
    let parsed = match value.get("entries"@) {
        Some(e) => match e.as_array() {
            Some(items) => shape_lines(LineShape::Entry, items),
            None => Seq::empty(),
        },
        None => Seq::empty(),
    };
    if parsed.len() > 0 {
        parsed
    } else {
        match value.get("lines"@) {
            Some(l) => match l.as_array() {
                Some(arr) => shape_lines(LineShape::Plain, arr),
                None => frame_occurrences(value),
            },
            None => frame_occurrences(value),
        }
    }
}

fn seq_of_exec(v: &Json) -> (r: Option<u64>)
    ensures
        r == seq_of(v@),
{
    match v.get("seq") {
        Some(s) => s.as_u64(),
        None => None,
    }
}

fn shape_line_exec(shape: LineShape, v: &Json) -> (r: Option<LogLine>)
    ensures
        match r {
            Some(l) => shape_line(shape, v@) == Some(line_view(l)),
            None => shape_line(shape, v@) is None,
        },
{
    match shape {
        LineShape::Frame => match v.as_str() {
            Some(s) => Some(LogLine { seq: None, line: own(s) }),
            None => match v.get_str("line") {
                Some(l) => Some(LogLine { seq: seq_of_exec(v), line: own(l) }),
                None => None,
            },
        },
        LineShape::Entry => match v.get_str("line") {
            Some(l) => Some(LogLine { seq: seq_of_exec(v), line: own(l) }),
            None => None,
        },
        LineShape::Plain => match v.as_str() {
            Some(s) => Some(LogLine { seq: None, line: own(s) }),
            None => None,
        },
    }
}

fn shape_lines_exec(shape: LineShape, items: &Vec<Json>) -> (r: Vec<LogLine>)
    ensures
        lines_view(r@) == shape_lines(shape, Seq::new(items@.len(), |i: int| items@[i]@)),
{
    let ghost vs = Seq::new(items@.len(), |i: int| items@[i]@);
    let mut r: Vec<LogLine> = Vec::new();
    let mut i: usize = 0;
    while i < items.len()
        invariant
            i <= items@.len(),
            vs == Seq::new(items@.len(), |i: int| items@[i]@),
            lines_view(r@) == shape_lines(shape, vs.take(i as int)),
        decreases items@.len() - i,
    {
        let ghost before = lines_view(r@);
        assert(vs.take(i + 1).drop_last() =~= vs.take(i as int));
        assert(vs.take(i + 1).last() == items@[i as int]@);
        match shape_line_exec(shape, &items[i]) {
            Some(l) => {
                r.push(l);
                assert(lines_view(r@) =~= before.push(line_view(l)));
            },
            None => {},
        }
        i = i + 1;
    }
    assert(vs.take(items@.len() as int) =~= vs);
    r
}

/// Occurrences of a raw `logs` stream frame. Legacy frames without `seq`
/// stay readable (their id falls back to a content hash).
pub fn parse_log_occurrences(frames: &Json) -> (r: Vec<LogLine>)
    ensures
        lines_view(r@) == frame_occurrences(frames@),
{
    match frames {
        Json::Array(items) => {
            proof {
                crate::json::lemma_array_view(*frames);
            }
            shape_lines_exec(LineShape::Frame, items)
        },
        Json::Object(_) => {
            let mut r: Vec<LogLine> = Vec::new();
            match shape_line_exec(LineShape::Frame, frames) {
                Some(l) => {
                    r.push(l);
                },
                None => {},
            }
            assert(lines_view(r@) =~= frame_occurrences(frames@));
            r
        },
        _ => {
            let r: Vec<LogLine> = Vec::new();
            assert(lines_view(r@) =~= frame_occurrences(frames@));
            r
        },
    }
}

/// The lines of an occurrence list.
pub fn lines_of(occ: Vec<LogLine>) -> (r: Vec<String>)
    ensures
        r@.len() == occ@.len(),
        forall|i: int| 0 <= i < occ@.len() ==> (#[trigger] r@[i])@ == occ@[i].line@,
{
    let mut r: Vec<String> = Vec::new();
    let mut i: usize = 0;
    while i < occ.len()
        invariant
            i <= occ@.len(),
            r@.len() == i,
            forall|k: int| 0 <= k < i ==> (#[trigger] r@[k])@ == occ@[k].line@,
        decreases occ@.len() - i,
    {
        r.push(own(occ[i].line.as_str()));
        i = i + 1;
    }
    r
}

/// Text-only frames helper.
pub fn parse_log_frames(frames: &Json) -> (r: Vec<String>)
    ensures
        r@.len() == frame_occurrences(frames@).len(),
        forall|i: int| 0 <= i < r@.len() ==> (#[trigger] r@[i])@ == frame_occurrences(frames@)[i].1,
{
    let occ = parse_log_occurrences(frames);
    let ghost ov = lines_view(occ@);
    let r = lines_of(occ);
    assert forall|i: int| 0 <= i < r@.len() implies (#[trigger] r@[i])@ == frame_occurrences(frames@)[i].1 by {
        assert(ov[i] == line_view(occ@[i]));
    }
    r
}

/// Occurrences of a `logs.history` reply.
pub fn history_entries_of(value: &Json) -> (r: Vec<LogLine>)
    ensures
        lines_view(r@) == history_occurrences(value@),
{
    let parsed = match value.get("entries") {
        Some(e) => match e.as_array() {
            Some(items) => shape_lines_exec(LineShape::Entry, items),
            None => Vec::new(),
        },
        None => Vec::new(),
    };
    assert(lines_view(Seq::<LogLine>::empty()) =~= Seq::<LineV>::empty());
    if parsed.len() > 0 {
        return parsed;
    }
    match value.get("lines") {
        Some(l) => match l.as_array() {
            Some(arr) => shape_lines_exec(LineShape::Plain, arr),
            None => parse_log_occurrences(value),
        },
        None => parse_log_occurrences(value),
    }
}

/// Text-only history helper.
pub fn history_lines_of(value: &Json) -> (r: Vec<String>)
    ensures
        r@.len() == history_occurrences(value@).len(),
        forall|i: int| 0 <= i < r@.len() ==> (#[trigger] r@[i])@ == history_occurrences(value@)[i].1,
{
    let occ = history_entries_of(value);
    let ghost ov = lines_view(occ@);
    let r = lines_of(occ);
    assert forall|i: int| 0 <= i < r@.len() implies (#[trigger] r@[i])@ == history_occurrences(value@)[i].1 by {
        assert(ov[i] == line_view(occ@[i]));
    }
    r
}

/// The items of one page: `count` items from `offset` on.
pub fn page_window<T>(items: Vec<T>, offset: usize, count: usize) -> (r: Vec<T>)
    ensures
        offset >= items@.len() ==> r@.len() == 0,
        offset < items@.len() ==> r@ == items@.skip(offset as int).take(
            if count <= items@.len() - offset { count as int } else { items@.len() - offset },
        ),
{
    let mut v = items;
    if offset >= v.len() {
        return Vec::new();
    }
    let mut tail = v.split_off(offset);
    assert(tail@ =~= items@.skip(offset as int));
    if count < tail.len() {
        tail.truncate(count);
    }
    assert(tail@ =~= items@.skip(offset as int).take(
        if count <= items@.len() - offset { count as int } else { items@.len() - offset },
    ));
    tail
}

} // verus!
