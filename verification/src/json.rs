//! A plain JSON value model for the request/response data the server's logic
//! reads (action arguments, PMP replies, config payloads, error details).
//!
//! Numbers keep the three shapes a JSON number decodes into: a non-negative
//! integer, a negative integer, or a float kept as its decimal text.

use vstd::prelude::*;
use crate::text::{chars_of, own, str_eq, string_from_chars};

verus! {

broadcast use vstd::std_specs::vec::axiom_vec_decreases_to_view;

#[derive(Debug)]
pub enum JsonNumber {
    PosInt(u64),
    NegInt(i64),
    Float(String),
}

#[derive(Debug)]
pub enum Json {
    Null,
    Bool(bool),
    Number(JsonNumber),
    Str(String),
    Array(Vec<Json>),
    Object(Vec<(String, Json)>),
}

/// Mathematical model of a JSON number.
pub enum NumV {
    PosInt(u64),
    NegInt(i64),
    Float(Seq<char>),
}

/// Mathematical model of a JSON value: strings as character sequences,
/// arrays as sequences, objects as sequences of (key, value) entries.
pub enum JsonV {
    Null,
    Bool(bool),
    Number(NumV),
    Str(Seq<char>),
    Array(Seq<JsonV>),
    Object(Seq<(Seq<char>, JsonV)>),
}

pub open spec fn num_view(n: JsonNumber) -> NumV {
    match n {
        JsonNumber::PosInt(u) => NumV::PosInt(u),
        JsonNumber::NegInt(i) => NumV::NegInt(i),
        JsonNumber::Float(t) => NumV::Float(t@),
    }
}

pub open spec fn json_view(j: Json) -> JsonV
    decreases j,
{
    match j {
        Json::Null => JsonV::Null,
        Json::Bool(b) => JsonV::Bool(b),
        Json::Number(n) => JsonV::Number(num_view(n)),
        Json::Str(s) => JsonV::Str(s@),
        Json::Array(v) => JsonV::Array(
            Seq::new(v@.len(), |i: int| if 0 <= i < v@.len() { json_view(v@[i]) } else { JsonV::Null }),
        ),
        Json::Object(v) => JsonV::Object(
            Seq::new(
                v@.len(),
                |i: int|
                    if 0 <= i < v@.len() {
                        (v@[i].0@, json_view(v@[i].1))
                    } else {
                        (Seq::empty(), JsonV::Null)
                    },
            ),
        ),
    }
}

impl View for Json {
    type V = JsonV;

    open spec fn view(&self) -> JsonV {
        json_view(*self)
    }
}

impl View for JsonNumber {
    type V = NumV;

    open spec fn view(&self) -> NumV {
        num_view(*self)
    }
}

/// The model of an object's entry list.
pub open spec fn entries_view(es: Seq<(String, Json)>) -> Seq<(Seq<char>, JsonV)> {
    Seq::new(es.len(), |i: int| (es[i].0@, es[i].1@))
}

/// The value bound to `key` in an object's entries (first binding wins).
pub open spec fn entries_get(es: Seq<(Seq<char>, JsonV)>, key: Seq<char>) -> Option<JsonV>
    decreases es.len(),
{
    if es.len() == 0 {
        None
    } else if es[0].0 == key {
        Some(es[0].1)
    } else {
        entries_get(es.drop_first(), key)
    }
}

/// Entries whose value is a scalar (null, bool, number or string), in order.
pub open spec fn safe_entries(es: Seq<(Seq<char>, JsonV)>) -> Seq<(Seq<char>, JsonV)>
    decreases es.len(),
{
    if es.len() == 0 {
        Seq::empty()
    } else if es[0].1.is_scalar() {
        seq![es[0]] + safe_entries(es.drop_first())
    } else {
        safe_entries(es.drop_first())
    }
}

/// Entries with every binding of `key` removed.
pub open spec fn entries_without(es: Seq<(Seq<char>, JsonV)>, key: Seq<char>) -> Seq<(Seq<char>, JsonV)>
    decreases es.len(),
{
    if es.len() == 0 {
        Seq::empty()
    } else if es[0].0 == key {
        entries_without(es.drop_first(), key)
    } else {
        seq![es[0]] + entries_without(es.drop_first(), key)
    }
}

/// `Map::insert`: `key` bound to `v`, replacing any earlier binding.
pub open spec fn entries_insert(es: Seq<(Seq<char>, JsonV)>, key: Seq<char>, v: JsonV) -> Seq<(Seq<char>, JsonV)> {
    entries_without(es, key).push((key, v))
}

/// Decimal digit character for `d < 10`.
pub open spec fn digit_char(d: nat) -> char {
    ((('0' as u32) as nat) + d) as char
}

/// Decimal text of a natural number (no sign, no leading zeros).
pub open spec fn dec_text(n: nat) -> Seq<char>
    decreases n,
{
    if n < 10 {
        seq![digit_char(n)]
    } else {
        dec_text(n / 10).push(digit_char(n % 10))
    }
}

/// Decimal text of an integer, with a leading '-' when negative.
pub open spec fn int_text(i: int) -> Seq<char> {
    if i < 0 {
        seq!['-'] + dec_text((-i) as nat)
    } else {
        dec_text(i as nat)
    }
}

impl NumV {
    /// Decimal text of the number as JSON writes it.
    pub open spec fn text(self) -> Seq<char> {
        match self {
            NumV::PosInt(u) => dec_text(u as nat),
            NumV::NegInt(i) => int_text(i as int),
            NumV::Float(t) => t,
        }
    }

    pub open spec fn as_i64(self) -> Option<i64> {
        match self {
            NumV::PosInt(u) => if u <= i64::MAX { Some(u as i64) } else { None },
            NumV::NegInt(i) => Some(i),
            NumV::Float(_) => None,
        }
    }

    pub open spec fn as_u64(self) -> Option<u64> {
        match self {
            NumV::PosInt(u) => Some(u),
            NumV::NegInt(i) => if i >= 0 { Some(i as u64) } else { None },
            NumV::Float(_) => None,
        }
    }
}

impl JsonV {
    pub open spec fn is_scalar(self) -> bool {
        match self {
            JsonV::Null | JsonV::Bool(_) | JsonV::Number(_) | JsonV::Str(_) => true,
            _ => false,
        }
    }

    /// `Value::get(key)`: the member `key` of an object; `None` otherwise.
    pub open spec fn get(self, key: Seq<char>) -> Option<JsonV> {
        match self {
            JsonV::Object(es) => entries_get(es, key),
            _ => None,
        }
    }

    pub open spec fn as_str(self) -> Option<Seq<char>> {
        match self {
            JsonV::Str(s) => Some(s),
            _ => None,
        }
    }

    pub open spec fn as_i64(self) -> Option<i64> {
        match self {
            JsonV::Number(n) => n.as_i64(),
            _ => None,
        }
    }

    pub open spec fn as_u64(self) -> Option<u64> {
        match self {
            JsonV::Number(n) => n.as_u64(),
            _ => None,
        }
    }

    pub open spec fn as_bool(self) -> Option<bool> {
        match self {
            JsonV::Bool(b) => Some(b),
            _ => None,
        }
    }

    pub open spec fn as_array(self) -> Option<Seq<JsonV>> {
        match self {
            JsonV::Array(items) => Some(items),
            _ => None,
        }
    }

    /// `get(key)` followed by `as_str`.
    pub open spec fn get_str(self, key: Seq<char>) -> Option<Seq<char>> {
        match self.get(key) {
            Some(v) => v.as_str(),
            None => None,
        }
    }
}

pub proof fn lemma_object_view(j: Json)
    requires
        j is Object,
    ensures
        j@ == JsonV::Object(entries_view(j->Object_0@)),
{
    assert(j@->Object_0 =~= entries_view(j->Object_0@));
}

pub proof fn lemma_array_view(j: Json)
    requires
        j is Array,
    ensures
        j@ == JsonV::Array(Seq::new(j->Array_0@.len(), |i: int| j->Array_0@[i]@)),
{
    assert(j@->Array_0 =~= Seq::new(j->Array_0@.len(), |i: int| j->Array_0@[i]@));
}

proof fn lemma_entries_get_skip(es: Seq<(Seq<char>, JsonV)>, key: Seq<char>, i: int)
    requires
        0 <= i <= es.len(),
        forall|j: int| 0 <= j < i ==> (#[trigger] es[j]).0 != key,
    ensures
        entries_get(es, key) == entries_get(es.subrange(i, es.len() as int), key),
    decreases i,
{
    if i == 0 {
        assert(es.subrange(0, es.len() as int) =~= es);
    } else {
        assert(es[0].0 != key);
        assert(es.drop_first().subrange(i - 1, es.drop_first().len() as int) =~= es.subrange(i, es.len() as int));
        assert forall|j: int| 0 <= j < i - 1 implies (#[trigger] es.drop_first()[j]).0 != key by {
            assert(es.drop_first()[j] == es[j + 1]);
        }
        lemma_entries_get_skip(es.drop_first(), key, i - 1);
    }
}

/// Position of the first entry bound to `key` in `es`, if any.
pub fn entry_index(es: &Vec<(String, Json)>, key: &str) -> (r: Option<usize>)
    ensures
        match r {
            Some(i) => i < es@.len() && es@[i as int].0@ == key@ && entries_get(entries_view(es@), key@) == Some(es@[i as int].1@),
            None => entries_get(entries_view(es@), key@) is None,
        },
{
    let ghost ev = entries_view(es@);
    let mut i: usize = 0;
    while i < es.len()
        invariant
            ev == entries_view(es@),
            i <= es@.len(),
            forall|j: int| 0 <= j < i ==> (#[trigger] ev[j]).0 != key@,
        decreases es@.len() - i,
    {
        if str_eq(es[i].0.as_str(), key) {
            proof {
                lemma_entries_get_skip(ev, key@, i as int);
                let t = ev.subrange(i as int, ev.len() as int);
                assert(t[0] == ev[i as int]);
            }
            return Some(i);
        }
        i = i + 1;
    }
    proof {
        lemma_entries_get_skip(ev, key@, i as int);
    }
    None
}

impl Json {
    /// `Value::get(key)`: the member `key` of an object; `None` for non-objects.
    pub fn get(&self, key: &str) -> (r: Option<&Json>)
        ensures
            match r {
                Some(v) => self@.get(key@) == Some(v@),
                None => self@.get(key@) is None,
            },
    {
        match self {
            Json::Object(es) => {
                proof {
                    lemma_object_view(*self);
                }
                match entry_index(es, key) {
                    Some(i) => Some(&es[i].1),
                    None => None,
                }
            },
            _ => None,
        }
    }

    /// `Value::as_str`.
    pub fn as_str(&self) -> (r: Option<&str>)
        ensures
            match r {
                Some(s) => self@.as_str() == Some(s@),
                None => self@.as_str() is None,
            },
    {
        match self {
            Json::Str(s) => Some(s.as_str()),
            _ => None,
        }
    }

    /// `Value::as_i64`.
    pub fn as_i64(&self) -> (r: Option<i64>)
        ensures
            r == self@.as_i64(),
    {
        match self {
            Json::Number(JsonNumber::PosInt(u)) => if *u <= 9223372036854775807u64 { Some(*u as i64) } else { None },
            Json::Number(JsonNumber::NegInt(i)) => Some(*i),
            _ => None,
        }
    }

    /// `Value::as_u64`.
    pub fn as_u64(&self) -> (r: Option<u64>)
        ensures
            r == self@.as_u64(),
    {
        match self {
            Json::Number(JsonNumber::PosInt(u)) => Some(*u),
            Json::Number(JsonNumber::NegInt(i)) => if *i >= 0 { Some(*i as u64) } else { None },
            _ => None,
        }
    }

    /// `Value::as_bool`.
    pub fn as_bool(&self) -> (r: Option<bool>)
        ensures
            r == self@.as_bool(),
    {
        match self {
            Json::Bool(b) => Some(*b),
            _ => None,
        }
    }

    /// `Value::is_object`.
    pub fn as_array(&self) -> (r: Option<&Vec<Json>>)
        ensures
            match r {
                Some(v) => self@.as_array() == Some(Seq::new(v@.len(), |i: int| v@[i]@)) && *self == Json::Array(*v),
                None => self@.as_array() is None,
            },
    {
        match self {
            Json::Array(v) => {
                proof {
                    lemma_array_view(*self);
                }
                Some(v)
            },
            _ => None,
        }
    }

    pub fn is_object(&self) -> (r: bool)
        ensures
            r == (self@ is Object),
    {
        match self {
            Json::Object(_) => true,
            _ => false,
        }
    }

    /// `Value::is_number`.
    pub fn is_number(&self) -> (r: bool)
        ensures
            r == (self@ is Number),
    {
        match self {
            Json::Number(_) => true,
            _ => false,
        }
    }

    /// `Value::is_boolean`.
    pub fn is_boolean(&self) -> (r: bool)
        ensures
            r == (self@ is Bool),
    {
        match self {
            Json::Bool(_) => true,
            _ => false,
        }
    }

    /// Null, boolean, number or string.
    pub fn is_safe_scalar(&self) -> (r: bool)
        ensures
            r == self@.is_scalar(),
    {
        match self {
            Json::Null | Json::Bool(_) | Json::Number(_) | Json::Str(_) => true,
            _ => false,
        }
    }

    /// `get(key)` followed by `as_str`.
    pub fn get_str(&self, key: &str) -> (r: Option<&str>)
        ensures
            match r {
                Some(s) => self@.get_str(key@) == Some(s@),
                None => self@.get_str(key@) is None,
            },
    {
        match self.get(key) {
            Some(v) => v.as_str(),
            None => None,
        }
    }
}

/// The JSON number of an `i64` (non-negative values are unsigned).
pub open spec fn int_json_value(i: i64) -> JsonV {
    if i >= 0 {
        JsonV::Number(NumV::PosInt(i as u64))
    } else {
        JsonV::Number(NumV::NegInt(i))
    }
}

/// An integer value.
pub fn int_json(i: i64) -> (r: Json)
    ensures
        r@ == int_json_value(i),
{
    if i >= 0 {
        Json::Number(JsonNumber::PosInt(i as u64))
    } else {
        Json::Number(JsonNumber::NegInt(i))
    }
}

/// A string value.
pub fn json_string(s: &str) -> (r: Json)
    ensures
        r@ == JsonV::Str(s@),
{
    Json::Str(own(s))
}

/// A deep copy of `j`.
#[verifier::loop_isolation(false)]
pub fn deep_clone(j: &Json) -> (r: Json)
    ensures
        r@ == j@,
    decreases j,
{
    match j {
        Json::Null => Json::Null,
        Json::Bool(b) => Json::Bool(*b),
        Json::Number(n) => Json::Number(
            match n {
                JsonNumber::PosInt(u) => JsonNumber::PosInt(*u),
                JsonNumber::NegInt(i) => JsonNumber::NegInt(*i),
                JsonNumber::Float(t) => JsonNumber::Float(t.clone()),
            },
        ),
        Json::Str(s) => Json::Str(s.clone()),
        Json::Array(v) => {
            let mut out: Vec<Json> = Vec::new();
            let mut i: usize = 0;
            while i < v.len()
                invariant
                    i <= v@.len(),
                    out@.len() == i,
                    forall|k: int| 0 <= k < i ==> (#[trigger] out@[k])@ == v@[k]@,
                decreases v@.len() - i,
            {
                proof {
                    assert(decreases_to!(*j => j->Array_0));
                    assert(decreases_to!(*v => v@));
                    assert(decreases_to!(v@ => v@[i as int]));
                }
                let x = deep_clone(&v[i]);
                out.push(x);
                i = i + 1;
            }
            let r = Json::Array(out);
            assert(r@ == j@) by {
                assert(r@->Array_0 =~= j@->Array_0);
            }
            r
        },
        Json::Object(v) => {
            let mut out: Vec<(String, Json)> = Vec::new();
            let mut i: usize = 0;
            while i < v.len()
                invariant
                    i <= v@.len(),
                    out@.len() == i,
                    forall|k: int| 0 <= k < i ==> (#[trigger] out@[k]).0@ == v@[k].0@ && out@[k].1@ == v@[k].1@,
                decreases v@.len() - i,
            {
                proof {
                    assert(decreases_to!(*j => j->Object_0));
                    assert(decreases_to!(*v => v@));
                    assert(decreases_to!(v@ => v@[i as int]));
                    assert(decreases_to!(v@[i as int] => v@[i as int].1));
                }
                let x = deep_clone(&v[i].1);
                let k = v[i].0.clone();
                out.push((k, x));
                i = i + 1;
            }
            let r = Json::Object(out);
            assert(r@ == j@) by {
                assert(r@->Object_0 =~= j@->Object_0);
            }
            r
        },
    }
}

/// `a == b` on JSON values (numbers compare by their shape and text).
#[verifier::loop_isolation(false)]
pub fn json_eq(a: &Json, b: &Json) -> (r: bool)
    ensures
        r == (a@ == b@),
    decreases a,
{
    match (a, b) {
        (Json::Null, Json::Null) => true,
        (Json::Bool(x), Json::Bool(y)) => *x == *y,
        (Json::Number(x), Json::Number(y)) => match (x, y) {
            (JsonNumber::PosInt(p), JsonNumber::PosInt(q)) => *p == *q,
            (JsonNumber::NegInt(p), JsonNumber::NegInt(q)) => *p == *q,
            (JsonNumber::Float(p), JsonNumber::Float(q)) => str_eq(p.as_str(), q.as_str()),
            _ => false,
        },
        (Json::Str(x), Json::Str(y)) => str_eq(x.as_str(), y.as_str()),
        (Json::Array(x), Json::Array(y)) => {
            proof {
                lemma_array_view(*a);
                lemma_array_view(*b);
            }
            if x.len() != y.len() {
                assert(a@->Array_0.len() != b@->Array_0.len());
                return false;
            }
            let mut i: usize = 0;
            while i < x.len()
                invariant
                    i <= x@.len(),
                    x@.len() == y@.len(),
                    forall|k: int| 0 <= k < i ==> (#[trigger] x@[k])@ == y@[k]@,
                decreases x@.len() - i,
            {
                proof {
                    assert(decreases_to!(*a => a->Array_0));
                    assert(decreases_to!(*x => x@));
                    assert(decreases_to!(x@ => x@[i as int]));
                }
                if !json_eq(&x[i], &y[i]) {
                    proof {
                        assert(a@->Array_0[i as int] != b@->Array_0[i as int]);
                    }
                    return false;
                }
                i = i + 1;
            }
            assert(a@->Array_0 =~= b@->Array_0);
            true
        },
        (Json::Object(x), Json::Object(y)) => {
            proof {
                lemma_object_view(*a);
                lemma_object_view(*b);
            }
            if x.len() != y.len() {
                assert(a@->Object_0.len() != b@->Object_0.len());
                return false;
            }
            let mut i: usize = 0;
            while i < x.len()
                invariant
                    i <= x@.len(),
                    x@.len() == y@.len(),
                    forall|k: int| 0 <= k < i ==> (#[trigger] x@[k]).0@ == y@[k].0@ && x@[k].1@ == y@[k].1@,
                decreases x@.len() - i,
            {
                proof {
                    assert(decreases_to!(*a => a->Object_0));
                    assert(decreases_to!(*x => x@));
                    assert(decreases_to!(x@ => x@[i as int]));
                    assert(decreases_to!(x@[i as int] => x@[i as int].1));
                }
                if !str_eq(x[i].0.as_str(), y[i].0.as_str()) {
                    proof {
                        assert(a@->Object_0[i as int] != b@->Object_0[i as int]);
                    }
                    return false;
                }
                if !json_eq(&x[i].1, &y[i].1) {
                    proof {
                        assert(a@->Object_0[i as int] != b@->Object_0[i as int]);
                    }
                    return false;
                }
                i = i + 1;
            }
            assert(a@->Object_0 =~= b@->Object_0);
            true
        },
        _ => false,
    }
}

/// The digit character for `d < 10`.
pub fn digit(d: u64) -> (c: char)
    requires
        d < 10,
    ensures
        c == digit_char(d as nat),
{
    match d {
        0 => '0',
        1 => '1',
        2 => '2',
        3 => '3',
        4 => '4',
        5 => '5',
        6 => '6',
        7 => '7',
        8 => '8',
        _ => '9',
    }
}

/// Decimal text of `n` (`u64::to_string`).
pub fn u64_text(n: u64) -> (r: Vec<char>)
    ensures
        r@ == dec_text(n as nat),
    decreases n,
{
    if n < 10 {
        let mut v: Vec<char> = Vec::new();
        v.push(digit(n));
        v
    } else {
        let mut v = u64_text(n / 10);
        v.push(digit(n % 10));
        v
    }
}

/// Decimal text of `i` (`i64::to_string`).
pub fn i64_text(i: i64) -> (r: Vec<char>)
    ensures
        r@ == int_text(i as int),
{
    if i < 0 {
        let m: u64 = ((-(i + 1)) as u64) + 1;
        let d = u64_text(m);
        let mut v: Vec<char> = Vec::new();
        v.push('-');
        let mut k: usize = 0;
        while k < d.len()
            invariant
                k <= d@.len(),
                v@ == seq!['-'] + d@.subrange(0, k as int),
            decreases d@.len() - k,
        {
            v.push(d[k]);
            k = k + 1;
            assert(v@ =~= seq!['-'] + d@.subrange(0, k as int));
        }
        assert(d@.subrange(0, d@.len() as int) =~= d@);
        v
    } else {
        u64_text(i as u64)
    }
}

/// Decimal text of a JSON number, as JSON writes it.
pub fn number_text(n: &JsonNumber) -> (r: Vec<char>)
    ensures
        r@ == n@.text(),
{
    match n {
        JsonNumber::PosInt(u) => u64_text(*u),
        JsonNumber::NegInt(i) => i64_text(*i),
        JsonNumber::Float(t) => chars_of(t.as_str()),
    }
}


// ── compact text ──────────────────────────────────────────────────────

/// The compact text `serde_json` writes for `v` taken as a
/// `serde_json::Value`.
pub uninterp spec fn json_compact(v: JsonV) -> Seq<char>;

/// `serde_json::to_string` of the value as a `serde_json::Value`: its
/// compact text, `json_compact` of the value. That call does not fail on a
/// `Value` (its map keys are strings); the empty text stands for a failure.
#[verifier::external_body]
fn compact_text(j: &Json) -> (s: String)
    ensures
        s@ == json_compact(j@),
{
    serde_json::to_string(&value_of_json(j)).unwrap_or_default()
}

/// `Value::to_string`: the compact JSON text of `j`.
pub fn to_text(j: &Json) -> (s: String)
    ensures
        s@ == json_compact(j@),
{
    compact_text(j)
}

// ── the edge to `serde_json` ──────────────────────────────────────────

/// `serde_json::Value`, the form in which outside crates hand JSON over.
#[verifier::external_type_specification]
#[verifier::external_body]
pub struct ExSerdeValue(serde_json::Value);

/// A `serde_json::Value` as the library's JSON, variant for variant: a
/// number keeps its shape (non-negative integer, negative integer, or the
/// decimal text of a float) and an object its members in the value's order.
/// No contract: what is said of a converted value is said by the trusted
/// item that obtains it.
#[verifier::external_body]
pub(crate) fn json_of_value(v: serde_json::Value) -> Json {
    match v {
        serde_json::Value::Null => Json::Null,
        serde_json::Value::Bool(b) => Json::Bool(b),
        serde_json::Value::Number(n) => Json::Number(match (n.as_u64(), n.as_i64()) {
            (Some(u), _) => JsonNumber::PosInt(u),
            (None, Some(i)) => JsonNumber::NegInt(i),
            (None, None) => JsonNumber::Float(n.to_string()),
        }),
        serde_json::Value::String(t) => Json::Str(t),
        serde_json::Value::Array(a) => Json::Array(a.into_iter().map(json_of_value).collect()),
        serde_json::Value::Object(o) => Json::Object(o.into_iter().map(|(k, x)| (k, json_of_value(x))).collect()),
    }
}

/// The library's JSON as a `serde_json::Value`, variant for variant (a
/// float's text is read back as a JSON number). No contract, as above.
#[verifier::external_body]
pub(crate) fn value_of_json(j: &Json) -> serde_json::Value {
    match j {
        Json::Null => serde_json::Value::Null,
        Json::Bool(b) => serde_json::Value::Bool(*b),
        Json::Number(JsonNumber::PosInt(u)) => serde_json::Value::from(*u),
        Json::Number(JsonNumber::NegInt(i)) => serde_json::Value::from(*i),
        Json::Number(JsonNumber::Float(t)) => serde_json::from_str(t).unwrap_or(serde_json::Value::Null),
        Json::Str(t) => serde_json::Value::String(t.clone()),
        Json::Array(a) => serde_json::Value::Array(a.iter().map(value_of_json).collect()),
        Json::Object(es) => serde_json::Value::Object(es.iter().map(|(k, x)| (k.clone(), value_of_json(x))).collect()),
    }
}

/// The JSON value `text` parses to with `serde_json` (as a
/// `serde_json::Value`), `None` when it is no JSON.
pub uninterp spec fn json_parsed(text: Seq<char>) -> Option<JsonV>;

/// `serde_json::from_str` into a `serde_json::Value`: the value `text`
/// parses to, `json_parsed` of the text.
#[verifier::external_body]
pub(crate) fn parse_json(text: &str) -> (r: Option<Json>)
    ensures
        match r {
            Some(d) => json_parsed(text@) == Some(d@),
            None => json_parsed(text@) is None,
        },
{
    match serde_json::from_str::<serde_json::Value>(text) {
        Ok(v) => Some(json_of_value(v)),
        Err(_) => None,
    }
}

} // verus!
