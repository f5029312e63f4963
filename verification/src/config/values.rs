//! Editing PMP config values through the descriptor: validation of form
//! values, the patch-merge into the existing config document (only the
//! modified descriptor fields change; `[REDACTED]` keeps the old value;
//! unknown fields stay), the redacted value projection, the field-level
//! diff, and the PPF build config check.
//!
//! The config document is the YAML file decoded into the JSON value model
//! (mappings as objects, in file order); decoding and encoding YAML happen
//! at the server's edge.

use vstd::prelude::*;
use crate::config::pmp::{ConfigFieldDescriptor, FieldSpec, PmpConfigManager, fields_view, pmp_config_descriptor, pmp_fields};
use crate::error::{ApiError, ErrorCode, params_doc, visible_message};
use crate::json::{Json, JsonV, deep_clone, entries_get, entries_view, json_eq, json_string, lemma_object_view};
use crate::text::{chars_eq, chars_of, lower, own, split_chars, split_on, str_eq, string_from_chars, to_lower_chars, trim, trim_chars};

verus! {

broadcast use vstd::std_specs::vec::axiom_vec_decreases_to_view;

// ── document model ────────────────────────────────────────────────────

/// The models of a sequence of character vectors.
pub open spec fn chars_views(s: Seq<Vec<char>>) -> Seq<Seq<char>> {
    Seq::new(s.len(), |i: int| s[i]@)
}

/// The dotted path split into its keys.
pub open spec fn path_keys(path: Seq<char>) -> Seq<Seq<char>> {
    split_on(path, '.')
}

/// The position of the first entry bound to `key`.
pub open spec fn first_key_index(es: Seq<(Seq<char>, JsonV)>, key: Seq<char>) -> Option<int>
    decreases es.len(),
{
    if es.len() == 0 {
        None
    } else if es[0].0 == key {
        Some(0)
    } else {
        match first_key_index(es.drop_first(), key) {
            Some(i) => Some(i + 1),
            None => None,
        }
    }
}

/// Insert into a mapping: an existing binding of `key` takes `v` where it
/// stands; a new key is appended.
pub open spec fn entries_put(es: Seq<(Seq<char>, JsonV)>, key: Seq<char>, v: JsonV) -> Seq<(Seq<char>, JsonV)> {
    match first_key_index(es, key) {
        Some(i) => es.update(i, (key, v)),
        None => es.push((key, v)),
    }
}

/// `doc` with the value at `keys` set to `v`, creating missing mappings on
/// the way; `None` when a segment on the way is not a mapping.
pub open spec fn set_path(doc: JsonV, keys: Seq<Seq<char>>, v: JsonV) -> Option<JsonV>
    decreases keys.len(),
{
    if keys.len() == 0 {
        Some(doc)
    } else {
        match doc {
            JsonV::Object(es) => if keys.len() == 1 {
                Some(JsonV::Object(entries_put(es, keys[0], v)))
            } else {
                let child = match entries_get(es, keys[0]) {
                    Some(c) => c,
                    None => JsonV::Object(Seq::empty()),
                };
                match set_path(child, keys.drop_first(), v) {
                    Some(c2) => Some(JsonV::Object(entries_put(es, keys[0], c2))),
                    None => None,
                }
            },
            _ => None,
        }
    }
}

/// The value at `keys` in `doc`, if every key is found.
pub open spec fn value_at(doc: JsonV, keys: Seq<Seq<char>>) -> Option<JsonV>
    decreases keys.len(),
{
    if keys.len() == 0 {
        Some(doc)
    } else {
        match doc.get(keys[0]) {
            Some(c) => value_at(c, keys.drop_first()),
            None => None,
        }
    }
}

/// The sentinel a panel sends back for an unchanged secret: the string
/// `[REDACTED]`, ASCII case ignored.
pub open spec fn redacted(v: JsonV) -> bool {
    match v {
        JsonV::Str(s) => lower(s) == "[redacted]"@,
        _ => false,
    }
}

// ── exec helpers ──────────────────────────────────────────────────────

/// Whether `v` is the `[REDACTED]` sentinel.
pub fn is_redacted_sentinel(v: &Json) -> (r: bool)
    ensures
        r == redacted(v@),
{
    match v {
        Json::Str(s) => {
            let cs = chars_of(s.as_str());
            let l = to_lower_chars(cs.as_slice());
            let sentinel = chars_of("[redacted]");
            chars_eq(l.as_slice(), sentinel.as_slice())
        },
        _ => false,
    }
}

proof fn lemma_first_key_skip(es: Seq<(Seq<char>, JsonV)>, key: Seq<char>, i: int)
    requires
        0 <= i <= es.len(),
        forall|j: int| 0 <= j < i ==> (#[trigger] es[j]).0 != key,
    ensures
        first_key_index(es, key) == (match first_key_index(es.subrange(i, es.len() as int), key) {
            Some(k) => Some(k + i),
            None => None::<int>,
        }),
    decreases i,
{
    if i == 0 {
        assert(es.subrange(0, es.len() as int) =~= es);
        match first_key_index(es, key) {
            Some(k) => {},
            None => {},
        }
    } else {
        assert(es.drop_first().subrange(i - 1, es.drop_first().len() as int) =~= es.subrange(i, es.len() as int));
        assert forall|j: int| 0 <= j < i - 1 implies (#[trigger] es.drop_first()[j]).0 != key by {
            assert(es.drop_first()[j] == es[j + 1]);
        }
        lemma_first_key_skip(es.drop_first(), key, i - 1);
    }
}

proof fn lemma_first_key_found(es: Seq<(Seq<char>, JsonV)>, key: Seq<char>)
    ensures
        first_key_index(es, key) matches Some(i) ==> 0 <= i < es.len() && es[i].0 == key && entries_get(es, key)
            == Some(es[i].1),
        first_key_index(es, key) is None ==> entries_get(es, key) is None,
    decreases es.len(),
{
    if es.len() > 0 && es[0].0 != key {
        lemma_first_key_found(es.drop_first(), key);
    }
}

/// Position of the first entry bound to `key`.
fn first_key_pos(es: &Vec<(String, Json)>, key: &str) -> (r: Option<usize>)
    ensures
        r matches Some(i) ==> first_key_index(entries_view(es@), key@) == Some(i as int),
        r is None ==> first_key_index(entries_view(es@), key@) is None,
{
    let ghost ev = entries_view(es@);
    let mut i: usize = 0;
    while i < es.len()
        invariant
            ev == entries_view(es@),
            i <= es@.len(),
            forall|j: int| 0 <= j < i ==> (#[trigger] ev[j]).0 != key@,
        decreases es@.len() - i,
    {
        if str_eq(es[i].0.as_str(), key) {
            proof {
                lemma_first_key_skip(ev, key@, i as int);
                let t = ev.subrange(i as int, ev.len() as int);
                assert(t[0] == ev[i as int]);
            }
            return Some(i);
        }
        i = i + 1;
    }
    proof {
        lemma_first_key_skip(ev, key@, i as int);
    }
    None
}

/// Insert `key: v` into a mapping's entries.
fn put_entry(es: &mut Vec<(String, Json)>, key: &str, v: Json)
    ensures
        entries_view(final(es)@) == entries_put(entries_view(old(es)@), key@, v@),
{
    let ghost ev = entries_view(es@);
    proof {
        lemma_first_key_found(ev, key@);
    }
    match first_key_pos(es, key) {
        Some(i) => {
            es.set(i, (own(key), v));
            assert(entries_view(es@) =~= ev.update(i as int, (key@, v@)));
        },
        None => {
            es.push((own(key), v));
            assert(entries_view(es@) =~= ev.push((key@, v@)));
        },
    }
}

/// Set the value at `keys[from..]` in `doc`.
fn put_path(doc: Json, keys: &Vec<Vec<char>>, from: usize, v: &Json) -> (r: Option<Json>)
    requires
        from <= keys@.len(),
    ensures
        r matches Some(d) ==> set_path(doc@, chars_views(keys@).skip(from as int), v@) == Some(d@),
        r is None ==> set_path(doc@, chars_views(keys@).skip(from as int), v@) is None,
    decreases keys@.len() - from,
{
    let ghost ks = chars_views(keys@).skip(from as int);
    if from == keys.len() {
        assert(ks.len() == 0);
        return Some(doc);
    }
    assert(ks[0] == keys@[from as int]@);
    match doc {
        Json::Object(es) => {
            let ghost ev = entries_view(es@);
            proof {
                lemma_object_view(Json::Object(es));
            }
            let key = string_from_chars(keys[from].as_slice());
            if from + 1 == keys.len() {
                let mut es = es;
                put_entry(&mut es, key.as_str(), deep_clone(v));
                let d = Json::Object(es);
                proof {
                    lemma_object_view(d);
                }
                Some(d)
            } else {
                proof {
                    lemma_first_key_found(ev, key@);
                    assert(chars_views(keys@).skip(from + 1) =~= ks.drop_first());
                }
                let child = match first_key_pos(&es, key.as_str()) {
                    Some(p) => deep_clone(&es[p].1),
                    None => {
                        let empty: Vec<(String, Json)> = Vec::new();
                        let c = Json::Object(empty);
                        proof {
                            lemma_object_view(c);
                            assert(entries_view(empty@) =~= Seq::<(Seq<char>, JsonV)>::empty());
                        }
                        c
                    },
                };
                match put_path(child, keys, from + 1, v) {
                    Some(c2) => {
                        let mut es = es;
                        put_entry(&mut es, key.as_str(), c2);
                        let d = Json::Object(es);
                        proof {
                            lemma_object_view(d);
                        }
                        Some(d)
                    },
                    None => None,
                }
            }
        },
        _ => None,
    }
}

/// The value at `keys[from..]` in `doc`.
fn value_at_keys<'a>(doc: &'a Json, keys: &Vec<Vec<char>>, from: usize) -> (r: Option<&'a Json>)
    requires
        from <= keys@.len(),
    ensures
        r matches Some(d) ==> value_at(doc@, chars_views(keys@).skip(from as int)) == Some(d@),
        r is None ==> value_at(doc@, chars_views(keys@).skip(from as int)) is None,
    decreases keys@.len() - from,
{
    let ghost ks = chars_views(keys@).skip(from as int);
    if from == keys.len() {
        return Some(doc);
    }
    assert(ks[0] == keys@[from as int]@);
    assert(chars_views(keys@).skip(from + 1) =~= ks.drop_first());
    let key = string_from_chars(keys[from].as_slice());
    match doc.get(key.as_str()) {
        Some(c) => value_at_keys(c, keys, from + 1),
        None => None,
    }
}

/// The keys of a dotted path.
fn keys_of(path: &str) -> (r: Vec<Vec<char>>)
    ensures
        chars_views(r@) == path_keys(path@),
{
    let cs = chars_of(path);
    let r = split_chars(cs.as_slice(), '.');
    assert(chars_views(r@) =~= path_keys(path@));
    r
}

/// The value at the dotted `path` of `doc`.
pub fn value_at_path(doc: &Json, path: &str) -> (r: Option<Json>)
    ensures
        r matches Some(d) ==> value_at(doc@, path_keys(path@)) == Some(d@),
        r is None ==> value_at(doc@, path_keys(path@)) is None,
{
    let keys = keys_of(path);
    assert(chars_views(keys@).skip(0) =~= chars_views(keys@));
    match value_at_keys(doc, &keys, 0) {
        Some(v) => Some(deep_clone(v)),
        None => None,
    }
}

impl PmpConfigManager {
    /// The value at the dotted `path` of the config document `doc`.
    pub fn field_value(&self, doc: &Json, path: &str) -> (r: Option<Json>)
        ensures
            r matches Some(d) ==> value_at(doc@, path_keys(path@)) == Some(d@),
            r is None ==> value_at(doc@, path_keys(path@)) is None,
    {
        value_at_path(doc, path)
    }
}

// ── validation ────────────────────────────────────────────────────────

/// Stable machine-readable issue codes (the panel localizes code + params).
#[derive(Clone, Copy, Debug, PartialEq, Eq, Structural)]
pub enum ConfigValidationIssueCode {
    ValuesMustBeObject,
    ExpectedType,
}

impl ConfigValidationIssueCode {
    pub open spec fn text(self) -> Seq<char> {
        match self {
            ConfigValidationIssueCode::ValuesMustBeObject => "VALUES_MUST_BE_OBJECT"@,
            ConfigValidationIssueCode::ExpectedType => "EXPECTED_TYPE"@,
        }
    }

    /// Wire name (`SCREAMING_SNAKE_CASE`).
    pub fn as_str(&self) -> (s: &'static str)
        ensures
            s@ == self.text(),
    {
        match self {
            ConfigValidationIssueCode::ValuesMustBeObject => "VALUES_MUST_BE_OBJECT",
            ConfigValidationIssueCode::ExpectedType => "EXPECTED_TYPE",
        }
    }
}

#[derive(Debug)]
/// One field validation issue; `message` is a debug fallback only.
pub struct ConfigValidationError {
    pub path: String,
    pub code: ConfigValidationIssueCode,
    pub params: Json,
    pub message: Option<String>,
}

/// Mathematical model of a validation issue.
pub struct IssueSpec {
    pub path: Seq<char>,
    pub code: ConfigValidationIssueCode,
    pub params: JsonV,
    pub message: Option<Seq<char>>,
}

impl View for ConfigValidationError {
    type V = IssueSpec;

    open spec fn view(&self) -> IssueSpec {
        IssueSpec {
            path: self.path@,
            code: self.code,
            params: self.params@,
            message: match self.message {
                Some(m) => Some(m@),
                None => None,
            },
        }
    }
}

pub open spec fn issues_view(s: Seq<ConfigValidationError>) -> Seq<IssueSpec> {
    Seq::new(s.len(), |i: int| s[i]@)
}

/// Whether `v` fails field `f`'s wire type (a sensitive field's sentinel
/// passes): booleans must be booleans, numbers numbers; strings take anything.
pub open spec fn type_mismatch(f: FieldSpec, v: JsonV) -> bool {
    !(f.sensitive && redacted(v)) && ((f.value_type == "boolean"@ && !(v is Bool)) || (f.value_type == "number"@
        && !(v is Number)))
}

/// The `EXPECTED_TYPE` issue of field `f`.
pub open spec fn expected_type_issue(f: FieldSpec) -> IssueSpec {
    IssueSpec {
        path: f.path,
        code: ConfigValidationIssueCode::ExpectedType,
        params: JsonV::Object(seq![("expected"@, JsonV::Str(f.value_type))]),
        message: Some("expected "@ + f.value_type),
    }
}

/// The issues of the submitted `values` (an object's entries) against the
/// fields `fs`, in field order.
pub open spec fn field_issues(values: Seq<(Seq<char>, JsonV)>, fs: Seq<FieldSpec>) -> Seq<IssueSpec>
    decreases fs.len(),
{
    if fs.len() == 0 {
        Seq::empty()
    } else {
        let prev = field_issues(values, fs.drop_last());
        let f = fs.last();
        match entries_get(values, f.path) {
            Some(v) => if type_mismatch(f, v) {
                prev.push(expected_type_issue(f))
            } else {
                prev
            },
            None => prev,
        }
    }
}

/// The single issue of a non-object submission.
pub open spec fn not_object_issue() -> IssueSpec {
    IssueSpec {
        path: Seq::empty(),
        code: ConfigValidationIssueCode::ValuesMustBeObject,
        params: JsonV::Object(Seq::empty()),
        message: Some("values must be an object"@),
    }
}

/// The issues of a submission against the PMP descriptor.
pub open spec fn validation_issues(values: JsonV) -> Seq<IssueSpec> {
    match values {
        JsonV::Object(es) => field_issues(es, pmp_fields()),
        _ => seq![not_object_issue()],
    }
}

/// Validate form values against the descriptor: `(ok, errors)`, where `ok`
/// holds exactly when there is no issue.
pub fn validate_values(values: &Json) -> (r: (bool, Vec<ConfigValidationError>))
    ensures
        issues_view(r.1@) == validation_issues(values@),
        r.0 == (validation_issues(values@).len() == 0),
{
    let es = match values {
        Json::Object(es) => es,
        _ => {
            let mut errors: Vec<ConfigValidationError> = Vec::new();
            let empty: Vec<(String, Json)> = Vec::new();
            let params = Json::Object(empty);
            proof {
                lemma_object_view(params);
                assert(entries_view(empty@) =~= Seq::<(Seq<char>, JsonV)>::empty());
            }
            errors.push(ConfigValidationError {
                path: String::new(),
                code: ConfigValidationIssueCode::ValuesMustBeObject,
                params,
                message: Some(own("values must be an object")),
            });
            assert(issues_view(errors@) =~= seq![not_object_issue()]);
            return (false, errors);
        },
    };
    proof {
        lemma_object_view(*values);
    }
    let ghost ev = entries_view(es@);
    let fields = pmp_config_descriptor();
    let ghost fv = fields_view(fields@);
    let mut errors: Vec<ConfigValidationError> = Vec::new();
    let mut i: usize = 0;
    while i < fields.len()
        invariant
            i <= fields@.len(),
            fv == fields_view(fields@),
            fv == pmp_fields(),
            ev == entries_view(es@),
            *values == Json::Object(*es),
            values@ == JsonV::Object(ev),
            issues_view(errors@) == field_issues(ev, fv.take(i as int)),
        decreases fields@.len() - i,
    {
        let f = fields[i];
        assert(fv.take(i + 1).drop_last() =~= fv.take(i as int));
        assert(fv.take(i + 1).last() == f@);
        proof {
            reveal_strlit("boolean");
            reveal_strlit("number");
            assert("boolean"@ != "number"@) by {
                assert("boolean"@.len() != "number"@.len());
            }
        }
        match values.get(f.path) {
            Some(v) => {
                let sentinel = f.sensitive && is_redacted_sentinel(v);
                let type_ok = if str_eq(f.value_type, "boolean") {
                    v.is_boolean()
                } else if str_eq(f.value_type, "number") {
                    v.is_number()
                } else {
                    true
                };
                if !sentinel && !type_ok {
                    let mut pes: Vec<(String, Json)> = Vec::new();
                    pes.push((own("expected"), json_string(f.value_type)));
                    let params = Json::Object(pes);
                    let mut message = own("expected ");
                    crate::text::append_str(&mut message, f.value_type);
                    let ghost before = errors@;
                    errors.push(ConfigValidationError { path: own(f.path), code: ConfigValidationIssueCode::ExpectedType, params, message: Some(message) });
                    proof {
                        lemma_object_view(params);
                        assert(entries_view(pes@) =~= seq![("expected"@, JsonV::Str(f.value_type@))]);
                        assert(issues_view(errors@) =~= issues_view(before).push(expected_type_issue(f@)));
                    }
                }
            },
            None => {},
        }
        i = i + 1;
    }
    assert(fv.take(fields@.len() as int) =~= fv);
    let ok = errors.len() == 0;
    (ok, errors)
}

// ── merge ─────────────────────────────────────────────────────────────

/// The submitted value of field `f` that gets written: present, and not
/// the sentinel on a sensitive field.
pub open spec fn written_value(values: Seq<(Seq<char>, JsonV)>, f: FieldSpec) -> Option<JsonV> {
    match entries_get(values, f.path) {
        Some(v) => if f.sensitive && redacted(v) {
            None
        } else {
            Some(v)
        },
        None => None,
    }
}

/// `doc` with the written values of the fields `fs` patched in, in field
/// order; `None` when a path runs through a non-mapping.
pub open spec fn patched(doc: JsonV, values: Seq<(Seq<char>, JsonV)>, fs: Seq<FieldSpec>) -> Option<JsonV>
    decreases fs.len(),
{
    if fs.len() == 0 {
        Some(doc)
    } else {
        match patched(doc, values, fs.drop_last()) {
            Some(d) => match written_value(values, fs.last()) {
                Some(v) => set_path(d, path_keys(fs.last().path), v),
                None => Some(d),
            },
            None => None,
        }
    }
}

/// Patch the descriptor fields present in `values` into the existing config
/// document: unknown fields stay, a `[REDACTED]` secret keeps its old value.
pub fn merge_values(current: &Json, values: &Json) -> (r: Result<Json, ApiError>)
    ensures
        !(values@ is Object) ==> (r matches Err(e) && e.code == ErrorCode::ConfigValidationFailed && e.message@
            == "values must be an object"@),
        values@ matches JsonV::Object(es) ==> match patched(current@, es, pmp_fields()) {
            Some(d) => r matches Ok(m) && m@ == d,
            None => r matches Err(e) && e.code == ErrorCode::ConfigValidationFailed && e.message@
                == "existing config segment is not a mapping"@,
        },
{
    let es = match values {
        Json::Object(es) => es,
        _ => {
            return Err(ApiError::new(ErrorCode::ConfigValidationFailed, "values must be an object"));
        },
    };
    proof {
        lemma_object_view(*values);
    }
    let ghost ev = entries_view(es@);
    let fields = pmp_config_descriptor();
    let ghost fv = fields_view(fields@);
    let mut doc = deep_clone(current);
    let mut i: usize = 0;
    while i < fields.len()
        invariant
            i <= fields@.len(),
            fv == fields_view(fields@),
            fv == pmp_fields(),
            ev == entries_view(es@),
            *values == Json::Object(*es),
            values@ == JsonV::Object(ev),
            patched(current@, ev, fv.take(i as int)) == Some(doc@),
        decreases fields@.len() - i,
    {
        let f = fields[i];
        assert(fv.take(i + 1).drop_last() =~= fv.take(i as int));
        assert(fv.take(i + 1).last() == f@);
        match values.get(f.path) {
            Some(v) => {
                if f.sensitive && is_redacted_sentinel(v) {
                } else {
                    let keys = keys_of(f.path);
                    assert(chars_views(keys@).skip(0) =~= chars_views(keys@));
                    match put_path(doc, &keys, 0, v) {
                        Some(d) => {
                            doc = d;
                        },
                        None => {
                            proof {
                                lemma_patched_stays_failed(current@, ev, fv, i as int + 1);
                            }
                            return Err(ApiError::new(ErrorCode::ConfigValidationFailed, "existing config segment is not a mapping"));
                        },
                    }
                }
            },
            None => {},
        }
        i = i + 1;
    }
    assert(fv.take(fields@.len() as int) =~= fv);
    Ok(doc)
}

/// Once patching failed, it stays failed.
proof fn lemma_patched_stays_failed(doc: JsonV, values: Seq<(Seq<char>, JsonV)>, fs: Seq<FieldSpec>, i: int)
    requires
        0 <= i <= fs.len(),
        patched(doc, values, fs.take(i)) is None,
    ensures
        patched(doc, values, fs) is None,
    decreases fs.len() - i,
{
    if i < fs.len() {
        assert(fs.take(i + 1).drop_last() =~= fs.take(i));
        lemma_patched_stays_failed(doc, values, fs, i + 1);
    } else {
        assert(fs.take(i) =~= fs);
    }
}

// ── runtime overrides ─────────────────────────────────────────────────

/// Overlay `over` onto `base`, member by member in order: objects meeting
/// objects merge recursively, any other known member is replaced, and keys
/// `base` does not have are ignored.
pub open spec fn merge_over(base: Seq<(Seq<char>, JsonV)>, over: Seq<(Seq<char>, JsonV)>) -> Seq<(Seq<char>, JsonV)>
    decreases over, 0int,
{
    if over.len() == 0 {
        base
    } else {
        merge_over(merge_member(base, over[0].0, over[0].1), over.drop_first())
    }
}

/// Overlay one member `k: v` onto `base`.
pub open spec fn merge_member(base: Seq<(Seq<char>, JsonV)>, k: Seq<char>, v: JsonV) -> Seq<(Seq<char>, JsonV)>
    decreases v, 1int,
{
    match first_key_index(base, k) {
        None => base,
        Some(i) => if 0 <= i < base.len() {
            match (base[i].1, v) {
                (JsonV::Object(b), JsonV::Object(o)) => base.update(i, (k, JsonV::Object(merge_over(b, o)))),
                _ => base.update(i, (k, v)),
            }
        } else {
            base
        },
    }
}

/// The configuration document after runtime overrides: where the document
/// and the overrides are both objects, the overrides are merged in;
/// otherwise the document stands as it is.
pub open spec fn overridden(doc: JsonV, overrides: JsonV) -> JsonV {
    match (doc, overrides) {
        (JsonV::Object(b), JsonV::Object(o)) => JsonV::Object(merge_over(b, o)),
        _ => doc,
    }
}

/// Apply the runtime overrides stored beside a configuration to the
/// configuration's JSON document.
pub fn override_config_doc(doc: Json, overrides: &Json) -> (r: Json)
    ensures
        r@ == overridden(doc@, overrides@),
{
    let ghost d0 = doc;
    match (doc, overrides) {
        (Json::Object(mut base), Json::Object(over)) => {
            proof {
                lemma_object_view(d0);
                lemma_object_view(*overrides);
            }
            merge_objects(&mut base, over);
            let r = Json::Object(base);
            proof {
                lemma_object_view(r);
            }
            r
        },
        (d, _) => d,
    }
}

/// Overlay the object members `over` onto the object members `base`.
pub fn merge_objects(base: &mut Vec<(String, Json)>, over: &Vec<(String, Json)>)
    ensures
        entries_view(final(base)@) == merge_over(entries_view(old(base)@), entries_view(over@)),
    decreases over@, 0int,
{
    let ghost ov = entries_view(over@);
    let ghost target = merge_over(entries_view(base@), ov);
    let mut i: usize = 0;
    assert(ov.skip(0) =~= ov);
    while i < over.len()
        invariant
            i <= over@.len(),
            ov == entries_view(over@),
            merge_over(entries_view(base@), ov.skip(i as int)) == target,
        decreases over@.len() - i,
    {
        proof {
            assert(decreases_to!(over@ => over@[i as int]));
            assert(decreases_to!(over@[i as int] => over@[i as int].1));
            assert(ov.skip(i as int)[0] == ov[i as int]);
            assert(ov.skip(i as int).drop_first() =~= ov.skip(i + 1));
        }
        merge_member_exec(base, over[i].0.as_str(), &over[i].1);
        i = i + 1;
    }
    assert(ov.skip(over@.len() as int) =~= Seq::<(Seq<char>, JsonV)>::empty());
}

fn merge_member_exec(base: &mut Vec<(String, Json)>, k: &str, v: &Json)
    ensures
        entries_view(final(base)@) == merge_member(entries_view(old(base)@), k@, v@),
    decreases v, 1int,
{
    let ghost bv = entries_view(base@);
    proof {
        lemma_first_key_found(bv, k@);
    }
    let pos = match first_key_pos(base, k) {
        Some(p) => p,
        None => {
            return;
        },
    };
    let nested = match (&base[pos].1, v) {
        (Json::Object(b), Json::Object(o)) => {
            proof {
                lemma_object_view(Json::Object(*b));
                lemma_object_view(Json::Object(*o));
                assert(decreases_to!(*v => v->Object_0));
            }
            let mut merged = match deep_clone(&base[pos].1) {
                Json::Object(c) => {
                    proof {
                        lemma_object_view(Json::Object(c));
                    }
                    c
                },
                _ => {
                    proof {
                        assert(false);
                    }
                    Vec::new()
                },
            };
            merge_objects(&mut merged, o);
            Some(merged)
        },
        _ => None,
    };
    match nested {
        Some(m) => {
            let j = Json::Object(m);
            proof {
                lemma_object_view(j);
            }
            base.set(pos, (own(k), j));
        },
        None => {
            base.set(pos, (own(k), deep_clone(v)));
        },
    }
    assert(entries_view(base@) =~= merge_member(bv, k@, v@));
}

/// A merge never adds or drops members: the keys stay those of `base`, in
/// their order.
pub proof fn lemma_merge_keeps_keys(base: Seq<(Seq<char>, JsonV)>, over: Seq<(Seq<char>, JsonV)>)
    ensures
        merge_over(base, over).len() == base.len(),
        forall|i: int| 0 <= i < base.len() ==> (#[trigger] merge_over(base, over)[i]).0 == base[i].0,
    decreases over.len(),
{
    if over.len() > 0 {
        let m = merge_member(base, over[0].0, over[0].1);
        lemma_first_key_found(base, over[0].0);
        lemma_merge_keeps_keys(m, over.drop_first());
    }
}

/// Overriding with nothing changes nothing.
pub proof fn lemma_merge_nothing(base: Seq<(Seq<char>, JsonV)>)
    ensures
        merge_over(base, Seq::empty()) == base,
{
}

// ── laws of the merge ─────────────────────────────────────────────────

/// Two key paths part ways: at their first difference both still have a key.
pub open spec fn diverge(a: Seq<Seq<char>>, b: Seq<Seq<char>>) -> bool
    decreases a.len(),
{
    a.len() > 0 && b.len() > 0 && (a[0] != b[0] || diverge(a.drop_first(), b.drop_first()))
}

proof fn lemma_get_put(es: Seq<(Seq<char>, JsonV)>, k: Seq<char>, x: JsonV, k2: Seq<char>)
    ensures
        entries_get(entries_put(es, k, x), k2) == (if k2 == k {
            Some(x)
        } else {
            entries_get(es, k2)
        }),
    decreases es.len(),
{
    let p = entries_put(es, k, x);
    if es.len() == 0 {
        assert(p =~= seq![(k, x)]);
        assert(p.drop_first() =~= Seq::<(Seq<char>, JsonV)>::empty());
    } else if es[0].0 == k {
        assert(first_key_index(es, k) == Some(0int));
        assert(p =~= es.update(0, (k, x)));
        assert(p.drop_first() =~= es.drop_first());
        assert(p[0] == (k, x));
    } else {
        lemma_get_put(es.drop_first(), k, x, k2);
        lemma_first_key_found(es.drop_first(), k);
        match first_key_index(es.drop_first(), k) {
            Some(i) => {
                assert(first_key_index(es, k) == Some(i + 1));
                assert(p =~= es.update(i + 1, (k, x)));
                assert(p.drop_first() =~= es.drop_first().update(i, (k, x)));
            },
            None => {
                assert(first_key_index(es, k) is None);
                assert(p =~= es.push((k, x)));
                assert(p.drop_first() =~= es.drop_first().push((k, x)));
            },
        }
        assert(p[0] == es[0]);
        assert(p.drop_first() =~= entries_put(es.drop_first(), k, x));
        assert(p.len() > 0);
        if k2 == es[0].0 {
            assert(entries_get(p, k2) == Some(es[0].1));
        } else {
            assert(entries_get(p, k2) == entries_get(p.drop_first(), k2));
        }
    }
}

/// Setting one path leaves the value at every path that parts ways with it.
pub proof fn lemma_set_path_frame(doc: JsonV, ks: Seq<Seq<char>>, v: JsonV, other: Seq<Seq<char>>)
    requires
        diverge(ks, other),
    ensures
        set_path(doc, ks, v) matches Some(d) ==> value_at(d, other) == value_at(doc, other),
    decreases ks.len(),
{
    if let Some(d) = set_path(doc, ks, v) {
        let es = doc->Object_0;
        let k0 = ks[0];
        if ks.len() == 1 {
            assert(!diverge(ks.drop_first(), other.drop_first()));
            assert(other[0] != k0);
            lemma_get_put(es, k0, v, other[0]);
        } else {
            let child = match entries_get(es, k0) {
                Some(c) => c,
                None => JsonV::Object(Seq::empty()),
            };
            let c2 = set_path(child, ks.drop_first(), v)->0;
            lemma_get_put(es, k0, c2, other[0]);
            if other[0] == k0 {
                lemma_set_path_frame(child, ks.drop_first(), v, other.drop_first());
                if entries_get(es, k0) is None {
                    assert(other.drop_first().len() > 0);
                    assert(value_at(child, other.drop_first()) is None);
                }
            }
        }
    }
}

/// Patching the fields `fs` leaves the value at every path that parts ways
/// with all of their paths.
pub proof fn lemma_patched_frame(doc: JsonV, values: Seq<(Seq<char>, JsonV)>, fs: Seq<FieldSpec>, other: Seq<Seq<char>>)
    requires
        forall|i: int| 0 <= i < fs.len() ==> diverge(path_keys(#[trigger] fs[i].path), other),
    ensures
        patched(doc, values, fs) matches Some(d) ==> value_at(d, other) == value_at(doc, other),
    decreases fs.len(),
{
    if fs.len() > 0 {
        let pre = fs.drop_last();
        assert forall|i: int| 0 <= i < pre.len() implies diverge(path_keys(#[trigger] pre[i].path), other) by {
            assert(pre[i] == fs[i]);
        }
        lemma_patched_frame(doc, values, pre, other);
        if let Some(d) = patched(doc, values, pre) {
            if let Some(v) = written_value(values, fs.last()) {
                assert(diverge(path_keys(fs[fs.len() - 1].path), other));
                lemma_set_path_frame(d, path_keys(fs.last().path), v, other);
            }
        }
    }
}

/// A merge keeps every unknown field: a value at a path that parts ways
/// with every descriptor path is left as it was.
pub proof fn lemma_merge_keeps_unknown_fields(current: JsonV, values: Seq<(Seq<char>, JsonV)>, other: Seq<Seq<char>>)
    requires
        forall|i: int| 0 <= i < pmp_fields().len() ==> diverge(path_keys(#[trigger] pmp_fields()[i].path), other),
    ensures
        patched(current, values, pmp_fields()) matches Some(d) ==> value_at(d, other) == value_at(current, other),
{
    lemma_patched_frame(current, values, pmp_fields(), other);
}

/// A secret sent back as `[REDACTED]` keeps its stored value, when every
/// other field's path parts ways with its path.
pub proof fn lemma_merge_keeps_redacted_secret(
    current: JsonV,
    values: Seq<(Seq<char>, JsonV)>,
    fs: Seq<FieldSpec>,
    j: int,
)
    requires
        0 <= j < fs.len(),
        fs[j].sensitive,
        entries_get(values, fs[j].path) matches Some(v) && redacted(v),
        forall|i: int| 0 <= i < fs.len() && i != j ==> diverge(path_keys(#[trigger] fs[i].path), path_keys(fs[j].path)),
    ensures
        patched(current, values, fs) matches Some(d) ==> value_at(d, path_keys(fs[j].path)) == value_at(
            current,
            path_keys(fs[j].path),
        ),
    decreases fs.len(),
{
    let target = path_keys(fs[j].path);
    let pre = fs.drop_last();
    if j == fs.len() - 1 {
        assert forall|i: int| 0 <= i < pre.len() implies diverge(path_keys(#[trigger] pre[i].path), target) by {
            assert(pre[i] == fs[i]);
        }
        lemma_patched_frame(current, values, pre, target);
        assert(written_value(values, fs.last()) is None);
    } else {
        assert(pre[j] == fs[j]);
        assert forall|i: int| 0 <= i < pre.len() && i != j implies diverge(path_keys(#[trigger] pre[i].path), path_keys(pre[j].path)) by {
            assert(pre[i] == fs[i]);
        }
        lemma_merge_keeps_redacted_secret(current, values, pre, j);
        if let Some(d) = patched(current, values, pre) {
            if let Some(v) = written_value(values, fs.last()) {
                assert(diverge(path_keys(fs[fs.len() - 1].path), target));
                lemma_set_path_frame(d, path_keys(fs.last().path), v, target);
            }
        }
    }
}

/// The paths a save touched: the submitted keys (none for a non-object).
pub fn changed_paths(values: &Json) -> (r: Vec<String>)
    ensures
        r@.len() == (match values@ {
            JsonV::Object(es) => es.len(),
            _ => 0,
        }),
        values@ matches JsonV::Object(es) ==> forall|i: int| 0 <= i < r@.len() ==> (#[trigger] r@[i])@ == es[i].0,
{
    let mut r: Vec<String> = Vec::new();
    match values {
        Json::Object(es) => {
            proof {
                lemma_object_view(*values);
            }
            let mut i: usize = 0;
            while i < es.len()
                invariant
                    i <= es@.len(),
                    r@.len() == i,
                    forall|k: int| 0 <= k < i ==> (#[trigger] r@[k])@ == es@[k].0@,
                decreases es@.len() - i,
            {
                r.push(own(es[i].0.as_str()));
                i = i + 1;
            }
        },
        _ => {},
    }
    r
}

// ── projections ───────────────────────────────────────────────────────

/// The `[REDACTED]` placeholder.
pub open spec fn redaction() -> JsonV {
    JsonV::Str("[REDACTED]"@)
}

/// The value shown for field `f` of `doc`: a present secret is redacted; a
/// missing field is null.
pub open spec fn shown_value(doc: JsonV, f: FieldSpec) -> JsonV {
    match value_at(doc, path_keys(f.path)) {
        Some(v) => if f.sensitive {
            redaction()
        } else {
            v
        },
        None => JsonV::Null,
    }
}

/// The current values by path, in descriptor order.
pub open spec fn shown_values(doc: JsonV, fs: Seq<FieldSpec>) -> Seq<(Seq<char>, JsonV)> {
    Seq::new(fs.len(), |i: int| (fs[i].path, shown_value(doc, fs[i])))
}

/// The descriptor fields' current values (`{path: value}`), secrets redacted.
pub fn config_values(doc: &Json) -> (r: Json)
    ensures
        r@ == JsonV::Object(shown_values(doc@, pmp_fields())),
{
    let fields = pmp_config_descriptor();
    let ghost fv = fields_view(fields@);
    let mut out: Vec<(String, Json)> = Vec::new();
    let mut i: usize = 0;
    while i < fields.len()
        invariant
            i <= fields@.len(),
            fv == fields_view(fields@),
            fv == pmp_fields(),
            entries_view(out@) == shown_values(doc@, fv).take(i as int),
        decreases fields@.len() - i,
    {
        let f = fields[i];
        let v = value_at_path(doc, f.path);
        let shown = if f.sensitive {
            match v {
                Some(_) => json_string("[REDACTED]"),
                None => Json::Null,
            }
        } else {
            match v {
                Some(x) => x,
                None => Json::Null,
            }
        };
        let ghost before = out@;
        out.push((own(f.path), shown));
        proof {
            assert(shown@ == shown_value(doc@, f@));
            assert(entries_view(out@) =~= shown_values(doc@, fv).take(i + 1)) by {
                assert(entries_view(out@) =~= entries_view(before).push((f.path@, shown@)));
            }
        }
        i = i + 1;
    }
    let r = Json::Object(out);
    proof {
        lemma_object_view(r);
        assert(shown_values(doc@, fv).take(fields@.len() as int) =~= shown_values(doc@, fv));
    }
    r
}

#[derive(Debug)]
/// One field-level change `{ path, old, new }`.
pub struct ConfigDiffChange {
    pub path: String,
    pub old: Json,
    pub new: Json,
}

/// Mathematical model of a change.
pub struct ChangeSpec {
    pub path: Seq<char>,
    pub old: JsonV,
    pub new: JsonV,
}

pub open spec fn changes_view(s: Seq<ConfigDiffChange>) -> Seq<ChangeSpec> {
    Seq::new(s.len(), |i: int| ChangeSpec { path: s[i].path@, old: s[i].old@, new: s[i].new@ })
}

/// The changes between two documents over the fields `fs`, in field order:
/// fields whose value (or presence) differs, secrets shown redacted.
pub open spec fn field_changes(before: JsonV, after: JsonV, fs: Seq<FieldSpec>) -> Seq<ChangeSpec>
    decreases fs.len(),
{
    if fs.len() == 0 {
        Seq::empty()
    } else {
        let prev = field_changes(before, after, fs.drop_last());
        let f = fs.last();
        let a = value_at(before, path_keys(f.path));
        let b = value_at(after, path_keys(f.path));
        if a != b {
            prev.push(ChangeSpec { path: f.path, old: shown_value(before, f), new: shown_value(after, f) })
        } else {
            prev
        }
    }
}

/// The field-level diff of a save: each descriptor field whose value in
/// `proposed` differs from `current`.
pub fn config_diff(current: &Json, proposed: &Json) -> (r: Vec<ConfigDiffChange>)
    ensures
        changes_view(r@) == field_changes(current@, proposed@, pmp_fields()),
{
    let fields = pmp_config_descriptor();
    let ghost fv = fields_view(fields@);
    let mut out: Vec<ConfigDiffChange> = Vec::new();
    let mut i: usize = 0;
    while i < fields.len()
        invariant
            i <= fields@.len(),
            fv == fields_view(fields@),
            fv == pmp_fields(),
            changes_view(out@) == field_changes(current@, proposed@, fv.take(i as int)),
        decreases fields@.len() - i,
    {
        let f = fields[i];
        assert(fv.take(i + 1).drop_last() =~= fv.take(i as int));
        assert(fv.take(i + 1).last() == f@);
        let a = value_at_path(current, f.path);
        let b = value_at_path(proposed, f.path);
        let same = match (&a, &b) {
            (Some(x), Some(y)) => json_eq(x, y),
            (None, None) => true,
            _ => false,
        };
        if !same {
            let old = if f.sensitive {
                match a {
                    Some(_) => json_string("[REDACTED]"),
                    None => Json::Null,
                }
            } else {
                match a {
                    Some(x) => x,
                    None => Json::Null,
                }
            };
            let new = if f.sensitive {
                match b {
                    Some(_) => json_string("[REDACTED]"),
                    None => Json::Null,
                }
            } else {
                match b {
                    Some(y) => y,
                    None => Json::Null,
                }
            };
            let ghost before = out@;
            out.push(ConfigDiffChange { path: own(f.path), old, new });
            proof {
                assert(changes_view(out@) =~= changes_view(before).push(
                    ChangeSpec { path: f.path@, old: shown_value(current@, f@), new: shown_value(proposed@, f@) },
                ));
            }
        }
        i = i + 1;
    }
    assert(fv.take(fields@.len() as int) =~= fv);
    out
}

/// The projected document of the fields `fs`: only fields present in `doc`,
/// secrets redacted, placed at their paths in a fresh mapping.
pub open spec fn projected(doc: JsonV, fs: Seq<FieldSpec>) -> Option<JsonV>
    decreases fs.len(),
{
    if fs.len() == 0 {
        Some(JsonV::Object(Seq::empty()))
    } else {
        match projected(doc, fs.drop_last()) {
            Some(p) => match value_at(doc, path_keys(fs.last().path)) {
                Some(v) => set_path(p, path_keys(fs.last().path), shown_value(doc, fs.last())),
                None => Some(p),
            },
            None => None,
        }
    }
}

/// The redacted read-only projection of the config: descriptor fields only,
/// secrets as `[REDACTED]`, unknown fields omitted.
pub fn raw_projection(doc: &Json) -> (r: Result<Json, ApiError>)
    ensures
        match projected(doc@, pmp_fields()) {
            Some(p) => r matches Ok(j) && j@ == p,
            None => r matches Err(e) && e.code == ErrorCode::ConfigValidationFailed,
        },
{
    let fields = pmp_config_descriptor();
    let ghost fv = fields_view(fields@);
    let empty: Vec<(String, Json)> = Vec::new();
    let mut out = Json::Object(empty);
    proof {
        lemma_object_view(out);
        assert(entries_view(empty@) =~= Seq::<(Seq<char>, JsonV)>::empty());
        assert(fv.take(0) =~= Seq::<FieldSpec>::empty());
    }
    let mut i: usize = 0;
    while i < fields.len()
        invariant
            i <= fields@.len(),
            fv == fields_view(fields@),
            fv == pmp_fields(),
            projected(doc@, fv.take(i as int)) == Some(out@),
        decreases fields@.len() - i,
    {
        let f = fields[i];
        assert(fv.take(i + 1).drop_last() =~= fv.take(i as int));
        assert(fv.take(i + 1).last() == f@);
        match value_at_path(doc, f.path) {
            Some(raw) => {
                let value = if f.sensitive {
                    json_string("[REDACTED]")
                } else {
                    raw
                };
                let keys = keys_of(f.path);
                assert(chars_views(keys@).skip(0) =~= chars_views(keys@));
                match put_path(out, &keys, 0, &value) {
                    Some(d) => {
                        out = d;
                    },
                    None => {
                        proof {
                            lemma_projected_stays_failed(doc@, fv, i as int + 1);
                        }
                        return Err(ApiError::new(ErrorCode::ConfigValidationFailed, "existing config segment is not a mapping"));
                    },
                }
            },
            None => {},
        }
        i = i + 1;
    }
    assert(fv.take(fields@.len() as int) =~= fv);
    Ok(out)
}

proof fn lemma_projected_stays_failed(doc: JsonV, fs: Seq<FieldSpec>, i: int)
    requires
        0 <= i <= fs.len(),
        projected(doc, fs.take(i)) is None,
    ensures
        projected(doc, fs) is None,
    decreases fs.len() - i,
{
    if i < fs.len() {
        assert(fs.take(i + 1).drop_last() =~= fs.take(i));
        lemma_projected_stays_failed(doc, fs, i + 1);
    } else {
        assert(fs.take(i) =~= fs);
    }
}

/// A rollback only restores a PMP snapshot.
pub fn check_snapshot_scope(scope: &str) -> (r: Result<(), ApiError>)
    ensures
        r is Ok <==> scope@ == "pmp"@,
        r matches Err(e) ==> e.code == ErrorCode::ConfigScopeInvalid && e.message@ == "snapshot scope must be pmp"@,
{
    if str_eq(scope, "pmp") {
        Ok(())
    } else {
        Err(ApiError::new(ErrorCode::ConfigScopeInvalid, "snapshot scope must be pmp"))
    }
}

// ── PPF build config ──────────────────────────────────────────────────

/// The scheme `url::Url::parse` finds in `url`, when it parses.
pub uninterp spec fn url_scheme_of(url: Seq<char>) -> Option<Seq<char>>;

/// `reqwest::Url::parse(url)` and its `scheme()`: `None` when the text is
/// not an absolute URL. What the WHATWG parser accepts is not restated; the
/// result is named.
#[verifier::external_body]
fn parse_url_scheme(url: &str) -> (r: Option<String>)
    ensures
        r matches Some(s) ==> url_scheme_of(url@) == Some(s@),
        r is None ==> url_scheme_of(url@) is None,
{
    reqwest::Url::parse(url).ok().map(|u| u.scheme().to_string())
}

#[derive(Debug)]
/// Reply of a PPF build config save.
pub struct PpfBuildConfigSaveResponse {
    pub ok: bool,
    pub revision: i64,
}

/// The keys a PPF build config may hold.
pub open spec fn ppf_key_allowed(k: Seq<char>) -> bool {
    k == "site_name"@ || k == "site_description"@ || k == "canonical_url"@ || k == "analytics_provider"@ || k
        == "plausible_domain"@ || k == "ga_id"@ || k == "search_verification_google"@ || k
        == "search_verification_bing"@
}

fn is_ppf_key(k: &str) -> (b: bool)
    ensures
        b == ppf_key_allowed(k@),
{
    str_eq(k, "site_name") || str_eq(k, "site_description") || str_eq(k, "canonical_url") || str_eq(
        k,
        "analytics_provider",
    ) || str_eq(k, "plausible_domain") || str_eq(k, "ga_id") || str_eq(k, "search_verification_google")
        || str_eq(k, "search_verification_bing")
}

/// The verdict on a canonical URL's parsed scheme: it must parse, with
/// scheme `http` or `https`.
pub fn check_canonical_scheme(scheme: Option<&str>) -> (r: Result<(), ApiError>)
    ensures
        scheme is None ==> (r matches Err(e) && e.code == ErrorCode::ConfigValidationFailed && e.message@
            == "canonical_url must be an absolute URL"@),
        scheme matches Some(s) ==> (r is Ok <==> (s@ == "http"@ || s@ == "https"@)),
        scheme matches Some(s) && r is Err ==> (r matches Err(e) && e.code == ErrorCode::ConfigValidationFailed
            && e.message@ == "canonical_url must use http or https"@),
{
    match scheme {
        None => Err(ApiError::new(ErrorCode::ConfigValidationFailed, "canonical_url must be an absolute URL")),
        Some(s) => if str_eq(s, "http") || str_eq(s, "https") {
            Ok(())
        } else {
            Err(ApiError::new(ErrorCode::ConfigValidationFailed, "canonical_url must use http or https"))
        },
    }
}

/// The canonical URL to check: the trimmed `canonical_url` string, when
/// non-empty.
pub open spec fn canonical_url_of(content: JsonV) -> Option<Seq<char>> {
    match content.get_str("canonical_url"@) {
        Some(u) => if trim(u).len() > 0 {
            Some(trim(u))
        } else {
            None
        },
        None => None,
    }
}

/// The error of a PPF build config, given what the canonical URL's parse
/// gave (`url_scheme`), or `None` when it is accepted.
pub open spec fn ppf_error(content: JsonV, url_scheme: Option<Seq<char>>) -> Option<Seq<char>> {
    match content {
        JsonV::Object(es) => if exists|i: int| 0 <= i < es.len() && !ppf_key_allowed(#[trigger] es[i].0) {
            Some("unsupported PPF build config key"@)
        } else if canonical_url_of(content) is Some && url_scheme is None {
            Some("canonical_url must be an absolute URL"@)
        } else if canonical_url_of(content) is Some && !(url_scheme == Some("http"@) || url_scheme == Some(
            "https"@,
        )) {
            Some("canonical_url must use http or https"@)
        } else if content.get_str("analytics_provider"@) matches Some(p) && !(p == ""@ || p == "plausible"@ || p
            == "ga4"@) {
            Some("analytics_provider must be plausible or ga4"@)
        } else {
            None
        },
        _ => Some("PPF build config must be an object"@),
    }
}

/// Check a PPF build/SEO config: an object of known keys, an http(s)
/// canonical URL, a known analytics provider.
pub fn validate_ppf_build_config(content: &Json) -> (r: Result<(), ApiError>)
    ensures
        match ppf_error(
            content@,
            match canonical_url_of(content@) {
                Some(u) => url_scheme_of(u),
                None => None,
            },
        ) {
            Some(m) => r matches Err(e) && e.code == ErrorCode::ConfigValidationFailed && e.message@ == m,
            None => r is Ok,
        },
{
    let es = match content {
        Json::Object(es) => es,
        _ => {
            return Err(ApiError::new(ErrorCode::ConfigValidationFailed, "PPF build config must be an object"));
        },
    };
    proof {
        lemma_object_view(*content);
    }
    let ghost ev = entries_view(es@);
    let mut i: usize = 0;
    while i < es.len()
        invariant
            i <= es@.len(),
            ev == entries_view(es@),
            content@ == JsonV::Object(ev),
            forall|k: int| 0 <= k < i ==> ppf_key_allowed(#[trigger] ev[k].0),
        decreases es@.len() - i,
    {
        if !is_ppf_key(es[i].0.as_str()) {
            assert(!ppf_key_allowed(ev[i as int].0));
            return Err(ApiError::new(ErrorCode::ConfigValidationFailed, "unsupported PPF build config key"));
        }
        i = i + 1;
    }
    let ghost scheme_seen: Option<Seq<char>> = match canonical_url_of(content@) {
        Some(u) => url_scheme_of(u),
        None => None,
    };
    match content.get_str("canonical_url") {
        Some(url) => {
            let cs = chars_of(url);
            let t = trim_chars(cs.as_slice());
            if t.len() > 0 {
                let ts = string_from_chars(t.as_slice());
                let scheme = parse_url_scheme(ts.as_str());
                let checked = match &scheme {
                    Some(s) => check_canonical_scheme(Some(s.as_str())),
                    None => check_canonical_scheme(None),
                };
                match checked {
                    Ok(()) => {},
                    Err(e) => {
                        return Err(e);
                    },
                }
            }
        },
        None => {},
    }
    match content.get_str("analytics_provider") {
        Some(p) => {
            if !(str_eq(p, "") || str_eq(p, "plausible") || str_eq(p, "ga4")) {
                return Err(ApiError::new(ErrorCode::ConfigValidationFailed, "analytics_provider must be plausible or ga4"));
            }
        },
        None => {},
    }
    Ok(())
}

} // verus!
