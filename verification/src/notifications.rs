//! System notifications sent by administrators: the event payload, who the
//! target resolves to, and how a delivery row summarizes its target.

use vstd::prelude::*;
use crate::error::{ApiError, ErrorCode, entries_without_exec, params_doc, visible_message};
use crate::json::{Json, JsonV, deep_clone, entries_insert, entries_view, json_string, lemma_object_view};
use crate::json::dec_text;
use crate::text::{append_chars, own};

verus! {

/// The payload of a notification event: the submitted object (`{}` for
/// null) with the notification's own fields set over it.
pub open spec fn event_payload(
    payload: JsonV,
    notification_type: Seq<char>,
    priority: Seq<char>,
    title: Seq<char>,
    body: Seq<char>,
    actions: JsonV,
    dedup_key: Seq<char>,
    target: JsonV,
) -> Option<JsonV> {
    let base = match payload {
        JsonV::Null => Some(Seq::<(Seq<char>, JsonV)>::empty()),
        JsonV::Object(es) => Some(es),
        _ => None,
    };
    match base {
        Some(es) => Some(
            JsonV::Object(
                entries_insert(
                    entries_insert(
                        entries_insert(
                            entries_insert(
                                entries_insert(
                                    entries_insert(
                                        entries_insert(es, "type"@, JsonV::Str(notification_type)),
                                        "priority"@,
                                        JsonV::Str(priority),
                                    ),
                                    "title"@,
                                    JsonV::Str(title),
                                ),
                                "body"@,
                                JsonV::Str(body),
                            ),
                            "actions"@,
                            actions,
                        ),
                        "dedup_key"@,
                        JsonV::Str(dedup_key),
                    ),
                    "admin_target"@,
                    target,
                ),
            ),
        ),
        None => None,
    }
}

/// Set `key` to `v` in an object's entries.
fn put(es: &mut Vec<(String, Json)>, key: &str, v: Json)
    ensures
        entries_view(final(es)@) == entries_insert(entries_view(old(es)@), key@, v@),
{
    let mut kept = entries_without_exec(es, key);
    let ghost before = entries_view(kept@);
    kept.push((own(key), v));
    assert(entries_view(kept@) =~= before.push((key@, v@)));
    *es = kept;
}

/// The event payload of a system notification; a payload that is neither
/// null nor an object is refused.
#[allow(clippy::too_many_arguments)]
pub fn notification_payload(
    payload: &Json,
    notification_type: &str,
    priority: &str,
    title: &str,
    body: &str,
    actions: &Json,
    dedup_key: &str,
    target: &Json,
) -> (r: Result<Json, ApiError>)
    ensures
        match event_payload(payload@, notification_type@, priority@, title@, body@, actions@, dedup_key@, target@) {
            Some(p) => r matches Ok(j) && j@ == p,
            None => r matches Err(e) && e.code == ErrorCode::ValidationFailed && e.message@
                == "notification payload must be an object"@,
        },
{
    let mut es: Vec<(String, Json)> = match payload {
        Json::Null => {
            let v: Vec<(String, Json)> = Vec::new();
            assert(entries_view(v@) =~= Seq::<(Seq<char>, JsonV)>::empty());
            v
        },
        Json::Object(_) => {
            proof {
                lemma_object_view(*payload);
            }
            match deep_clone(payload) {
                Json::Object(v) => {
                    proof {
                        lemma_object_view(Json::Object(v));
                    }
                    v
                },
                _ => {
                    proof {
                        assert(false);
                    }
                    Vec::new()
                },
            }
        },
        _ => {
            return Err(ApiError::new(ErrorCode::ValidationFailed, "notification payload must be an object"));
        },
    };
    put(&mut es, "type", json_string(notification_type));
    put(&mut es, "priority", json_string(priority));
    put(&mut es, "title", json_string(title));
    put(&mut es, "body", json_string(body));
    put(&mut es, "actions", deep_clone(actions));
    put(&mut es, "dedup_key", json_string(dedup_key));
    put(&mut es, "admin_target", deep_clone(target));
    let r = Json::Object(es);
    proof {
        lemma_object_view(r);
    }
    Ok(r)
}

/// Who a notification target names.
#[derive(Debug)]
pub enum RecipientTarget {
    /// `{ "all": true }`: every user.
    All,
    /// `{ "group_ids": [...] }`: the members of each listed group (ids that
    /// do not parse are skipped).
    Groups(Vec<u128>),
    /// `{ "group_id": "..." }`: the members of one group.
    Group(u128),
    /// `{ "user_ids": [...] }`: the listed users (ids that do not parse are
    /// skipped).
    Users(Vec<u128>),
    /// Nothing usable.
    Nobody,
}

/// The UUID a text denotes, when it parses.
pub uninterp spec fn uuid_value(text: Seq<char>) -> Option<u128>;

/// `uuid::Uuid::parse_str(text)` as an integer; `None` when it does not
/// parse. The accepted forms are uuid's, and the result is named.
#[verifier::external_body]
pub(crate) fn parse_uuid(text: &str) -> (r: Option<u128>)
    ensures
        r == uuid_value(text@),
{
    uuid::Uuid::parse_str(text).ok().map(|u| u.as_u128())
}

/// The UUIDs among the string items of a list, in order.
pub open spec fn listed_uuids(items: Seq<JsonV>) -> Seq<u128>
    decreases items.len(),
{
    if items.len() == 0 {
        Seq::empty()
    } else {
        let prev = listed_uuids(items.drop_last());
        match items.last().as_str() {
            Some(t) => match uuid_value(t) {
                Some(u) => prev.push(u),
                None => prev,
            },
            None => prev,
        }
    }
}

fn uuids_of(items: &Vec<Json>) -> (r: Vec<u128>)
    ensures
        r@ == listed_uuids(Seq::new(items@.len(), |i: int| items@[i]@)),
{
    let ghost iv = Seq::new(items@.len(), |i: int| items@[i]@);
    let mut r: Vec<u128> = Vec::new();
    let mut i: usize = 0;
    while i < items.len()
        invariant
            i <= items@.len(),
            iv == Seq::new(items@.len(), |i: int| items@[i]@),
            r@ == listed_uuids(iv.take(i as int)),
        decreases items@.len() - i,
    {
        assert(iv.take(i + 1).drop_last() =~= iv.take(i as int));
        assert(iv.take(i + 1).last() == items@[i as int]@);
        match items[i].as_str() {
            Some(t) => match parse_uuid(t) {
                Some(u) => {
                    r.push(u);
                },
                None => {},
            },
            None => {},
        }
        i = i + 1;
    }
    assert(iv.take(items@.len() as int) =~= iv);
    r
}

/// The model of a recipient target.
pub enum TargetV {
    All,
    Groups(Seq<u128>),
    Group(u128),
    Users(Seq<u128>),
    Nobody,
}

/// What a target object names, checked in this order: `all: true`, a
/// `group_ids` array, a parsable `group_id`, a `user_ids` array.
pub open spec fn target_of(target: JsonV) -> TargetV {
    if target.get("all"@) == Some(JsonV::Bool(true)) {
        TargetV::All
    } else {
        match target.get("group_ids"@) {
            Some(JsonV::Array(items)) => TargetV::Groups(listed_uuids(items)),
            _ => {
                let single = match target.get_str("group_id"@) {
                    Some(g) => uuid_value(g),
                    None => None,
                };
                match single {
                    Some(u) => TargetV::Group(u),
                    None => match target.get("user_ids"@) {
                        Some(JsonV::Array(items)) => TargetV::Users(listed_uuids(items)),
                        _ => TargetV::Nobody,
                    },
                }
            },
        }
    }
}

impl RecipientTarget {
    pub open spec fn model(&self) -> TargetV {
        match self {
            RecipientTarget::All => TargetV::All,
            RecipientTarget::Groups(g) => TargetV::Groups(g@),
            RecipientTarget::Group(g) => TargetV::Group(*g),
            RecipientTarget::Users(u) => TargetV::Users(u@),
            RecipientTarget::Nobody => TargetV::Nobody,
        }
    }
}

/// Classify a notification target.
pub fn recipient_target(target: &Json) -> (r: RecipientTarget)
    ensures
        r.model() == target_of(target@),
{
    let all = match target.get("all") {
        Some(v) => match v.as_bool() {
            Some(b) => b,
            None => false,
        },
        None => false,
    };
    if all {
        return RecipientTarget::All;
    }
    match target.get("group_ids") {
        Some(Json::Array(items)) => {
            proof {
                crate::json::lemma_array_view(Json::Array(*items));
            }
            return RecipientTarget::Groups(uuids_of(items));
        },
        _ => {},
    }
    match target.get_str("group_id") {
        Some(g) => match parse_uuid(g) {
            Some(u) => {
                return RecipientTarget::Group(u);
            },
            None => {},
        },
        None => {},
    }
    match target.get("user_ids") {
        Some(Json::Array(items)) => {
            proof {
                crate::json::lemma_array_view(Json::Array(*items));
            }
            RecipientTarget::Users(uuids_of(items))
        },
        _ => RecipientTarget::Nobody,
    }
}

/// Strictly ascending.
pub open spec fn strictly_ascending(s: Seq<u128>) -> bool {
    forall|i: int, j: int| 0 <= i < j < s.len() ==> s[i] < s[j]
}

/// The members gathered over several groups, sorted with duplicates
/// removed: exactly the ids that occur, each once, ascending.
pub fn sorted_unique(v: &Vec<u128>) -> (r: Vec<u128>)
    ensures
        strictly_ascending(r@),
        forall|x: u128| r@.contains(x) <==> v@.contains(x),
{
    let mut out: Vec<u128> = Vec::new();
    let mut i: usize = 0;
    while i < v.len()
        invariant
            i <= v@.len(),
            strictly_ascending(out@),
            forall|x: u128| out@.contains(x) <==> v@.take(i as int).contains(x),
        decreases v@.len() - i,
    {
        let x = v[i];
        let mut p: usize = 0;
        while p < out.len() && out[p] < x
            invariant
                p <= out@.len(),
                forall|q: int| 0 <= q < p ==> out@[q] < x,
            decreases out@.len() - p,
        {
            p = p + 1;
        }
        let ghost before = out@;
        let present = p < out.len() && out[p] == x;
        if !present {
            out.insert(p, x);
            proof {
                assert forall|a: int, b: int| 0 <= a < b < out@.len() implies out@[a] < out@[b] by {
                    if b < p {
                        assert(out@[a] == before[a] && out@[b] == before[b]);
                    } else if b == p {
                        assert(out@[a] == before[a]);
                    } else if a < p {
                        assert(out@[a] == before[a] && out@[b] == before[b - 1]);
                        assert(before[p as int] > x || p < before.len());
                        if p < before.len() {
                            assert(before[p as int] != x);
                            assert(!(before[p as int] < x));
                            assert(before[p as int] <= before[b - 1]);
                        }
                    } else if a == p {
                        assert(out@[b] == before[b - 1]);
                        assert(before[p as int] != x && !(before[p as int] < x));
                        assert(before[p as int] <= before[b - 1]);
                    } else {
                        assert(out@[a] == before[a - 1] && out@[b] == before[b - 1]);
                    }
                }
            }
        }
        proof {
            assert(v@.take(i + 1) =~= v@.take(i as int).push(x));
            assert forall|y: u128| out@.contains(y) <==> v@.take(i + 1).contains(y) by {
                if out@.contains(y) {
                    let k = choose|k: int| 0 <= k < out@.len() && out@[k] == y;
                    if y != x {
                        if present {
                            assert(before.contains(y));
                        } else {
                            if k < p {
                                assert(before[k] == y);
                            } else {
                                assert(before[k - 1] == y);
                            }
                            assert(before.contains(y));
                        }
                        assert(v@.take(i as int).contains(y));
                        let w = choose|w: int| 0 <= w < i && #[trigger] v@.take(i as int)[w] == y;
                        assert(v@.take(i + 1)[w] == y);
                    } else {
                        assert(v@.take(i + 1)[i as int] == x);
                    }
                }
                if v@.take(i + 1).contains(y) {
                    let w = choose|w: int| 0 <= w < i + 1 && #[trigger] v@.take(i + 1)[w] == y;
                    if w < i {
                        assert(v@.take(i as int)[w] == y);
                        assert(before.contains(y));
                        let k = choose|k: int| 0 <= k < before.len() && before[k] == y;
                        if !present {
                            if k < p {
                                assert(out@[k] == y);
                            } else {
                                assert(out@[k + 1] == y);
                            }
                        }
                    } else {
                        assert(y == x);
                        if present {
                            assert(out@[p as int] == x);
                        } else {
                            assert(out@[p as int] == x);
                        }
                    }
                }
            }
        }
        i = i + 1;
    }
    assert(v@.take(v@.len() as int) =~= v@);
    out
}

/// A delivery row's target summary: `all`, `groups:<n>; users:<m>`, or `—`.
pub open spec fn target_summary(target: Option<JsonV>) -> Seq<char> {
    match target {
        None => "—"@,
        Some(t) => if t.get("all"@) == Some(JsonV::Bool(true)) {
            "all"@
        } else {
            let groups = match t.get("group_ids"@) {
                Some(JsonV::Array(items)) => items.len(),
                _ => 0,
            };
            let users = match t.get("user_ids"@) {
                Some(JsonV::Array(items)) => items.len(),
                _ => 0,
            };
            if groups == 0 && users == 0 {
                "—"@
            } else {
                "groups:"@ + dec_text(groups) + "; users:"@ + dec_text(users)
            }
        },
    }
}

fn array_len(v: Option<&Json>) -> (n: usize)
    ensures
        n == (match v {
            Some(j) => match j@ {
                JsonV::Array(items) => items.len(),
                _ => 0,
            },
            None => 0,
        }),
{
    match v {
        Some(Json::Array(items)) => {
            proof {
                crate::json::lemma_array_view(Json::Array(*items));
            }
            items.len()
        },
        _ => 0,
    }
}

/// Summarize a delivery's target.
pub fn summarize_target(target: Option<&Json>) -> (s: String)
    ensures
        s@ == target_summary(
            match target {
                Some(t) => Some(t@),
                None => None,
            },
        ),
{
    let t = match target {
        Some(t) => t,
        None => {
            return own("—");
        },
    };
    let all = match t.get("all") {
        Some(v) => match v.as_bool() {
            Some(b) => b,
            None => false,
        },
        None => false,
    };
    if all {
        return own("all");
    }
    let groups = array_len(t.get("group_ids"));
    let users = array_len(t.get("user_ids"));
    if groups == 0 && users == 0 {
        own("—")
    } else {
        let mut s = own("groups:");
        let g = crate::json::u64_text(groups as u64);
        append_chars(&mut s, g.as_slice());
        crate::text::append_str(&mut s, "; users:");
        let u = crate::json::u64_text(users as u64);
        append_chars(&mut s, u.as_slice());
        s
    }
}

/// The in-app fan-out status of an event: `delivered` once anyone got it.
pub fn delivery_status(delivered: i64) -> (s: &'static str)
    ensures
        s@ == (if delivered > 0 {
            "delivered"@
        } else {
            "queued"@
        }),
{
    if delivered > 0 {
        "delivered"
    } else {
        "queued"
    }
}

/// A notification must reach someone.
pub fn require_recipients(count: usize) -> (r: Result<(), ApiError>)
    ensures
        r is Ok <==> count > 0,
        r matches Err(e) ==> e.code == ErrorCode::ValidationFailed && e.message@
            == "notification target resolves to no users"@,
{
    if count == 0 {
        Err(ApiError::new(ErrorCode::ValidationFailed, "notification target resolves to no users"))
    } else {
        Ok(())
    }
}

} // verus!
