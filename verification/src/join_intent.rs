//! Join intents: a user confirms "join room", the server keeps a short-lived
//! intent, and when the user's Phira id comes online the intent is consumed
//! once and the user is moved into the room. Expired and cancelled intents
//! are cleaned up. In memory only; losing them on restart is acceptable.
//!
//! Times are Unix milliseconds; ids (intent and user) are UUIDs as `u128`.

use vstd::prelude::*;
use crate::clock::clock_millis;
use crate::error::{ApiError, ErrorCode, not_found_code_for, params_doc};
use crate::json::{Json, JsonV};
use crate::text::{chars_of, lower, own, str_eq, string_from_chars, trim, trim_chars};

verus! {

/// Default intent TTL (seconds).
pub const DEFAULT_TTL_SECS: i64 = 300;
/// Maximum allowed TTL (seconds).
pub const MAX_TTL_SECS: i64 = 900;

#[derive(Clone, Debug)]
pub struct JoinIntent {
    pub id: u128,
    pub user_id: u128,
    pub phira_id: i64,
    pub room_id: String,
    pub created_at: i64,
    pub expires_at: i64,
}

/// The mathematical model of a join intent.
pub struct JoinIntentV {
    pub id: u128,
    pub user_id: u128,
    pub phira_id: i64,
    pub room_id: Seq<char>,
    pub created_at: i64,
    pub expires_at: i64,
}

impl View for JoinIntent {
    type V = JoinIntentV;

    open spec fn view(&self) -> JoinIntentV {
        JoinIntentV {
            id: self.id,
            user_id: self.user_id,
            phira_id: self.phira_id,
            room_id: self.room_id@,
            created_at: self.created_at,
            expires_at: self.expires_at,
        }
    }
}

impl JoinIntent {
    /// A field-by-field copy.
    pub fn copied(&self) -> (r: JoinIntent)
        ensures
            r@ == self@,
    {
        JoinIntent {
            id: self.id,
            user_id: self.user_id,
            phira_id: self.phira_id,
            room_id: own(self.room_id.as_str()),
            created_at: self.created_at,
            expires_at: self.expires_at,
        }
    }
}

/// The intents by id.
pub type IntentMap = dashmap::DashMap<u128, JoinIntent>;

/// The intent id waiting for each Phira id.
pub type PhiraIndex = dashmap::DashMap<i64, u128>;

/// The intents held by an intent map, by id.
pub uninterp spec fn intent_map(m: IntentMap) -> Map<u128, JoinIntentV>;

/// The Phira id → intent id entries of an index.
pub uninterp spec fn phira_map(m: PhiraIndex) -> Map<i64, u128>;

pub open spec fn no_intents() -> Map<u128, JoinIntentV> {
    Map::empty()
}

pub open spec fn no_index() -> Map<i64, u128> {
    Map::empty()
}

/// `DashMap::new`: an empty intent map.
#[verifier::external_body]
fn new_intent_map() -> (m: IntentMap)
    ensures
        intent_map(m) == no_intents(),
{
    dashmap::DashMap::new()
}

/// `DashMap::new`: an empty Phira index.
#[verifier::external_body]
fn new_phira_index() -> (m: PhiraIndex)
    ensures
        phira_map(m) == no_index(),
{
    dashmap::DashMap::new()
}

/// `DashMap::insert`: `id` now holds `intent`; the entry it replaced, if
/// any, is handed back.
#[verifier::external_body]
fn put_intent(m: &mut IntentMap, id: u128, intent: JoinIntent) -> (prev: Option<JoinIntent>)
    ensures
        intent_map(*final(m)) == intent_map(*old(m)).insert(id, intent@),
        prev is Some <==> intent_map(*old(m)).contains_key(id),
        prev matches Some(p) ==> p@ == intent_map(*old(m))[id],
{
    m.insert(id, intent)
}

/// `DashMap::get`, keeping the owner and Phira id of the entry.
#[verifier::external_body]
fn owner_of(m: &IntentMap, id: u128) -> (r: Option<(u128, i64)>)
    ensures
        r is Some <==> intent_map(*m).contains_key(id),
        r matches Some(p) ==> p.0 == intent_map(*m)[id].user_id && p.1 == intent_map(*m)[id].phira_id,
{
    m.get(&id).map(|i| (i.user_id, i.phira_id))
}

/// `DashMap::remove`: the entry of `id` leaves the map and is handed back.
#[verifier::external_body]
fn take_intent(m: &mut IntentMap, id: u128) -> (r: Option<JoinIntent>)
    ensures
        intent_map(*final(m)) == intent_map(*old(m)).remove(id),
        r is Some <==> intent_map(*old(m)).contains_key(id),
        r matches Some(i) ==> i@ == intent_map(*old(m))[id],
{
    m.remove(&id).map(|(_, v)| v)
}

/// `DashMap::iter`, each intent copied by the verified `JoinIntent::copied`:
/// every (id, intent) entry once, in the map's own order
/// (which the contract leaves open). The store is owned by one caller, so
/// nothing changes the map during the walk.
#[verifier::external_body]
fn all_intents(m: &IntentMap) -> (r: Vec<(u128, JoinIntent)>)
    ensures
        forall|i: int| 0 <= i < r.len() ==> intent_map(*m).contains_key(#[trigger] r@[i].0)
            && intent_map(*m)[r@[i].0] == r@[i].1@,
        forall|i: int, j: int| 0 <= i < j < r.len() ==> r@[i].0 != r@[j].0,
        forall|k: u128| intent_map(*m).contains_key(k) ==> exists|i: int| 0 <= i < r.len() && #[trigger] r@[i].0 == k,
{
    m.iter().map(|e| (*e.key(), e.value().copied())).collect()
}

/// `DashMap::insert`: Phira id `p` now points at intent `id`.
#[verifier::external_body]
fn index_phira(m: &mut PhiraIndex, p: i64, id: u128)
    ensures
        phira_map(*final(m)) == phira_map(*old(m)).insert(p, id),
{
    m.insert(p, id);
}

/// `DashMap::remove`: the entry of `p` leaves the index; its intent id is
/// handed back.
#[verifier::external_body]
fn unindex_phira(m: &mut PhiraIndex, p: i64) -> (r: Option<u128>)
    ensures
        phira_map(*final(m)) == phira_map(*old(m)).remove(p),
        r is Some <==> phira_map(*old(m)).contains_key(p),
        r matches Some(id) ==> id == phira_map(*old(m))[p],
{
    m.remove(&p).map(|(_, id)| id)
}

/// `uuid::Uuid::new_v4()` as an integer: random, so nothing is stated.
#[verifier::external_body]
fn new_intent_id() -> (id: u128) {
    uuid::Uuid::new_v4().as_u128()
}

// ── the rules ─────────────────────────────────────────────────────────

/// The TTL asked for, or the default.
pub open spec fn ttl_of(ttl_secs: Option<i64>) -> i64 {
    match ttl_secs {
        Some(t) => t,
        None => DEFAULT_TTL_SECS,
    }
}

/// A TTL is accepted from 1 to `MAX_TTL_SECS` seconds.
pub open spec fn ttl_accepted(ttl_secs: Option<i64>) -> bool {
    1 <= ttl_of(ttl_secs) <= MAX_TTL_SECS
}

/// `now + ttl` seconds, in milliseconds (the clock's last instant at most).
pub open spec fn expiry(now: i64, ttl: i64) -> i64 {
    if now + ttl * 1000 > i64::MAX {
        i64::MAX
    } else {
        (now + ttl * 1000) as i64
    }
}

/// The intent a successful create makes.
pub open spec fn new_intent(id: u128, user_id: u128, phira_id: i64, room_id: Seq<char>, now: i64, ttl: i64) -> JoinIntentV {
    JoinIntentV {
        id,
        user_id,
        phira_id,
        room_id: trim(room_id),
        created_at: now,
        expires_at: expiry(now, ttl),
    }
}

/// The Phira index after a create of intent `id` for `phira_id`: an intent
/// replaced under the same id loses its index entry first.
pub open spec fn index_after_create(
    intents: Map<u128, JoinIntentV>,
    index: Map<i64, u128>,
    id: u128,
    phira_id: i64,
) -> Map<i64, u128> {
    if intents.contains_key(id) {
        index.remove(intents[id].phira_id).insert(phira_id, id)
    } else {
        index.insert(phira_id, id)
    }
}

/// The intents once those of `user_id` are gone: a user has one join target
/// at a time, so a new intent replaces the earlier ones.
pub open spec fn without_user(intents: Map<u128, JoinIntentV>, user_id: u128) -> Map<u128, JoinIntentV> {
    intents.remove_keys(owned_ids(intents, user_id))
}

/// The Phira index once the intents of `user_id` are gone.
pub open spec fn index_without_user(intents: Map<u128, JoinIntentV>, index: Map<i64, u128>, user_id: u128) -> Map<
    i64,
    u128,
> {
    index.remove_keys(phira_ids_of(intents, owned_ids(intents, user_id)))
}

/// What coming online with `phira_id` at `now` hands back: the indexed
/// intent, while it has not expired.
pub open spec fn match_outcome(
    intents: Map<u128, JoinIntentV>,
    index: Map<i64, u128>,
    phira_id: i64,
    now: i64,
) -> Option<JoinIntentV> {
    if index.contains_key(phira_id) && intents.contains_key(index[phira_id])
        && intents[index[phira_id]].expires_at > now {
        Some(intents[index[phira_id]])
    } else {
        None
    }
}

/// The intents after coming online with `phira_id`: the indexed intent is
/// consumed, expired or not.
pub open spec fn intents_after_match(
    intents: Map<u128, JoinIntentV>,
    index: Map<i64, u128>,
    phira_id: i64,
) -> Map<u128, JoinIntentV> {
    if index.contains_key(phira_id) {
        intents.remove(index[phira_id])
    } else {
        intents
    }
}

/// An intent of `user_id` still alive at `now`.
pub open spec fn active_for(intents: Map<u128, JoinIntentV>, user_id: u128, now: i64, k: u128) -> bool {
    intents.contains_key(k) && intents[k].user_id == user_id && intents[k].expires_at > now
}

/// The ids of the intents expired at `now`.
pub open spec fn expired_ids(intents: Map<u128, JoinIntentV>, now: i64) -> Set<u128> {
    intents.dom().filter(|k: u128| intents[k].expires_at <= now)
}

/// `r` lists exactly the intents of `user_id` alive at `now`, each once.
pub open spec fn listed_at(intents: Map<u128, JoinIntentV>, user_id: u128, now: i64, r: Seq<JoinIntent>) -> bool {
    &&& forall|i: int| 0 <= i < r.len() ==> active_for(intents, user_id, now, #[trigger] r[i].id) && intents[r[i].id]
        == r[i]@
    &&& forall|k: u128| active_for(intents, user_id, now, k) ==> exists|i: int| 0 <= i < r.len() && #[trigger] r[i].id
        == k
    &&& forall|i: int, j: int| 0 <= i < j < r.len() ==> r[i].id != r[j].id
}

/// A cleanup at `now` took the store from `(intents, index)` to
/// `(intents2, index2)`: the intents expired at `now` and their Phira index
/// entries are gone, and `n` counts them.
pub open spec fn cleaned_at(
    intents: Map<u128, JoinIntentV>,
    index: Map<i64, u128>,
    intents2: Map<u128, JoinIntentV>,
    index2: Map<i64, u128>,
    n: usize,
    now: i64,
) -> bool {
    &&& intents2 == intents.remove_keys(expired_ids(intents, now))
    &&& index2 == index.remove_keys(expired_phira_ids(intents, now))
    &&& n == expired_ids(intents, now).len()
}

/// The Phira ids of the intents expired at `now`.
pub open spec fn expired_phira_ids(intents: Map<u128, JoinIntentV>, now: i64) -> Set<i64> {
    phira_ids_of(intents, expired_ids(intents, now))
}

/// The Phira ids of the intents `keys`.
pub open spec fn phira_ids_of(intents: Map<u128, JoinIntentV>, keys: Set<u128>) -> Set<i64> {
    keys.map(|k: u128| intents[k].phira_id)
}

/// Every intent is stored under its own id.
pub open spec fn ids_consistent(intents: Map<u128, JoinIntentV>) -> bool {
    forall|k: u128| #[trigger] intents.contains_key(k) ==> intents[k].id == k
}

/// Which intents a removal takes.
enum Selection {
    /// Those expired at this time.
    ExpiredAt(i64),
    /// Those of this user.
    OwnedBy(u128),
}

spec fn selects(sel: Selection, v: JoinIntentV) -> bool {
    match sel {
        Selection::ExpiredAt(now) => v.expires_at <= now,
        Selection::OwnedBy(user) => v.user_id == user,
    }
}

spec fn selected_ids(intents: Map<u128, JoinIntentV>, sel: Selection) -> Set<u128> {
    intents.dom().filter(|k: u128| selects(sel, intents[k]))
}

impl Selection {
    fn takes(&self, v: &JoinIntent) -> (b: bool)
        ensures
            b == selects(*self, v@),
    {
        match self {
            Selection::ExpiredAt(now) => v.expires_at <= *now,
            Selection::OwnedBy(user) => v.user_id == *user,
        }
    }
}

/// The ids of the intents of `user_id`.
pub open spec fn owned_ids(intents: Map<u128, JoinIntentV>, user_id: u128) -> Set<u128> {
    intents.dom().filter(|k: u128| intents[k].user_id == user_id)
}

#[derive(Debug)]
/// The in-memory intent store.
pub struct JoinIntentStore {
    intents: IntentMap,
    by_phira: PhiraIndex,
}

impl JoinIntentStore {
    /// The intents, by id.
    pub closed spec fn intents(&self) -> Map<u128, JoinIntentV> {
        intent_map(self.intents)
    }

    /// The Phira id → intent id index.
    pub closed spec fn index(&self) -> Map<i64, u128> {
        phira_map(self.by_phira)
    }

    /// Well-formed: each intent sits under its own id.
    pub open spec fn wf(&self) -> bool {
        ids_consistent(self.intents())
    }

    pub fn new() -> (s: JoinIntentStore)
        ensures
            s.wf(),
            s.intents() == no_intents(),
            s.index() == no_index(),
    {
        JoinIntentStore { intents: new_intent_map(), by_phira: new_phira_index() }
    }

    /// Create an intent with id `id` at `now`: TTL (default 300 s) must be
    /// 1..=900 s and the room id non-blank (it is stored trimmed).
    pub fn create_at(
        &mut self,
        id: u128,
        user_id: u128,
        phira_id: i64,
        room_id: &str,
        ttl_secs: Option<i64>,
        now: i64,
    ) -> (r: Result<JoinIntent, ApiError>)
        requires
            old(self).wf(),
        ensures
            final(self).wf(),
            !ttl_accepted(ttl_secs) ==> (r matches Err(e) && e.code == ErrorCode::ValidationFailed
                && e.message@ == "ttl_secs must be between 1 and 900"@),
            ttl_accepted(ttl_secs) && trim(room_id@).len() == 0 ==> (r matches Err(e) && e.code
                == ErrorCode::ValidationFailed && e.message@ == "room_id required"@),
            r is Err ==> final(self).intents() == old(self).intents() && final(self).index() == old(self).index(),
            ttl_accepted(ttl_secs) && trim(room_id@).len() > 0 ==> (r matches Ok(intent) && intent@ == new_intent(
                id,
                user_id,
                phira_id,
                room_id@,
                now,
                ttl_of(ttl_secs),
            ) && final(self).intents() == without_user(old(self).intents(), user_id).insert(id, intent@)
                && final(self).index() == index_after_create(
                without_user(old(self).intents(), user_id),
                index_without_user(old(self).intents(), old(self).index(), user_id),
                id,
                phira_id,
            )),
            r is Ok ==> forall|k: u128|
                #[trigger] final(self).intents().contains_key(k) && final(self).intents()[k].user_id == user_id ==> k
                    == id,
    {
        let ttl = match ttl_secs {
            Some(t) => t,
            None => DEFAULT_TTL_SECS,
        };
        if !(1 <= ttl && ttl <= MAX_TTL_SECS) {
            return Err(ApiError::validation("ttl_secs must be between 1 and 900"));
        }
        let rc = chars_of(room_id);
        let trimmed = trim_chars(rc.as_slice());
        if trimmed.len() == 0 {
            return Err(ApiError::validation("room_id required"));
        }
        let expires_at = match now.checked_add(ttl * 1000) {
            Some(t) => t,
            None => i64::MAX,
        };
        let intent = JoinIntent {
            id,
            user_id,
            phira_id,
            room_id: string_from_chars(trimmed.as_slice()),
            created_at: now,
            expires_at,
        };
        let result = intent.copied();
        proof {
            assert(selected_ids(self.intents(), Selection::OwnedBy(user_id)) =~= owned_ids(self.intents(), user_id));
        }
        self.remove_selected(Selection::OwnedBy(user_id));
        let ghost m1 = self.intents();
        let prev = put_intent(&mut self.intents, id, intent);
        match prev {
            Some(p) => {
                let _ = unindex_phira(&mut self.by_phira, p.phira_id);
            },
            None => {},
        }
        index_phira(&mut self.by_phira, phira_id, id);
        proof {
            assert(result@ == new_intent(id, user_id, phira_id, room_id@, now, ttl));
            assert forall|k: u128|
                #[trigger] self.intents().contains_key(k) && self.intents()[k].user_id == user_id implies k == id by {
                if k != id {
                    assert(m1.contains_key(k));
                    assert(!owned_ids(old(self).intents(), user_id).contains(k));
                }
            }
        }
        Ok(result)
    }

    /// Create an intent now, under a fresh random id.
    pub fn create(&mut self, user_id: u128, phira_id: i64, room_id: &str, ttl_secs: Option<i64>) -> (r: Result<
        JoinIntent,
        ApiError,
    >)
        requires
            old(self).wf(),
        ensures
            final(self).wf(),
            !ttl_accepted(ttl_secs) ==> (r matches Err(e) && e.code == ErrorCode::ValidationFailed),
            ttl_accepted(ttl_secs) && trim(room_id@).len() == 0 ==> (r matches Err(e) && e.code
                == ErrorCode::ValidationFailed),
            r is Err ==> final(self).intents() == old(self).intents() && final(self).index() == old(self).index(),
            ttl_accepted(ttl_secs) && trim(room_id@).len() > 0 ==> (r matches Ok(intent) && intent.user_id
                == user_id && intent.phira_id == phira_id && intent.room_id@ == trim(room_id@)
                && final(self).intents() == without_user(old(self).intents(), user_id).insert(intent.id, intent@)
                && final(self).index() == index_after_create(
                without_user(old(self).intents(), user_id),
                index_without_user(old(self).intents(), old(self).index(), user_id),
                intent.id,
                phira_id,
            )),
            r is Ok ==> forall|k: u128|
                #[trigger] final(self).intents().contains_key(k) && final(self).intents()[k].user_id == user_id ==> (r
                    matches Ok(i) && k == i.id),
    {
        let id = new_intent_id();
        let now = crate::clock::now_unix_millis();
        self.create_at(id, user_id, phira_id, room_id, ttl_secs, now)
    }

    /// Cancel intent `intent_id` of `user_id`: unknown ids answer not found,
    /// another user's intent permission denied; the store then stays as it was.
    pub fn cancel(&mut self, user_id: u128, intent_id: u128) -> (r: Result<(), ApiError>)
        requires
            old(self).wf(),
        ensures
            final(self).wf(),
            !old(self).intents().contains_key(intent_id) ==> (r matches Err(e) && e.code == not_found_code_for(
                lower("join intent"@),
            ) && e.message@ == "resource not found: join intent"@),
            old(self).intents().contains_key(intent_id) && old(self).intents()[intent_id].user_id != user_id
                ==> (r matches Err(e) && e.code == ErrorCode::PermissionDenied),
            r is Err ==> final(self).intents() == old(self).intents() && final(self).index() == old(self).index(),
            r is Ok <==> (old(self).intents().contains_key(intent_id) && old(self).intents()[intent_id].user_id
                == user_id),
            r is Ok ==> final(self).intents() == old(self).intents().remove(intent_id) && final(self).index()
                == old(self).index().remove(old(self).intents()[intent_id].phira_id),
    {
        match owner_of(&self.intents, intent_id) {
            Some((owner, phira_id)) => {
                if owner == user_id {
                    let _ = unindex_phira(&mut self.by_phira, phira_id);
                    let _ = take_intent(&mut self.intents, intent_id);
                    Ok(())
                } else {
                    Err(ApiError::permission_denied())
                }
            },
            None => {
                let e = ApiError::not_found("join intent");
                proof {
                    reveal_strlit("join intent");
                    reveal_strlit("resource not found: ");
                    assert("resource not found: "@ + "join intent"@ =~= "resource not found: join intent"@) by {
                        reveal_strlit("resource not found: join intent");
                    }
                }
                Err(e)
            },
        }
    }

    /// The intents of `user_id` alive at `now`, each once, in no promised order.
    pub fn list_for_user_at(&self, user_id: u128, now: i64) -> (r: Vec<JoinIntent>)
        requires
            self.wf(),
        ensures
            forall|i: int| 0 <= i < r.len() ==> active_for(self.intents(), user_id, now, #[trigger] r@[i].id)
                && self.intents()[r@[i].id] == r@[i]@,
            forall|k: u128| active_for(self.intents(), user_id, now, k) ==> exists|i: int| 0 <= i < r.len()
                && #[trigger] r@[i].id == k,
            forall|i: int, j: int| 0 <= i < j < r.len() ==> r@[i].id != r@[j].id,
    {
        let entries = all_intents(&self.intents);
        let ghost m = self.intents();
        let mut out: Vec<JoinIntent> = Vec::new();
        let ghost mut picked: Seq<int> = Seq::empty();
        let mut i: usize = 0;
        while i < entries.len()
            invariant
                i <= entries@.len(),
                m == self.intents(),
                ids_consistent(m),
                forall|a: int| 0 <= a < entries@.len() ==> m.contains_key(#[trigger] entries@[a].0)
                    && m[entries@[a].0] == entries@[a].1@,
                forall|a: int, b: int| 0 <= a < b < entries@.len() ==> entries@[a].0 != entries@[b].0,
                picked.len() == out@.len(),
                forall|a: int| 0 <= a < out@.len() ==> 0 <= #[trigger] picked[a] < i && out@[a]@ == entries@[picked[a]].1@,
                forall|a: int, b: int| 0 <= a < b < out@.len() ==> picked[a] < picked[b],
                forall|a: int| 0 <= a < out@.len() ==> active_for(m, user_id, now, #[trigger] out@[a].id),
                forall|c: int| 0 <= c < i && active_for(m, user_id, now, #[trigger] entries@[c].0) ==> exists|a: int|
                    0 <= a < out@.len() && picked[a] == c,
            decreases entries@.len() - i,
        {
            let e = &entries[i];
            let ghost old_picked = picked;
            let ghost old_len = out@.len();
            proof {
                assert(m.contains_key(entries@[i as int].0));
            }
            if e.1.user_id == user_id && e.1.expires_at > now {
                let ghost before = out@;
                out.push(e.1.copied());
                proof {
                    picked = picked.push(i as int);
                    assert(out@[out@.len() - 1]@ == entries@[i as int].1@);
                    assert forall|a: int| 0 <= a < out@.len() implies active_for(m, user_id, now, #[trigger] out@[a].id) by {
                        if a < before.len() {
                            assert(out@[a] == before[a]);
                        }
                    }
                }
            }
            proof {
                assert forall|c: int| 0 <= c < i + 1 && active_for(m, user_id, now, #[trigger] entries@[c].0)
                    implies exists|a: int| 0 <= a < out@.len() && picked[a] == c by {
                    if c < i {
                        let a = choose|a: int| 0 <= a < old_len && old_picked[a] == c;
                        assert(picked[a] == c);
                    } else {
                        assert(picked[out@.len() - 1] == c);
                    }
                }
            }
            i = i + 1;
        }
        proof {
            assert forall|a: int| 0 <= a < out@.len() implies active_for(m, user_id, now, #[trigger] out@[a].id)
                && m[out@[a].id] == out@[a]@ by {
                let c = picked[a];
                assert(m[entries@[c].0] == entries@[c].1@);
            }
            assert forall|k: u128| active_for(m, user_id, now, k) implies exists|a: int| 0 <= a < out@.len()
                && #[trigger] out@[a].id == k by {
                let c = choose|c: int| 0 <= c < entries@.len() && #[trigger] entries@[c].0 == k;
                let a = choose|a: int| 0 <= a < out@.len() && picked[a] == c;
                assert(out@[a]@ == entries@[c].1@);
            }
            assert forall|a: int, b: int| 0 <= a < b < out@.len() implies out@[a].id != out@[b].id by {
                let ca = picked[a];
                let cb = picked[b];
                assert(out@[a].id == entries@[ca].1@.id);
                assert(m[entries@[ca].0].id == entries@[ca].0);
                assert(m[entries@[cb].0].id == entries@[cb].0);
            }
        }
        out
    }

    /// The caller's intents alive now: `list_for_user_at` at the instant the
    /// clock reports.
    pub fn list_for_user(&self, user_id: u128) -> (r: Vec<JoinIntent>)
        requires
            self.wf(),
        ensures
            forall|i: int| 0 <= i < r.len() ==> self.intents().contains_key(#[trigger] r@[i].id)
                && self.intents()[r@[i].id] == r@[i]@ && r@[i].user_id == user_id,
            exists|now: i64| clock_millis(now) && #[trigger] listed_at(self.intents(), user_id, now, r@),
    {
        let now = crate::clock::now_unix_millis();
        let r = self.list_for_user_at(user_id, now);
        assert(listed_at(self.intents(), user_id, now, r@));
        r
    }

    /// `phira_id` came online at `now`: its indexed intent is consumed and
    /// handed back unless it has expired.
    pub fn match_online_at(&mut self, phira_id: i64, now: i64) -> (r: Option<JoinIntent>)
        requires
            old(self).wf(),
        ensures
            final(self).wf(),
            final(self).index() == old(self).index().remove(phira_id),
            final(self).intents() == intents_after_match(old(self).intents(), old(self).index(), phira_id),
            r is Some <==> match_outcome(old(self).intents(), old(self).index(), phira_id, now) is Some,
            r matches Some(i) ==> match_outcome(old(self).intents(), old(self).index(), phira_id, now) == Some(i@),
    {
        let intent_id = match unindex_phira(&mut self.by_phira, phira_id) {
            Some(id) => id,
            None => {
                return None;
            },
        };
        let intent = match take_intent(&mut self.intents, intent_id) {
            Some(i) => i,
            None => {
                return None;
            },
        };
        if intent.expires_at <= now {
            return None;
        }
        Some(intent)
    }

    /// `phira_id` came online now.
    pub fn match_online(&mut self, phira_id: i64) -> (r: Option<JoinIntent>)
        requires
            old(self).wf(),
        ensures
            final(self).wf(),
            final(self).index() == old(self).index().remove(phira_id),
            final(self).intents() == intents_after_match(old(self).intents(), old(self).index(), phira_id),
            r matches Some(i) ==> old(self).index().contains_key(phira_id) && old(self).index()[phira_id] == i.id
                && old(self).intents().contains_key(i.id) && old(self).intents()[i.id] == i@,
            exists|now: i64|
                clock_millis(now) && #[trigger] match_outcome(old(self).intents(), old(self).index(), phira_id, now)
                    == match r {
                    Some(i) => Some(i@),
                    None => None,
                },
    {
        let now = crate::clock::now_unix_millis();
        let r = self.match_online_at(phira_id, now);
        assert(match_outcome(old(self).intents(), old(self).index(), phira_id, now) == match r {
            Some(i) => Some(i@),
            None => None::<JoinIntentV>,
        });
        r
    }

    /// Remove the intents expired at `now` (and the index entries of their
    /// Phira ids); the count removed is handed back.
    pub fn cleanup_expired_at(&mut self, now: i64) -> (n: usize)
        requires
            old(self).wf(),
        ensures
            final(self).wf(),
            final(self).intents() == old(self).intents().remove_keys(expired_ids(old(self).intents(), now)),
            final(self).index() == old(self).index().remove_keys(expired_phira_ids(old(self).intents(), now)),
            n == expired_ids(old(self).intents(), now).len(),
    {
        assert(selected_ids(self.intents(), Selection::ExpiredAt(now)) =~= expired_ids(self.intents(), now));
        self.remove_selected(Selection::ExpiredAt(now))
    }

    /// Remove the intents matching `sel` (and the index entries of their
    /// Phira ids); the count removed is handed back.
    fn remove_selected(&mut self, sel: Selection) -> (n: usize)
        requires
            old(self).wf(),
        ensures
            final(self).wf(),
            final(self).intents() == old(self).intents().remove_keys(selected_ids(old(self).intents(), sel)),
            final(self).index() == old(self).index().remove_keys(phira_ids_of(old(self).intents(), selected_ids(old(self).intents(), sel))),
            n == selected_ids(old(self).intents(), sel).len(),
    {
        let entries = all_intents(&self.intents);
        let ghost m = self.intents();
        let ghost p0 = self.index();
        let mut expired: Vec<u128> = Vec::new();
        let mut i: usize = 0;
        while i < entries.len()
            invariant
                i <= entries@.len(),
                m == self.intents(),
                forall|a: int| 0 <= a < entries@.len() ==> m.contains_key(#[trigger] entries@[a].0)
                    && m[entries@[a].0] == entries@[a].1@,
                forall|a: int, b: int| 0 <= a < b < entries@.len() ==> entries@[a].0 != entries@[b].0,
                expired@.no_duplicates(),
                forall|a: int| 0 <= a < expired@.len() ==> m.contains_key(#[trigger] expired@[a]) && selects(sel, m[expired@[a]]),
                forall|c: int| 0 <= c < i && selects(sel, m[#[trigger] entries@[c].0]) ==> expired@.contains(entries@[c].0),
                forall|a: int| 0 <= a < expired@.len() ==> exists|c: int| 0 <= c < i && #[trigger] entries@[c].0 == #[trigger] expired@[a],
            decreases entries@.len() - i,
        {
            let id = entries[i].0;
            proof {
                assert(m.contains_key(entries@[i as int].0));
            }
            let ghost old_expired = expired@;
            if sel.takes(&entries[i].1) {
                proof {
                    assert(!expired@.contains(id)) by {
                        if expired@.contains(id) {
                            let a = choose|a: int| 0 <= a < expired@.len() && expired@[a] == id;
                            let c = choose|c: int| 0 <= c < i && #[trigger] entries@[c].0 == expired@[a];
                            assert(entries@[c].0 != entries@[i as int].0);
                        }
                    }
                }
                expired.push(id);
                proof {
                    assert forall|a: int| 0 <= a < expired@.len() implies exists|c: int| 0 <= c < i + 1
                        && #[trigger] entries@[c].0 == #[trigger] expired@[a] by {
                        if a == expired@.len() - 1 {
                            assert(entries@[i as int].0 == expired@[a]);
                        } else {
                            let c = choose|c: int| 0 <= c < i && #[trigger] entries@[c].0 == expired@[a];
                            assert(entries@[c].0 == expired@[a]);
                        }
                    }
                }
            }
            proof {
                assert forall|c: int| 0 <= c < i + 1 && selects(sel, m[#[trigger] entries@[c].0])
                    implies expired@.contains(entries@[c].0) by {
                    if c < i {
                        let a = choose|a: int| 0 <= a < old_expired.len() && old_expired[a] == entries@[c].0;
                        assert(expired@[a] == entries@[c].0);
                    } else {
                        assert(expired@[expired@.len() - 1] == entries@[c].0);
                    }
                }
            }
            i = i + 1;
        }
        let ghost ex = selected_ids(m, sel);
        proof {
            assert(expired@.to_set() =~= ex) by {
                assert forall|k: u128| ex.contains(k) implies expired@.to_set().contains(k) by {
                    let c = choose|c: int| 0 <= c < entries@.len() && #[trigger] entries@[c].0 == k;
                }
            }
            expired@.unique_seq_to_set();
        }
        let mut n: usize = 0;
        let mut j: usize = 0;
        while j < expired.len()
            invariant
                j <= expired@.len(),
                n == j,
                expired@.no_duplicates(),
                forall|a: int| 0 <= a < expired@.len() ==> m.contains_key(#[trigger] expired@[a]) && selects(sel, m[expired@[a]]),
                ids_consistent(m),
                self.intents() == m.remove_keys(expired@.take(j as int).to_set()),
                self.index() == p0.remove_keys(phira_ids_of(m, expired@.take(j as int).to_set())),
            decreases expired@.len() - j,
        {
            let id = expired[j];
            let ghost done = expired@.take(j as int).to_set();
            proof {
                assert(!done.contains(id)) by {
                    if done.contains(id) {
                        let a = choose|a: int| 0 <= a < j && expired@.take(j as int)[a] == id;
                        assert(expired@[a] == expired@[j as int]);
                    }
                }
                assert(m.contains_key(expired@[j as int]));
            }
            let removed = take_intent(&mut self.intents, id);
            match removed {
                Some(intent) => {
                    let _ = unindex_phira(&mut self.by_phira, intent.phira_id);
                    n = n + 1;
                    proof {
                        let t = expired@.take(j as int);
                        let t1 = expired@.take(j + 1);
                        assert(t1 =~= t.push(id));
                        assert forall|x: u128| t1.to_set().contains(x) implies done.insert(id).contains(x) by {
                            let a = choose|a: int| 0 <= a < t1.len() && t1[a] == x;
                            if a < j {
                                assert(t[a] == x);
                                assert(t.contains(x));
                            }
                        }
                        assert forall|x: u128| done.insert(id).contains(x) implies t1.to_set().contains(x) by {
                            if x == id {
                                assert(t1[j as int] == id);
                                assert(t1.contains(x));
                            } else {
                                let a = choose|a: int| 0 <= a < t.len() && t[a] == x;
                                assert(t1[a] == x);
                                assert(t1.contains(x));
                            }
                        }
                        assert(t1.to_set() =~= done.insert(id));
                        assert(self.intents() =~= m.remove_keys(done.insert(id)));
                        assert(phira_ids_of(m, done.insert(id)) =~= phira_ids_of(m, done).insert(m[id].phira_id)) by {
                            assert forall|q: i64| #[trigger] phira_ids_of(m, done.insert(id)).contains(q)
                                implies phira_ids_of(m, done).insert(m[id].phira_id).contains(q) by {
                                let k = choose|k: u128| done.insert(id).contains(k) && q == m[k].phira_id;
                                if k != id {
                                    assert(done.contains(k) && q == m[k].phira_id);
                                }
                            }
                            assert forall|q: i64| #[trigger] phira_ids_of(m, done).insert(m[id].phira_id).contains(q)
                                implies phira_ids_of(m, done.insert(id)).contains(q) by {
                                if q == m[id].phira_id {
                                    assert(done.insert(id).contains(id));
                                } else {
                                    let k = choose|k: u128| done.contains(k) && q == m[k].phira_id;
                                    assert(done.insert(id).contains(k));
                                }
                            }
                        }
                        assert(self.index() =~= p0.remove_keys(phira_ids_of(m, done.insert(id))));
                    }
                },
                None => {
                    proof {
                        assert(self.intents().contains_key(id));
                    }
                },
            }
            j = j + 1;
        }
        proof {
            assert(expired@.take(expired@.len() as int) =~= expired@);
        }
        n
    }

    /// Remove the intents expired now: `cleanup_expired_at` at the instant
    /// the clock reports.
    pub fn cleanup_expired(&mut self) -> (n: usize)
        requires
            old(self).wf(),
        ensures
            final(self).wf(),
            forall|k: u128| #[trigger] final(self).intents().contains_key(k) ==> old(self).intents().contains_key(k)
                && final(self).intents()[k] == old(self).intents()[k],
            exists|now: i64|
                clock_millis(now) && #[trigger] cleaned_at(
                    old(self).intents(),
                    old(self).index(),
                    final(self).intents(),
                    final(self).index(),
                    n,
                    now,
                ),
    {
        let now = crate::clock::now_unix_millis();
        let n = self.cleanup_expired_at(now);
        assert(cleaned_at(old(self).intents(), old(self).index(), self.intents(), self.index(), n, now));
        n
    }
}

#[derive(Debug)]
/// Body of a join-intent creation.
pub struct JoinIntentBody {
    pub room_id: String,
    pub ttl_secs: Option<i64>,
}

/// The Phira id a PMP event reports online: a `user.online` event whose
/// `user_id` is a positive integer.
pub open spec fn online_phira_id(event_type: Seq<char>, data: JsonV) -> Option<i64> {
    if event_type == "user.online"@ {
        match data.get("user_id"@) {
            Some(v) => match v.as_i64() {
                Some(id) => if id > 0 {
                    Some(id)
                } else {
                    None
                },
                None => None,
            },
            None => None,
        }
    } else {
        None
    }
}

/// The Phira id to match intents for, from a PMP event.
pub fn online_event_phira_id(event_type: &str, data: &Json) -> (r: Option<i64>)
    ensures
        r == online_phira_id(event_type@, data@),
{
    if !str_eq(event_type, "user.online") {
        return None;
    }
    let id = match data.get("user_id") {
        Some(v) => match v.as_i64() {
            Some(id) => id,
            None => 0,
        },
        None => 0,
    };
    if id > 0 {
        Some(id)
    } else {
        None
    }
}

// ── laws ──────────────────────────────────────────────────────────────

/// An intent is consumed once: after a Phira id came online, coming online
/// again finds nothing, at any time.
pub proof fn lemma_match_consumes_once(
    intents: Map<u128, JoinIntentV>,
    index: Map<i64, u128>,
    phira_id: i64,
    later: i64,
)
    ensures
        match_outcome(intents_after_match(intents, index, phira_id), index.remove(phira_id), phira_id, later) is None,
{
}

/// A cancelled intent is never matched: after cancelling intent `id`, its
/// Phira id coming online finds nothing.
pub proof fn lemma_cancelled_not_matched(
    intents: Map<u128, JoinIntentV>,
    index: Map<i64, u128>,
    id: u128,
    now: i64,
)
    requires
        intents.contains_key(id),
    ensures
        match_outcome(intents.remove(id), index.remove(intents[id].phira_id), intents[id].phira_id, now) is None,
{
}

/// A created intent is matched: when its Phira id comes online before it
/// expires, that very intent is handed back.
pub proof fn lemma_created_intent_matches(
    intents: Map<u128, JoinIntentV>,
    index: Map<i64, u128>,
    intent: JoinIntentV,
    now: i64,
)
    requires
        now < intent.expires_at,
    ensures
        match_outcome(
            intents.insert(intent.id, intent),
            index_after_create(intents, index, intent.id, intent.phira_id),
            intent.phira_id,
            now,
        ) == Some(intent),
{
}

/// After a cleanup at `now`, no expired intent is left.
pub proof fn lemma_cleanup_leaves_live_intents(intents: Map<u128, JoinIntentV>, now: i64)
    ensures
        forall|k: u128| #[trigger] intents.remove_keys(expired_ids(intents, now)).contains_key(k)
            ==> intents[k].expires_at > now,
{
}

} // verus!
