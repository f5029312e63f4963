//! In-memory sliding-window rate limiter (per key, per minute). Applied at
//! sensitive endpoints; refusals answer 429 with `Retry-After`.

use vstd::prelude::*;
use crate::error::{ApiError, ErrorCode, params_doc, visible_message};
use crate::json::{Json, JsonNumber, JsonV, NumV};
use crate::text::own;

verus! {

#[verifier::external_type_specification]
#[verifier::external_body]
#[verifier::reject_recursive_types(K)]
#[verifier::reject_recursive_types(V)]
#[verifier::reject_recursive_types(S)]
pub struct ExDashMap<K, V, S>(dashmap::DashMap<K, V, S>);

/// The bucket store: attempt times per key.
pub type Buckets = dashmap::DashMap<String, Vec<i64>>;

/// The attempt times (Unix seconds) recorded per key.
pub uninterp spec fn bucket_map(m: Buckets) -> Map<Seq<char>, Seq<i64>>;

/// No bucket at all.
pub open spec fn no_buckets() -> Map<Seq<char>, Seq<i64>> {
    Map::empty()
}

/// `DashMap::new`: an empty map.
#[verifier::external_body]
fn new_buckets() -> (m: Buckets)
    ensures
        bucket_map(m) == no_buckets(),
{
    dashmap::DashMap::new()
}

/// `DashMap::get`: a copy of the bucket of `key`, if it has one.
#[verifier::external_body]
fn bucket_of(m: &Buckets, key: &str) -> (b: Option<Vec<i64>>)
    ensures
        b is Some <==> bucket_map(*m).contains_key(key@),
        b matches Some(v) ==> v@ == bucket_map(*m)[key@],
{
    m.get(key).map(|b| b.clone())
}

/// `DashMap::insert`: `key` now holds `b`; other keys are untouched.
#[verifier::external_body]
fn store_bucket(m: &mut Buckets, key: &str, b: Vec<i64>)
    ensures
        bucket_map(*final(m)) == bucket_map(*old(m)).insert(key@, b@),
{
    m.insert(key.to_string(), b);
}

/// The attempts still inside the one-minute window at `now`, in order.
pub open spec fn in_window(b: Seq<i64>, now: i64) -> Seq<i64>
    decreases b.len(),
{
    if b.len() == 0 {
        Seq::empty()
    } else {
        let prefix = in_window(b.drop_last(), now);
        if now - b.last() < 60 {
            prefix.push(b.last())
        } else {
            prefix
        }
    }
}

/// Seconds until the oldest attempt in the window leaves it (at least 1,
/// 60 for an empty window).
pub open spec fn retry_after(kept: Seq<i64>, now: i64) -> int {
    if kept.len() == 0 {
        60
    } else if 60 - (now - kept[0]) < 1 {
        1
    } else {
        60 - (now - kept[0])
    }
}

/// `retry_after` as the 429 carries it: at most `i64::MAX`.
pub open spec fn retry_after_secs(kept: Seq<i64>, now: i64) -> i64 {
    if retry_after(kept, now) > i64::MAX {
        i64::MAX
    } else {
        retry_after(kept, now) as i64
    }
}

/// The outcome of an attempt at `now` on bucket `b` with `limit` per
/// minute: `None` (allowed, recorded) or the retry-after of a refusal.
/// A limit of 0 refuses everything.
pub open spec fn attempt_refused(b: Seq<i64>, now: i64, limit: u32) -> bool {
    limit == 0 || in_window(b, now).len() >= limit
}

/// An attempt on `key` at `now` with `limit` per minute took the buckets
/// from `before` to `after` and answered `r`: the key's bucket is the one
/// after the attempt, and `r` refuses exactly when the window is full.
pub open spec fn attempt_at(
    before: Map<Seq<char>, Seq<i64>>,
    after: Map<Seq<char>, Seq<i64>>,
    key: Seq<char>,
    limit: u32,
    now: i64,
    r: Result<(), ApiError>,
) -> bool {
    let b = if before.contains_key(key) {
        before[key]
    } else {
        Seq::empty()
    };
    &&& after == before.insert(key, bucket_after(b, now, limit))
    &&& !attempt_refused(b, now, limit) ==> r is Ok
    &&& attempt_refused(b, now, limit) ==> (r matches Err(e) && e.code == ErrorCode::RateLimited && e.message@
        == "rate limit exceeded"@ && e.retry_after_secs == Some(retry_after_secs(in_window(b, now), now) as u64)
        && e.details@ == retry_details(retry_after_secs(in_window(b, now), now)))
}

/// The details of a 429 refusal: the retry-after in seconds.
pub open spec fn retry_details(retry: i64) -> JsonV {
    JsonV::Object(seq![("retry_after"@, JsonV::Number(NumV::PosInt(retry as u64)))])
}

/// The bucket after an attempt: expired attempts dropped, and the attempt
/// recorded when allowed.
pub open spec fn bucket_after(b: Seq<i64>, now: i64, limit: u32) -> Seq<i64> {
    if limit == 0 {
        b
    } else if in_window(b, now).len() >= limit {
        in_window(b, now)
    } else {
        in_window(b, now).push(now)
    }
}

/// Expired attempts dropped: the in-window attempts of `b`.
pub fn retain_window(b: &Vec<i64>, now: i64) -> (k: Vec<i64>)
    ensures
        k@ == in_window(b@, now),
{
    let mut k: Vec<i64> = Vec::new();
    let mut i: usize = 0;
    while i < b.len()
        invariant
            i <= b@.len(),
            k@ == in_window(b@.take(i as int), now),
        decreases b@.len() - i,
    {
        assert(b@.take(i + 1).drop_last() =~= b@.take(i as int));
        let t = b[i];
        if (now as i128) - (t as i128) < 60 {
            k.push(t);
        }
        i = i + 1;
    }
    assert(b@.take(b@.len() as int) =~= b@);
    k
}

/// The 429 refusal with its retry-after (also in `details.retry_after`).
pub fn rate_limited(retry: i64) -> (e: ApiError)
    requires
        retry >= 1,
    ensures
        e.code == ErrorCode::RateLimited,
        e.message@ == "rate limit exceeded"@,
        e.request_id@ == Seq::<char>::empty(),
        e.details@ == retry_details(retry),
        e.retry_after_secs == Some(retry as u64),
{
    let mut es: Vec<(String, Json)> = Vec::new();
    es.push((own("retry_after"), Json::Number(JsonNumber::PosInt(retry as u64))));
    let details = Json::Object(es);
    proof {
        crate::json::lemma_object_view(details);
        assert(crate::json::entries_view(es@) =~= seq![("retry_after"@, JsonV::Number(NumV::PosInt(retry as u64)))]);
    }
    ApiError {
        code: ErrorCode::RateLimited,
        message: own("rate limit exceeded"),
        request_id: String::new(),
        details,
        retry_after_secs: Some(retry as u64),
    }
}

#[derive(Debug)]
/// In-memory sliding-window rate limiter.
pub struct RateLimiter {
    buckets: Buckets,
}

impl RateLimiter {
    /// The attempts recorded per key.
    pub closed spec fn buckets(&self) -> Map<Seq<char>, Seq<i64>> {
        bucket_map(self.buckets)
    }

    /// The recorded attempts of `key`.
    pub open spec fn bucket(&self, key: Seq<char>) -> Seq<i64> {
        if self.buckets().contains_key(key) {
            self.buckets()[key]
        } else {
            Seq::empty()
        }
    }

    pub fn new() -> (r: RateLimiter)
        ensures
            r.buckets() == no_buckets(),
    {
        RateLimiter { buckets: new_buckets() }
    }

    /// Check and record an attempt on `key` at `now` (Unix seconds).
    pub fn check_at(&mut self, key: &str, limit_per_minute: u32, now: i64) -> (r: Result<(), ApiError>)
        ensures
            limit_per_minute == 0 ==> (r matches Err(e) && e.code == ErrorCode::RateLimited && e.message@
                == "rate limit disabled by policy"@ && final(self).buckets() == old(self).buckets()),
            limit_per_minute > 0 ==> final(self).buckets() == old(self).buckets().insert(
                key@,
                bucket_after(old(self).bucket(key@), now, limit_per_minute),
            ),
            limit_per_minute > 0 && !attempt_refused(old(self).bucket(key@), now, limit_per_minute) ==> r is Ok,
            limit_per_minute > 0 && attempt_refused(old(self).bucket(key@), now, limit_per_minute) ==> (r matches Err(
                e,
            ) && e.code == ErrorCode::RateLimited && e.message@ == "rate limit exceeded"@ && e.retry_after_secs
                == Some(retry_after_secs(in_window(old(self).bucket(key@), now), now) as u64) && e.details@
                == retry_details(retry_after_secs(in_window(old(self).bucket(key@), now), now))),
    {
        if limit_per_minute == 0 {
            return Err(ApiError::new(ErrorCode::RateLimited, "rate limit disabled by policy"));
        }
        let old_bucket = match bucket_of(&self.buckets, key) {
            Some(b) => b,
            None => Vec::new(),
        };
        let mut kept = retain_window(&old_bucket, now);
        if kept.len() >= limit_per_minute as usize {
            let retry: i128 = if kept.len() == 0 {
                60
            } else {
                let r = 60 - ((now as i128) - (kept[0] as i128));
                if r < 1 {
                    1
                } else {
                    r
                }
            };
            let retry64: i64 = if retry > i64::MAX as i128 {
                i64::MAX
            } else {
                retry as i64
            };
            store_bucket(&mut self.buckets, key, kept);
            return Err(rate_limited(retry64));
        }
        kept.push(now);
        store_bucket(&mut self.buckets, key, kept);
        Ok(())
    }

    /// Check and record an attempt on `key` now: `check_at` at the instant
    /// the clock reports.
    pub fn check(&mut self, key: &str, limit_per_minute: u32) -> (r: Result<(), ApiError>)
        ensures
            limit_per_minute == 0 ==> (r matches Err(e) && e.code == ErrorCode::RateLimited && e.message@
                == "rate limit disabled by policy"@ && final(self).buckets() == old(self).buckets()),
            limit_per_minute > 0 ==> exists|now: i64|
                now >= 0 && #[trigger] attempt_at(
                    old(self).buckets(),
                    final(self).buckets(),
                    key@,
                    limit_per_minute,
                    now,
                    r,
                ),
            forall|k: Seq<char>| k != key@ ==> #[trigger] final(self).bucket(k) == old(self).bucket(k),
    {
        let now = crate::clock::now_unix_secs();
        let r = self.check_at(key, limit_per_minute, now);
        proof {
            if limit_per_minute > 0 {
                assert(attempt_at(old(self).buckets(), self.buckets(), key@, limit_per_minute, now, r));
            }
        }
        r
    }
}

/// Refused attempts are not recorded, and at most `limit` attempts fall in
/// any bucket's window after an allowed one.
pub proof fn lemma_window_bound(b: Seq<i64>, now: i64, limit: u32)
    requires
        limit > 0,
    ensures
        !attempt_refused(b, now, limit) ==> bucket_after(b, now, limit).len() <= limit,
        attempt_refused(b, now, limit) ==> bucket_after(b, now, limit) == in_window(b, now),
{
}

/// Attempts on one key never touch another key's bucket.
pub proof fn lemma_keys_independent(m: Map<Seq<char>, Seq<i64>>, key: Seq<char>, other: Seq<char>, nb: Seq<i64>)
    requires
        other != key,
    ensures
        m.insert(key, nb).contains_key(other) == m.contains_key(other),
        m.contains_key(other) ==> m.insert(key, nb)[other] == m[other],
{
}

} // verus!
