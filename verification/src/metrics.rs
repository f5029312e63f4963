//! Operational counters, exposed through a stable snapshot.

use vstd::prelude::*;
use std::sync::atomic::{AtomicU64, Ordering};
use std::sync::Arc;
use crate::json::{Json, JsonNumber, lemma_object_view};
use crate::text::own;

verus! {

#[derive(Debug)]
/// Lightweight counters for operational signals. They are bumped from many
/// tasks at once, so nothing is known of their values at any moment.
pub struct Metrics {
    pub commands_total: AtomicU64,
    pub commands_failed: AtomicU64,
    pub phira_api_errors: AtomicU64,
    pub openuds_reconnects: AtomicU64,
    pub events_forwarded: AtomicU64,
}

/// The snapshot's keys, in the order a JSON object keeps them (sorted).
pub open spec fn snapshot_keys() -> Seq<Seq<char>> {
    seq!["commands_failed"@, "commands_total"@, "events_forwarded"@, "openuds_reconnects"@, "phira_api_errors"@]
}

impl Metrics {
    /// Fresh counters, shared.
    pub fn new() -> Arc<Metrics> {
        Arc::new(
            Metrics {
                commands_total: AtomicU64::new(0),
                commands_failed: AtomicU64::new(0),
                phira_api_errors: AtomicU64::new(0),
                openuds_reconnects: AtomicU64::new(0),
                events_forwarded: AtomicU64::new(0),
            },
        )
    }

    /// Add one to `counter` (wrapping, as atomic adds do).
    pub fn incr(&self, counter: &AtomicU64) {
        let _ = counter.fetch_add(1, Ordering::Relaxed);
    }

    /// `{ commands_failed, commands_total, events_forwarded,
    /// openuds_reconnects, phira_api_errors }`, each the counter's current
    /// non-negative integer value.
    pub fn snapshot(&self) -> (r: Json)
        ensures
            r@ is Object,
            r@->Object_0.len() == 5,
            forall|i: int| 0 <= i < 5 ==> (#[trigger] r@->Object_0[i]).0 == snapshot_keys()[i] && r@->Object_0[i].1 is Number
                && r@->Object_0[i].1->Number_0 is PosInt,
    {
        let mut es: Vec<(String, Json)> = Vec::new();
        es.push((own("commands_failed"), Json::Number(JsonNumber::PosInt(self.commands_failed.load(Ordering::Relaxed)))));
        es.push((own("commands_total"), Json::Number(JsonNumber::PosInt(self.commands_total.load(Ordering::Relaxed)))));
        es.push((own("events_forwarded"), Json::Number(JsonNumber::PosInt(self.events_forwarded.load(Ordering::Relaxed)))));
        es.push((own("openuds_reconnects"), Json::Number(JsonNumber::PosInt(self.openuds_reconnects.load(Ordering::Relaxed)))));
        es.push((own("phira_api_errors"), Json::Number(JsonNumber::PosInt(self.phira_api_errors.load(Ordering::Relaxed)))));
        let r = Json::Object(es);
        proof {
            lemma_object_view(r);
        }
        r
    }
}

#[derive(Debug)]
/// Last-known PMP heartbeat counts (users, rooms, sessions), kept for the
/// periodic heartbeat event while PMP is briefly unreachable.
pub struct HeartbeatCache {
    counts: (i64, i64, i64),
}

impl HeartbeatCache {
    pub closed spec fn counts(&self) -> (i64, i64, i64) {
        self.counts
    }

    pub fn new() -> (c: HeartbeatCache)
        ensures
            c.counts() == (0i64, 0i64, 0i64),
    {
        HeartbeatCache { counts: (0, 0, 0) }
    }

    /// Record the latest counts.
    pub fn update(&mut self, users: i64, rooms: i64, sessions: i64)
        ensures
            final(self).counts() == (users, rooms, sessions),
    {
        self.counts = (users, rooms, sessions);
    }

    /// The last recorded counts.
    pub fn get(&self) -> (r: (i64, i64, i64))
        ensures
            r == self.counts(),
    {
        self.counts
    }
}

} // verus!
