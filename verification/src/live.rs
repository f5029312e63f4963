//! The live gateway's per-connection logic: PMP's high-frequency stream
//! frames for one room go through a jitter buffer to a viewer's socket,
//! with `resync` and `round_switch` control messages. The socket loop
//! feeds each event to a [`LiveSession`] and sends what it hands back.

use vstd::prelude::*;
use crate::json::{Json, JsonNumber, JsonV, NumV, deep_clone, entries_view, json_string, lemma_object_view, lemma_array_view};
use crate::text::{own, str_eq};

verus! {

broadcast use vstd::std_specs::vec::axiom_vec_decreases_to_view;

#[derive(Debug)]
/// Query of the live socket.
pub struct LiveWsParams {
    /// `low_latency` (1 s) or `stable` (2 s); low latency by default.
    pub mode: Option<String>,
}

/// Jitter buffer flush cadence.
#[derive(Clone, Copy, Debug, PartialEq, Eq, Structural)]
pub enum JitterMode {
    LowLatency,
    Stable,
}

impl JitterMode {
    pub open spec fn delay_ms(self) -> u64 {
        match self {
            JitterMode::LowLatency => 1000,
            JitterMode::Stable => 2000,
        }
    }

    /// The flush interval in milliseconds.
    pub fn default_delay_ms(&self) -> (ms: u64)
        ensures
            ms == self.delay_ms(),
    {
        match self {
            JitterMode::LowLatency => 1000,
            JitterMode::Stable => 2000,
        }
    }
}

/// The mode a viewer asked for: `stable`, or low latency for anything else.
pub fn jitter_mode(params: &LiveWsParams) -> (m: JitterMode)
    ensures
        m == (if params.mode matches Some(s) && s@ == "stable"@ {
            JitterMode::Stable
        } else {
            JitterMode::LowLatency
        }),
{
    match &params.mode {
        Some(s) => if str_eq(s.as_str(), "stable") {
            JitterMode::Stable
        } else {
            JitterMode::LowLatency
        },
        None => JitterMode::LowLatency,
    }
}

#[derive(Debug)]
/// One stream frame from PMP.
pub struct StreamFrame {
    /// The room id the frame belongs to.
    pub room: Option<String>,
    /// `touches` or `judges`.
    pub stream: String,
    pub sequence: Option<u64>,
    pub round: Option<String>,
    pub user_id: i64,
    pub timestamp: Json,
    pub frames: Json,
}

pub open spec fn opt_text(s: Option<String>) -> Option<Seq<char>> {
    match s {
        Some(t) => Some(t@),
        None => None,
    }
}

/// The JSON number of an `i64`.
pub open spec fn int_json(i: i64) -> JsonV {
    if i >= 0 {
        JsonV::Number(NumV::PosInt(i as u64))
    } else {
        JsonV::Number(NumV::NegInt(i))
    }
}

/// `{"reason":"sequence_gap","expected":…,"stream":…,"type":"resync"}`
/// (object members in key order).
pub open spec fn gap_resync(stream: Seq<char>, expected: u64) -> JsonV {
    JsonV::Object(
        seq![
            ("expected"@, JsonV::Number(NumV::PosInt(expected))),
            ("reason"@, JsonV::Str("sequence_gap"@)),
            ("stream"@, JsonV::Str(stream)),
            ("type"@, JsonV::Str("resync"@)),
        ],
    )
}

/// `{"round":…,"type":"round_switch"}`.
pub open spec fn round_switch(round: Seq<char>) -> JsonV {
    JsonV::Object(seq![("round"@, JsonV::Str(round)), ("type"@, JsonV::Str("round_switch"@))])
}

/// `{"reason":"lagged","type":"resync"}`.
pub open spec fn lagged_resync() -> JsonV {
    JsonV::Object(seq![("reason"@, JsonV::Str("lagged"@)), ("type"@, JsonV::Str("resync"@))])
}

/// `{"type":"heartbeat"}`.
pub open spec fn heartbeat() -> JsonV {
    JsonV::Object(seq![("type"@, JsonV::Str("heartbeat"@))])
}

/// The viewer event of a frame: `judges` frames carry `judges`, all others
/// are `touches` carrying `frames`.
pub open spec fn frame_event(
    stream: Seq<char>,
    user_id: i64,
    sequence: Option<u64>,
    round: Option<Seq<char>>,
    timestamp: JsonV,
    frames: JsonV,
) -> JsonV {
    let seqv = match sequence {
        Some(s) => JsonV::Number(NumV::PosInt(s)),
        None => JsonV::Null,
    };
    let roundv = match round {
        Some(r) => JsonV::Str(r),
        None => JsonV::Null,
    };
    let tail = seq![
        ("player"@, int_json(user_id)),
        ("round"@, roundv),
        ("sequence"@, seqv),
        ("timestamp"@, timestamp),
    ];
    if stream == "judges"@ {
        JsonV::Object(seq![("judges"@, frames)] + tail + seq![("type"@, JsonV::Str("judges"@))])
    } else {
        JsonV::Object(seq![("frames"@, frames)] + tail + seq![("type"@, JsonV::Str("touches"@))])
    }
}

/// The last sequence seen on `stream`.
pub open spec fn seq_lookup(m: Seq<(Seq<char>, u64)>, stream: Seq<char>) -> Option<u64>
    decreases m.len(),
{
    if m.len() == 0 {
        None
    } else if m[0].0 == stream {
        Some(m[0].1)
    } else {
        seq_lookup(m.drop_first(), stream)
    }
}

/// Whether the player filter lets `user_id` through.
pub open spec fn admitted(players: Option<Seq<i64>>, user_id: i64) -> bool {
    match players {
        Some(p) => p.contains(user_id),
        None => true,
    }
}

#[derive(Debug)]
/// The per-connection state: the viewed room, the player filter, the
/// buffered events, the last sequence per stream and the current round.
pub struct LiveSession {
    room_id: String,
    players: Option<Vec<i64>>,
    buffer: Vec<Json>,
    last_seq: Vec<(String, u64)>,
    last_round: Option<String>,
}

/// Mathematical model of a session.
pub struct LiveState {
    pub room_id: Seq<char>,
    pub players: Option<Seq<i64>>,
    pub buffer: Seq<JsonV>,
    pub last_seq: Seq<(Seq<char>, u64)>,
    pub last_round: Option<Seq<char>>,
}

pub open spec fn seqs_view(s: Seq<(String, u64)>) -> Seq<(Seq<char>, u64)> {
    Seq::new(s.len(), |i: int| (s[i].0@, s[i].1))
}

pub open spec fn jsons_view(s: Seq<Json>) -> Seq<JsonV> {
    Seq::new(s.len(), |i: int| s[i]@)
}

impl View for LiveSession {
    type V = LiveState;

    closed spec fn view(&self) -> LiveState {
        LiveState {
            room_id: self.room_id@,
            players: match self.players {
                Some(p) => Some(p@),
                None => None,
            },
            buffer: jsons_view(self.buffer@),
            last_seq: seqs_view(self.last_seq@),
            last_round: opt_text(self.last_round),
        }
    }
}

/// The control messages a frame of the viewed room triggers, in order: a
/// `resync` when its sequence skips ahead of the last one on its stream, a
/// `round_switch` when its round is new.
pub open spec fn frame_controls(s: LiveState, f_stream: Seq<char>, f_seq: Option<u64>, f_round: Option<Seq<char>>) -> Seq<JsonV> {
    let gap = match (f_seq, seq_lookup(s.last_seq, f_stream)) {
        (Some(q), Some(p)) => if q > p + 1 {
            seq![gap_resync(f_stream, (p + 1) as u64)]
        } else {
            Seq::empty()
        },
        _ => Seq::empty(),
    };
    let switch = match f_round {
        Some(r) => if s.last_round != Some(r) {
            seq![round_switch(r)]
        } else {
            Seq::empty()
        },
        None => Seq::empty(),
    };
    gap + switch
}

impl LiveSession {
    pub fn new(room_id: &str) -> (s: LiveSession)
        ensures
            s@ == (LiveState {
                room_id: room_id@,
                players: None,
                buffer: Seq::empty(),
                last_seq: Seq::empty(),
                last_round: None,
            }),
    {
        let s = LiveSession { room_id: own(room_id), players: None, buffer: Vec::new(), last_seq: Vec::new(), last_round: None };
        assert(jsons_view(s.buffer@) =~= Seq::<JsonV>::empty());
        assert(seqs_view(s.last_seq@) =~= Seq::<(Seq<char>, u64)>::empty());
        s
    }

    fn seq_position(&self, stream: &str) -> (r: Option<usize>)
        ensures
            r matches Some(i) ==> i < self.last_seq@.len() && seq_lookup(self@.last_seq, stream@) == Some(
                self.last_seq@[i as int].1,
            ) && self.last_seq@[i as int].0@ == stream@ && forall|j: int| 0 <= j < i ==> (#[trigger] self@.last_seq[j]).0
                != stream@,
            r is None ==> seq_lookup(self@.last_seq, stream@) is None,
    {
        let ghost m = self@.last_seq;
        let mut i: usize = 0;
        assert(m.subrange(0, m.len() as int) =~= m);
        while i < self.last_seq.len()
            invariant
                i <= self.last_seq@.len(),
                m == seqs_view(self.last_seq@),
                seq_lookup(m, stream@) == seq_lookup(m.subrange(i as int, m.len() as int), stream@),
                forall|j: int| 0 <= j < i ==> (#[trigger] m[j]).0 != stream@,
            decreases self.last_seq@.len() - i,
        {
            let ghost t = m.subrange(i as int, m.len() as int);
            assert(t[0] == m[i as int]);
            if str_eq(self.last_seq[i].0.as_str(), stream) {
                return Some(i);
            }
            assert(t.drop_first() =~= m.subrange(i + 1, m.len() as int));
            i = i + 1;
        }
        None
    }

    /// A frame arrives. Frames of other rooms change nothing. Otherwise the
    /// stream's last sequence and the round are updated, the control
    /// messages to send at once are handed back, and the frame's event is
    /// buffered unless the player filter excludes its player.
    pub fn on_frame(&mut self, frame: &StreamFrame) -> (out: Vec<Json>)
        ensures
            !(frame.room matches Some(r) && r@ == old(self)@.room_id) ==> final(self)@ == old(self)@ && out@.len() == 0,
            frame.room matches Some(r) && r@ == old(self)@.room_id ==> {
                &&& jsons_view(out@) == frame_controls(old(self)@, frame.stream@, frame.sequence, opt_text(frame.round))
                &&& final(self)@.room_id == old(self)@.room_id
                &&& final(self)@.players == old(self)@.players
                &&& (frame.sequence matches Some(q) ==> seq_lookup(final(self)@.last_seq, frame.stream@) == Some(q))
                &&& (frame.sequence is Some ==> forall|s: Seq<char>|
                    s != frame.stream@ ==> #[trigger] seq_lookup(final(self)@.last_seq, s) == seq_lookup(old(self)@.last_seq, s))
                &&& (frame.sequence is None ==> final(self)@.last_seq == old(self)@.last_seq)
                &&& final(self)@.last_round == (match frame.round {
                    Some(r) => Some(r@),
                    None => old(self)@.last_round,
                })
                &&& final(self)@.buffer == (if admitted(old(self)@.players, frame.user_id) {
                    old(self)@.buffer.push(
                        frame_event(frame.stream@, frame.user_id, frame.sequence, opt_text(frame.round), frame.timestamp@, frame.frames@),
                    )
                } else {
                    old(self)@.buffer
                })
            },
    {
        let mut out: Vec<Json> = Vec::new();
        let in_room = match &frame.room {
            Some(r) => str_eq(r.as_str(), self.room_id.as_str()),
            None => false,
        };
        if !in_room {
            assert(jsons_view(out@) =~= Seq::<JsonV>::empty());
            return out;
        }
        let ghost s0 = self@;
        // sequence bookkeeping
        let mut gap: Option<u64> = None;
        match frame.sequence {
            Some(q) => {
                let pos = self.seq_position(frame.stream.as_str());
                match pos {
                    Some(i) => {
                        let p = self.last_seq[i].1;
                        self.last_seq.set(i, (own(frame.stream.as_str()), q));
                        if p < u64::MAX && q > p + 1 {
                            gap = Some(p + 1);
                        }
                        proof {
                            assert(seqs_view(self.last_seq@) =~= s0.last_seq.update(i as int, (frame.stream@, q)));
                            lemma_seq_lookup_update(s0.last_seq, i as int, frame.stream@, q);
                            assert forall|st: Seq<char>| st != frame.stream@ implies #[trigger] seq_lookup(
                                seqs_view(self.last_seq@),
                                st,
                            ) == seq_lookup(s0.last_seq, st) by {
                                lemma_seq_lookup_update_other(s0.last_seq, i as int, frame.stream@, q, st);
                            }
                        }
                    },
                    None => {
                        self.last_seq.push((own(frame.stream.as_str()), q));
                        proof {
                            assert(seqs_view(self.last_seq@) =~= s0.last_seq.push((frame.stream@, q)));
                            lemma_seq_lookup_push(s0.last_seq, frame.stream@, q);
                            assert forall|st: Seq<char>| st != frame.stream@ implies #[trigger] seq_lookup(
                                seqs_view(self.last_seq@),
                                st,
                            ) == seq_lookup(s0.last_seq, st) by {
                                lemma_seq_lookup_push_other(s0.last_seq, frame.stream@, q, st);
                            }
                        }
                    },
                }
            },
            None => {},
        }
        match gap {
            Some(expected) => {
                let mut es: Vec<(String, Json)> = Vec::new();
                es.push((own("expected"), Json::Number(JsonNumber::PosInt(expected))));
                es.push((own("reason"), json_string("sequence_gap")));
                es.push((own("stream"), json_string(frame.stream.as_str())));
                es.push((own("type"), json_string("resync")));
                let m = Json::Object(es);
                proof {
                    lemma_object_view(m);
                    assert(entries_view(es@) =~= gap_resync(frame.stream@, expected)->Object_0);
                }
                out.push(m);
            },
            None => {},
        }
        let ghost n_gap = out@.len();
        match &frame.round {
            Some(r) => {
                let same = match &self.last_round {
                    Some(l) => str_eq(l.as_str(), r.as_str()),
                    None => false,
                };
                if !same {
                    self.last_round = Some(own(r.as_str()));
                    let mut es: Vec<(String, Json)> = Vec::new();
                    es.push((own("round"), json_string(r.as_str())));
                    es.push((own("type"), json_string("round_switch")));
                    let m = Json::Object(es);
                    proof {
                        lemma_object_view(m);
                        assert(entries_view(es@) =~= round_switch(r@)->Object_0);
                    }
                    out.push(m);
                }
            },
            None => {},
        }
        proof {
            let gapv = match (frame.sequence, seq_lookup(s0.last_seq, frame.stream@)) {
                (Some(q), Some(p)) => if q > p + 1 {
                    seq![gap_resync(frame.stream@, (p + 1) as u64)]
                } else {
                    Seq::<JsonV>::empty()
                },
                _ => Seq::<JsonV>::empty(),
            };
            assert(jsons_view(out@).take(n_gap as int) =~= gapv);
            assert(jsons_view(out@) =~= frame_controls(s0, frame.stream@, frame.sequence, opt_text(frame.round)));
        }
        // player filter
        let let_through = match &self.players {
            Some(ps) => {
                let mut found = false;
                let mut k: usize = 0;
                while k < ps.len()
                    invariant
                        k <= ps@.len(),
                        found <==> exists|w: int| 0 <= w < k && #[trigger] ps@[w] == frame.user_id,
                    decreases ps@.len() - k,
                {
                    if ps[k] == frame.user_id {
                        found = true;
                    }
                    k = k + 1;
                }
                found
            },
            None => true,
        };
        if let_through {
            let ev = self.frame_event(frame);
            let ghost before = self@.buffer;
            self.buffer.push(ev);
            assert(jsons_view(self.buffer@) =~= before.push(ev@));
        }
        out
    }

    fn frame_event(&self, frame: &StreamFrame) -> (e: Json)
        ensures
            e@ == frame_event(frame.stream@, frame.user_id, frame.sequence, opt_text(frame.round), frame.timestamp@, frame.frames@),
    {
        let judges = str_eq(frame.stream.as_str(), "judges");
        let mut es: Vec<(String, Json)> = Vec::new();
        if judges {
            es.push((own("judges"), deep_clone(&frame.frames)));
        } else {
            es.push((own("frames"), deep_clone(&frame.frames)));
        }
        let player = if frame.user_id >= 0 {
            JsonNumber::PosInt(frame.user_id as u64)
        } else {
            JsonNumber::NegInt(frame.user_id)
        };
        es.push((own("player"), Json::Number(player)));
        let round = match &frame.round {
            Some(r) => json_string(r.as_str()),
            None => Json::Null,
        };
        es.push((own("round"), round));
        let sequence = match frame.sequence {
            Some(q) => Json::Number(JsonNumber::PosInt(q)),
            None => Json::Null,
        };
        es.push((own("sequence"), sequence));
        es.push((own("timestamp"), deep_clone(&frame.timestamp)));
        if judges {
            es.push((own("type"), json_string("judges")));
        } else {
            es.push((own("type"), json_string("touches")));
        }
        let e = Json::Object(es);
        proof {
            lemma_object_view(e);
            assert(entries_view(es@) =~= frame_event(
                frame.stream@,
                frame.user_id,
                frame.sequence,
                opt_text(frame.round),
                frame.timestamp@,
                frame.frames@,
            )->Object_0);
        }
        e
    }

    /// The stream lagged: ask the viewer to resync.
    pub fn on_lagged(&self) -> (m: Json)
        ensures
            m@ == lagged_resync(),
    {
        let mut es: Vec<(String, Json)> = Vec::new();
        es.push((own("reason"), json_string("lagged")));
        es.push((own("type"), json_string("resync")));
        let m = Json::Object(es);
        proof {
            lemma_object_view(m);
            assert(entries_view(es@) =~= lagged_resync()->Object_0);
        }
        m
    }

    /// The flush tick: every buffered event, in arrival order, then a
    /// heartbeat; the buffer is emptied.
    pub fn on_tick(&mut self) -> (out: Vec<Json>)
        ensures
            jsons_view(out@) == old(self)@.buffer.push(heartbeat()),
            final(self)@ == (LiveState { buffer: Seq::empty(), ..old(self)@ }),
    {
        let mut out: Vec<Json> = Vec::new();
        std::mem::swap(&mut out, &mut self.buffer);
        let ghost before = jsons_view(out@);
        let mut es: Vec<(String, Json)> = Vec::new();
        es.push((own("type"), json_string("heartbeat")));
        let hb = Json::Object(es);
        proof {
            lemma_object_view(hb);
            assert(entries_view(es@) =~= heartbeat()->Object_0);
        }
        out.push(hb);
        assert(jsons_view(out@) =~= before.push(heartbeat()));
        assert(jsons_view(self.buffer@) =~= Seq::<JsonV>::empty());
        out
    }

    /// A text message from the viewer, decoded as JSON: `set_players`
    /// replaces the player filter with the message's integer players (no
    /// filter when `players` is not an array); `resync` forgets every
    /// stream's last sequence. Anything else changes nothing.
    pub fn on_client_message(&mut self, msg: &Json)
        ensures
            msg@.get_str("type"@) == Some("set_players"@) ==> final(self)@ == (LiveState {
                players: match msg@.get("players"@) {
                    Some(JsonV::Array(items)) => Some(int_items(items)),
                    _ => None,
                },
                ..old(self)@
            }),
            msg@.get_str("type"@) == Some("resync"@) ==> final(self)@ == (LiveState {
                last_seq: Seq::empty(),
                ..old(self)@
            }),
            !(msg@.get_str("type"@) == Some("set_players"@) || msg@.get_str("type"@) == Some("resync"@))
                ==> final(self)@ == old(self)@,
    {
        proof {
            reveal_strlit("set_players");
            reveal_strlit("resync");
            assert("set_players"@.len() != "resync"@.len());
        }
        match msg.get_str("type") {
            Some(t) => {
                if str_eq(t, "set_players") {
                    let players = match msg.get("players") {
                        Some(Json::Array(items)) => {
                            proof {
                                lemma_array_view(Json::Array(*items));
                            }
                            Some(collect_ints(items))
                        },
                        _ => None,
                    };
                    self.players = players;
                } else if str_eq(t, "resync") {
                    self.last_seq = Vec::new();
                    assert(seqs_view(self.last_seq@) =~= Seq::<(Seq<char>, u64)>::empty());
                }
            },
            None => {},
        }
    }
}

/// The integers of a JSON array, in order (other items skipped).
pub open spec fn int_items(items: Seq<JsonV>) -> Seq<i64>
    decreases items.len(),
{
    if items.len() == 0 {
        Seq::empty()
    } else {
        let prev = int_items(items.drop_last());
        match items.last().as_i64() {
            Some(i) => prev.push(i),
            None => prev,
        }
    }
}

fn collect_ints(items: &Vec<Json>) -> (r: Vec<i64>)
    ensures
        r@ == int_items(jsons_view(items@)),
{
    let ghost iv = jsons_view(items@);
    let mut r: Vec<i64> = Vec::new();
    let mut i: usize = 0;
    while i < items.len()
        invariant
            i <= items@.len(),
            iv == jsons_view(items@),
            r@ == int_items(iv.take(i as int)),
        decreases items@.len() - i,
    {
        assert(iv.take(i + 1).drop_last() =~= iv.take(i as int));
        assert(iv.take(i + 1).last() == items@[i as int]@);
        match items[i].as_i64() {
            Some(x) => {
                r.push(x);
            },
            None => {},
        }
        i = i + 1;
    }
    assert(iv.take(items@.len() as int) =~= iv);
    r
}

proof fn lemma_seq_lookup_update(m: Seq<(Seq<char>, u64)>, i: int, stream: Seq<char>, q: u64)
    requires
        0 <= i < m.len(),
        m[i].0 == stream,
        seq_lookup(m, stream) == Some(m[i].1),
        forall|j: int| 0 <= j < i ==> (#[trigger] m[j]).0 != stream,
    ensures
        seq_lookup(m.update(i, (stream, q)), stream) == Some(q),
    decreases i,
{
    if i > 0 {
        assert(m.update(i, (stream, q)).drop_first() =~= m.drop_first().update(i - 1, (stream, q)));
        assert forall|j: int| 0 <= j < i - 1 implies (#[trigger] m.drop_first()[j]).0 != stream by {
            assert(m.drop_first()[j] == m[j + 1]);
        }
        lemma_seq_lookup_update(m.drop_first(), i - 1, stream, q);
    }
}

proof fn lemma_seq_lookup_update_other(m: Seq<(Seq<char>, u64)>, i: int, stream: Seq<char>, q: u64, other: Seq<char>)
    requires
        0 <= i < m.len(),
        m[i].0 == stream,
        other != stream,
    ensures
        seq_lookup(m.update(i, (stream, q)), other) == seq_lookup(m, other),
    decreases i,
{
    assert(m.update(i, (stream, q)).drop_first() =~= if i == 0 {
        m.drop_first()
    } else {
        m.drop_first().update(i - 1, (stream, q))
    });
    if i > 0 {
        lemma_seq_lookup_update_other(m.drop_first(), i - 1, stream, q, other);
    }
}

proof fn lemma_seq_lookup_push_other(m: Seq<(Seq<char>, u64)>, stream: Seq<char>, q: u64, other: Seq<char>)
    requires
        other != stream,
    ensures
        seq_lookup(m.push((stream, q)), other) == seq_lookup(m, other),
    decreases m.len(),
{
    if m.len() > 0 {
        assert(m.push((stream, q)).drop_first() =~= m.drop_first().push((stream, q)));
        lemma_seq_lookup_push_other(m.drop_first(), stream, q, other);
    } else {
        assert(m.push((stream, q)).drop_first() =~= Seq::<(Seq<char>, u64)>::empty());
        assert(seq_lookup(Seq::<(Seq<char>, u64)>::empty(), other) is None);
    }
}

proof fn lemma_seq_lookup_push(m: Seq<(Seq<char>, u64)>, stream: Seq<char>, q: u64)
    requires
        seq_lookup(m, stream) is None,
    ensures
        seq_lookup(m.push((stream, q)), stream) == Some(q),
    decreases m.len(),
{
    if m.len() > 0 {
        assert(m.push((stream, q)).drop_first() =~= m.drop_first().push((stream, q)));
        lemma_seq_lookup_push(m.drop_first(), stream, q);
    }
}

} // verus!
