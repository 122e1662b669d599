//! Rolling statistics over the observed message stream: a bounded FIFO
//! message log, insertion-ordered dedup sets for topics, roles, ids and
//! plug names, a monotonic message counter, and a throughput sampler.
//!
//! Every observed message produces exactly one log entry: an undecodable
//! body is logged under a marker string and still counted, and a malformed
//! topic is filed under `unknown` — aggregation never fails.

use vstd::prelude::*;

use crate::agent::TetherAgent;
use crate::codec::{decode_payload_json, json_repr_of, payload_decodes};
use crate::message_log::{
    log_entries, log_len, log_new, log_push, log_to_vec, MONITOR_LOG_LENGTH,
};
use crate::plug::PlugDefinition;
use crate::text::{contains_sub, str_contains, str_eq};
use crate::topic::{parse_agent_id, parse_agent_role, parse_part, parse_plug_name};

verus! {

/// Length of the rolling window of throughput samples.
pub const SAMPLER_WINDOW: usize = 64;

/// Whether `v` occurs in `l`.
pub open spec fn contains_view(l: Seq<Seq<char>>, v: Seq<char>) -> bool {
    exists|i: int| 0 <= i < l.len() && l[i] == v
}

/// Insert `v` at the end unless it is already present: first seen wins,
/// insertion order is kept.
pub open spec fn add_unique(l: Seq<Seq<char>>, v: Seq<char>) -> Seq<Seq<char>> {
    if contains_view(l, v) {
        l
    } else {
        l.push(v)
    }
}

/// No value occurs twice.
pub open spec fn distinct_views(l: Seq<Seq<char>>) -> bool {
    forall|i: int, j: int| 0 <= i < j < l.len() ==> l[i] != l[j]
}

/// Inserting the same value twice leaves the list exactly as one insert
/// left it, and an insert never disturbs the values already present or
/// their order.
pub proof fn lemma_dedup_insert_twice(l: Seq<Seq<char>>, v: Seq<char>)
    ensures
        add_unique(add_unique(l, v), v) == add_unique(l, v),
        forall|i: int| 0 <= i < l.len() ==> add_unique(l, v)[i] == l[i],
{
    let l1 = add_unique(l, v);
    if !contains_view(l, v) {
        assert(l1[l.len() as int] == v);
        assert(contains_view(l1, v));
    }
}

/// Inserting into a list without duplicates leaves it without duplicates.
pub proof fn lemma_add_unique_distinct(l: Seq<Seq<char>>, v: Seq<char>)
    requires
        distinct_views(l),
    ensures
        distinct_views(add_unique(l, v)),
{
    if !contains_view(l, v) {
        let l2 = l.push(v);
        assert forall|i: int, j: int| 0 <= i < j < l2.len() implies l2[i] != l2[j] by {
            if j == l.len() {
                if l2[i] == v {
                    assert(l[i] == v);
                    assert(contains_view(l, v));
                }
            }
        }
    }
}

/// Push onto a log bounded by `cap`: at capacity the oldest (front) entry
/// is evicted to make room.
pub open spec fn ring_push<T>(log: Seq<T>, cap: int, e: T) -> Seq<T> {
    if log.len() < cap {
        log.push(e)
    } else {
        log.drop_first().push(e)
    }
}

/// All of `msgs` pushed in order onto `log`.
pub open spec fn push_all<T>(log: Seq<T>, msgs: Seq<T>, cap: int) -> Seq<T>
    decreases msgs.len(),
{
    if msgs.len() == 0 {
        log
    } else {
        push_all(ring_push(log, cap, msgs[0]), msgs.drop_first(), cap)
    }
}

/// A bounded log holds the suffix of everything ever pushed: the most
/// recent `cap` entries, in arrival order.
pub proof fn lemma_push_all_window<T>(log: Seq<T>, msgs: Seq<T>, cap: int)
    requires
        1 <= cap,
        log.len() <= cap,
    ensures
        log.len() + msgs.len() <= cap ==> push_all(log, msgs, cap) == log + msgs,
        log.len() + msgs.len() > cap ==> push_all(log, msgs, cap) == (log + msgs).skip(
            log.len() + msgs.len() - cap,
        ),
    decreases msgs.len(),
{
    if msgs.len() == 0 {
        assert(log + msgs =~= log);
    } else {
        let e = msgs[0];
        let rest = msgs.drop_first();
        let log2 = ring_push(log, cap, e);
        assert(log2.len() <= cap);
        lemma_push_all_window(log2, rest, cap);
        if log.len() < cap {
            assert(log2 + rest =~= log + msgs);
        } else {
            assert(log2 + rest =~= (log + msgs).skip(1));
            if log2.len() + rest.len() > cap {
                assert((log + msgs).skip(1).skip(log2.len() + rest.len() - cap) =~= (log
                    + msgs).skip(log.len() + msgs.len() - cap));
            } else {
                assert((log + msgs).skip(1) =~= (log + msgs).skip(log.len() + msgs.len() - cap));
            }
        }
    }
}

/// Pushing a stream of entries into an empty message log leaves exactly
/// the most recent `MONITOR_LOG_LENGTH` of them, oldest evicted first, in
/// arrival order; the log's length is the stream's length capped there.
/// Together with `update`'s postcondition that every call raises the
/// counter by exactly one, a fresh `Insights` fed `n` messages reads a
/// count of `n` and a log of `min(n, MONITOR_LOG_LENGTH)` entries.
pub proof fn lemma_log_eviction(msgs: Seq<(Seq<char>, Seq<char>)>)
    ensures
        msgs.len() <= MONITOR_LOG_LENGTH ==> push_all(
            Seq::<(Seq<char>, Seq<char>)>::empty(),
            msgs,
            MONITOR_LOG_LENGTH as int,
        ) == msgs,
        msgs.len() > MONITOR_LOG_LENGTH ==> push_all(
            Seq::<(Seq<char>, Seq<char>)>::empty(),
            msgs,
            MONITOR_LOG_LENGTH as int,
        ) == msgs.skip(msgs.len() - MONITOR_LOG_LENGTH),
        push_all(Seq::<(Seq<char>, Seq<char>)>::empty(), msgs, MONITOR_LOG_LENGTH as int).len()
            == if msgs.len() <= MONITOR_LOG_LENGTH {
            msgs.len()
        } else {
            MONITOR_LOG_LENGTH as nat
        },
{
    lemma_push_all_window(Seq::<(Seq<char>, Seq<char>)>::empty(), msgs, MONITOR_LOG_LENGTH as int);
    assert(Seq::<(Seq<char>, Seq<char>)>::empty() + msgs =~= msgs);
}

/// The role a topic is filed under: its first segment, or `unknown`.
pub open spec fn role_key(t: Seq<char>) -> Seq<char> {
    match parse_part(t, 0) {
        Some(s) => s,
        None => "unknown"@,
    }
}

/// The id a topic is filed under: its second segment, or `unknown`.
pub open spec fn id_key(t: Seq<char>) -> Seq<char> {
    match parse_part(t, 1) {
        Some(s) => s,
        None => "unknown"@,
    }
}

/// The plug name a topic is filed under: its third segment, or `unknown`.
pub open spec fn plug_key(t: Seq<char>) -> Seq<char> {
    match parse_part(t, 2) {
        Some(s) => s,
        None => "unknown"@,
    }
}

/// The message-log filter: keep an entry when its topic contains the
/// filter text.
pub open spec fn topic_filter_pred(filter: Seq<char>) -> spec_fn((Seq<char>, Seq<char>)) -> bool {
    |e: (Seq<char>, Seq<char>)| contains_sub(e.0, filter)
}

/// What the log records for a payload: a marker for the empty message,
/// the JSON rendering of a payload that decodes, and a marker for one
/// that does not.
pub open spec fn log_body(payload: Seq<u8>) -> Seq<char> {
    if payload.len() == 0 {
        "[EMPTY_MESSAGE]"@
    } else if payload_decodes(payload) {
        json_repr_of(payload)
    } else {
        "[DECODE_ERROR]"@
    }
}

/// Insert `item` at the end of `list` unless an equal string is already
/// present.
pub fn add_if_unique(item: &str, list: &mut Vec<String>)
    ensures
        final(list).deep_view() == add_unique(old(list).deep_view(), item@),
{
    let ghost orig = (*list).deep_view();
    let len = list.len();
    let mut i: usize = 0;
    while i < len
        invariant
            0 <= i <= len,
            len == list@.len(),
            *list == *old(list),
            orig == (*list).deep_view(),
            forall|k: int| 0 <= k < i ==> orig[k] != item@,
        decreases len - i,
    {
        if str_eq(list[i].as_str(), item) {
            proof {
                assert(orig[i as int] == list@[i as int]@);
                assert(contains_view(orig, item@));
            }
            return ;
        }
        i = i + 1;
    }
    proof {
        assert(forall|k: int| 0 <= k < orig.len() ==> orig[k] != item@);
        assert(!contains_view(orig, item@));
    }
    list.push(String::from_str(item));
    proof {
        assert((*list).deep_view() =~= orig.push(item@));
    }
}

/// The rolling throughput sampler: on each external tick it records how
/// many messages arrived since the previous tick, in a fixed-length
/// window of deltas.
pub struct RateSampler {
    pub previous_count: u64,
    pub deltas: Vec<u64>,
}

impl RateSampler {
    pub fn new() -> (r: RateSampler)
        ensures
            r.previous_count == 0,
            r.deltas@ =~= Seq::<u64>::empty(),
    {
        RateSampler { previous_count: 0, deltas: Vec::new() }
    }

    /// Record the delta since the previous sample; safe to call when no
    /// messages have arrived (the delta is then zero).
    pub fn sample(&mut self, current: u64)
        requires
            old(self).previous_count <= current,
            old(self).deltas@.len() <= SAMPLER_WINDOW,
        ensures
            final(self).previous_count == current,
            final(self).deltas@ == ring_push(
                old(self).deltas@,
                SAMPLER_WINDOW as int,
                (current - old(self).previous_count) as u64,
            ),
            final(self).deltas@.len() <= SAMPLER_WINDOW,
    {
        let delta = current - self.previous_count;
        if self.deltas.len() >= SAMPLER_WINDOW {
            self.deltas.remove(0);
            proof {
                assert(self.deltas@ =~= old(self).deltas@.drop_first());
            }
        }
        self.deltas.push(delta);
        self.previous_count = current;
    }
}

/// The statistics over observed traffic. Created fresh on each successful
/// connection (binding a catch-all monitor plug), discarded whole on
/// reconnect; nothing persists across connection cycles.
pub struct Insights {
    pub topics: Vec<String>,
    pub roles: Vec<String>,
    pub ids: Vec<String>,
    pub plugs: Vec<String>,
    pub message_log: circular_buffer::FixedCircularBuffer<(String, String), MONITOR_LOG_LENGTH>,
    pub message_count: u64,
    pub sampler: RateSampler,
    pub monitor_plug: Option<PlugDefinition>,
}

impl Insights {
    /// The structural invariant: the log never exceeds its capacity, the
    /// sampler never runs ahead of the counter, and the dedup lists hold
    /// no duplicates.
    pub open spec fn wf(self) -> bool {
        &&& log_entries(self.message_log).len() <= MONITOR_LOG_LENGTH
        &&& self.sampler.previous_count <= self.message_count
        &&& self.sampler.deltas@.len() <= SAMPLER_WINDOW
        &&& distinct_views(self.topics.deep_view())
        &&& distinct_views(self.roles.deep_view())
        &&& distinct_views(self.ids.deep_view())
        &&& distinct_views(self.plugs.deep_view())
    }

    /// Create empty statistics and register one catch-all input plug that
    /// subscribes to `topic` (typically `#`). When the agent is not yet
    /// connected, registration is skipped without error and the stats
    /// simply stay empty until messages are fed in after a connection.
    pub fn new(agent: &mut TetherAgent, topic: &str) -> (r: Insights)
        ensures
            r.wf(),
            r.message_count == 0,
            r.topics@.len() == 0,
            r.roles@.len() == 0,
            r.ids@.len() == 0,
            r.plugs@.len() == 0,
            log_entries(r.message_log).len() == 0,
            r.sampler.previous_count == 0,
            r.sampler.deltas@.len() == 0,
            old(agent).is_connected_spec() ==> {
                &&& r.monitor_plug matches Some(p)
                &&& p.topic_view() == topic@
                &&& final(agent).subscriptions.deep_view() == old(
                    agent,
                ).subscriptions.deep_view().push(topic@)
                &&& final(agent).same_but_subscriptions(*old(agent))
            },
            !old(agent).is_connected_spec() ==> r.monitor_plug is None && *final(agent) == *old(
                agent,
            ),
    {
        let monitor_plug = if agent.is_connected() {
            match agent.create_input_plug("monitor", None, Some(topic)) {
                Ok(p) => Some(p),
                Err(_) => None,
            }
        } else {
            None
        };
        Insights {
            topics: Vec::new(),
            roles: Vec::new(),
            ids: Vec::new(),
            plugs: Vec::new(),
            message_log: log_new(),
            message_count: 0,
            sampler: RateSampler::new(),
            monitor_plug,
        }
    }

    /// Fold one observed message into the statistics: count it, log its
    /// topic with the decoded body (or a marker), and file its topic,
    /// role, id and plug name into the dedup lists, the last three under
    /// `unknown` when the topic does not follow the convention.
    pub fn update(&mut self, topic: &str, payload: &[u8])
        requires
            old(self).wf(),
            old(self).message_count < u64::MAX,
        ensures
            final(self).wf(),
            final(self).message_count == old(self).message_count + 1,
            log_entries(final(self).message_log) == ring_push(
                log_entries(old(self).message_log),
                MONITOR_LOG_LENGTH as int,
                (topic@, log_body(payload@)),
            ),
            final(self).topics.deep_view() == add_unique(old(self).topics.deep_view(), topic@),
            final(self).roles.deep_view() == add_unique(
                old(self).roles.deep_view(),
                role_key(topic@),
            ),
            final(self).ids.deep_view() == add_unique(old(self).ids.deep_view(), id_key(topic@)),
            final(self).plugs.deep_view() == add_unique(
                old(self).plugs.deep_view(),
                plug_key(topic@),
            ),
            final(self).sampler == old(self).sampler,
            final(self).monitor_plug == old(self).monitor_plug,
    {
        self.message_count = self.message_count + 1;

        let body: String = if payload.len() == 0 {
            String::from_str("[EMPTY_MESSAGE]")
        } else {
            match decode_payload_json(payload) {
                Some(json) => json,
                None => String::from_str("[DECODE_ERROR]"),
            }
        };
        log_push(&mut self.message_log, (String::from_str(topic), body));

        add_if_unique(topic, &mut self.topics);
        match parse_agent_role(topic) {
            Some(role) => add_if_unique(role.as_str(), &mut self.roles),
            None => add_if_unique("unknown", &mut self.roles),
        }
        match parse_agent_id(topic) {
            Some(id) => add_if_unique(id.as_str(), &mut self.ids),
            None => add_if_unique("unknown", &mut self.ids),
        }
        match parse_plug_name(topic) {
            Some(plug) => add_if_unique(plug.as_str(), &mut self.plugs),
            None => add_if_unique("unknown", &mut self.plugs),
        }
        proof {
            lemma_add_unique_distinct(old(self).topics.deep_view(), topic@);
            lemma_add_unique_distinct(old(self).roles.deep_view(), role_key(topic@));
            lemma_add_unique_distinct(old(self).ids.deep_view(), id_key(topic@));
            lemma_add_unique_distinct(old(self).plugs.deep_view(), plug_key(topic@));
        }
    }

    /// Record a throughput sample; driven on a fixed external cadence,
    /// independent of message arrival.
    pub fn sample(&mut self)
        requires
            old(self).wf(),
        ensures
            final(self).wf(),
            final(self).sampler.previous_count == old(self).message_count,
            final(self).sampler.deltas@ == ring_push(
                old(self).sampler.deltas@,
                SAMPLER_WINDOW as int,
                (old(self).message_count - old(self).sampler.previous_count) as u64,
            ),
            final(self).message_count == old(self).message_count,
            final(self).topics == old(self).topics,
            final(self).roles == old(self).roles,
            final(self).ids == old(self).ids,
            final(self).plugs == old(self).plugs,
            final(self).message_log == old(self).message_log,
            final(self).monitor_plug == old(self).monitor_plug,
    {
        let current = self.message_count;
        self.sampler.sample(current);
    }

    pub fn topics(&self) -> (r: &Vec<String>)
        ensures
            r == &self.topics,
    {
        &self.topics
    }

    pub fn roles(&self) -> (r: &Vec<String>)
        ensures
            r == &self.roles,
    {
        &self.roles
    }

    pub fn ids(&self) -> (r: &Vec<String>)
        ensures
            r == &self.ids,
    {
        &self.ids
    }

    pub fn plugs(&self) -> (r: &Vec<String>)
        ensures
            r == &self.plugs,
    {
        &self.plugs
    }

    /// The log's entries, oldest first, as an owned snapshot.
    pub fn message_log(&self) -> (r: Vec<(String, String)>)
        ensures
            r.deep_view() == log_entries(self.message_log),
    {
        log_to_vec(&self.message_log)
    }

    /// The log entries whose topic contains the filter text, oldest
    /// first: the view the message-log panel shows. An empty filter
    /// keeps everything.
    pub fn message_log_filtered(&self, filter: &str) -> (r: Vec<(String, String)>)
        ensures
            r.deep_view() == log_entries(self.message_log).filter(topic_filter_pred(filter@)),
    {
        let ghost all = log_entries(self.message_log);
        let ghost pred = topic_filter_pred(filter@);
        let entries = log_to_vec(&self.message_log);
        let mut out: Vec<(String, String)> = Vec::new();
        let len = entries.len();
        let mut i: usize = 0;
        proof {
            assert(all.take(0) =~= Seq::<(Seq<char>, Seq<char>)>::empty());
            assert(out.deep_view() =~= all.take(0).filter(pred));
        }
        while i < len
            invariant
                0 <= i <= len,
                len == entries@.len(),
                all == log_entries(self.message_log),
                pred == topic_filter_pred(filter@),
                entries.deep_view() == all,
                out.deep_view() == all.take(i as int).filter(pred),
            decreases len - i,
        {
            let ghost out_before = out.deep_view();
            let keep = str_contains(entries[i].0.as_str(), filter);
            proof {
                let e0 = entries@[i as int].0@;
                let e1 = entries@[i as int].1@;
                assert(entries.deep_view()[i as int] == (e0, e1));
                assert(all[i as int] == (e0, e1));
                assert(keep == pred(all[i as int]));
            }
            if keep {
                out.push((entries[i].0.clone(), entries[i].1.clone()));
            }
            proof {
                let prefix = all.take(i as int);
                let taken = all.take(i as int + 1);
                assert(prefix.push(all[i as int]) =~= taken);
                prefix.lemma_filter_push(all[i as int], pred);
                if keep {
                    assert(out.deep_view() =~= out_before.push(all[i as int]));
                } else {
                    assert(out.deep_view() == out_before);
                }
                assert(out.deep_view() == taken.filter(pred));
            }
            i = i + 1;
        }
        proof {
            assert(all.take(len as int) =~= all);
        }
        out
    }

    /// How many entries the log holds.
    pub fn message_log_len(&self) -> (r: usize)
        ensures
            r == log_entries(self.message_log).len(),
    {
        log_len(&self.message_log)
    }

    pub fn message_count(&self) -> (r: u64)
        ensures
            r == self.message_count,
    {
        self.message_count
    }

    /// The most recent throughput delta: messages per sampling interval,
    /// or `None` before the first sample.
    pub fn rate(&self) -> (r: Option<u64>)
        ensures
            self.sampler.deltas@.len() == 0 ==> r is None,
            self.sampler.deltas@.len() > 0 ==> r == Some(
                self.sampler.deltas@[self.sampler.deltas@.len() - 1],
            ),
    {
        let len = self.sampler.deltas.len();
        if len == 0 {
            None
        } else {
            Some(self.sampler.deltas[len - 1])
        }
    }

    /// The recorded throughput deltas, oldest first.
    pub fn deltas(&self) -> (r: &Vec<u64>)
        ensures
            r == &self.sampler.deltas,
    {
        &self.sampler.deltas
    }
}

} // verus!
