use vstd::hash_map::StringHashMap;
use vstd::prelude::*;
use vstd::string::*;

use crate::relay::types::{DeliverPolicy, ReplayPolicy};
use crate::server::config::RelaySettings;
use crate::subject::stream_filter_subject;

verus! {

broadcast use vstd::hash_map::group_hash_map_axioms;

/// The shared streams, keyed by `run_id`: at most one per run, shared by all
/// the SSE clients of that run. `H` is what the caller keeps per stream (a
/// weak reference, so that the registry alone does not keep a stream alive),
/// and each entry also carries the caller's `key` for its stream (an
/// identity that no other live stream has), so that a stream going away
/// removes its own entry and never a successor's.
#[verifier::reject_recursive_types(H)]
pub struct StreamManager<H> {
    streams: StringHashMap<(usize, H)>,
}

impl<H> StreamManager<H> {
    /// The registered streams, `run_id → handle`.
    pub closed spec fn streams(&self) -> Map<Seq<char>, H> {
        Map::new(|r: Seq<char>| self.streams@.contains_key(r), |r: Seq<char>| self.streams@[r].1)
    }

    /// The key of each registered stream, `run_id → key`.
    pub closed spec fn keys(&self) -> Map<Seq<char>, usize> {
        Map::new(|r: Seq<char>| self.streams@.contains_key(r), |r: Seq<char>| self.streams@[r].0)
    }

    /// Every registered stream has its key.
    pub proof fn lemma_keys_match(&self)
        ensures
            self.keys().dom() == self.streams().dom(),
    {
        assert(self.keys().dom() =~= self.streams().dom());
    }

    /// An empty registry.
    pub fn new() -> (m: Self)
        ensures
            m.streams() == Map::<Seq<char>, H>::empty(),
            m.keys() == Map::<Seq<char>, usize>::empty(),
    {
        let m = StreamManager { streams: StringHashMap::new() };
        assert(m.streams() =~= Map::<Seq<char>, H>::empty());
        assert(m.keys() =~= Map::<Seq<char>, usize>::empty());
        m
    }

    /// The handle registered for `run_id`, if any (the fast path of
    /// get-or-create: an existing stream is reused when it is still alive).
    pub fn lookup(&self, run_id: &str) -> (r: Option<&H>)
        ensures
            match r {
                Some(h) => self.streams().contains_key(run_id@) && *h == self.streams()[run_id@],
                None => !self.streams().contains_key(run_id@),
            },
    {
        match self.streams.get(run_id) {
            Some(entry) => Some(&entry.1),
            None => None,
        }
    }

    /// Get-or-create: the stream registered for `run_id` is reused when it
    /// is still alive (`registered_alive`, which the caller finds by
    /// upgrading the registered handle); otherwise `fresh`, with its key, is
    /// registered in its place. Tells whether the registered stream was
    /// reused.
    pub fn get_or_install(&mut self, run_id: &str, registered_alive: bool, fresh_key: usize, fresh: H) -> (reused: bool)
        ensures
            reused == (old(self).streams().contains_key(run_id@) && registered_alive),
            reused ==> (final(self).streams() == old(self).streams() && final(self).keys() == old(self).keys()),
            !reused ==> (final(self).streams() == old(self).streams().insert(run_id@, fresh)
                && final(self).keys() == old(self).keys().insert(run_id@, fresh_key)),
    {
        if registered_alive && self.streams.contains_key(run_id) {
            true
        } else {
            self.install(run_id, fresh_key, fresh);
            false
        }
    }

    /// Registers a new stream for `run_id` under its key, replacing the
    /// entry that was there, if any.
    pub fn install(&mut self, run_id: &str, key: usize, handle: H)
        ensures
            final(self).streams() == old(self).streams().insert(run_id@, handle),
            final(self).keys() == old(self).keys().insert(run_id@, key),
    {
        self.streams.insert(String::from_str(run_id), (key, handle));
        assert(self.streams() =~= old(self).streams().insert(run_id@, handle));
        assert(self.keys() =~= old(self).keys().insert(run_id@, key));
    }

    /// Removes the entry of `run_id`, whatever stream it holds (on stop);
    /// tells whether there was one.
    pub fn remove(&mut self, run_id: &str) -> (existed: bool)
        ensures
            final(self).streams() == old(self).streams().remove(run_id@),
            final(self).keys() == old(self).keys().remove(run_id@),
            existed == old(self).streams().contains_key(run_id@),
    {
        let existed = self.streams.contains_key(run_id);
        self.streams.remove(run_id);
        assert(self.streams() =~= old(self).streams().remove(run_id@));
        assert(self.keys() =~= old(self).keys().remove(run_id@));
        existed
    }

    /// Removes the entry of `run_id` only when it is the stream with `key`
    /// (when that stream goes away or its pump exits); a successor registered
    /// since then stays, and so does every other run's entry. Tells whether
    /// the entry was removed.
    pub fn remove_if_current(&mut self, run_id: &str, key: usize) -> (removed: bool)
        ensures
            removed == (old(self).keys().contains_key(run_id@) && old(self).keys()[run_id@] == key),
            removed ==> (final(self).streams() == old(self).streams().remove(run_id@)
                && final(self).keys() == old(self).keys().remove(run_id@)),
            !removed ==> (final(self).streams() == old(self).streams() && final(self).keys() == old(self).keys()),
    {
        let current = match self.streams.get(run_id) {
            Some(entry) => entry.0 == key,
            None => false,
        };
        if current {
            self.remove(run_id);
        }
        current
    }

    /// Returns the number of currently registered streams.
    pub fn active_count(&self) -> (n: usize)
        ensures
            n == self.streams().len(),
    {
        assert(self.streams().dom() =~= self.streams@.dom());
        self.streams.len()
    }
}

// ── The NATS pump of a shared stream ─────────────────────────────────────────

/// The JetStream stream that log messages are read from.
pub const LOG_STREAM_NAME: &'static str = "LOGS";

/// How the ephemeral consumer of a shared stream is configured: the subject
/// filter, and the inactivity after which NATS deletes it (the idle timeout
/// plus 30 seconds); it delivers new messages only, replayed instantly.
pub struct RelayConsumerPlan {
    pub filter_subject: String,
    pub deliver_policy: DeliverPolicy,
    pub replay_policy: ReplayPolicy,
    pub inactive_threshold_secs: u64,
}

/// The consumer plan for a run.
pub fn relay_consumer_plan(run_id: &str, config: &RelaySettings) -> (p: RelayConsumerPlan)
    requires
        config.idle_timeout_secs + 30 <= u64::MAX,
    ensures
        p.filter_subject@ == "logs.*.*.*."@ + run_id@,
        p.deliver_policy == DeliverPolicy::New,
        p.replay_policy == ReplayPolicy::Instant,
        p.inactive_threshold_secs == config.idle_timeout_secs + 30,
{
    RelayConsumerPlan {
        filter_subject: stream_filter_subject(run_id),
        deliver_policy: DeliverPolicy::New,
        replay_policy: ReplayPolicy::Instant,
        inactive_threshold_secs: config.idle_timeout_secs + 30,
    }
}

/// What woke the pump of a shared stream.
pub enum RelayEvent {
    /// The stream's cancellation token fired.
    Shutdown,
    /// A NATS message arrived with this payload.
    Message(Vec<u8>),
    /// The NATS message stream yielded an error; it is transient.
    StreamError,
    /// The NATS message stream ended.
    StreamEnded,
    /// No message arrived within the idle timeout.
    IdleTimeout,
}

/// What the pump does next.
pub enum RelayAction {
    /// Leave the loop: the stream is over.
    Exit,
    /// Acknowledge the message, then broadcast its payload to the receivers.
    AckAndBroadcast(Vec<u8>),
    /// Keep pulling.
    Continue,
}

/// One step of a shared stream's pump: shutdown, the end of the NATS stream
/// and the idle timeout end it; a message is acknowledged and its payload
/// broadcast as is; a stream error is passed over.
pub fn relay_step(event: RelayEvent) -> (a: RelayAction)
    ensures
        match event {
            RelayEvent::Message(payload) => a matches RelayAction::AckAndBroadcast(p) && p@
                == payload@,
            RelayEvent::StreamError => a is Continue,
            _ => a is Exit,
        },
{
    match event {
        RelayEvent::Shutdown => RelayAction::Exit,
        RelayEvent::Message(payload) => RelayAction::AckAndBroadcast(payload),
        RelayEvent::StreamError => RelayAction::Continue,
        RelayEvent::StreamEnded => RelayAction::Exit,
        RelayEvent::IdleTimeout => RelayAction::Exit,
    }
}

} // verus!
