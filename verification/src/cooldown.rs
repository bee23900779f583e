use crate::COOLDOWN_WINDOW_MILLIS;
use std::collections::HashMap;
use vstd::prelude::*;

verus! {

broadcast use vstd::std_specs::hash::group_hash_axioms;

/// Whether, under the cooldown table `m`, a message on `channel_id` at `now`
/// falls inside the throttle window: an entry exists and lies less than
/// `COOLDOWN_WINDOW_MILLIS` before `now`.
pub open spec fn throttled_in(m: Map<u64, i64>, channel_id: u64, now: i64) -> bool {
    m.contains_key(channel_id) && now - m[channel_id] < COOLDOWN_WINDOW_MILLIS
}

/// The process-wide soft rate limit: for each channel with recent activity,
/// the timestamp (milliseconds) of the last message that counted as activity.
/// Transient by design — it is never persisted.
pub struct CooldownTracker {
    entries: HashMap<u64, i64>,
}

impl View for CooldownTracker {
    type V = Map<u64, i64>;

    closed spec fn view(&self) -> Map<u64, i64> {
        self.entries@
    }
}

impl CooldownTracker {
    /// A tracker that has seen no activity.
    pub fn new() -> (t: CooldownTracker)
        ensures
            t@ == Map::<u64, i64>::empty(),
    {
        CooldownTracker { entries: HashMap::new() }
    }

    /// True exactly when a prior entry exists for the channel and `now` lies
    /// inside the throttle window after it. The subtraction is widened so no
    /// pair of timestamps can overflow it.
    pub fn is_throttled(&self, channel_id: u64, now: i64) -> (r: bool)
        ensures
            r == throttled_in(self@, channel_id, now),
    {
        match self.entries.get(&channel_id) {
            Some(last) => (now as i128) - (*last as i128) < COOLDOWN_WINDOW_MILLIS as i128,
            None => false,
        }
    }

    /// Inserts or overwrites the channel's entry with `now`.
    pub fn record(&mut self, channel_id: u64, now: i64)
        ensures
            final(self)@ == old(self)@.insert(channel_id, now),
    {
        self.entries.insert(channel_id, now);
    }
}

} // verus!
