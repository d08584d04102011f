//! The sources that the dashboard reads, and the cache that stands before each
//! of them.

use vstd::prelude::*;

pub mod bors;
pub mod crater;
pub mod github;
pub mod page;
pub mod rfcbot;
pub mod rollup;

verus! {

/// How long a snapshot of a merge queue is served, in milliseconds.
pub const BORS_PERIOD: u64 = 30_000;

/// How long the batches of a merge queue are served, in milliseconds.
pub const ROLLUP_PERIOD: u64 = 60_000;

/// How long the queue of compatibility runs is served, in milliseconds.
pub const CRATER_PERIOD: u64 = 600_000;

/// How long the final comment periods are served, in milliseconds.
pub const FCP_PERIOD: u64 = 30_000;

/// How much time has passed at `now` since `then`; none if `now` is the
/// earlier of the two.
pub open spec fn elapsed(then: u64, now: u64) -> int {
    if now >= then {
        now - then
    } else {
        0
    }
}

/// Whether a value stored at `stored_at` can still be served at `now`: there
/// is one, and it is no older than `period`.
pub open spec fn fresh_at(stored_at: Option<u64>, period: u64, now: u64) -> bool {
    stored_at matches Some(then) && elapsed(then, now) <= period
}

/// How often the source is asked when the slot is used at each of `times` in
/// turn: a use that finds nothing fresh asks the source and stores what it
/// gave, at the time of that use.
pub open spec fn reloads(stored_at: Option<u64>, period: u64, times: Seq<u64>) -> nat
    decreases times.len(),
{
    if times.len() == 0 {
        0
    } else if fresh_at(stored_at, period, times[0]) {
        reloads(stored_at, period, times.drop_first())
    } else {
        1 + reloads(Some(times[0]), period, times.drop_first())
    }
}

/// One slot of a cache: the last value that its source gave, when it was
/// stored, and for how long it is served. Times are in milliseconds on a clock
/// that does not go back.
pub struct Cache<T> {
    pub last_value: Option<(T, u64)>,
    pub period: u64,
}

impl<T> Cache<T> {
    /// When the value in the slot was stored, if the slot holds one.
    pub open spec fn stored_at(&self) -> Option<u64> {
        match self.last_value {
            Some((_, then)) => Some(then),
            None => None,
        }
    }

    /// Whether the slot holds a value that can be served at `now`.
    pub open spec fn is_fresh(&self, now: u64) -> bool {
        fresh_at(self.stored_at(), self.period, now)
    }

    /// An empty slot whose values will be served for `period`.
    pub fn new(period: u64) -> (cache: Self)
        ensures
            cache.last_value is None,
            cache.period == period,
    {
        Cache { last_value: None, period }
    }

    /// The value in the slot, if it can be served at `now`. `None` asks the
    /// caller to fetch a new value and to hand it to `reload`.
    pub fn get(&self, now: u64) -> (value: Option<&T>)
        ensures
            value is Some <==> self.is_fresh(now),
            value matches Some(v) ==> self.last_value matches Some((held, _)) && *v == held,
    {
        match &self.last_value {
            Some((value, then)) => {
                let age = if now >= *then {
                    now - *then
                } else {
                    0
                };
                if age > self.period {
                    None
                } else {
                    Some(value)
                }
            },
            None => None,
        }
    }

    /// Stores `value` as fetched at `now`.
    pub fn reload(&mut self, value: T, now: u64)
        ensures
            final(self).last_value == Some((value, now)),
            final(self).period == old(self).period,
            final(self).is_fresh(now),
    {
        self.last_value = Some((value, now));
    }
}

/// Once the slot holds a value stored at `then`, no use within `period` of
/// `then` asks the source.
pub proof fn lemma_fresh_slot_is_not_reloaded(then: u64, period: u64, times: Seq<u64>)
    requires
        forall|k: int| 0 <= k < times.len() ==> elapsed(then, #[trigger] times[k]) <= period,
    ensures
        reloads(Some(then), period, times) == 0,
    decreases times.len(),
{
    if times.len() > 0 {
        let rest = times.drop_first();
        assert forall|k: int| 0 <= k < rest.len() implies elapsed(then, #[trigger] rest[k])
            <= period by {
            assert(rest[k] == times[k + 1]);
        }
        lemma_fresh_slot_is_not_reloaded(then, period, rest);
    }
}

/// Uses of a slot that holds nothing fresh ask the source once, however many
/// they are, as long as the last of them comes within `period` of the first:
/// the first use asks, and the others are served what it stored.
pub proof fn lemma_reloads_coalesce(stored_at: Option<u64>, period: u64, times: Seq<u64>)
    requires
        times.len() > 0,
        !fresh_at(stored_at, period, times[0]),
        forall|k: int| 0 <= k < times.len() ==> elapsed(times[0], #[trigger] times[k]) <= period,
    ensures
        reloads(stored_at, period, times) == 1,
{
    let rest = times.drop_first();
    assert forall|k: int| 0 <= k < rest.len() implies elapsed(times[0], #[trigger] rest[k])
        <= period by {
        assert(rest[k] == times[k + 1]);
    }
    lemma_fresh_slot_is_not_reloaded(times[0], period, rest);
}

/// Uses of a slot that holds nothing fresh, all at one instant, ask the
/// source once, however many they are and whatever the period: the first use
/// asks, and what it stored is fresh for the others.
pub proof fn lemma_simultaneous_uses_ask_once(
    stored_at: Option<u64>,
    period: u64,
    now: u64,
    uses: nat,
)
    requires
        uses > 0,
        !fresh_at(stored_at, period, now),
    ensures
        reloads(stored_at, period, Seq::new(uses, |i: int| now)) == 1,
{
    lemma_reloads_coalesce(stored_at, period, Seq::new(uses, |i: int| now));
}

} // verus!
