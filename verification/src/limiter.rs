//! The rate limiter: one token bucket per client key, kept in the entry store.

use crate::config::RateLimitConfig;
use crate::model::{
    blocked, blocked_keys, check_outcome, checked, no_entries, penalized, refunded, swept, Entries,
};
use crate::screener::RequestScreener;
use crate::store::{count, lookup, new_store, put, snapshot, store_entries, sweep};
use crate::time::Timestamp;
use crate::types::{OnBlocked, RateLimitEntry, SecurityContext};
use vstd::prelude::*;

verus! {

/// A rate limiter with its entries, its configuration, the observer that it
/// tells of new blocks, and the screener of requests, if it has one.
pub struct RateLimiter<B: OnBlocked> {
    rate_limit_cache: dashmap::DashMap<String, RateLimitEntry>,
    config: RateLimitConfig,
    on_blocked: B,
    screener: Option<RequestScreener>,
}

impl<B: OnBlocked> RateLimiter<B> {
    /// The entries that the limiter holds.
    pub closed spec fn entries(&self) -> Entries {
        store_entries(self.rate_limit_cache)
    }

    /// The configuration that the limiter was made with.
    pub closed spec fn settings(&self) -> RateLimitConfig {
        self.config
    }

    /// The screener that the limiter was given, if any.
    pub closed spec fn screening(&self) -> Option<RequestScreener> {
        self.screener
    }

    /// The observer that the limiter tells of new blocks.
    pub closed spec fn observer(&self) -> B {
        self.on_blocked
    }

    /// `other` has the configuration, the observer and the screener of this
    /// limiter.
    pub open spec fn same_setup(&self, other: &Self) -> bool {
        &&& self.settings() == other.settings()
        &&& self.observer() == other.observer()
        &&& self.screening() == other.screening()
    }

    /// A limiter without entries and without a screener, which tells
    /// `on_blocked` of new blocks.
    pub fn new(config: RateLimitConfig, on_blocked: B) -> (limiter: Self)
        ensures
            limiter.entries() == no_entries(),
            limiter.settings() == config,
            limiter.observer() == on_blocked,
            limiter.screening() is None,
    {
        RateLimiter { rate_limit_cache: new_store(), config, on_blocked, screener: None }
    }

    /// The same limiter with `screener` to screen requests.
    pub fn with_screener(self, screener: RequestScreener) -> (limiter: Self)
        ensures
            limiter.entries() == self.entries(),
            limiter.settings() == self.settings(),
            limiter.observer() == self.observer(),
            limiter.screening() == Some(screener),
    {
        let mut limiter = self;
        limiter.screener = Some(screener);
        limiter
    }

    /// The screener that the limiter was given, if any.
    pub fn screener(&self) -> (screener: Option<&RequestScreener>)
        ensures
            screener matches Some(given) ==> self.screening() == Some(*given),
            screener is None ==> self.screening() is None,
    {
        self.screener.as_ref()
    }

    /// The configuration that the limiter was made with.
    pub fn config(&self) -> (config: &RateLimitConfig)
        ensures
            *config == self.settings(),
    {
        &self.config
    }

    /// Checks one request of `key` at `now`. A key not seen before gets a
    /// full bucket created at `now`. When the check begins a block, the
    /// observer is told, after the entry has been stored.
    pub fn check_at(
        &mut self,
        key: &str,
        context: &SecurityContext,
        path: &str,
        now: Timestamp,
    ) -> (outcome: (bool, bool, i64))
        ensures
            final(self).entries() == checked(old(self).entries(), key@, now, old(self).settings()),
            outcome == check_outcome(old(self).entries(), key@, now, old(self).settings()),
            final(self).same_setup(old(self)),
    {
        let mut entry = match lookup(&self.rate_limit_cache, key) {
            Some(entry) => entry,
            None => RateLimitEntry::at(self.config.max_tokens(), now),
        };
        if entry.is_blocked(now) {
            assert(self.entries() =~= checked(self.entries(), key@, now, self.settings()));
            return (false, false, 0);
        }
        let outcome = entry.check(now, &self.config);
        put(&mut self.rate_limit_cache, key, entry);
        if outcome.1 {
            self.on_blocked.on_blocked(context.ip_address.as_str(), path, context);
        }
        outcome
    }

    /// Checks one request of `key` at the instant that the system clock shows.
    pub fn check_rate_limit(&mut self, key: &str, context: &SecurityContext, path: &str) -> (outcome:
        (bool, bool, i64))
        ensures
            exists|now: Timestamp|
                final(self).entries() == #[trigger] checked(
                    old(self).entries(),
                    key@,
                    now,
                    old(self).settings(),
                ) && outcome == check_outcome(old(self).entries(), key@, now, old(self).settings()),
            final(self).same_setup(old(self)),
    {
        self.check_at(key, context, path, Timestamp::now())
    }

    /// Removes at `now` every entry that is neither blocked nor refilled
    /// within twice the block duration.
    pub fn cleanup_at(&mut self, now: Timestamp)
        ensures
            final(self).entries() == swept(old(self).entries(), now, old(self).settings()),
            final(self).same_setup(old(self)),
    {
        sweep(&mut self.rate_limit_cache, now, &self.config);
    }

    /// Sweeps at the instant that the system clock shows.
    pub fn cleanup_cache(&mut self)
        ensures
            exists|now: Timestamp|
                final(self).entries() == #[trigger] swept(
                    old(self).entries(),
                    now,
                    old(self).settings(),
                ),
            final(self).same_setup(old(self)),
    {
        self.cleanup_at(Timestamp::now());
    }

    /// Gives `amount` units back to `key`, up to the capacity. An unknown key
    /// changes nothing; a block stays as it is.
    pub fn refund_tokens(&mut self, key: &str, amount: u64)
        ensures
            final(self).entries() == refunded(
                old(self).entries(),
                key@,
                amount,
                old(self).settings(),
            ),
            final(self).same_setup(old(self)),
    {
        match lookup(&self.rate_limit_cache, key) {
            Some(found) => {
                let mut entry = found;
                entry.refund(amount, &self.config);
                put(&mut self.rate_limit_cache, key, entry);
            },
            None => {},
        }
    }

    /// Takes `amount` units from `key`, below zero if need be. An unknown key
    /// changes nothing.
    pub fn consume_additional_tokens(&mut self, key: &str, amount: u64)
        ensures
            final(self).entries() == penalized(old(self).entries(), key@, amount),
            final(self).same_setup(old(self)),
    {
        match lookup(&self.rate_limit_cache, key) {
            Some(found) => {
                let mut entry = found;
                entry.penalize(amount);
                put(&mut self.rate_limit_cache, key, entry);
            },
            None => {},
        }
    }

    /// Empties the bucket of `key` and blocks it from `now` on, whether or not
    /// it is known or already blocked.
    pub fn block_at(&mut self, key: &str, now: Timestamp)
        ensures
            final(self).entries() == blocked(old(self).entries(), key@, now, old(self).settings()),
            final(self).same_setup(old(self)),
    {
        let mut entry = match lookup(&self.rate_limit_cache, key) {
            Some(entry) => entry,
            None => RateLimitEntry::at(self.config.max_tokens(), now),
        };
        entry.block(now, &self.config);
        put(&mut self.rate_limit_cache, key, entry);
    }

    /// Blocks `key` from the instant that the system clock shows.
    pub fn block_immediately(&mut self, key: &str)
        ensures
            exists|now: Timestamp|
                final(self).entries() == #[trigger] blocked(
                    old(self).entries(),
                    key@,
                    now,
                    old(self).settings(),
                ),
            final(self).same_setup(old(self)),
    {
        self.block_at(key, Timestamp::now());
    }

    /// How many entries the limiter holds.
    pub fn cache_size(&self) -> (size: usize)
        ensures
            size == self.entries().dom().len(),
    {
        count(&self.rate_limit_cache)
    }

    /// On how many entries a block is in force at `now`.
    pub fn blocked_count_at(&self, now: Timestamp) -> (blocked_count: usize)
        ensures
            self.entries().dom().finite(),
            blocked_count == blocked_keys(self.entries(), now).len(),
            blocked_count <= self.entries().dom().len(),
    {
        let pairs = snapshot(&self.rate_limit_cache);
        let ghost entries = self.entries();
        let ghost in_force = |key: Seq<char>| entries[key].blocked_at(now);
        let ghost mut seen: Set<Seq<char>> = Set::empty();
        let mut blocked_count: usize = 0;
        let mut i: usize = 0;
        assert(seen.filter(in_force) =~= Set::empty());
        while i < pairs.len()
            invariant
                0 <= i <= pairs@.len(),
                entries == store_entries(self.rate_limit_cache),
                in_force == |key: Seq<char>| entries[key].blocked_at(now),
                forall|j: int|
                    0 <= j < pairs@.len() ==> entries.contains_pair(
                        (#[trigger] pairs@[j]).0@,
                        pairs@[j].1,
                    ),
                forall|j: int, k: int|
                    0 <= j < k < pairs@.len() ==> (#[trigger] pairs@[j]).0@ != (
                    #[trigger] pairs@[k]).0@,
                seen.finite(),
                seen.len() == i,
                forall|key: Seq<char>| #[trigger]
                    seen.contains(key) <==> exists|j: int|
                        0 <= j < i && (#[trigger] pairs@[j]).0@ == key,
                blocked_count == seen.filter(in_force).len(),
                blocked_count <= i,
            decreases pairs@.len() - i,
        {
            let ghost key = pairs@[i as int].0@;
            proof {
                assert(!seen.contains(key));
                assert(entries.contains_pair(key, pairs@[i as int].1));
                seen.lemma_len_filter(in_force);
                if in_force(key) {
                    assert(seen.insert(key).filter(in_force) =~= seen.filter(in_force).insert(key));
                } else {
                    assert(seen.insert(key).filter(in_force) =~= seen.filter(in_force));
                }
            }
            if pairs[i].1.is_blocked(now) {
                blocked_count = blocked_count + 1;
            }
            proof {
                seen = seen.insert(key);
            }
            i = i + 1;
        }
        proof {
            assert(seen =~= entries.dom());
        }
        blocked_count
    }

    /// On how many entries a block is in force at the instant that the
    /// system clock shows.
    pub fn blocked_count(&self) -> (blocked_count: usize)
        ensures
            self.entries().dom().finite(),
            exists|now: Timestamp|
                blocked_count == #[trigger] blocked_keys(self.entries(), now).len(),
    {
        self.blocked_count_at(Timestamp::now())
    }

    /// How many entries the limiter holds, and on how many of them a block is
    /// in force at `now`.
    pub fn stats_at(&self, now: Timestamp) -> (stats: (usize, usize))
        ensures
            self.entries().dom().finite(),
            stats.0 == self.entries().dom().len(),
            stats.1 == blocked_keys(self.entries(), now).len(),
    {
        (self.cache_size(), self.blocked_count_at(now))
    }

    /// How many entries the limiter holds, and on how many of them a block is
    /// in force at the instant that the system clock shows.
    pub fn get_cache_stats(&self) -> (stats: (usize, usize))
        ensures
            self.entries().dom().finite(),
            stats.0 == self.entries().dom().len(),
            exists|now: Timestamp| stats.1 == #[trigger] blocked_keys(self.entries(), now).len(),
    {
        self.stats_at(Timestamp::now())
    }
}

} // verus!
