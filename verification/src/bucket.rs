//! The token bucket of a single key: refill, consumption, grace period,
//! blocking window, refund, penalty and retention, each as a total function
//! of the entry, the instant and the configuration.

use crate::config::{RateLimitConfig, UNITS_PER_TOKEN};
use crate::time::{elapsed_seconds, instant_after, whole_seconds, Timestamp};
use crate::types::RateLimitEntry;
use vstd::prelude::*;

verus! {

impl RateLimitEntry {
    /// A block is in force at `now`: one was set and has not yet run out.
    pub open spec fn blocked_at(&self, now: Timestamp) -> bool {
        self.blocked_until matches Some(until) && now@ < until@
    }

    /// The key was first seen fewer than the grace period's whole seconds before `now`.
    pub open spec fn in_grace(&self, now: Timestamp, config: RateLimitConfig) -> bool {
        whole_seconds(now@ - self.created_at@) < config.grace_period_seconds
    }

    /// The fill at `now` once the time since the last refill is credited:
    /// never above the capacity.
    pub open spec fn refill_level(&self, now: Timestamp, config: RateLimitConfig) -> int {
        let grown = self.tokens + elapsed_seconds(now, self.last_refill)
            * config.refill_per_second();
        if grown < config.capacity() {
            grown
        } else {
            config.capacity()
        }
    }

    /// The entry after a check at `now`, and what the check answers: whether
    /// the request is allowed, whether this check began a block, and the
    /// units that remain.
    pub open spec fn after_check(&self, now: Timestamp, config: RateLimitConfig) -> (
        RateLimitEntry,
        (bool, bool, i64),
    ) {
        if self.blocked_at(now) {
            (*self, (false, false, 0i64))
        } else if self.in_grace(now, config) {
            (*self, (true, false, config.capacity() as i64))
        } else if self.refill_level(now, config) >= UNITS_PER_TOKEN {
            let left = (self.refill_level(now, config) - UNITS_PER_TOKEN) as i64;
            (RateLimitEntry { tokens: left, last_refill: now, ..*self }, (true, false, left))
        } else {
            (
                RateLimitEntry {
                    tokens: self.refill_level(now, config) as i64,
                    last_refill: now,
                    blocked_until: Some(instant_after(now, config.block_nanos())),
                    ..*self
                },
                (false, true, 0i64),
            )
        }
    }

    /// The entry after `amount` units are given back: never above the capacity.
    pub open spec fn after_refund(&self, amount: u64, config: RateLimitConfig) -> RateLimitEntry {
        RateLimitEntry {
            tokens: if self.tokens + amount < config.capacity() {
                (self.tokens + amount) as i64
            } else {
                config.capacity() as i64
            },
            ..*self
        }
    }

    /// The entry after `amount` units are taken away. The fill may fall below
    /// zero; it stops only at the least value that the field can hold.
    pub open spec fn after_penalty(&self, amount: u64) -> RateLimitEntry {
        RateLimitEntry {
            tokens: if self.tokens - amount >= i64::MIN {
                (self.tokens - amount) as i64
            } else {
                i64::MIN
            },
            ..*self
        }
    }

    /// The entry after it is emptied and blocked from `now` on.
    pub open spec fn after_block(&self, now: Timestamp, config: RateLimitConfig) -> RateLimitEntry {
        RateLimitEntry {
            tokens: 0,
            blocked_until: Some(instant_after(now, config.block_nanos())),
            ..*self
        }
    }

    /// A sweep at `now` keeps the entry: it is blocked, or it was refilled
    /// less than twice the block duration ago.
    pub open spec fn retained_at(&self, now: Timestamp, config: RateLimitConfig) -> bool {
        self.blocked_at(now) || now@ - self.last_refill@ < 2 * config.block_nanos()
    }

    /// Whether a block is in force at `now`.
    pub fn is_blocked(&self, now: Timestamp) -> (blocked: bool)
        ensures
            blocked == self.blocked_at(now),
    {
        match self.blocked_until {
            Some(until) => now.is_before(until),
            None => false,
        }
    }

    /// The fill at `now` once the time since the last refill is credited.
    fn refilled(&self, now: Timestamp, config: &RateLimitConfig) -> (level: i64)
        ensures
            level == self.refill_level(now, *config),
    {
        let capacity: i64 = config.max_tokens();
        let per_second: i64 = config.refill_rate_per_second();
        let elapsed: u128 = now.seconds_since(self.last_refill);
        if self.tokens >= capacity {
            assert(elapsed * per_second >= 0) by (nonlinear_arith)
                requires
                    elapsed >= 0,
                    per_second >= 0,
            ;
            capacity
        } else if per_second == 0 {
            assert(elapsed * per_second == 0) by (nonlinear_arith)
                requires
                    per_second == 0,
            ;
            self.tokens
        } else {
            let deficit: i128 = capacity as i128 - self.tokens as i128;
            if elapsed >= deficit as u128 {
                assert(elapsed * per_second >= deficit) by (nonlinear_arith)
                    requires
                        elapsed >= deficit,
                        per_second >= 1,
                        deficit >= 0,
                ;
                capacity
            } else {
                assert(0 <= elapsed * per_second <= deficit * per_second) by (nonlinear_arith)
                    requires
                        0 <= elapsed < deficit,
                        per_second >= 1,
                ;
                assert(deficit * per_second <= 0x1_0000_0000_0000_0000 * 0x1_0000_0000_0000)
                    by (nonlinear_arith)
                    requires
                        0 <= deficit <= 0x1_0000_0000_0000_0000,
                        0 <= per_second <= 0x1_0000_0000_0000,
                ;
                let grown: i128 = self.tokens as i128 + elapsed as i128 * per_second as i128;
                if grown < capacity as i128 {
                    grown as i64
                } else {
                    capacity
                }
            }
        }
    }

    /// Checks one request at `now`: passes it while a grace period runs,
    /// refuses it while a block is in force, and otherwise refills the bucket
    /// and takes one token, or begins a block when less than one token is left.
    pub fn check(&mut self, now: Timestamp, config: &RateLimitConfig) -> (outcome: (bool, bool, i64))
        ensures
            (*final(self), outcome) == old(self).after_check(now, *config),
    {
        if self.is_blocked(now) {
            return (false, false, 0);
        }
        if now.within_seconds_of(self.created_at, config.grace_period_seconds) {
            return (true, false, config.max_tokens());
        }
        let level = self.refilled(now, config);
        self.last_refill = now;
        if level >= UNITS_PER_TOKEN {
            self.tokens = level - UNITS_PER_TOKEN;
            (true, false, self.tokens)
        } else {
            self.tokens = level;
            self.blocked_until = Some(now.saturating_add(config.block_duration));
            (false, true, 0)
        }
    }

    /// Gives `amount` units back, up to the capacity.
    pub fn refund(&mut self, amount: u64, config: &RateLimitConfig)
        ensures
            *final(self) == old(self).after_refund(amount, *config),
    {
        let capacity: i64 = config.max_tokens();
        let grown: i128 = self.tokens as i128 + amount as i128;
        self.tokens = if grown < capacity as i128 {
            grown as i64
        } else {
            capacity
        };
    }

    /// Takes `amount` units away, below zero if need be.
    pub fn penalize(&mut self, amount: u64)
        ensures
            *final(self) == old(self).after_penalty(amount),
    {
        let shrunk: i128 = self.tokens as i128 - amount as i128;
        self.tokens = if shrunk >= i64::MIN as i128 {
            shrunk as i64
        } else {
            i64::MIN
        };
    }

    /// Empties the bucket and blocks the key from `now` on, whatever its state.
    pub fn block(&mut self, now: Timestamp, config: &RateLimitConfig)
        ensures
            *final(self) == old(self).after_block(now, *config),
    {
        self.tokens = 0;
        self.blocked_until = Some(now.saturating_add(config.block_duration));
    }

    /// Whether a sweep at `now` keeps the entry.
    pub fn is_retained(&self, now: Timestamp, config: &RateLimitConfig) -> (kept: bool)
        ensures
            kept == self.retained_at(now, *config),
    {
        if self.is_blocked(now) {
            return true;
        }
        let block: u128 = config.block_duration.as_nanos();
        if now.is_before(self.last_refill) {
            true
        } else {
            let idle: u128 = now.nanos_since(self.last_refill);
            block > u128::MAX / 2 || idle < 2 * block
        }
    }
}

} // verus!
