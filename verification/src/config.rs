//! Limiter configuration. Token amounts are integers in units of
//! `1 / UNITS_PER_TOKEN` of a token, so that refill is exact.

use crate::time::duration_nanos;
use std::time::Duration;
use vstd::prelude::*;

verus! {

/// How many units make one token. With sixty thousand units to the token, one
/// second of refill at `r` tokens per minute is exactly `1000 * r` units.
pub const UNITS_PER_TOKEN: i64 = 60_000;

/// Units that one second refills for each token per minute of the rate.
pub const UNITS_PER_SECOND_PER_RATE: i64 = 1_000;

/// The settings of a rate limiter.
#[derive(Clone, Copy, Debug)]
pub struct RateLimitConfig {
    /// Tokens granted per minute; also the capacity of a bucket, in tokens.
    pub rate_limit_per_minute: u32,
    /// How long a key stays blocked once it has run out of tokens.
    pub block_duration: Duration,
    /// Whole seconds after a key is first seen during which every check passes.
    pub grace_period_seconds: u64,
    /// Units returned to a bucket for a not-modified response.
    pub cache_refund_ratio: u64,
    /// Units taken from a bucket for a client-error or server-error response.
    pub error_penalty_tokens: u64,
}

impl RateLimitConfig {
    /// The capacity of a bucket, in units.
    pub open spec fn capacity(&self) -> int {
        self.rate_limit_per_minute * UNITS_PER_TOKEN
    }

    /// Units that one second of elapsed time refills.
    pub open spec fn refill_per_second(&self) -> int {
        self.rate_limit_per_minute * UNITS_PER_SECOND_PER_RATE
    }

    /// The length of a block, in nanoseconds.
    pub open spec fn block_nanos(&self) -> nat {
        duration_nanos(self.block_duration)
    }

    /// A configuration with the given rate and block duration and the default
    /// grace period, refund and penalty.
    pub fn new(rate_limit_per_minute: u32, block_duration: Duration) -> (config: Self)
        ensures
            config.rate_limit_per_minute == rate_limit_per_minute,
            config.block_duration == block_duration,
            config.grace_period_seconds == 1,
            config.cache_refund_ratio == UNITS_PER_TOKEN / 2,
            config.error_penalty_tokens == 2 * UNITS_PER_TOKEN,
    {
        RateLimitConfig {
            rate_limit_per_minute,
            block_duration,
            grace_period_seconds: 1,
            cache_refund_ratio: 30_000,
            error_penalty_tokens: 120_000,
        }
    }

    /// The same configuration with a grace period of `seconds`.
    pub fn with_grace_period(self, seconds: u64) -> (config: Self)
        ensures
            config == (RateLimitConfig { grace_period_seconds: seconds, ..self }),
    {
        let mut config = self;
        config.grace_period_seconds = seconds;
        config
    }

    /// The same configuration with a refund of `ratio` units, brought into the
    /// range from nothing to one whole token.
    pub fn with_cache_refund_ratio(self, ratio: i64) -> (config: Self)
        ensures
            config == (RateLimitConfig {
                cache_refund_ratio: if ratio < 0 {
                    0u64
                } else if ratio > UNITS_PER_TOKEN {
                    UNITS_PER_TOKEN as u64
                } else {
                    ratio as u64
                },
                ..self
            }),
    {
        let mut config = self;
        config.cache_refund_ratio = if ratio < 0 {
            0
        } else if ratio > UNITS_PER_TOKEN {
            UNITS_PER_TOKEN as u64
        } else {
            ratio as u64
        };
        config
    }

    /// The same configuration with a penalty of `penalty` units, or of nothing
    /// when `penalty` is negative.
    pub fn with_error_penalty(self, penalty: i64) -> (config: Self)
        ensures
            config == (RateLimitConfig {
                error_penalty_tokens: if penalty < 0 {
                    0u64
                } else {
                    penalty as u64
                },
                ..self
            }),
    {
        let mut config = self;
        config.error_penalty_tokens = if penalty < 0 {
            0
        } else {
            penalty as u64
        };
        config
    }

    /// The capacity of a bucket, in units.
    pub fn max_tokens(&self) -> (units: i64)
        ensures
            units == self.capacity(),
    {
        self.rate_limit_per_minute as i64 * UNITS_PER_TOKEN
    }

    /// Units that one second of elapsed time refills: the capacity spread
    /// evenly over the sixty seconds of a minute.
    pub fn refill_rate_per_second(&self) -> (units: i64)
        ensures
            units == self.refill_per_second(),
            60 * units == self.capacity(),
    {
        self.rate_limit_per_minute as i64 * UNITS_PER_SECOND_PER_RATE
    }
}

impl Default for RateLimitConfig {
    /// Fifty tokens per minute, a block of fifteen minutes, one second of
    /// grace, half a token of refund and two tokens of penalty.
    fn default() -> (config: Self)
        ensures
            config.rate_limit_per_minute == 50,
            config.block_nanos() == 900 * 1_000_000_000,
            config.grace_period_seconds == 1,
            config.cache_refund_ratio == UNITS_PER_TOKEN / 2,
            config.error_penalty_tokens == 2 * UNITS_PER_TOKEN,
    {
        RateLimitConfig {
            rate_limit_per_minute: 50,
            block_duration: Duration::from_secs(900),
            grace_period_seconds: 1,
            cache_refund_ratio: 30_000,
            error_penalty_tokens: 120_000,
        }
    }
}

} // verus!
