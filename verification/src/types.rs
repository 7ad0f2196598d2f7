//! The records that the limiter keeps and exchanges, and the two callback
//! capabilities that its users supply.

use crate::time::Timestamp;
use std::time::Duration;
use vstd::prelude::*;

verus! {

/// The rate-limit state of one client key.
#[derive(Clone, Copy, Debug)]
pub struct RateLimitEntry {
    /// Current fill of the bucket, in units. A penalty may drive it below zero.
    pub tokens: i64,
    /// When the bucket was last topped up.
    pub last_refill: Timestamp,
    /// When the key was first seen.
    pub created_at: Timestamp,
    /// End of the latest block, if the key was ever blocked.
    pub blocked_until: Option<Timestamp>,
}

impl RateLimitEntry {
    /// The entry of a key first seen at `now`, holding `initial_tokens` units.
    pub open spec fn created(initial_tokens: i64, now: Timestamp) -> RateLimitEntry {
        RateLimitEntry {
            tokens: initial_tokens,
            last_refill: now,
            created_at: now,
            blocked_until: None,
        }
    }

    /// The entry of a key first seen at `now`, holding `initial_tokens` units.
    pub fn at(initial_tokens: i64, now: Timestamp) -> (entry: Self)
        ensures
            entry == Self::created(initial_tokens, now),
    {
        RateLimitEntry {
            tokens: initial_tokens,
            last_refill: now,
            created_at: now,
            blocked_until: None,
        }
    }

    /// The entry of a key first seen at the instant that the system clock
    /// shows, holding `initial_tokens` units.
    pub fn new(initial_tokens: i64) -> (entry: Self)
        ensures
            entry == Self::created(initial_tokens, entry.created_at),
    {
        Self::at(initial_tokens, Timestamp::now())
    }
}

/// Who is asking: the client's address and what it calls itself.
#[derive(Clone, Debug)]
pub struct SecurityContext {
    pub ip_address: String,
    pub user_agent: String,
}

impl SecurityContext {
    pub fn new(ip_address: String, user_agent: String) -> (context: Self)
        ensures
            context.ip_address == ip_address,
            context.user_agent == user_agent,
    {
        SecurityContext { ip_address, user_agent }
    }
}

/// Told whenever a key passes into a new block. The limiter calls it after
/// the entry has been updated and makes no use of what it does.
pub trait OnBlocked: Send + Sync {
    fn on_blocked(&self, ip: &str, path: &str, context: &SecurityContext);
}

/// Asked whether a client has performed some action within a span of time
/// before now. A checker that cannot tell answers with a message.
pub trait ActionChecker: Send + Sync {
    fn check_recent_action(&self, ip: &str, action: &str, within: Duration) -> Result<bool, String>;
}

/// An observer that ignores every block.
pub struct NoOpOnBlocked;

impl OnBlocked for NoOpOnBlocked {
    fn on_blocked(&self, _ip: &str, _path: &str, _context: &SecurityContext) {
    }
}

/// A checker that has never seen any action.
pub struct NoOpActionChecker;

impl ActionChecker for NoOpActionChecker {
    fn check_recent_action(&self, _ip: &str, _action: &str, _within: Duration) -> (recent: Result<
        bool,
        String,
    >)
        ensures
            recent matches Ok(seen) && !seen,
    {
        Ok(false)
    }
}

} // verus!
