//! The entry store as a mathematical map from keys to entries, and what each
//! operation of the limiter makes of it.

use crate::config::RateLimitConfig;
use crate::time::Timestamp;
use crate::types::RateLimitEntry;
use vstd::prelude::*;

verus! {

/// The entries of a store, each under the characters of its key.
pub type Entries = Map<Seq<char>, RateLimitEntry>;

/// A store without entries.
pub open spec fn no_entries() -> Entries {
    Map::empty()
}

/// The entry that an operation at `now` works on: the stored one, or for a
/// key not yet seen a full bucket created at `now`.
pub open spec fn entry_at(
    entries: Entries,
    key: Seq<char>,
    now: Timestamp,
    config: RateLimitConfig,
) -> RateLimitEntry {
    if entries.contains_key(key) {
        entries[key]
    } else {
        RateLimitEntry::created(config.capacity() as i64, now)
    }
}

/// The store after a check of `key` at `now`.
pub open spec fn checked(
    entries: Entries,
    key: Seq<char>,
    now: Timestamp,
    config: RateLimitConfig,
) -> Entries {
    entries.insert(key, entry_at(entries, key, now, config).after_check(now, config).0)
}

/// What a check of `key` at `now` answers: allowed, newly blocked, units left.
pub open spec fn check_outcome(
    entries: Entries,
    key: Seq<char>,
    now: Timestamp,
    config: RateLimitConfig,
) -> (bool, bool, i64) {
    entry_at(entries, key, now, config).after_check(now, config).1
}

/// The store after `amount` units are given back to `key`; an unknown key
/// changes nothing.
pub open spec fn refunded(
    entries: Entries,
    key: Seq<char>,
    amount: u64,
    config: RateLimitConfig,
) -> Entries {
    if entries.contains_key(key) {
        entries.insert(key, entries[key].after_refund(amount, config))
    } else {
        entries
    }
}

/// The store after `amount` units are taken from `key`; an unknown key
/// changes nothing.
pub open spec fn penalized(entries: Entries, key: Seq<char>, amount: u64) -> Entries {
    if entries.contains_key(key) {
        entries.insert(key, entries[key].after_penalty(amount))
    } else {
        entries
    }
}

/// The store after `key` is blocked at `now`, whether it was known or not.
pub open spec fn blocked(
    entries: Entries,
    key: Seq<char>,
    now: Timestamp,
    config: RateLimitConfig,
) -> Entries {
    entries.insert(key, entry_at(entries, key, now, config).after_block(now, config))
}

/// The store after a sweep at `now`: exactly the retained entries, unchanged.
pub open spec fn swept(entries: Entries, now: Timestamp, config: RateLimitConfig) -> Entries {
    Map::new(
        |key: Seq<char>| entries.contains_key(key) && entries[key].retained_at(now, config),
        |key: Seq<char>| entries[key],
    )
}

/// The keys on which a block is in force at `now`.
pub open spec fn blocked_keys(entries: Entries, now: Timestamp) -> Set<Seq<char>> {
    entries.dom().filter(|key: Seq<char>| entries[key].blocked_at(now))
}

/// No bucket holds more than the capacity.
pub open spec fn within_capacity(entries: Entries, config: RateLimitConfig) -> bool {
    forall|key: Seq<char>| #[trigger]
        entries.contains_key(key) ==> entries[key].tokens <= config.capacity()
}

} // verus!
