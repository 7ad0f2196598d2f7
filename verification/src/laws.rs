//! What holds of the token bucket and of the store over whole runs of
//! operations, proved from the definitions of the single steps.

use crate::config::{RateLimitConfig, UNITS_PER_TOKEN};
use crate::model::{
    blocked, check_outcome, checked, no_entries, penalized, refunded, swept, within_capacity,
    Entries,
};
use crate::time::{elapsed_seconds, Timestamp};
use crate::types::RateLimitEntry;
use vstd::prelude::*;

verus! {

/// The entry after one check at each of `times`, in order.
pub open spec fn after_checks(
    entry: RateLimitEntry,
    times: Seq<Timestamp>,
    config: RateLimitConfig,
) -> RateLimitEntry
    decreases times.len(),
{
    if times.len() == 0 {
        entry
    } else {
        after_checks(entry, times.drop_last(), config).after_check(times.last(), config).0
    }
}

/// What the last of the checks at `times` answers.
pub open spec fn last_outcome(
    entry: RateLimitEntry,
    times: Seq<Timestamp>,
    config: RateLimitConfig,
) -> (bool, bool, i64)
    recommends
        times.len() > 0,
{
    after_checks(entry, times.drop_last(), config).after_check(times.last(), config).1
}

/// Consumption is exact. Take a full bucket and check it `n` times, with `n`
/// at most the capacity in tokens, at instants at which it is neither blocked
/// nor in its grace period, and with no whole second between one check and
/// the next, so that nothing is refilled in between. Then every check is
/// allowed, and the bucket is left with the capacity less `n` tokens.
pub proof fn law_consumption_is_exact(
    entry: RateLimitEntry,
    times: Seq<Timestamp>,
    config: RateLimitConfig,
)
    requires
        entry.tokens == config.capacity(),
        times.len() <= config.rate_limit_per_minute,
        forall|i: int| 0 <= i < times.len() ==> !entry.blocked_at(#[trigger] times[i]),
        forall|i: int| 0 <= i < times.len() ==> !entry.in_grace(#[trigger] times[i], config),
        forall|i: int|
            1 <= i < times.len() ==> elapsed_seconds(#[trigger] times[i], times[i - 1]) == 0,
    ensures
        after_checks(entry, times, config).tokens == config.capacity() - times.len()
            * UNITS_PER_TOKEN,
        after_checks(entry, times, config).created_at == entry.created_at,
        after_checks(entry, times, config).blocked_until == entry.blocked_until,
        times.len() > 0 ==> after_checks(entry, times, config).last_refill == times.last(),
        times.len() > 0 ==> last_outcome(entry, times, config) == (
            true,
            false,
            (config.capacity() - times.len() * UNITS_PER_TOKEN) as i64,
        ),
    decreases times.len(),
{
    if times.len() > 0 {
        let earlier = times.drop_last();
        let now = times.last();
        assert forall|i: int| 1 <= i < earlier.len() implies elapsed_seconds(
            #[trigger] earlier[i],
            earlier[i - 1],
        ) == 0 by {
            assert(earlier[i] == times[i]);
            assert(earlier[i - 1] == times[i - 1]);
        }
        assert forall|i: int| 0 <= i < earlier.len() implies !entry.blocked_at(
            #[trigger] earlier[i],
        ) && !entry.in_grace(earlier[i], config) by {
            assert(earlier[i] == times[i]);
        }
        law_consumption_is_exact(entry, earlier, config);
        let before = after_checks(entry, earlier, config);
        assert(now == times[times.len() - 1]);
        assert(!before.blocked_at(now));
        assert(!before.in_grace(now, config));
        if earlier.len() > 0 {
            assert(before.last_refill == earlier.last());
            assert(earlier.last() == times[times.len() - 2]);
            assert(elapsed_seconds(now, before.last_refill) == 0);
        } else {
            assert(before == entry);
            assert(elapsed_seconds(now, before.last_refill) * config.refill_per_second() >= 0)
                by (nonlinear_arith)
                requires
                    config.refill_per_second() >= 0,
            ;
        }
        assert(before.refill_level(now, config) == before.tokens);
        assert(before.tokens >= UNITS_PER_TOKEN) by (nonlinear_arith)
            requires
                before.tokens == config.rate_limit_per_minute * UNITS_PER_TOKEN - earlier.len()
                    * UNITS_PER_TOKEN,
                earlier.len() + 1 <= config.rate_limit_per_minute,
                UNITS_PER_TOKEN == 60_000,
        ;
        assert(config.capacity() - times.len() * UNITS_PER_TOKEN == before.tokens
            - UNITS_PER_TOKEN) by (nonlinear_arith)
            requires
                before.tokens == config.capacity() - earlier.len() * UNITS_PER_TOKEN,
                times.len() == earlier.len() + 1,
        ;
    }
}

/// Grace is free. Check a key first seen at `start` at any instants within
/// the first `grace_period_seconds` seconds from `start`: every check is
/// allowed and answers with the full capacity, and the entry stays exactly
/// as it was created, so that no token is consumed.
pub proof fn law_grace_period_is_free(
    start: Timestamp,
    times: Seq<Timestamp>,
    config: RateLimitConfig,
)
    requires
        config.grace_period_seconds > 0,
        forall|i: int|
            0 <= i < times.len() ==> start@ <= (#[trigger] times[i])@ < start@
                + config.grace_period_seconds * 1_000_000_000,
    ensures
        after_checks(RateLimitEntry::created(config.capacity() as i64, start), times, config)
            == RateLimitEntry::created(config.capacity() as i64, start),
        times.len() > 0 ==> last_outcome(
            RateLimitEntry::created(config.capacity() as i64, start),
            times,
            config,
        ) == (true, false, config.capacity() as i64),
    decreases times.len(),
{
    if times.len() > 0 {
        let earlier = times.drop_last();
        assert forall|i: int| 0 <= i < earlier.len() implies start@ <= (#[trigger] earlier[i])@
            < start@ + config.grace_period_seconds * 1_000_000_000 by {
            assert(earlier[i] == times[i]);
        }
        law_grace_period_is_free(start, earlier, config);
        assert(times.last() == times[times.len() - 1]);
    }
}

/// The capacity is never exceeded. A new entry holds exactly the capacity,
/// and no check, refund, penalty or block lifts an entry above it.
pub proof fn law_entry_stays_within_capacity(
    entry: RateLimitEntry,
    now: Timestamp,
    amount: u64,
    config: RateLimitConfig,
)
    ensures
        RateLimitEntry::created(config.capacity() as i64, now).tokens == config.capacity(),
        entry.refill_level(now, config) <= config.capacity(),
        entry.after_refund(amount, config).tokens <= config.capacity(),
        entry.tokens <= config.capacity() ==> {
            &&& entry.after_check(now, config).0.tokens <= config.capacity()
            &&& entry.after_penalty(amount).tokens <= config.capacity()
            &&& entry.after_block(now, config).tokens <= config.capacity()
        },
{
}

/// Only a penalty takes a bucket below zero. An entry that holds no less
/// than nothing still does after any check, refund or block.
pub proof fn law_only_penalty_goes_below_zero(
    entry: RateLimitEntry,
    now: Timestamp,
    amount: u64,
    config: RateLimitConfig,
)
    requires
        entry.tokens >= 0,
    ensures
        entry.after_check(now, config).0.tokens >= 0,
        entry.after_refund(amount, config).tokens >= 0,
        entry.after_block(now, config).tokens >= 0,
{
    assert(elapsed_seconds(now, entry.last_refill) * config.refill_per_second() >= 0)
        by (nonlinear_arith)
        requires
            config.refill_per_second() >= 0,
    ;
}

/// The capacity is never exceeded in the store. The empty store respects it,
/// and a store that respects it still does after any check, refund, penalty,
/// block or sweep: so it holds after every run of operations.
pub proof fn law_store_stays_within_capacity(
    entries: Entries,
    key: Seq<char>,
    now: Timestamp,
    amount: u64,
    config: RateLimitConfig,
)
    requires
        within_capacity(entries, config),
    ensures
        within_capacity(no_entries(), config),
        within_capacity(checked(entries, key, now, config), config),
        within_capacity(refunded(entries, key, amount, config), config),
        within_capacity(penalized(entries, key, amount), config),
        within_capacity(blocked(entries, key, now, config), config),
        within_capacity(swept(entries, now, config), config),
{
    law_entry_stays_within_capacity(entries[key], now, amount, config);
    law_entry_stays_within_capacity(
        RateLimitEntry::created(config.capacity() as i64, now),
        now,
        amount,
        config,
    );
}

/// Keys are independent. A check, refund, penalty or block of one key leaves
/// every other key as it was: present or absent as before, with the same
/// entry, and so with the same answer to whatever is asked of it next.
pub proof fn law_keys_are_independent(
    entries: Entries,
    key: Seq<char>,
    other: Seq<char>,
    now: Timestamp,
    later: Timestamp,
    amount: u64,
    config: RateLimitConfig,
)
    requires
        key != other,
    ensures
        checked(entries, key, now, config).contains_key(other) == entries.contains_key(other),
        checked(entries, key, now, config)[other] == entries[other],
        refunded(entries, key, amount, config).contains_key(other) == entries.contains_key(other),
        refunded(entries, key, amount, config)[other] == entries[other],
        penalized(entries, key, amount).contains_key(other) == entries.contains_key(other),
        penalized(entries, key, amount)[other] == entries[other],
        blocked(entries, key, now, config).contains_key(other) == entries.contains_key(other),
        blocked(entries, key, now, config)[other] == entries[other],
        check_outcome(checked(entries, key, now, config), other, later, config) == check_outcome(
            entries,
            other,
            later,
            config,
        ),
        check_outcome(refunded(entries, key, amount, config), other, later, config)
            == check_outcome(entries, other, later, config),
        check_outcome(penalized(entries, key, amount), other, later, config) == check_outcome(
            entries,
            other,
            later,
            config,
        ),
        check_outcome(blocked(entries, key, now, config), other, later, config) == check_outcome(
            entries,
            other,
            later,
            config,
        ),
{
}

/// A sweep spares the blocked and removes the idle. An entry on which a block
/// is in force survives unchanged, however long it has been idle; an entry
/// without a block in force that was last refilled twice the block duration
/// ago or longer is removed; and a sweep neither adds nor alters an entry.
pub proof fn law_sweep_spares_blocked_and_drops_idle(
    entries: Entries,
    key: Seq<char>,
    now: Timestamp,
    config: RateLimitConfig,
)
    requires
        entries.contains_key(key),
    ensures
        entries[key].blocked_at(now) ==> swept(entries, now, config).contains_key(key),
        !entries[key].blocked_at(now) && now@ - entries[key].last_refill@ >= 2
            * config.block_nanos() ==> !swept(entries, now, config).contains_key(key),
        swept(entries, now, config).contains_key(key) ==> swept(entries, now, config)[key]
            == entries[key],
        swept(entries, now, config).dom().subset_of(entries.dom()),
{
}

/// Only a sweep removes an entry. After a check, refund, penalty or block of
/// any key, every key that had an entry still has one, first seen when it
/// was, and a block that was set is still set: it ends by the passing of
/// time alone.
pub proof fn law_entries_outlive_requests(
    entries: Entries,
    key: Seq<char>,
    known: Seq<char>,
    now: Timestamp,
    amount: u64,
    config: RateLimitConfig,
)
    requires
        entries.contains_key(known),
    ensures
        checked(entries, key, now, config).contains_key(known),
        refunded(entries, key, amount, config).contains_key(known),
        penalized(entries, key, amount).contains_key(known),
        blocked(entries, key, now, config).contains_key(known),
        checked(entries, key, now, config)[known].created_at == entries[known].created_at,
        refunded(entries, key, amount, config)[known].created_at == entries[known].created_at,
        penalized(entries, key, amount)[known].created_at == entries[known].created_at,
        blocked(entries, key, now, config)[known].created_at == entries[known].created_at,
        entries[known].blocked_until is Some ==> {
            &&& checked(entries, key, now, config)[known].blocked_until is Some
            &&& refunded(entries, key, amount, config)[known].blocked_until is Some
            &&& penalized(entries, key, amount)[known].blocked_until is Some
            &&& blocked(entries, key, now, config)[known].blocked_until is Some
        },
{
}

} // verus!
