//! The entry store: a `dashmap::DashMap` from key to entry, reached only
//! through the functions of this file. Each takes the map by `&mut` where it
//! changes it, so that no other holder can act between a read and the write
//! that follows it.

use crate::config::RateLimitConfig;
use crate::model::{no_entries, swept, Entries};
use crate::time::Timestamp;
use crate::types::RateLimitEntry;
use vstd::prelude::*;

verus! {

/// `dashmap::DashMap`, of which nothing is known but what the functions
/// below say.
#[verifier::external_type_specification]
#[verifier::external_body]
#[verifier::reject_recursive_types(K)]
#[verifier::reject_recursive_types(V)]
#[verifier::reject_recursive_types(S)]
pub struct ExDashMap<K, V, S>(dashmap::DashMap<K, V, S>);

/// The key-value pairs that a store holds, each key taken by its characters.
pub uninterp spec fn store_entries(store: dashmap::DashMap<String, RateLimitEntry>) -> Entries;

/// `DashMap::new` makes a map that holds no pair.
#[verifier::external_body]
pub(crate) fn new_store() -> (store: dashmap::DashMap<String, RateLimitEntry>)
    ensures
        store_entries(store) == no_entries(),
{
    dashmap::DashMap::new()
}

/// `DashMap::get` finds the value stored under a key, if there is one; the
/// entry is copied out and the reference into the map released.
#[verifier::external_body]
pub(crate) fn lookup(store: &dashmap::DashMap<String, RateLimitEntry>, key: &str) -> (found: Option<
    RateLimitEntry,
>)
    ensures
        found == store_entries(*store).get(key@),
{
    store.get(key).map(|entry| *entry.value())
}

/// `DashMap::insert` stores a value under a key, in place of any value that
/// was stored under it, and leaves every other pair as it was.
#[verifier::external_body]
pub(crate) fn put(
    store: &mut dashmap::DashMap<String, RateLimitEntry>,
    key: &str,
    entry: RateLimitEntry,
)
    ensures
        store_entries(*final(store)) == store_entries(*old(store)).insert(key@, entry),
{
    store.insert(key.to_string(), entry);
}

/// `DashMap::retain` keeps the pairs for which the predicate holds and
/// discards the others. The predicate here is the entry's own retention rule.
#[verifier::external_body]
pub(crate) fn sweep(
    store: &mut dashmap::DashMap<String, RateLimitEntry>,
    now: Timestamp,
    config: &RateLimitConfig,
)
    ensures
        store_entries(*final(store)) == swept(store_entries(*old(store)), now, *config),
{
    store.retain(|_, entry| entry.is_retained(now, config));
}

/// `DashMap::len` is the number of pairs stored.
#[verifier::external_body]
pub(crate) fn count(store: &dashmap::DashMap<String, RateLimitEntry>) -> (pairs: usize)
    ensures
        pairs == store_entries(*store).dom().len(),
{
    store.len()
}

/// `DashMap::iter` visits every stored pair exactly once, in no particular
/// order. The pairs are copied out: each of them is stored, each stored key
/// is among them, and no key comes twice.
#[verifier::external_body]
pub(crate) fn snapshot(store: &dashmap::DashMap<String, RateLimitEntry>) -> (pairs: Vec<
    (String, RateLimitEntry),
>)
    ensures
        forall|key: Seq<char>| #[trigger]
            store_entries(*store).contains_key(key) ==> exists|i: int|
                0 <= i < pairs@.len() && (#[trigger] pairs@[i]).0@ == key,
        forall|i: int|
            0 <= i < pairs@.len() ==> store_entries(*store).contains_pair(
                (#[trigger] pairs@[i]).0@,
                pairs@[i].1,
            ),
        forall|i: int, j: int|
            0 <= i < j < pairs@.len() ==> (#[trigger] pairs@[i]).0@ != (#[trigger] pairs@[j]).0@,
{
    store.iter().map(|pair| (pair.key().clone(), *pair.value())).collect()
}

} // verus!
