//! The two concurrent maps of the repeat scheduler: the registry of active
//! repeat tasks and the cache of repeat decisions. Both are `DashMap`s; what
//! each holds is known to the proofs as a mathematical map.

use dashmap::DashMap;
use vstd::prelude::*;

verus! {

/// `dashmap::DashMap`, a concurrent hash map. The proofs do not look inside
/// it; they know its contents by the names below.
#[verifier::external_type_specification]
#[verifier::external_body]
#[verifier::reject_recursive_types(K)]
#[verifier::reject_recursive_types(V)]
#[verifier::reject_recursive_types(S)]
pub struct ExDashMap<K, V, S>(DashMap<K, V, S>);

/// The tasks that a task registry holds: under the hash of a key, the code of
/// that key and the modifier bits it went down with.
pub uninterp spec fn active_tasks(m: DashMap<u64, (u16, u8)>) -> Map<u64, (u16, u8)>;

/// The decisions that a decision cache holds, under the four parts of a cache
/// key in their order: key hash, modifier bits, title hash, patterns hash.
pub uninterp spec fn cached_decisions(m: DashMap<(u64, u8, u64, u64), bool>) -> Map<
    (u64, u8, u64, u64),
    bool,
>;

/// The keys of a list of registry entries, in order.
pub open spec fn entry_keys(entries: Seq<(u64, (u16, u8))>) -> Seq<u64> {
    Seq::new(entries.len(), |i: int| entries[i].0)
}

/// Calls `DashMap::new`, which creates an empty map.
#[verifier::external_body]
pub(crate) fn tasks_new() -> (m: DashMap<u64, (u16, u8)>)
    ensures
        active_tasks(m) =~= Map::empty(),
{
    DashMap::new()
}

/// Calls `DashMap::contains_key`, which checks if the map contains the key.
#[verifier::external_body]
pub(crate) fn tasks_contains(m: &DashMap<u64, (u16, u8)>, key: u64) -> (r: bool)
    ensures
        r == active_tasks(*m).contains_key(key),
{
    m.contains_key(&key)
}

/// Calls `DashMap::insert`, which puts the value under the key and returns
/// the value that was there before, if there was one.
#[verifier::external_body]
pub(crate) fn tasks_insert(m: &mut DashMap<u64, (u16, u8)>, key: u64, task: (u16, u8)) -> (prev:
    Option<(u16, u8)>)
    ensures
        active_tasks(*final(m)) == active_tasks(*old(m)).insert(key, task),
        prev == if active_tasks(*old(m)).contains_key(key) {
            Some(active_tasks(*old(m))[key])
        } else {
            None
        },
{
    m.insert(key, task)
}

/// Calls `DashMap::remove`, which takes the entry of the key out of the map
/// and returns its key and value if it was there.
#[verifier::external_body]
pub(crate) fn tasks_remove(m: &mut DashMap<u64, (u16, u8)>, key: u64) -> (removed: Option<
    (u64, (u16, u8)),
>)
    ensures
        active_tasks(*final(m)) == active_tasks(*old(m)).remove(key),
        removed == if active_tasks(*old(m)).contains_key(key) {
            Some((key, active_tasks(*old(m))[key]))
        } else {
            None
        },
{
    m.remove(&key)
}

/// Calls `DashMap::len`, which gives the number of key-value pairs in the
/// map.
#[verifier::external_body]
pub(crate) fn tasks_len(m: &DashMap<u64, (u16, u8)>) -> (n: usize)
    ensures
        n == active_tasks(*m).len(),
{
    m.len()
}

/// Calls `DashMap::iter` and copies each entry out. The iterator visits every
/// entry of the map once, in an order that the map does not fix.
#[verifier::external_body]
pub(crate) fn tasks_entries(m: &DashMap<u64, (u16, u8)>) -> (entries: Vec<(u64, (u16, u8))>)
    ensures
        entry_keys(entries@).no_duplicates(),
        entry_keys(entries@).to_set() == active_tasks(*m).dom(),
        forall|i: int|
            0 <= i < entries@.len() ==> active_tasks(*m)[(#[trigger] entries@[i]).0] == entries@[i].1,
{
    m.iter().map(|entry| (*entry.key(), *entry.value())).collect()
}

/// Calls `DashMap::clear`, which removes all key-value pairs.
#[verifier::external_body]
pub(crate) fn tasks_clear(m: &mut DashMap<u64, (u16, u8)>)
    ensures
        active_tasks(*final(m)) =~= Map::empty(),
{
    m.clear()
}

/// Calls `DashMap::new`, which creates an empty map.
#[verifier::external_body]
pub(crate) fn cache_new() -> (m: DashMap<(u64, u8, u64, u64), bool>)
    ensures
        cached_decisions(m) =~= Map::empty(),
{
    DashMap::new()
}

/// Calls `DashMap::get` and copies the value out: the value under the key, if
/// the map has one.
#[verifier::external_body]
pub(crate) fn cache_get(m: &DashMap<(u64, u8, u64, u64), bool>, key: (u64, u8, u64, u64)) -> (r:
    Option<bool>)
    ensures
        r == if cached_decisions(*m).contains_key(key) {
            Some(cached_decisions(*m)[key])
        } else {
            None
        },
{
    m.get(&key).map(|entry| *entry)
}

/// Calls `DashMap::insert`, which puts the value under the key and returns
/// the value that was there before, if there was one.
#[verifier::external_body]
pub(crate) fn cache_insert(
    m: &mut DashMap<(u64, u8, u64, u64), bool>,
    key: (u64, u8, u64, u64),
    decision: bool,
) -> (prev: Option<bool>)
    ensures
        cached_decisions(*final(m)) == cached_decisions(*old(m)).insert(key, decision),
        prev == if cached_decisions(*old(m)).contains_key(key) {
            Some(cached_decisions(*old(m))[key])
        } else {
            None
        },
{
    m.insert(key, decision)
}

} // verus!
