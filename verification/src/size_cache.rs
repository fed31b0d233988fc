use dashmap::DashMap;
use std::collections::hash_map::RandomState;
use vstd::prelude::*;

verus! {

/// `DashMap` of dashmap, the concurrent map in which sizes and resolvers
/// are kept. Nothing of what is inside it is known here: what a map holds
/// is named, and its methods are called through functions that say what
/// they do to it.
#[verifier::external_type_specification]
#[verifier::external_body]
#[verifier::reject_recursive_types(K)]
#[verifier::reject_recursive_types(V)]
#[verifier::reject_recursive_types(S)]
pub struct ExDashMap<K, V, S>(DashMap<K, V, S>);

/// The sizes that a cache holds, by the code of their source type.
pub uninterp spec fn cached_sizes(cache: DashMap<u64, i64, RandomState>) -> Map<u64, i64>;

/// The cache that holds no size.
pub open spec fn no_sizes() -> Map<u64, i64> {
    Map::empty()
}

/// Calls `DashMap::new` of dashmap. The contract claims that the new map
/// holds nothing.
#[verifier::external_body]
pub(crate) fn new_cache() -> (cache: DashMap<u64, i64, RandomState>)
    ensures
        cached_sizes(cache) == no_sizes(),
{
    DashMap::new()
}

/// Calls `DashMap::get` of dashmap and copies the value out. The contract
/// claims that the value under the key is returned where the map holds the
/// key, and nothing where it does not.
#[verifier::external_body]
pub(crate) fn cache_get(cache: &DashMap<u64, i64, RandomState>, key: u64) -> (r: Option<i64>)
    ensures
        r == if cached_sizes(*cache).dom().contains(key) {
            Some(cached_sizes(*cache)[key])
        } else {
            None
        },
{
    cache.get(&key).map(|entry| *entry)
}

/// Calls `DashMap::insert` of dashmap. The contract claims that afterwards
/// the map holds the value under the key and is otherwise as before.
#[verifier::external_body]
pub(crate) fn cache_insert(cache: &mut DashMap<u64, i64, RandomState>, key: u64, value: i64)
    ensures
        cached_sizes(*final(cache)) == cached_sizes(*old(cache)).insert(key, value),
{
    cache.insert(key, value);
}

/// Calls `DashMap::clear` of dashmap. The contract claims that afterwards
/// the map holds nothing.
#[verifier::external_body]
pub(crate) fn cache_clear(cache: &mut DashMap<u64, i64, RandomState>)
    ensures
        cached_sizes(*final(cache)) == no_sizes(),
{
    cache.clear();
}

} // verus!
