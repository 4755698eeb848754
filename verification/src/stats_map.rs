//! The concurrent map that holds the live statistics of a pool.
//!
//! Nothing in this file is proved. The map is `dashmap::DashMap`; its contents
//! are given a name, and each operation that the pool uses states what the
//! source of the map shows of it. The pool owns its map and reaches it only
//! through these functions, each of which asks for exclusive access where it
//! changes the contents.

use crate::endpoint::EndpointStats;
use dashmap::DashMap;
use vstd::prelude::*;

verus! {

/// `dashmap::DashMap`, opaque to the verifier.
#[verifier::external_type_specification]
#[verifier::external_body]
#[verifier::reject_recursive_types(K)]
#[verifier::reject_recursive_types(V)]
#[verifier::reject_recursive_types(S)]
pub struct ExDashMap<K, V, S>(DashMap<K, V, S>);

/// What a statistics map holds: the statistics stored under each URL.
pub uninterp spec fn stats_entries(m: DashMap<String, EndpointStats>) -> Map<
    Seq<char>,
    EndpointStats,
>;

/// The map without entries.
pub open spec fn no_entries() -> Map<Seq<char>, EndpointStats> {
    Map::empty()
}

/// `DashMap::new` creates an empty map.
#[verifier::external_body]
pub(crate) fn stats_map_new() -> (m: DashMap<String, EndpointStats>)
    ensures
        stats_entries(m) == no_entries(),
{
    DashMap::new()
}

/// `DashMap::insert` stores the value under the key, replacing what was
/// stored under it, and leaves every other entry as it is.
#[verifier::external_body]
pub(crate) fn stats_map_insert(m: &mut DashMap<String, EndpointStats>, key: String, value: EndpointStats)
    ensures
        stats_entries(*final(m)) == stats_entries(*old(m)).insert(key@, value),
{
    m.insert(key, value);
}

/// `DashMap::get` finds the entry stored under the key, if there is one; the
/// statistics found are handed out as a copy.
#[verifier::external_body]
pub(crate) fn stats_map_get(m: &DashMap<String, EndpointStats>, key: &str) -> (found: Option<
    EndpointStats,
>)
    ensures
        match found {
            Some(s) => stats_entries(*m).contains_key(key@) && s == stats_entries(*m)[key@],
            None => !stats_entries(*m).contains_key(key@),
        },
{
    m.get(key).map(|entry| entry.value().snapshot())
}

} // verus!
