//! The trusted boundary to the concurrent keyed store.
//!
//! Both caches keep their entries in a `dashmap::DashMap`: a sharded hash
//! map that is safe for simultaneous readers and writers without one global
//! lock. Verus sees the map only through the wrappers below, whose contracts
//! speak of `store_contents`, the map of entries the store holds.

use vstd::prelude::*;

verus! {

#[verifier::external_type_specification]
#[verifier::external_body]
#[verifier::reject_recursive_types(K)]
#[verifier::reject_recursive_types(V)]
#[verifier::reject_recursive_types(S)]
pub struct ExDashMap<K, V, S>(dashmap::DashMap<K, V, S>);

/// The store both caches keep their entries in.
pub type StoreMap = dashmap::DashMap<i64, i64>;

/// Relies on `dashmap::DashMap::clone`, only so that a cache as a whole can
/// be cloned; nothing is assumed of what the copy holds.
pub assume_specification<K, V, S>[ <dashmap::DashMap<K, V, S> as core::clone::Clone>::clone ](
    m: &dashmap::DashMap<K, V, S>,
) -> dashmap::DashMap<K, V, S>
    where
        K: core::cmp::Eq + core::hash::Hash + core::clone::Clone,
        V: core::clone::Clone,
        S: core::clone::Clone,
;

/// What the store holds: each present key, mapped to its stored value.
pub uninterp spec fn store_contents(m: StoreMap) -> Map<i64, i64>;

/// The contents of a store that holds nothing yet.
pub open spec fn no_entries() -> Map<i64, i64> {
    Map::empty()
}

/// Relies on `dashmap::DashMap::new`: a freshly created map holds nothing.
#[verifier::external_body]
pub(crate) fn store_new() -> (r: StoreMap)
    ensures
        store_contents(r) == no_entries(),
{
    dashmap::DashMap::new()
}

/// Relies on `dashmap::DashMap::get`: returns the value the key maps to, or
/// `None` when the key is absent, and leaves the map as it is.
#[verifier::external_body]
pub(crate) fn store_get(m: &StoreMap, key: i64) -> (r: Option<i64>)
    ensures
        r == store_contents(*m).get(key),
{
    match m.get(&key) {
        Some(entry) => Some(*entry.value()),
        None => None,
    }
}

/// Relies on `dashmap::DashMap::insert`: maps the key to the value, whether
/// or not the key was present, and returns the value it replaced, if any.
#[verifier::external_body]
pub(crate) fn store_insert(m: &mut StoreMap, key: i64, value: i64) -> (r: Option<i64>)
    ensures
        store_contents(*final(m)) == store_contents(*old(m)).insert(key, value),
        r == store_contents(*old(m)).get(key),
{
    m.insert(key, value)
}

/// Relies on `dashmap::DashMap::entry` and `Entry::or_insert_with`: when the
/// key is present, returns the stored value and runs nothing; when it is
/// absent, runs `producer` once while the key's slot is held exclusively,
/// stores its result and returns it.
#[verifier::external_body]
pub(crate) fn store_get_or_insert_with<P: FnOnce() -> i64>(
    m: &mut StoreMap,
    key: i64,
    producer: P,
) -> (v: i64)
    requires
        call_requires(producer, ()),
    ensures
        store_contents(*old(m)).contains_key(key) ==> {
            &&& v == store_contents(*old(m))[key]
            &&& store_contents(*final(m)) == store_contents(*old(m))
        },
        !store_contents(*old(m)).contains_key(key) ==> {
            &&& call_ensures(producer, (), v)
            &&& store_contents(*final(m)) == store_contents(*old(m)).insert(key, v)
        },
{
    *m.entry(key).or_insert_with(producer).value()
}

} // verus!
