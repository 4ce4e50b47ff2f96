//! The cache for a blocking computation: exactly once per key.

use vstd::prelude::*;

use crate::protocol::of_rel;
use crate::store::{StoreMap, no_entries, store_contents, store_get_or_insert_with, store_new};

verus! {

/// A memoization cache around a blocking computation from key to value.
///
/// `of` looks the key up and, only on a miss, runs the computation under the
/// store's per-key exclusive slot, so racing first callers for one key are
/// serialized and the computation runs exactly once per distinct key. Calls
/// for different keys proceed independently.
#[derive(Clone)]
pub struct SyncMemoizer<F> where F: Fn(i64) -> i64 {
    cache: StoreMap,
    compute_fn: F,
    invocations: Ghost<nat>,
}

impl<F> SyncMemoizer<F> where F: Fn(i64) -> i64 {
    /// The entries cached so far: each key seen, mapped to its memoized value.
    pub closed spec fn entries(self) -> Map<i64, i64> {
        store_contents(self.cache)
    }

    /// How many times the computation function has run for this cache.
    pub closed spec fn invocations(self) -> nat {
        self.invocations@
    }

    /// The computation function supplied at construction; never replaced.
    pub closed spec fn computation(self) -> F {
        self.compute_fn
    }

    /// The computation function is total over the keys, and every cached
    /// value is a result the computation can return for its key.
    pub closed spec fn wf(self) -> bool {
        &&& forall|k: i64| call_requires(self.compute_fn, (k,))
        &&& forall|k: i64|
            #[trigger] self.entries().contains_key(k) ==> call_ensures(
                self.compute_fn,
                (k,),
                self.entries()[k],
            )
    }

    /// Creates a cache around `compute_fn`, which must accept every key.
    /// The cache starts with no entries and no invocations made.
    pub fn new(compute_fn: F) -> (c: Self)
        requires
            forall|k: i64| call_requires(compute_fn, (k,)),
        ensures
            c.wf(),
            c.entries() == no_entries(),
            c.invocations() == 0,
            c.computation() == compute_fn,
    {
        SyncMemoizer { cache: store_new(), compute_fn, invocations: Ghost(0nat) }
    }

    /// Returns the value for `key`: the stored value on a hit, and otherwise
    /// the computation's result, which is stored under `key` first. The
    /// computation runs only on a miss, so a key is computed exactly once.
    pub fn of(&mut self, key: i64) -> (v: i64)
        requires
            old(self).wf(),
        ensures
            final(self).wf(),
            final(self).computation() == old(self).computation(),
            of_rel(
                old(self).entries(),
                old(self).invocations(),
                key,
                v,
                final(self).entries(),
                final(self).invocations(),
            ),
            call_ensures(old(self).computation(), (key,), v),
    {
        let f = &self.compute_fn;
        let producer = || -> (r: i64)
            ensures
                call_ensures(*f, (key,), r),
            {
                f(key)
            };
        let v = store_get_or_insert_with(&mut self.cache, key, producer);
        proof {
            if !old(self).entries().contains_key(key) {
                self.invocations@ = self.invocations@ + 1;
            }
        }
        v
    }
}

} // verus!
