//! The cache for a suspending computation: at least once per key.

use vstd::prelude::*;

use crate::protocol::{complete_rel, lookup_rel, of_rel};
use crate::store::{StoreMap, no_entries, store_contents, store_get, store_insert, store_new};

verus! {

/// A memoization cache around a computation that may suspend.
///
/// Its discipline is deliberately not the blocking cache's: `of` first looks
/// the key up, then — on a miss — runs the computation, then stores the
/// result. Lookup and store are two separate operations with the (possibly
/// long) computation between them, not one atomic section, so two callers
/// racing on an unseen key may both observe a miss and both compute; the
/// store accepts the later result over the earlier without complaint. The
/// computation is taken as pure, so the relaxation to "at least once, last
/// write wins" trades duplicate work, never a wrong answer. A driver that
/// truly suspends runs the same discipline through [`Self::lookup`] and
/// [`Self::complete`], awaiting its computation between the two.
#[derive(Clone)]
pub struct AsyncMemoizer<F> where F: Fn(i64) -> i64 {
    cache: StoreMap,
    compute_fn: F,
    invocations: Ghost<nat>,
}

impl<F> AsyncMemoizer<F> where F: Fn(i64) -> i64 {
    /// The entries cached so far: each key seen, mapped to its memoized value.
    pub closed spec fn entries(self) -> Map<i64, i64> {
        store_contents(self.cache)
    }

    /// How many computation results this cache has recorded, each the
    /// completed run of the computation for some key.
    pub closed spec fn invocations(self) -> nat {
        self.invocations@
    }

    /// The computation function supplied at construction; never replaced.
    pub closed spec fn computation(self) -> F {
        self.compute_fn
    }

    /// The computation function is total over the keys, and every cached
    /// value is a result the computation can return for its key.
    pub closed spec fn wf(self) -> bool {
        &&& forall|k: i64| call_requires(self.compute_fn, (k,))
        &&& forall|k: i64|
            #[trigger] self.entries().contains_key(k) ==> call_ensures(
                self.compute_fn,
                (k,),
                self.entries()[k],
            )
    }

    /// Creates a cache around `compute_fn`, which must accept every key.
    /// The cache starts with no entries and no invocations made.
    pub fn new(compute_fn: F) -> (c: Self)
        requires
            forall|k: i64| call_requires(compute_fn, (k,)),
        ensures
            c.wf(),
            c.entries() == no_entries(),
            c.invocations() == 0,
            c.computation() == compute_fn,
    {
        AsyncMemoizer { cache: store_new(), compute_fn, invocations: Ghost(0nat) }
    }

    /// The discipline's first step: reads the entry for `key`, if any, and
    /// changes nothing. A caller that stops after a miss here — a failed or
    /// cancelled computation — leaves the store exactly as it found it.
    pub fn lookup(&self, key: i64) -> (r: Option<i64>)
        ensures
            lookup_rel(self.entries(), key, r),
            r == self.entries().get(key),
    {
        store_get(&self.cache, key)
    }

    /// The discipline's last step: records a finished computation's result
    /// under its key, over whatever a racing caller may have stored there in
    /// the meantime — the last writer wins. Only a result the computation
    /// can return for `key` may be recorded; partial results never are.
    pub fn complete(&mut self, key: i64, value: i64)
        requires
            old(self).wf(),
            call_ensures(old(self).computation(), (key,), value),
        ensures
            final(self).wf(),
            final(self).computation() == old(self).computation(),
            final(self).invocations() == old(self).invocations() + 1,
            complete_rel(old(self).entries(), key, value, final(self).entries()),
    {
        store_insert(&mut self.cache, key, value);
        proof {
            self.invocations@ = self.invocations@ + 1;
            assert forall|k: i64| #[trigger] self.entries().contains_key(k) implies call_ensures(
                self.compute_fn,
                (k,),
                self.entries()[k],
            ) by {
                if k != key {
                    assert(old(self).entries().contains_key(k));
                }
            }
        }
    }

    /// Returns the value for `key`: the stored value on a hit with no
    /// suspension, and otherwise the computation's result, recorded under
    /// `key` once the computation has finished.
    pub fn of(&mut self, key: i64) -> (v: i64)
        requires
            old(self).wf(),
        ensures
            final(self).wf(),
            final(self).computation() == old(self).computation(),
            of_rel(
                old(self).entries(),
                old(self).invocations(),
                key,
                v,
                final(self).entries(),
                final(self).invocations(),
            ),
            call_ensures(old(self).computation(), (key,), v),
    {
        if let Some(stored) = self.lookup(key) {
            return stored;
        }
        let f = &self.compute_fn;
        let v = f(key);
        self.complete(key, v);
        v
    }
}

} // verus!
