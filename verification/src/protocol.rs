//! The two cache disciplines, stated over plain maps.
//!
//! A cache state is a pair: the map of cached entries, and how many times
//! the computation function has been invoked so far. `of_rel` is one call of
//! `of` on either cache; `lookup_rel` and `complete_rel` are the two
//! separate store operations out of which the suspending cache's `of` is
//! built. The proof functions below are the laws of the two disciplines.

use vstd::prelude::*;

verus! {

/// One call of `of` for `key`, as a relation between the cache state before
/// (`entries0` cached, `invocations0` computations run) and after. On a hit
/// the stored value is returned and nothing changes; on a miss the
/// computation runs once and its result `v` is stored under `key`.
pub open spec fn of_rel(
    entries0: Map<i64, i64>,
    invocations0: nat,
    key: i64,
    v: i64,
    entries1: Map<i64, i64>,
    invocations1: nat,
) -> bool {
    if entries0.contains_key(key) {
        &&& v == entries0[key]
        &&& entries1 == entries0
        &&& invocations1 == invocations0
    } else {
        &&& entries1 == entries0.insert(key, v)
        &&& invocations1 == invocations0 + 1
    }
}

/// The suspending protocol's first step: a lookup reads the store and
/// changes nothing, so an attempt abandoned after this step leaves no trace.
pub open spec fn lookup_rel(entries: Map<i64, i64>, key: i64, r: Option<i64>) -> bool {
    r == entries.get(key)
}

/// The suspending protocol's last step: a finished computation's result is
/// stored under its key unconditionally, so of two racing writers the later
/// one wins.
pub open spec fn complete_rel(
    entries0: Map<i64, i64>,
    key: i64,
    v: i64,
    entries1: Map<i64, i64>,
) -> bool {
    entries1 == entries0.insert(key, v)
}

/// Exactly once per key: of two consecutive calls for a key the cache has
/// not seen, the first runs the computation and the second returns the very
/// same value without running it, leaving the cache as it was.
pub proof fn lemma_exactly_once_per_key(
    entries0: Map<i64, i64>,
    invocations0: nat,
    key: i64,
    v1: i64,
    entries1: Map<i64, i64>,
    invocations1: nat,
    v2: i64,
    entries2: Map<i64, i64>,
    invocations2: nat,
)
    requires
        !entries0.contains_key(key),
        of_rel(entries0, invocations0, key, v1, entries1, invocations1),
        of_rel(entries1, invocations1, key, v2, entries2, invocations2),
    ensures
        invocations1 == invocations0 + 1,
        invocations2 == invocations1,
        v2 == v1,
        entries2 == entries1,
{
}

/// A run of consecutive `of` calls, all for one key: call `i` takes the
/// cache from state `i` (entries and invocation count) to state `i + 1` and
/// returns `results[i]`.
pub open spec fn of_trace(
    entries: Seq<Map<i64, i64>>,
    invocations: Seq<nat>,
    key: i64,
    results: Seq<i64>,
) -> bool {
    &&& entries.len() == results.len() + 1
    &&& invocations.len() == results.len() + 1
    &&& forall|i: int|
        0 <= i < results.len() ==> of_rel(
            entries[i],
            invocations[i],
            key,
            #[trigger] results[i],
            entries[i + 1],
            invocations[i + 1],
        )
}

proof fn lemma_trace_stable(
    entries: Seq<Map<i64, i64>>,
    invocations: Seq<nat>,
    key: i64,
    results: Seq<i64>,
    i: int,
)
    requires
        of_trace(entries, invocations, key, results),
        !entries[0].contains_key(key),
        1 <= i <= results.len(),
    ensures
        entries[i].contains_key(key),
        entries[i][key] == results[0],
        invocations[i] == invocations[0] + 1,
        results[i - 1] == results[0],
    decreases i,
{
    assert(of_rel(
        entries[i - 1],
        invocations[i - 1],
        key,
        results[i - 1],
        entries[i],
        invocations[i],
    ));
    if i > 1 {
        lemma_trace_stable(entries, invocations, key, results, i - 1);
    }
}

/// Exactly once per key, for any number of callers: when calls for one
/// unseen key run one after another — as the blocking cache's per-key
/// exclusive slot serializes racing threads — the computation runs in the
/// first call alone, and every call returns the first call's value.
pub proof fn lemma_exactly_once_trace(
    entries: Seq<Map<i64, i64>>,
    invocations: Seq<nat>,
    key: i64,
    results: Seq<i64>,
)
    requires
        of_trace(entries, invocations, key, results),
        !entries[0].contains_key(key),
        results.len() >= 1,
    ensures
        invocations.last() == invocations[0] + 1,
        forall|i: int| 0 <= i < results.len() ==> #[trigger] results[i] == results[0],
{
    lemma_trace_stable(entries, invocations, key, results, results.len() as int);
    assert forall|i: int| 0 <= i < results.len() implies #[trigger] results[i] == results[0] by {
        lemma_trace_stable(entries, invocations, key, results, i + 1);
    }
}

/// Idempotent repeated access: a call for a key already present returns the
/// stored value and changes neither the entries nor the invocation count.
pub proof fn lemma_idempotent_repeated_access(
    entries0: Map<i64, i64>,
    invocations0: nat,
    key: i64,
    v: i64,
    entries1: Map<i64, i64>,
    invocations1: nat,
)
    requires
        entries0.contains_key(key),
        of_rel(entries0, invocations0, key, v, entries1, invocations1),
    ensures
        v == entries0[key],
        entries1 == entries0,
        invocations1 == invocations0,
{
}

/// Cross-key independence: a call for one key leaves every other key's
/// entry exactly as it was.
pub proof fn lemma_other_keys_untouched(
    entries0: Map<i64, i64>,
    invocations0: nat,
    key: i64,
    v: i64,
    entries1: Map<i64, i64>,
    invocations1: nat,
    other: i64,
)
    requires
        of_rel(entries0, invocations0, key, v, entries1, invocations1),
        other != key,
    ensures
        entries1.get(other) == entries0.get(other),
{
}

/// Cross-key independence: calls for two distinct unseen keys each trigger
/// their own computation, and each key ends up with its own call's result.
pub proof fn lemma_cross_key_independence(
    entries0: Map<i64, i64>,
    invocations0: nat,
    k1: i64,
    v1: i64,
    entries1: Map<i64, i64>,
    invocations1: nat,
    k2: i64,
    v2: i64,
    entries2: Map<i64, i64>,
    invocations2: nat,
)
    requires
        k1 != k2,
        !entries0.contains_key(k1),
        !entries0.contains_key(k2),
        of_rel(entries0, invocations0, k1, v1, entries1, invocations1),
        of_rel(entries1, invocations1, k2, v2, entries2, invocations2),
    ensures
        invocations2 == invocations0 + 2,
        entries2.contains_key(k1) && entries2[k1] == v1,
        entries2.contains_key(k2) && entries2[k2] == v2,
{
}

/// The store only grows under `of`: every entry cached before a call is
/// still there, unchanged, after it.
pub proof fn lemma_entries_grow(
    entries0: Map<i64, i64>,
    invocations0: nat,
    key: i64,
    v: i64,
    entries1: Map<i64, i64>,
    invocations1: nat,
)
    requires
        of_rel(entries0, invocations0, key, v, entries1, invocations1),
    ensures
        entries0.submap_of(entries1),
{
}

/// No removal: a completion may overwrite a racing writer's entry for its
/// own key, but every key present before is present after.
pub proof fn lemma_no_removal(
    entries0: Map<i64, i64>,
    key: i64,
    v: i64,
    entries1: Map<i64, i64>,
)
    requires
        complete_rel(entries0, key, v, entries1),
    ensures
        entries0.dom().subset_of(entries1.dom()),
{
}

/// At least once, last write wins: two callers race on an unseen key under
/// the suspending protocol. Both lookups happen before either completion,
/// so both observe a miss and both run the computation; the later completion
/// overwrites the earlier, and the stored value is one of the two results.
pub proof fn lemma_last_write_wins(
    entries0: Map<i64, i64>,
    key: i64,
    r1: Option<i64>,
    r2: Option<i64>,
    v1: i64,
    v2: i64,
    entries1: Map<i64, i64>,
    entries2: Map<i64, i64>,
)
    requires
        !entries0.contains_key(key),
        lookup_rel(entries0, key, r1),
        lookup_rel(entries0, key, r2),
        complete_rel(entries0, key, v1, entries1),
        complete_rel(entries1, key, v2, entries2),
    ensures
        r1 is None,
        r2 is None,
        entries2.contains_key(key),
        entries2[key] == v2,
        entries2[key] == v1 || entries2[key] == v2,
{
}

/// Failure non-poisoning: an attempt that fails after its lookup has stored
/// nothing, so the key is still absent and the next call for it runs the
/// computation again instead of serving a stale failure.
pub proof fn lemma_failure_non_poisoning(
    entries0: Map<i64, i64>,
    invocations0: nat,
    key: i64,
    r: Option<i64>,
    v: i64,
    entries1: Map<i64, i64>,
    invocations1: nat,
)
    requires
        !entries0.contains_key(key),
        lookup_rel(entries0, key, r),
        of_rel(entries0, invocations0, key, v, entries1, invocations1),
    ensures
        r is None,
        invocations1 == invocations0 + 1,
        entries1.contains_key(key) && entries1[key] == v,
{
}

} // verus!
