use std::sync::atomic::{AtomicUsize, Ordering};
use std::sync::Arc;

use memoizee::{AsyncMemoizer, SyncMemoizer};

#[test]
fn test_sync_memoizer_basic() {
    // Counter to track the number of computations
    let computation_count = Arc::new(AtomicUsize::new(0));

    // Create a SyncMemoizer with a computation function
    let compute_fn = {
        let computation_count = computation_count.clone();
        move |key: i64| {
            computation_count.fetch_add(1, Ordering::SeqCst);
            key * 2
        }
    };

    let mut memoizer = SyncMemoizer::new(compute_fn);

    // Test basic memoization
    assert_eq!(memoizer.of(5), 10); // Computes and caches the result
    assert_eq!(memoizer.of(5), 10); // Should retrieve from the cache
    assert_eq!(computation_count.load(Ordering::SeqCst), 1); // Only one computation

    assert_eq!(memoizer.of(10), 20); // Computes and caches another value
    assert_eq!(memoizer.of(10), 20); // Should retrieve from the cache
    assert_eq!(computation_count.load(Ordering::SeqCst), 2); // Only two computations
}

#[test]
fn test_caching_behavior() {
    let compute_count = Arc::new(AtomicUsize::new(0));

    let compute_fn = {
        let compute_count = Arc::clone(&compute_count);
        move |key: i64| {
            compute_count.fetch_add(1, Ordering::SeqCst);
            key * key
        }
    };

    let mut memoizer = AsyncMemoizer::new(compute_fn);

    let result1 = memoizer.of(4);
    assert_eq!(result1, 16);
    assert_eq!(compute_count.load(Ordering::SeqCst), 1);

    let result2 = memoizer.of(4);
    assert_eq!(result2, 16);
    assert_eq!(compute_count.load(Ordering::SeqCst), 1);

    let result3 = memoizer.of(5);
    assert_eq!(result3, 25);
    assert_eq!(compute_count.load(Ordering::SeqCst), 2);

    let result4 = memoizer.of(4);
    assert_eq!(result4, 16);
    assert_eq!(compute_count.load(Ordering::SeqCst), 2);
}

#[test]
fn square_cache_scenario() {
    let count = AtomicUsize::new(0);
    let mut cache = SyncMemoizer::new(|x: i64| {
        count.fetch_add(1, Ordering::SeqCst);
        x * x
    });

    assert_eq!(cache.of(4), 16);
    assert_eq!(count.load(Ordering::SeqCst), 1);
    assert_eq!(cache.of(4), 16);
    assert_eq!(count.load(Ordering::SeqCst), 1);
    assert_eq!(cache.of(5), 25);
    assert_eq!(count.load(Ordering::SeqCst), 2);
    assert_eq!(cache.of(4), 16);
    assert_eq!(count.load(Ordering::SeqCst), 2);
}

#[test]
fn cross_key_independence() {
    let count = AtomicUsize::new(0);
    let mut cache = SyncMemoizer::new(|x: i64| {
        count.fetch_add(1, Ordering::SeqCst);
        x * x
    });

    // Interleaved access to two distinct keys: one computation each.
    assert_eq!(cache.of(2), 4);
    assert_eq!(cache.of(3), 9);
    assert_eq!(cache.of(2), 4);
    assert_eq!(cache.of(3), 9);
    assert_eq!(count.load(Ordering::SeqCst), 2);
}

#[test]
fn suspending_race_last_write_wins() {
    // Two logical callers race on an unseen key under the suspending
    // discipline: both look the key up before either has finished, so both
    // observe a miss and both run the (pure) computation; the later
    // completion overwrites the earlier one's identical result.
    let square = |x: i64| x * x;
    let mut cache = AsyncMemoizer::new(square);

    let first_caller = cache.lookup(7);
    let second_caller = cache.lookup(7);
    assert_eq!(first_caller, None);
    assert_eq!(second_caller, None);

    let v1 = square(7);
    let v2 = square(7);
    cache.complete(7, v1);
    cache.complete(7, v2);

    assert_eq!(cache.lookup(7), Some(49));
    // A later call is a hit and serves the stored value.
    assert_eq!(cache.of(7), 49);
}

#[test]
fn failed_attempt_leaves_no_entry() {
    // A suspending computation that is cancelled between lookup and
    // completion stores nothing: the key stays a miss, and the next call
    // runs the computation instead of serving a stale failure.
    let count = AtomicUsize::new(0);
    let mut cache = AsyncMemoizer::new(|x: i64| {
        count.fetch_add(1, Ordering::SeqCst);
        x * x
    });

    let attempt = cache.lookup(4);
    assert_eq!(attempt, None);
    // The caller's computation fails here; it never completes.

    assert_eq!(cache.lookup(4), None);
    assert_eq!(cache.of(4), 16);
    assert_eq!(count.load(Ordering::SeqCst), 1);
    assert_eq!(cache.of(4), 16);
    assert_eq!(count.load(Ordering::SeqCst), 1);
}

#[test]
fn extreme_keys_are_cached() {
    let count = AtomicUsize::new(0);
    let mut cache = SyncMemoizer::new(|x: i64| {
        count.fetch_add(1, Ordering::SeqCst);
        x.saturating_mul(x)
    });

    assert_eq!(cache.of(0), 0);
    assert_eq!(cache.of(-3), 9);
    assert_eq!(cache.of(i64::MAX), i64::MAX);
    assert_eq!(cache.of(i64::MIN), i64::MAX);
    assert_eq!(count.load(Ordering::SeqCst), 4);
    assert_eq!(cache.of(i64::MAX), i64::MAX);
    assert_eq!(cache.of(-3), 9);
    assert_eq!(count.load(Ordering::SeqCst), 4);
}

#[test]
fn cloned_cache_keeps_entries() {
    let count = AtomicUsize::new(0);
    let mut cache = SyncMemoizer::new(|x: i64| {
        count.fetch_add(1, Ordering::SeqCst);
        x * x
    });

    assert_eq!(cache.of(4), 16);
    let mut copy = cache.clone();
    assert_eq!(copy.of(4), 16);
    assert_eq!(count.load(Ordering::SeqCst), 1);
}

#[test]
fn suspending_cache_serves_hits_without_recomputing() {
    let count = AtomicUsize::new(0);
    let mut cache = AsyncMemoizer::new(|x: i64| {
        count.fetch_add(1, Ordering::SeqCst);
        x + 100
    });

    assert_eq!(cache.of(1), 101);
    assert_eq!(cache.of(2), 102);
    assert_eq!(cache.of(1), 101);
    assert_eq!(cache.of(2), 102);
    assert_eq!(count.load(Ordering::SeqCst), 2);
    assert_eq!(cache.lookup(1), Some(101));
    assert_eq!(cache.lookup(3), None);
}
