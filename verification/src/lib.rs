//! A thread-safe memoization cache: a computation keyed by a single input
//! value runs at most as many times as there are distinct keys, and repeated
//! keys are served from a concurrent keyed store.
//!
//! Two sibling caches are offered. [`SyncMemoizer`] wraps a blocking
//! computation and computes exactly once per key, even when first callers
//! race: the computation runs under the store's per-key exclusive slot.
//! [`AsyncMemoizer`] wraps a computation that may suspend; its lookup and its
//! insertion are two separate store operations, so racing first callers may
//! each run the computation (at least once, not exactly once), the later
//! result overwriting the earlier. The `protocol` module states both
//! disciplines over plain maps and proves their laws.

mod store;

pub mod async_cache;
pub mod protocol;
pub mod sync_cache;

pub use async_cache::AsyncMemoizer;
pub use sync_cache::SyncMemoizer;
