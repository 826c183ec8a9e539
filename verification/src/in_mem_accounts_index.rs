//! One in-memory shard of the index.
//!
//! A shard owns one partition of the index; its lookup and update paths are
//! index internals outside this layer. Here a shard is what a background
//! worker needs of it: its bin, a shared handle to the storage it flushes
//! into, and a `flush` entry point that is safe to invoke from any worker.

use vstd::prelude::*;
use std::sync::Arc;
use core::sync::atomic::AtomicU64;
use core::sync::atomic::Ordering;
use crate::bucket_map_holder::BucketMapHolder;

verus! {

/// One in-memory shard, bound at construction to its bin and to the shared
/// storage.
pub struct InMemAccountsIndex {
    /// The bin this shard serves; fixed at construction.
    pub bin: usize,
    /// Shared handle to the storage this shard flushes into.
    pub storage: Arc<BucketMapHolder>,
    /// How many times this shard has been asked to flush.
    pub flushes: AtomicU64,
}

impl InMemAccountsIndex {
    /// A shard for bin `bin`, sharing `storage`.
    pub fn new(storage: &Arc<BucketMapHolder>, bin: usize) -> (r: Self)
        ensures
            r.bin == bin,
            r.storage == *storage,
    {
        InMemAccountsIndex { bin, storage: storage.clone(), flushes: AtomicU64::new(0) }
    }

    /// Move this shard's dirty or aged entries into persistent storage.
    ///
    /// The movement itself belongs to the storage collaborator; what this
    /// layer guarantees about `flush` is when it is invoked, so the shard
    /// records each invocation in its own counter and in the shared one.
    /// Safe to call concurrently from any number of workers.
    pub fn flush(&self) {
        self.flushes.fetch_add(1, Ordering::Relaxed);
        self.storage.stats.flush_calls.fetch_add(1, Ordering::Relaxed);
    }

    /// How many times `flush` has been invoked on this shard.
    pub fn flush_count(&self) -> (r: u64) {
        self.flushes.load(Ordering::Relaxed)
    }
}

} // verus!
