//! Lifecycle and orchestration layer for a sharded key/value index whose
//! entries may overflow from memory into persistent bucket storage.
//!
//! The layer owns, for a fixed number of bins, the in-memory shard
//! structures, a shared handle to the bucket storage, a shutdown flag, and
//! the loop body that background workers run. Its job is lifecycle
//! correctness: a worker never sleeps forever even when a wake broadcast is
//! lost, a requested shutdown is observed at the next scan-pass boundary, and
//! teardown orders "flag set, then broadcast, then join" so that no worker
//! ever touches freed shared state.
//!
//! Spawning and joining the worker threads themselves is left to the
//! embedding runtime: it runs [`worker_cycle`] in a loop on each worker
//! thread, and on release calls [`AccountsIndexStorage::request_shutdown`]
//! before joining. Everything the workers decide — when to exit, which bin
//! to flush, whether to flush at all — is decided here, under contract. The
//! protocol the pool follows, and the proofs about its active-thread counter
//! and its shutdown behaviour, live in [`worker_protocol`].

pub mod accounts_index;
pub mod bucket_map_holder;
pub mod in_mem_accounts_index;
pub mod waitable_condvar;
pub mod worker_protocol;

use vstd::prelude::*;
use std::sync::Arc;
use core::sync::atomic::AtomicBool;
use core::sync::atomic::Ordering;
use crate::accounts_index::AccountsIndexConfig;
use crate::accounts_index::flush_thread_count;
use crate::accounts_index::spec_disk_configured;
use crate::accounts_index::spec_flush_thread_count;
use crate::bucket_map_holder::BucketMapHolder;
use crate::in_mem_accounts_index::InMemAccountsIndex;

verus! {

/// How long a worker's bounded wait on the wake signal lasts, in
/// milliseconds. The bound is a liveness safeguard: even when a broadcast is
/// missed, a worker wakes after this long and re-checks the shutdown flag.
pub const FLUSH_WAIT_MS: u64 = 10_000;

/// The shard array for `storage`: one shard per bin, each bound to its own
/// bin index and sharing `storage`.
pub fn create_shards(storage: &Arc<BucketMapHolder>) -> (r: Vec<Arc<InMemAccountsIndex>>)
    ensures
        r@.len() == storage.bins,
        forall|i: int| 0 <= i < r@.len() ==> (#[trigger] r@[i]).bin == i,
        forall|i: int| 0 <= i < r@.len() ==> (#[trigger] r@[i]).storage == *storage,
{
    let bins = storage.bins;
    let mut in_mem: Vec<Arc<InMemAccountsIndex>> = Vec::new();
    for bin in 0..bins
        invariant
            in_mem@.len() == bin,
            forall|j: int| 0 <= j < bin ==> (#[trigger] in_mem@[j]).bin == j,
            forall|j: int| 0 <= j < bin ==> (#[trigger] in_mem@[j]).storage == *storage,
    {
        in_mem.push(Arc::new(InMemAccountsIndex::new(storage, bin)));
    }
    in_mem
}

/// One scan pass over all bins, as a worker performs it between two waits:
/// for every bin, when persistent storage is configured, ask the storage for
/// the next bucket to flush and flush that shard; report statistics after
/// each bin. Returns how many flushes the pass invoked: one per bin when
/// persistent storage is configured, none at all otherwise.
pub fn scan_pass(storage: &Arc<BucketMapHolder>, in_mem: &Vec<Arc<InMemAccountsIndex>>) -> (flushed:
    usize)
    requires
        in_mem@.len() == storage.bins,
    ensures
        flushed == if storage.disk_configured {
            in_mem@.len()
        } else {
            0
        },
{
    let bins = in_mem.len();
    let flush = storage.disk_configured;
    let mut flushed: usize = 0;
    for i in 0..bins
        invariant
            bins == in_mem@.len(),
            in_mem@.len() == storage.bins,
            flush == storage.disk_configured,
            flushed == if flush {
                i
            } else {
                0
            },
    {
        if flush {
            let index = storage.next_bucket_to_flush();
            in_mem[index].flush();
            flushed = flushed + 1;
        }
        storage.stats.report_stats();
    }
    storage.stats.scan_passes.fetch_add(1, Ordering::Relaxed);
    storage.stats.bin_iterations.fetch_add(bins as u64, Ordering::Relaxed);
    flushed
}

/// One cycle of the background worker loop, the body each worker thread runs
/// over and over; also callable directly, without any thread, by a driver
/// that owns its own shutdown flag.
///
/// A cycle is one pass through the `worker_protocol` transitions: a bounded
/// wait on the wake signal, then one read of the shutdown flag. When the
/// flag is set the worker exits — the cycle returns `true` and must not be
/// run again. Otherwise the worker raises the active-thread counter, makes
/// one scan pass over every bin, lowers the counter again, and returns
/// `false`. The flag is consulted only between waiting and scanning, never
/// mid-scan, so a scan in progress always completes before the worker can
/// exit: shutdown latency is bounded by one pass over the bins, not by the
/// wait timeout.
pub fn worker_cycle(
    storage: &Arc<BucketMapHolder>,
    exit: &AtomicBool,
    in_mem: &Vec<Arc<InMemAccountsIndex>>,
) -> (exited: bool)
    requires
        in_mem@.len() == storage.bins,
{
    storage.wait_dirty_or_aged.wait_timeout_or(FLUSH_WAIT_MS, exit);
    if exit.load(Ordering::Relaxed) {
        return true;
    }
    storage.stats.active_threads.fetch_add(1, Ordering::Relaxed);
    scan_pass(storage, in_mem);
    storage.stats.active_threads.fetch_sub(1, Ordering::Relaxed);
    false
}

/// Owner of the shared state of the index lifecycle layer: the storage
/// handle, the shard array sized one shard per bin, the shutdown flag, and
/// the worker count the configuration asks for.
pub struct AccountsIndexStorage {
    /// The shutdown flag, shared with every worker. Set exactly once, by
    /// [`Self::request_shutdown`]; workers only read it.
    pub exit: Arc<AtomicBool>,
    /// How many background workers the configuration asks for.
    pub flush_threads: usize,
    /// The storage handle shared with every worker.
    pub storage: Arc<BucketMapHolder>,
    /// The shard array, one shard per bin, shared in full with every worker:
    /// the selection policy may hand any bin to any worker.
    pub in_mem: Vec<Arc<InMemAccountsIndex>>,
}

impl AccountsIndexStorage {
    /// The structural invariant: one shard per bin, each bound to its own
    /// index.
    pub open spec fn wf(&self) -> bool {
        &&& self.in_mem@.len() == self.storage.bins
        &&& forall|i: int| 0 <= i < self.in_mem@.len() ==> (#[trigger] self.in_mem@[i]).bin == i
        &&& forall|i: int|
            0 <= i < self.in_mem@.len() ==> (#[trigger] self.in_mem@[i]).storage == self.storage
    }

    /// Build the shared storage sized to `bins` bins, one shard per bin, and
    /// a clear shutdown flag, and record how many background workers the
    /// configuration asks for. The embedding runtime spawns that many
    /// threads, each running [`worker_cycle`] against this shared state until
    /// it reports exit.
    pub fn new(bins: usize, config: &Option<AccountsIndexConfig>) -> (r: AccountsIndexStorage)
        ensures
            r.wf(),
            r.in_mem@.len() == bins,
            r.storage.bins == bins,
            r.storage.disk_configured == spec_disk_configured(*config),
            r.flush_threads == spec_flush_thread_count(*config),
    {
        let storage: Arc<BucketMapHolder> = Arc::new(BucketMapHolder::new(bins, config));
        let in_mem = create_shards(&storage);
        let flush_threads = flush_thread_count(config);
        let exit: Arc<AtomicBool> = Arc::new(AtomicBool::new(false));
        AccountsIndexStorage { exit, flush_threads, storage, in_mem }
    }

    /// The shared storage handle, for the surrounding index API.
    pub fn storage(&self) -> (r: &Arc<BucketMapHolder>)
        ensures
            *r == self.storage,
    {
        &self.storage
    }

    /// The first two steps of teardown, in the one order that makes shutdown
    /// prompt: set the shutdown flag, then broadcast the wake signal so every
    /// sleeping worker observes the flag well before its wait times out. The
    /// caller must join every worker after this returns and before letting go
    /// of the storage handle and the shard array.
    pub fn request_shutdown(&self) {
        self.exit.store(true, Ordering::Relaxed);
        self.storage.wait_dirty_or_aged.notify_all();
    }
}

} // verus!
