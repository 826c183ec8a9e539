//! The shared storage handle: bucket-storage configuration, the wake signal,
//! the flush selection policy, and the statistics counters.
//!
//! The bucket storage itself — its on-disk format and its read/write path —
//! belongs to the index internals, outside this layer. This layer only needs
//! to know whether persistent storage is configured at all, and it owns the
//! pieces every worker shares: the wake signal, the selection cursor and the
//! counters.

use vstd::prelude::*;
use core::sync::atomic::AtomicU64;
use core::sync::atomic::AtomicUsize;
use core::sync::atomic::Ordering;
use crate::accounts_index::AccountsIndexConfig;
use crate::accounts_index::disk_configured;
use crate::accounts_index::spec_disk_configured;
use crate::waitable_condvar::WaitableCondvar;

verus! {

/// Statistics counters shared by the index and every background worker.
///
/// `active_threads` counts the workers currently inside a scan pass; the
/// remaining counters record how much work the workers have done. All of them
/// are plain shared counters: the values move under concurrency, so nothing
/// is claimed about them in contracts — tests observe them instead.
pub struct BucketMapHolderStats {
    /// Workers currently mid-scan; raised on scan entry, lowered on scan exit.
    pub active_threads: AtomicUsize,
    /// Completed scan passes, over all workers.
    pub scan_passes: AtomicU64,
    /// Bin iterations performed, over all scan passes of all workers.
    pub bin_iterations: AtomicU64,
    /// Shard flush invocations, over all workers.
    pub flush_calls: AtomicU64,
    /// Statistics reports made (one after each bin iteration).
    pub reports: AtomicU64,
}

impl BucketMapHolderStats {
    /// Fresh counters, all starting at zero.
    pub fn new() -> (r: Self) {
        BucketMapHolderStats {
            active_threads: AtomicUsize::new(0),
            scan_passes: AtomicU64::new(0),
            bin_iterations: AtomicU64::new(0),
            flush_calls: AtomicU64::new(0),
            reports: AtomicU64::new(0),
        }
    }

    /// Report statistics once; the destination of a report is outside this
    /// layer, so here a report only counts itself.
    pub fn report_stats(&self) {
        self.reports.fetch_add(1, Ordering::Relaxed);
    }
}

/// The storage handle shared by the index and every background worker.
pub struct BucketMapHolder {
    /// Number of bins the index is partitioned into; fixed at construction.
    pub bins: usize,
    /// Whether persistent bucket storage is configured; when false the index
    /// is memory-only and no shard is ever flushed.
    pub disk_configured: bool,
    /// The wake signal workers wait on for dirty/aged notification and for
    /// the shutdown broadcast.
    pub wait_dirty_or_aged: WaitableCondvar,
    /// Shared statistics counters.
    pub stats: BucketMapHolderStats,
    /// Rotating cursor behind `next_bucket_to_flush`; policy state, advanced
    /// only there.
    pub next_bucket_tick: AtomicUsize,
}

impl BucketMapHolder {
    /// A storage handle sized to `bins` bins, configured from `config`.
    pub fn new(bins: usize, config: &Option<AccountsIndexConfig>) -> (r: Self)
        ensures
            r.bins == bins,
            r.disk_configured == spec_disk_configured(*config),
    {
        BucketMapHolder {
            bins,
            disk_configured: disk_configured(config),
            wait_dirty_or_aged: WaitableCondvar::new(),
            stats: BucketMapHolderStats::new(),
            next_bucket_tick: AtomicUsize::new(0),
        }
    }

    /// The pool-wide selection policy: the bin the next flush should target.
    ///
    /// The policy rotates a shared cursor, so concurrent callers are handed
    /// different bins and, over `bins` consecutive selections, every bin is
    /// handed out (see `worker_protocol::lemma_rotation_covers_every_bin`).
    /// Callers rely only on the result being a valid bin index.
    pub fn next_bucket_to_flush(&self) -> (r: usize)
        requires
            self.bins > 0,
        ensures
            r < self.bins,
    {
        let tick = self.next_bucket_tick.fetch_add(1, Ordering::Relaxed);
        tick % self.bins
    }
}

} // verus!
