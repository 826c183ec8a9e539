//! Configuration accepted by the index lifecycle layer.

use vstd::prelude::*;

verus! {

/// Number of background flush workers spawned when the configuration does not
/// name one.
pub const DEFAULT_FLUSH_THREADS: usize = 1;

/// Options recognised when constructing the index storage.
///
/// `flush_threads` sets how many background workers are spawned; when absent
/// (or when no configuration is supplied at all) the default of
/// [`DEFAULT_FLUSH_THREADS`] is used. `use_disk_buckets` says whether
/// persistent bucket storage is configured; when it is false the index runs
/// memory-only and the workers never flush a shard.
#[derive(Clone, Copy, Debug)]
pub struct AccountsIndexConfig {
    pub flush_threads: Option<usize>,
    pub use_disk_buckets: bool,
}

impl Default for AccountsIndexConfig {
    /// A default configuration: default worker count, memory-only.
    fn default() -> (r: Self)
        ensures
            r.flush_threads is None,
            !r.use_disk_buckets,
    {
        AccountsIndexConfig { flush_threads: None, use_disk_buckets: false }
    }
}

/// The worker count a configuration asks for: the configured `flush_threads`
/// when one is named, the default otherwise.
pub open spec fn spec_flush_thread_count(config: Option<AccountsIndexConfig>) -> usize {
    match config {
        Some(c) => match c.flush_threads {
            Some(n) => n,
            None => DEFAULT_FLUSH_THREADS,
        },
        None => DEFAULT_FLUSH_THREADS,
    }
}

/// Whether a configuration asks for persistent bucket storage.
pub open spec fn spec_disk_configured(config: Option<AccountsIndexConfig>) -> bool {
    match config {
        Some(c) => c.use_disk_buckets,
        None => false,
    }
}

/// The number of background workers to spawn for `config`.
pub fn flush_thread_count(config: &Option<AccountsIndexConfig>) -> (r: usize)
    ensures
        r == spec_flush_thread_count(*config),
{
    match config {
        Some(c) => match c.flush_threads {
            Some(n) => n,
            None => DEFAULT_FLUSH_THREADS,
        },
        None => DEFAULT_FLUSH_THREADS,
    }
}

/// Whether `config` asks for persistent bucket storage.
pub fn disk_configured(config: &Option<AccountsIndexConfig>) -> (r: bool)
    ensures
        r == spec_disk_configured(*config),
{
    match config {
        Some(c) => c.use_disk_buckets,
        None => false,
    }
}

} // verus!
