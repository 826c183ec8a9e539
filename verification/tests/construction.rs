use accounts_index_storage::accounts_index::AccountsIndexConfig;
use accounts_index_storage::accounts_index::flush_thread_count;
use accounts_index_storage::AccountsIndexStorage;
use core::sync::atomic::Ordering;

#[test]
fn shard_count_matches_bins() {
    for bins in [0usize, 1, 4, 17] {
        let a = AccountsIndexStorage::new(bins, &None);
        assert_eq!(a.in_mem.len(), bins);
        assert_eq!(a.storage.bins, bins);
        for (i, shard) in a.in_mem.iter().enumerate() {
            assert_eq!(shard.bin, i);
        }
    }
}

#[test]
fn worker_count_defaults_to_one() {
    let a = AccountsIndexStorage::new(2, &None);
    assert_eq!(a.flush_threads, 1);
    let cfg = AccountsIndexConfig { flush_threads: None, use_disk_buckets: false };
    let b = AccountsIndexStorage::new(2, &Some(cfg));
    assert_eq!(b.flush_threads, 1);
}

#[test]
fn worker_count_follows_configuration() {
    let cfg = AccountsIndexConfig { flush_threads: Some(5), use_disk_buckets: false };
    let a = AccountsIndexStorage::new(3, &Some(cfg));
    assert_eq!(a.flush_threads, 5);
    assert_eq!(flush_thread_count(&Some(cfg)), 5);
    let zero = AccountsIndexConfig { flush_threads: Some(0), use_disk_buckets: false };
    assert_eq!(flush_thread_count(&Some(zero)), 0);
    assert_eq!(flush_thread_count(&None), 1);
}

#[test]
fn default_configuration_is_memory_only() {
    let cfg = AccountsIndexConfig::default();
    assert!(cfg.flush_threads.is_none());
    assert!(!cfg.use_disk_buckets);
    let a = AccountsIndexStorage::new(4, &Some(cfg));
    assert!(!a.storage.disk_configured);
}

#[test]
fn disk_configuration_is_recorded() {
    let cfg = AccountsIndexConfig { flush_threads: None, use_disk_buckets: true };
    let a = AccountsIndexStorage::new(4, &Some(cfg));
    assert!(a.storage.disk_configured);
    let b = AccountsIndexStorage::new(4, &None);
    assert!(!b.storage.disk_configured);
}

#[test]
fn storage_accessor_returns_the_shared_handle() {
    let a = AccountsIndexStorage::new(6, &None);
    let storage = a.storage();
    assert_eq!(storage.bins, 6);
    assert_eq!(storage.stats.scan_passes.load(Ordering::Relaxed), 0);
    assert_eq!(storage.stats.flush_calls.load(Ordering::Relaxed), 0);
    assert_eq!(storage.stats.active_threads.load(Ordering::Relaxed), 0);
}
