use accounts_index_storage::accounts_index::AccountsIndexConfig;
use accounts_index_storage::scan_pass;
use accounts_index_storage::AccountsIndexStorage;
use core::sync::atomic::Ordering;

fn disk_config() -> Option<AccountsIndexConfig> {
    Some(AccountsIndexConfig { flush_threads: None, use_disk_buckets: true })
}

#[test]
fn memory_only_scan_never_flushes() {
    let a = AccountsIndexStorage::new(4, &None);
    for _ in 0..3 {
        let flushed = scan_pass(&a.storage, &a.in_mem);
        assert_eq!(flushed, 0);
    }
    assert_eq!(a.storage.stats.flush_calls.load(Ordering::Relaxed), 0);
    assert_eq!(a.storage.stats.scan_passes.load(Ordering::Relaxed), 3);
    assert_eq!(a.storage.stats.bin_iterations.load(Ordering::Relaxed), 12);
    assert_eq!(a.storage.stats.reports.load(Ordering::Relaxed), 12);
    for shard in a.in_mem.iter() {
        assert_eq!(shard.flush_count(), 0);
    }
}

#[test]
fn disk_scan_flushes_once_per_bin() {
    let a = AccountsIndexStorage::new(8, &disk_config());
    let flushed = scan_pass(&a.storage, &a.in_mem);
    assert_eq!(flushed, 8);
    assert_eq!(a.storage.stats.flush_calls.load(Ordering::Relaxed), 8);
    assert_eq!(a.storage.stats.scan_passes.load(Ordering::Relaxed), 1);
    assert_eq!(a.storage.stats.bin_iterations.load(Ordering::Relaxed), 8);
}

#[test]
fn repeated_scans_reach_every_bin() {
    let a = AccountsIndexStorage::new(3, &disk_config());
    for _ in 0..2 {
        scan_pass(&a.storage, &a.in_mem);
    }
    for shard in a.in_mem.iter() {
        assert_eq!(shard.flush_count(), 2);
    }
    assert_eq!(a.storage.stats.flush_calls.load(Ordering::Relaxed), 6);
}

#[test]
fn selection_policy_covers_every_bin_within_one_rotation() {
    let a = AccountsIndexStorage::new(5, &disk_config());
    let mut seen = [false; 5];
    for _ in 0..5 {
        let bin = a.storage.next_bucket_to_flush();
        assert!(bin < 5);
        seen[bin] = true;
    }
    assert!(seen.iter().all(|s| *s));
}

#[test]
fn zero_bins_scan_is_empty() {
    let a = AccountsIndexStorage::new(0, &disk_config());
    let flushed = scan_pass(&a.storage, &a.in_mem);
    assert_eq!(flushed, 0);
    assert_eq!(a.storage.stats.bin_iterations.load(Ordering::Relaxed), 0);
    assert_eq!(a.storage.stats.scan_passes.load(Ordering::Relaxed), 1);
}
