use accounts_index_storage::accounts_index::AccountsIndexConfig;
use accounts_index_storage::worker_cycle;
use accounts_index_storage::AccountsIndexStorage;
use core::sync::atomic::Ordering;
use std::time::Instant;

#[test]
fn shutdown_is_observed_on_the_next_wake() {
    let a = AccountsIndexStorage::new(4, &None);
    a.request_shutdown();
    assert!(a.exit.load(Ordering::Relaxed));
    let start = Instant::now();
    let exited = worker_cycle(&a.storage, &a.exit, &a.in_mem);
    assert!(exited);
    // Well before the 10-second wait timeout: the wait sees the flag at once.
    assert!(start.elapsed().as_secs() < 5);
    assert_eq!(a.storage.stats.scan_passes.load(Ordering::Relaxed), 0);
    assert_eq!(a.storage.stats.active_threads.load(Ordering::Relaxed), 0);
}

#[test]
fn broadcast_wakes_a_cycle_promptly() {
    let a = AccountsIndexStorage::new(4, &None);
    let start = Instant::now();
    for pass in 1..=2u64 {
        a.storage.wait_dirty_or_aged.notify_all();
        let exited = worker_cycle(&a.storage, &a.exit, &a.in_mem);
        assert!(!exited);
        assert_eq!(a.storage.stats.scan_passes.load(Ordering::Relaxed), pass);
        assert_eq!(a.storage.stats.active_threads.load(Ordering::Relaxed), 0);
    }
    // Both cycles were signal-driven, not timeout-driven.
    assert!(start.elapsed().as_secs() < 5);
    assert_eq!(a.storage.stats.flush_calls.load(Ordering::Relaxed), 0);
    assert_eq!(a.storage.stats.bin_iterations.load(Ordering::Relaxed), 8);
    a.request_shutdown();
    assert!(worker_cycle(&a.storage, &a.exit, &a.in_mem));
}

#[test]
fn a_missed_broadcast_still_wakes_by_timeout() {
    let a = AccountsIndexStorage::new(0, &None);
    let start = Instant::now();
    // No broadcast and no shutdown: the bounded wait must elapse on its own
    // and the worker must come back rather than sleep forever.
    let exited = worker_cycle(&a.storage, &a.exit, &a.in_mem);
    assert!(!exited);
    let waited = start.elapsed();
    assert!(waited.as_secs() >= 8);
    assert!(waited.as_secs() < 18);
    assert_eq!(a.storage.stats.scan_passes.load(Ordering::Relaxed), 1);
}

#[test]
fn zero_bins_release_is_clean() {
    let cfg = AccountsIndexConfig { flush_threads: Some(2), use_disk_buckets: false };
    let a = AccountsIndexStorage::new(0, &Some(cfg));
    assert_eq!(a.flush_threads, 2);
    a.request_shutdown();
    // Both workers' next cycles observe shutdown; no bin was ever iterated.
    assert!(worker_cycle(&a.storage, &a.exit, &a.in_mem));
    assert!(worker_cycle(&a.storage, &a.exit, &a.in_mem));
    assert_eq!(a.storage.stats.bin_iterations.load(Ordering::Relaxed), 0);
    assert_eq!(a.storage.stats.scan_passes.load(Ordering::Relaxed), 0);
    assert_eq!(a.storage.stats.active_threads.load(Ordering::Relaxed), 0);
}

#[test]
fn configured_run_flushes_and_winds_down() {
    let cfg = AccountsIndexConfig { flush_threads: Some(3), use_disk_buckets: true };
    let a = AccountsIndexStorage::new(8, &Some(cfg));
    assert_eq!(a.flush_threads, 3);
    for _ in 0..3 {
        a.storage.wait_dirty_or_aged.notify_all();
        let exited = worker_cycle(&a.storage, &a.exit, &a.in_mem);
        assert!(!exited);
        assert_eq!(a.storage.stats.active_threads.load(Ordering::Relaxed), 0);
    }
    for shard in a.in_mem.iter() {
        assert!(shard.flush_count() >= 1);
    }
    assert_eq!(a.storage.stats.flush_calls.load(Ordering::Relaxed), 24);
    a.request_shutdown();
    assert!(worker_cycle(&a.storage, &a.exit, &a.in_mem));
    assert_eq!(a.storage.stats.active_threads.load(Ordering::Relaxed), 0);
}
