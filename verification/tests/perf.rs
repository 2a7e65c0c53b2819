use safer_ring::perf::{saturate_u64, MemoryTracker, PerfCounter, PerfRegistry, PerfTimer};
use std::time::{Duration, Instant};

const MS: u64 = 1_000_000;

#[test]
fn test_perf_counter() {
    let mut counter = PerfCounter::new();

    counter.record(10 * MS);
    counter.record(20 * MS);
    counter.record(5 * MS);

    let stats = counter.stats();
    assert_eq!(stats.count, 3);
    assert_eq!(stats.min_time, 5 * MS);
    assert_eq!(stats.max_time, 20 * MS);
    assert!(stats.avg_time >= 11 * MS);
    assert!(stats.avg_time <= 12 * MS);
}

#[test]
fn test_memory_tracker() {
    let mut tracker = MemoryTracker::new();

    tracker.record_alloc(1024);
    assert_eq!(tracker.current_usage(), 1024);
    assert_eq!(tracker.peak_usage(), 1024);

    tracker.record_alloc(2048);
    assert_eq!(tracker.current_usage(), 3072);
    assert_eq!(tracker.peak_usage(), 3072);

    tracker.record_dealloc(1024);
    assert_eq!(tracker.current_usage(), 2048);
    assert_eq!(tracker.peak_usage(), 3072);
}

#[test]
fn test_perf_registry() {
    let mut registry = PerfRegistry::new();

    registry.counter("test1").record(10 * MS);
    registry.counter("test2").record(20 * MS);

    let all_stats = registry.all_stats();
    assert_eq!(all_stats.len(), 2);
    assert!(all_stats.iter().any(|(name, _)| name == "test1"));
    assert!(all_stats.iter().any(|(name, _)| name == "test2"));
}

#[test]
fn empty_counter_reports_zeros_and_reset_forgets() {
    let mut counter = PerfCounter::default();
    let stats = counter.stats();
    assert_eq!((stats.count, stats.total_time, stats.avg_time, stats.min_time, stats.max_time), (0, 0, 0, 0, 0));
    counter.record(7);
    counter.record(3);
    let stats = counter.stats();
    assert_eq!((stats.count, stats.total_time, stats.avg_time, stats.min_time, stats.max_time), (2, 10, 5, 3, 7));
    counter.reset();
    assert_eq!(counter.stats().count, 0);
    assert_eq!(counter.stats().min_time, 0);
}

#[test]
fn registry_reuses_counters_and_resets_all() {
    let mut registry = PerfRegistry::new();
    registry.counter("read").record(4);
    registry.counter("read").record(6);
    registry.counter("write").record(1);
    registry.memory_tracker().record_alloc(100);
    let stats = registry.all_stats();
    assert_eq!(stats.len(), 2);
    assert_eq!(stats[0].0, "read");
    assert_eq!(stats[0].1.count, 2);
    assert_eq!(stats[0].1.avg_time, 5);
    assert_eq!(stats[1].0, "write");
    registry.reset_all();
    let stats = registry.all_stats();
    assert_eq!(stats.len(), 2);
    assert_eq!(stats[0].1.count, 0);
    assert_eq!(registry.memory_tracker().current_usage(), 0);
}

#[test]
fn memory_stats_snapshot() {
    let mut tracker = MemoryTracker::default();
    tracker.record_alloc(10);
    tracker.record_dealloc(4);
    let stats = tracker.stats();
    assert_eq!((stats.current, stats.peak, stats.total_allocs, stats.total_deallocs), (6, 10, 1, 1));
    tracker.reset();
    assert_eq!(tracker.peak_usage(), 0);
}

#[test]
fn test_perf_timer() {
    let mut counter = PerfCounter::new();

    {
        let _timer = PerfTimer::new(&mut counter);
        let start = Instant::now();
        while start.elapsed() < Duration::from_millis(10) {
            std::hint::spin_loop();
        }
    }

    let stats = counter.stats();
    assert_eq!(stats.count, 1);
    assert!(stats.total_time >= 9 * MS);
}

#[test]
fn saturation_keeps_small_counts_and_caps_large_ones() {
    assert_eq!(saturate_u64(1234), 1234);
    assert_eq!(saturate_u64(u64::MAX as u128), u64::MAX);
    assert_eq!(saturate_u64(u64::MAX as u128 + 5), u64::MAX);
}
