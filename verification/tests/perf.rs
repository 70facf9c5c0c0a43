use bog_core::perf::metrics::{CacheAligned, Metrics, PaddedCounter};

#[test]
fn test_metrics_alignment() {
    assert_eq!(std::mem::align_of::<Metrics>(), 64);
    // Each counter fills a whole cache line, so neighbouring counters are 64 bytes apart.
    assert_eq!(std::mem::size_of::<PaddedCounter>(), 64);
    assert_eq!(std::mem::size_of::<Metrics>(), 5 * 64);
}

#[test]
fn test_metrics_operations() {
    let mut metrics = Metrics::new();
    metrics.inc_updates();
    metrics.inc_updates();
    metrics.inc_signals();
    metrics.inc_orders();
    metrics.add_latency(100);
    let snapshot = metrics.snapshot();
    assert_eq!(snapshot.updates_received, 2);
    assert_eq!(snapshot.signals_generated, 1);
    assert_eq!(snapshot.orders_placed, 1);
    assert_eq!(snapshot.total_latency_ns, 100);
}

#[test]
fn test_cache_aligned() {
    let aligned = CacheAligned::new(42u64);
    assert_eq!(std::mem::align_of::<CacheAligned<u64>>(), 64);
    assert_eq!(*aligned.get(), 42);
}

#[test]
fn cache_aligned_get_mut_and_into_inner() {
    let mut aligned = CacheAligned::new(1u64);
    *aligned.get_mut() = 7;
    assert_eq!(aligned.into_inner(), 7);
}

#[test]
fn test_metrics_reset() {
    let mut metrics = Metrics::new();
    metrics.inc_updates();
    metrics.inc_signals();
    assert_eq!(metrics.snapshot().updates_received, 1);
    metrics.reset();
    assert_eq!(metrics.snapshot().updates_received, 0);
    assert_eq!(metrics.snapshot().signals_generated, 0);
}

#[test]
fn metrics_counters_wrap() {
    let mut metrics = Metrics::new();
    metrics.add_latency(u64::MAX);
    metrics.add_latency(2);
    assert_eq!(metrics.snapshot().total_latency_ns, 1);
    metrics.inc_fills();
    assert_eq!(metrics.snapshot().fills_received, 1);
}
