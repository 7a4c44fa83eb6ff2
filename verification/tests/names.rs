//! The worker-thread naming scheme: exact formatting and distinctness.

use oxide_tokio_rt::fresh_worker_name;
use oxide_tokio_rt::worker_name;
use std::collections::HashSet;
use std::sync::atomic::AtomicU64;

#[test]
fn worker_name_formats_small_values() {
    assert_eq!(worker_name(0), "tokio-rt-0");
    assert_eq!(worker_name(1), "tokio-rt-1");
    assert_eq!(worker_name(7), "tokio-rt-7");
    assert_eq!(worker_name(9), "tokio-rt-9");
}

#[test]
fn worker_name_formats_multi_digit_values() {
    assert_eq!(worker_name(10), "tokio-rt-10");
    assert_eq!(worker_name(42), "tokio-rt-42");
    assert_eq!(worker_name(100), "tokio-rt-100");
    assert_eq!(worker_name(12345), "tokio-rt-12345");
}

#[test]
fn worker_name_formats_largest_value() {
    assert_eq!(worker_name(u64::MAX), "tokio-rt-18446744073709551615");
}

#[test]
fn worker_names_are_distinct() {
    let mut seen: HashSet<String> = HashSet::new();
    for n in 0..500u64 {
        assert!(seen.insert(worker_name(n)), "duplicate name for {n}");
    }
}

#[test]
fn fresh_worker_name_draws_sequentially() {
    let counter = AtomicU64::new(0);
    assert_eq!(fresh_worker_name(&counter), "tokio-rt-0");
    assert_eq!(fresh_worker_name(&counter), "tokio-rt-1");
    assert_eq!(fresh_worker_name(&counter), "tokio-rt-2");
}

#[test]
fn fresh_worker_name_continues_from_counter_value() {
    let counter = AtomicU64::new(41);
    assert_eq!(fresh_worker_name(&counter), "tokio-rt-41");
    assert_eq!(fresh_worker_name(&counter), "tokio-rt-42");
}
