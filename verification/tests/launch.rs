//! Launch-path behavior: the entry points return the submitted future's
//! output, apply the mandatory configuration in place, and surface
//! construction failure from `build` as an error.

use oxide_tokio_rt::build;
use oxide_tokio_rt::run;
use oxide_tokio_rt::run_builder;
use oxide_tokio_rt::BuildError;
use oxide_tokio_rt::Flavor;
use oxide_tokio_rt::RuntimeBuilder;
use std::sync::atomic::AtomicBool;
use std::sync::atomic::Ordering;
use std::sync::Arc;

#[test]
fn run_returns_literal_value() {
    let out = run(async { 42 });
    assert_eq!(out, 42);
}

#[test]
fn run_passes_through_string() {
    let out = run(async { String::from("hello from the runtime") });
    assert_eq!(out, "hello from the runtime");
}

#[test]
fn run_builder_current_thread_returns_output() {
    let mut builder = RuntimeBuilder::new_current_thread();
    let out = run_builder(&mut builder, async { 7u32 });
    assert_eq!(out, 7u32);
}

#[test]
fn run_builder_with_worker_count_returns_output() {
    let mut builder = RuntimeBuilder::new_multi_thread();
    builder.worker_threads(4);
    let out = run_builder(&mut builder, async { 2 + 3 });
    assert_eq!(out, 5);
    assert_eq!(builder.worker_count, Some(4));
}

#[test]
fn build_applies_overrides_in_place() {
    let mut builder = RuntimeBuilder::new_current_thread();
    assert!(!builder.io_enabled);
    assert!(!builder.time_enabled);
    assert!(!builder.lifo_slot_disabled);
    assert!(!builder.sequential_worker_names);
    let rt = build(&mut builder).expect("construction should succeed");
    assert!(builder.io_enabled);
    assert!(builder.time_enabled);
    assert!(builder.lifo_slot_disabled);
    assert!(builder.sequential_worker_names);
    drop(rt);
}

#[test]
fn build_returns_usable_runtime() {
    let mut builder = RuntimeBuilder::new_multi_thread();
    let rt = build(&mut builder).expect("construction should succeed");
    let out = rt.block_on(async { 2 + 2 });
    assert_eq!(out, 4);
}

#[test]
fn build_twice_from_independent_builders() {
    let mut first = RuntimeBuilder::new_multi_thread();
    let mut second = RuntimeBuilder::new_multi_thread();
    let rt1 = build(&mut first).expect("first construction should succeed");
    let rt2 = build(&mut second).expect("second construction should succeed");
    assert_eq!(rt1.block_on(async { 1 }), 1);
    assert_eq!(rt2.block_on(async { 2 }), 2);
}

#[test]
fn build_rejects_zero_worker_threads() {
    let mut builder = RuntimeBuilder::new_multi_thread();
    builder.worker_threads(0);
    match build(&mut builder) {
        Ok(_) => panic!("a zero worker count must not produce a runtime"),
        Err(BuildError::RuntimeConstruction(cause)) => {
            assert_eq!(cause, "worker threads cannot be set to zero");
        }
        Err(other) => panic!("unexpected error kind: {other:?}"),
    }
}

#[test]
fn worker_count_last_write_wins() {
    let mut builder = RuntimeBuilder::new_multi_thread();
    builder.worker_threads(0);
    builder.worker_threads(3);
    assert_eq!(builder.worker_count, Some(3));
    let rt = build(&mut builder).expect("three workers are a valid count");
    assert_eq!(rt.block_on(async { 9 }), 9);
}

#[test]
fn registered_thread_start_callback_never_runs() {
    let fired = Arc::new(AtomicBool::new(false));
    let observer = Arc::clone(&fired);
    let mut builder = RuntimeBuilder::new_multi_thread();
    builder.worker_threads(2);
    builder.on_thread_start(move || {
        observer.store(true, Ordering::SeqCst);
    });
    let out = run_builder(&mut builder, async { 11 });
    assert_eq!(out, 11);
    assert!(
        !fired.load(Ordering::SeqCst),
        "the caller's thread-start callback must be overwritten, not run"
    );
}

#[test]
fn feature_toggles_enable_drivers() {
    let mut builder = RuntimeBuilder::new_current_thread();
    builder.enable_io();
    assert!(builder.io_enabled);
    assert!(!builder.time_enabled);
    builder.enable_time();
    assert!(builder.time_enabled);
    let mut other = RuntimeBuilder::new_multi_thread();
    other.enable_all();
    assert!(other.io_enabled);
    assert!(other.time_enabled);
}

#[test]
fn constructors_pick_the_flavor() {
    let multi = RuntimeBuilder::new_multi_thread();
    assert!(matches!(multi.flavor, Flavor::MultiThread));
    assert_eq!(multi.worker_count, None);
    let single = RuntimeBuilder::new_current_thread();
    assert!(matches!(single.flavor, Flavor::CurrentThread));
    assert_eq!(single.worker_count, None);
}
