//! A thin, standardized initialization layer for a process's asynchronous
//! task-execution runtime.
//!
//! Every program that boots its runtime through this crate gets the same
//! vetted configuration: the I/O and time drivers enabled, the per-worker
//! fast-path wake slot recorded as disabled, and worker threads named
//! sequentially from a counter created with the runtime. Where the
//! platform's tracing-probe integration is compiled in, its hooks are
//! registered before anything else and a registration failure stops the
//! build. The [`run`] and [`run_builder`] entry points construct the
//! runtime and drive one top-level future to completion; [`build`] returns
//! the runtime itself and surfaces construction failure as a recoverable
//! error.

use vstd::prelude::*;

use std::sync::atomic::AtomicU64;
use vstd::future::FutureAdditionalSpecFns;

mod builder;
mod engine;
mod errors;
mod naming;

pub use builder::RuntimeBuilder;
pub use builder::Flavor;
pub use builder::mandatory_overrides_applied;
pub use errors::BuildError;
pub use errors::construction_message_prefix;
pub use errors::construction_outcome_to_result;
pub use errors::probe_stage_failed;
pub use errors::probe_message_prefix;
pub use errors::probe_outcome_to_result;
pub use errors::ProbeOutcome;
pub use errors::zero_workers_cause;
pub use naming::fresh_worker_name;
pub use naming::is_worker_name;
pub use naming::lemma_worker_names_distinct;
pub use naming::spec_decimal;
pub use naming::spec_digit;
pub use naming::spec_worker_name;
pub use naming::worker_name;

verus! {

/// Applies this crate's mandatory configuration to the provided builder and
/// constructs a new runtime.
///
/// The steps run in a fixed order. First the platform's tracing-probe
/// hooks are registered where the deployment compiles them in; a
/// registration failure ends the build at once, with the caller's builder
/// left untouched. Then the mandatory overrides — every optional engine
/// feature enabled, the fast-path wake slot recorded as disabled,
/// sequential worker-thread naming — are applied to `builder` in place, on
/// top of whatever the caller set, and the runtime is built; the
/// caller-chosen threading mode and worker count are kept. The wake-slot
/// override is a recorded policy: the engine accepts that switch only
/// through its unstable, opt-in configuration surface, which this crate
/// does not drive. Use this entry point when the runtime itself is needed;
/// for simpler use-cases, [`run_builder`] builds and immediately drives
/// one future.
///
/// # Errors
///
/// Construction failure is returned as a [`BuildError`] for the caller to
/// handle: a failure registering the platform's tracing probes where the
/// deployment enables them, a requested worker count of zero, or the
/// engine failing to construct the runtime from the configuration.
pub fn build(builder: &mut RuntimeBuilder) -> (r: Result<tokio::runtime::Runtime, BuildError>)
    ensures
        probe_stage_failed(r) ==> *final(builder) == *old(builder),
        !probe_stage_failed(r) ==> (mandatory_overrides_applied(*final(builder))
            && final(builder).flavor == old(builder).flavor
            && final(builder).worker_count == old(builder).worker_count),
        old(builder).worker_count == Some(0usize) ==> (probe_stage_failed(r) || (r matches Err(e)
            && e matches BuildError::RuntimeConstruction(c) && c@ == zero_workers_cause())),
{
    let mut engine_builder: tokio::runtime::Builder = match builder.flavor {
        Flavor::CurrentThread => engine::engine_current_thread(),
        Flavor::MultiThread => engine::engine_multi_thread(),
    };
    let probes: ProbeOutcome = engine::engine_register_probes(&mut engine_builder);
    if let Err(e) = probe_outcome_to_result(probes) {
        return Err(e);
    }
    builder.apply_mandatory_overrides();
    if let Some(n) = builder.worker_count {
        if n == 0 {
            return Err(
                BuildError::RuntimeConstruction("worker threads cannot be set to zero".to_owned()),
            );
        }
    }
    if let Some(n) = builder.worker_count {
        engine::engine_worker_threads(&mut engine_builder, n);
    }
    engine::engine_enable_all(&mut engine_builder);
    let counter: AtomicU64 = AtomicU64::new(0);
    engine::engine_thread_namer(&mut engine_builder, counter);
    construction_outcome_to_result(engine::engine_build(&mut engine_builder))
}

/// Runs the provided `main` future to completion, constructing the runtime
/// from the provided builder, and returns the future's output.
///
/// The mandatory overrides of [`build`] are applied to `builder` first;
/// any thread-lifecycle callbacks the caller registered on it are
/// overwritten by the thread-naming scheme and never run.
///
/// # Panics
///
/// If the runtime could not be constructed, the process stops with the
/// construction error's diagnostic instead of returning: a process with no
/// execution runtime has no meaningful way to continue, and surfacing an
/// unrecoverable condition as a recoverable error would only force dead
/// error-handling paths on every caller.
pub fn run_builder<T, F: core::future::Future<Output = T>>(builder: &mut RuntimeBuilder, main: F) -> (t: T)
    ensures
        t == main@,
        mandatory_overrides_applied(*final(builder)),
        final(builder).flavor == old(builder).flavor,
        final(builder).worker_count == old(builder).worker_count,
{
    let r = build(builder);
    let rt = engine::runtime_or_fatal(r);
    engine::block_on(rt, main)
}

/// Runs the provided `main` future to completion on a multi-threaded
/// runtime with the default configuration, and returns the future's
/// output.
///
/// This is the zero-configuration entry point for the common case; to set
/// the worker count or use a single-threaded runtime, use [`run_builder`].
///
/// # Panics
///
/// As for [`run_builder`]: if the runtime could not be constructed, the
/// process stops with a diagnostic instead of returning.
pub fn run<T, F: core::future::Future<Output = T>>(main: F) -> (t: T)
    ensures
        t == main@,
{
    let mut builder = RuntimeBuilder::new_multi_thread();
    run_builder(&mut builder, main)
}

} // verus!
