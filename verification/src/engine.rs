//! The boundary to the execution engine.
//!
//! Every call into tokio the crate makes goes through one of the wrappers
//! here, each with the contract it is trusted to uphold. The engine itself
//! — scheduler, work-stealing queues, I/O reactor — is an external
//! collaborator: this crate only configures it, builds it, and hands it one
//! top-level future.

use crate::errors::BuildError;
use crate::errors::ProbeOutcome;
use std::sync::atomic::AtomicU64;
use vstd::future::FutureAdditionalSpecFns;
use vstd::prelude::*;

verus! {

#[verifier::external_type_specification]
#[verifier::external_body]
pub struct ExTokioBuilder(tokio::runtime::Builder);

#[verifier::external_type_specification]
#[verifier::external_body]
pub struct ExRuntime(tokio::runtime::Runtime);

/// Relies on tokio::runtime::Builder::new_multi_thread: a fresh
/// configuration for the multi-threaded, work-stealing engine.
#[verifier::external_body]
pub(crate) fn engine_multi_thread() -> tokio::runtime::Builder {
    tokio::runtime::Builder::new_multi_thread()
}

/// Relies on tokio::runtime::Builder::new_current_thread: a fresh
/// configuration for the single-threaded engine.
#[verifier::external_body]
pub(crate) fn engine_current_thread() -> tokio::runtime::Builder {
    tokio::runtime::Builder::new_current_thread()
}

/// Relies on tokio::runtime::Builder::worker_threads: records the worker
/// count for a multi-threaded runtime. The engine panics on a count of
/// zero, so zero is excluded here and reported as an error by the caller
/// before this point is reached.
#[verifier::external_body]
pub(crate) fn engine_worker_threads(b: &mut tokio::runtime::Builder, n: usize)
    requires
        n >= 1,
{
    b.worker_threads(n);
}

/// Relies on tokio::runtime::Builder::enable_all: enables every optional
/// engine feature that is compiled in, in particular the I/O and time
/// drivers.
#[verifier::external_body]
pub(crate) fn engine_enable_all(b: &mut tokio::runtime::Builder) {
    b.enable_all();
}

/// Relies on tokio::runtime::Builder::thread_name_fn: the engine calls the
/// installed closure once for every thread it creates for this runtime —
/// scheduler workers and blocking-pool threads alike — at creation time,
/// and names the thread with the returned string. The closure hands each
/// name out through [`crate::naming::fresh_worker_name`] on the counter it
/// owns, so the names are sequential in creation order.
#[verifier::external_body]
pub(crate) fn engine_thread_namer(b: &mut tokio::runtime::Builder, counter: AtomicU64) {
    let counter = std::sync::Arc::new(counter);
    b.thread_name_fn(move || crate::naming::fresh_worker_name(&counter));
}

/// Relies on tokio_dtrace::register_hooks: where the deployment compiles
/// the engine's unstable hook surface in, it registers this process's
/// dtrace probes and installs the probe-emitting hooks on every lifecycle
/// callback slot of the configuration, reporting a registration failure
/// as an error; where that surface is not compiled in, it declines with
/// its unstable-features-required error and leaves the configuration
/// untouched.
#[verifier::external_body]
pub(crate) fn engine_register_probes(b: &mut tokio::runtime::Builder) -> ProbeOutcome {
    match tokio_dtrace::register_hooks(b) {
        Ok(_) => ProbeOutcome::Registered,
        Err(tokio_dtrace::RegistrationError::UnstableFeaturesRequired) => ProbeOutcome::Unsupported,
        Err(e) => ProbeOutcome::Failed(e.to_string()),
    }
}

/// Relies on tokio::runtime::Builder::build: constructs the runtime from
/// the prepared configuration. A failure setting up the runtime — in this
/// engine version, creating its drivers — comes back as its message.
#[verifier::external_body]
pub(crate) fn engine_build(b: &mut tokio::runtime::Builder) -> Result<
    tokio::runtime::Runtime,
    String,
> {
    match b.build() {
        Ok(rt) => Ok(rt),
        Err(e) => Err(e.to_string()),
    }
}

/// Relies on tokio::runtime::Runtime::block_on: blocks the calling thread
/// until the given future resolves on the runtime and returns the future's
/// output, the engine's "run this future to completion" primitive.
#[verifier::external_body]
pub(crate) fn block_on<T, F: core::future::Future<Output = T>>(
    rt: tokio::runtime::Runtime,
    main: F,
) -> (t: T)
    ensures
        t == main@,
{
    rt.block_on(main)
}

/// Relies on Result::unwrap: hands back the runtime when construction
/// succeeded. When it failed, unwrap stops the process with the error's
/// diagnostic instead of returning — the simple entry points define a
/// process without a runtime as unrecoverable, so the panicking input is
/// admitted here on purpose, and this is the one place that decides it.
#[verifier::external_body]
pub(crate) fn runtime_or_fatal(r: Result<tokio::runtime::Runtime, BuildError>) -> (rt: tokio::runtime::Runtime)
    ensures
        (r == Ok::<tokio::runtime::Runtime, BuildError>(rt)),
{
    r.unwrap()
}

} // verus!
