//! The runtime configuration object.
//!
//! A [`RuntimeBuilder`] describes the shape of the runtime to construct: its
//! threading mode, worker count and feature toggles. The caller owns it and
//! may set the shape freely; the configurer applies a non-negotiable policy
//! on top of it before the runtime is built (see
//! [`mandatory_overrides_applied`]), and callers cannot opt out of that
//! policy through this object.

use vstd::prelude::*;

verus! {

/// Threading mode of the runtime to construct.
#[derive(Clone, Copy, Debug)]
pub enum Flavor {
    /// Every task runs on the thread that drives the top-level future.
    CurrentThread,
    /// A work-stealing pool of worker threads runs the tasks.
    MultiThread,
}

/// Description of the runtime to construct.
///
/// The fields are plain values so that what a launch will do can be read
/// off (and reasoned about) directly. A builder is meant to configure one
/// runtime: build from two independent builders rather than reusing one.
#[derive(Clone, Copy, Debug)]
pub struct RuntimeBuilder {
    /// Threading mode of the runtime.
    pub flavor: Flavor,
    /// Number of worker threads, or `None` for the engine's default. A
    /// count of zero is rejected when the runtime is built.
    pub worker_count: Option<usize>,
    /// Whether the I/O driver is enabled.
    pub io_enabled: bool,
    /// Whether the time driver is enabled.
    pub time_enabled: bool,
    /// Whether the engine's fast-path wake slot is disabled. The slot
    /// prioritizes the last-woken task ahead of the worker's run queue but
    /// does not participate in work stealing, so a woken task that turns
    /// CPU-bound starves the other ready tasks on its worker; this crate
    /// therefore records the slot as disabled in every configuration it
    /// builds. The engine itself accepts this switch only through its
    /// unstable, opt-in configuration surface, which lies outside what
    /// this crate drives: deployments that opt in can read the policy off
    /// this field and forward it.
    pub lifo_slot_disabled: bool,
    /// Whether worker threads are named sequentially, as
    /// [`crate::worker_name`] formats them, from a counter created with
    /// the runtime and shared by that runtime's threads (see
    /// [`crate::fresh_worker_name`]; numbering restarts with each
    /// runtime built).
    pub sequential_worker_names: bool,
}

/// The policy this crate applies to every configuration before building:
/// full engine capability (I/O and time drivers), the fast-path wake slot
/// recorded as disabled — a policy the engine itself honors only where a
/// deployment opts into its unstable configuration surface, which this
/// crate does not drive — and sequential worker-thread naming.
pub open spec fn mandatory_overrides_applied(b: RuntimeBuilder) -> bool {
    &&& b.io_enabled
    &&& b.time_enabled
    &&& b.lifo_slot_disabled
    &&& b.sequential_worker_names
}

impl RuntimeBuilder {
    /// A fresh multi-threaded configuration with the engine's default
    /// worker count and no features enabled yet.
    pub fn new_multi_thread() -> (b: RuntimeBuilder)
        ensures
            b.flavor is MultiThread,
            b.worker_count is None,
            !b.io_enabled,
            !b.time_enabled,
            !b.lifo_slot_disabled,
            !b.sequential_worker_names,
    {
        RuntimeBuilder {
            flavor: Flavor::MultiThread,
            worker_count: None,
            io_enabled: false,
            time_enabled: false,
            lifo_slot_disabled: false,
            sequential_worker_names: false,
        }
    }

    /// A fresh single-threaded configuration: the thread that drives the
    /// top-level future runs every task.
    pub fn new_current_thread() -> (b: RuntimeBuilder)
        ensures
            b.flavor is CurrentThread,
            b.worker_count is None,
            !b.io_enabled,
            !b.time_enabled,
            !b.lifo_slot_disabled,
            !b.sequential_worker_names,
    {
        RuntimeBuilder {
            flavor: Flavor::CurrentThread,
            worker_count: None,
            io_enabled: false,
            time_enabled: false,
            lifo_slot_disabled: false,
            sequential_worker_names: false,
        }
    }

    /// Requests `n` worker threads. The value is recorded as given; a zero
    /// count is reported as a construction failure by [`crate::build`]
    /// rather than accepted.
    pub fn worker_threads(&mut self, n: usize)
        ensures
            final(self).worker_count == Some(n),
            final(self).flavor == old(self).flavor,
            final(self).io_enabled == old(self).io_enabled,
            final(self).time_enabled == old(self).time_enabled,
            final(self).lifo_slot_disabled == old(self).lifo_slot_disabled,
            final(self).sequential_worker_names == old(self).sequential_worker_names,
    {
        self.worker_count = Some(n);
    }

    /// Enables the I/O driver.
    pub fn enable_io(&mut self)
        ensures
            *final(self) == (RuntimeBuilder { io_enabled: true, ..*old(self) }),
    {
        self.io_enabled = true;
    }

    /// Enables the time driver.
    pub fn enable_time(&mut self)
        ensures
            *final(self) == (RuntimeBuilder { time_enabled: true, ..*old(self) }),
    {
        self.time_enabled = true;
    }

    /// Enables every optional engine feature (the I/O and time drivers).
    pub fn enable_all(&mut self)
        ensures
            *final(self) == (RuntimeBuilder { io_enabled: true, time_enabled: true, ..*old(self) }),
    {
        self.io_enabled = true;
        self.time_enabled = true;
    }

    /// Accepts a thread-start callback for interface parity with the
    /// underlying engine's builder — and retains nothing: the configurer
    /// unconditionally overwrites every thread-lifecycle callback with its
    /// own thread-naming scheme, so a callback registered here never
    /// reaches the engine and never runs. Callers that need their own
    /// lifecycle callbacks must drive the engine's builder directly
    /// instead of using this crate.
    pub fn on_thread_start<F: Fn() + Send + Sync + 'static>(&mut self, f: F)
        ensures
            *final(self) == *old(self),
    {
        let _ = f;
    }

    /// Applies the mandatory policy in place, leaving the caller-chosen
    /// shape (threading mode and worker count) untouched.
    pub(crate) fn apply_mandatory_overrides(&mut self)
        ensures
            mandatory_overrides_applied(*final(self)),
            final(self).flavor == old(self).flavor,
            final(self).worker_count == old(self).worker_count,
    {
        self.io_enabled = true;
        self.time_enabled = true;
        self.lifo_slot_disabled = true;
        self.sequential_worker_names = true;
    }
}

} // verus!
