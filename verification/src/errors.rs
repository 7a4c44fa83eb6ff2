//! The failure taxonomy of runtime construction.
//!
//! Construction can fail in two ways: registering the platform's optional
//! tracing probes on the configuration failed, or the engine could not
//! construct the runtime (typically because a worker thread could not be
//! spawned). The low-level [`crate::build`] entry point surfaces either as
//! a [`BuildError`]; the simple entry points treat either as fatal.

use vstd::prelude::*;
use vstd::string::StringExecFns;

verus! {

/// Why a runtime could not be constructed. Each variant carries the
/// underlying cause as text.
#[derive(Debug)]
pub enum BuildError {
    /// Registering the platform tracing-probe hooks on the configuration
    /// failed. Where the platform claims probe support, this is an error
    /// rather than a silent downgrade.
    ProbeRegistration(String),
    /// The engine rejected the configuration or could not construct the
    /// runtime from it.
    RuntimeConstruction(String),
}

/// The text that introduces a probe-registration failure.
pub open spec fn probe_message_prefix() -> Seq<char> {
    "failed to initialize tokio-dtrace probes: "@
}

/// The text that introduces an engine-construction failure.
pub open spec fn construction_message_prefix() -> Seq<char> {
    "failed to initialize Tokio runtime: "@
}

/// The cause reported when a configuration requests zero worker threads.
pub open spec fn zero_workers_cause() -> Seq<char> {
    "worker threads cannot be set to zero"@
}

/// The transient outcome of attempting to attach the platform's tracing
/// probes to a configuration. It is consumed immediately by the
/// configurer, which turns it into a verdict through
/// [`probe_outcome_to_result`].
pub enum ProbeOutcome {
    /// The probe hooks were registered on the configuration.
    Registered,
    /// The deployment leaves the engine's hook surface — and with it the
    /// probe integration — switched off, so there is nothing to register
    /// and nothing failed.
    Unsupported,
    /// The platform offers the probe integration but registration failed,
    /// for the recorded cause.
    Failed(String),
}

/// Decides what a probe-registration outcome means for construction:
/// registration that succeeded, or that the deployment never asked for,
/// lets construction proceed; a failed registration is a configuration
/// error rather than a silent downgrade, because the system must not
/// continue without tracing where the platform offers it.
pub fn probe_outcome_to_result(o: ProbeOutcome) -> (r: Result<(), BuildError>)
    ensures
        ((o is Registered || o is Unsupported) <==> r is Ok),
        o matches ProbeOutcome::Failed(c) ==> (r matches Err(e) && e matches
            BuildError::ProbeRegistration(p) && p@ == c@),
{
    match o {
        ProbeOutcome::Registered => Ok(()),
        ProbeOutcome::Unsupported => Ok(()),
        ProbeOutcome::Failed(c) => Err(BuildError::ProbeRegistration(c)),
    }
}

/// Whether a construction result reports a probe-registration failure.
/// That failure is decided before the configurer touches the caller's
/// builder, so [`crate::build`] guarantees the builder unchanged exactly
/// when this holds of its result.
pub open spec fn probe_stage_failed<T>(r: Result<T, BuildError>) -> bool {
    r matches Err(e) && e is ProbeRegistration
}

/// Decides what the engine's construction outcome means: a constructed
/// runtime is handed on unchanged, and a failure cause becomes the
/// construction error carrying exactly that cause.
pub fn construction_outcome_to_result(o: Result<tokio::runtime::Runtime, String>) -> (r: Result<
    tokio::runtime::Runtime,
    BuildError,
>)
    ensures
        (o matches Ok(rt) ==> r == Ok::<tokio::runtime::Runtime, BuildError>(rt)),
        (o matches Err(c) ==> r == Err::<tokio::runtime::Runtime, BuildError>(BuildError::RuntimeConstruction(c))),
{
    match o {
        Ok(rt) => Ok(rt),
        Err(c) => Err(BuildError::RuntimeConstruction(c)),
    }
}

impl BuildError {
    /// The diagnostic message for this failure: a prefix identifying the
    /// stage that failed, followed by the underlying cause.
    pub fn message(&self) -> (m: String)
        ensures
            self matches BuildError::ProbeRegistration(c) ==> m@ == probe_message_prefix() + c@,
            self matches BuildError::RuntimeConstruction(c) ==> m@ == construction_message_prefix()
                + c@,
    {
        match self {
            BuildError::ProbeRegistration(c) => {
                let m: String = "failed to initialize tokio-dtrace probes: ".to_owned();
                m.concat(c.as_str())
            },
            BuildError::RuntimeConstruction(c) => {
                let m: String = "failed to initialize Tokio runtime: ".to_owned();
                m.concat(c.as_str())
            },
        }
    }

    /// The underlying cause alone, without the stage prefix.
    pub fn cause(&self) -> (c: &String)
        ensures
            self matches BuildError::ProbeRegistration(p) ==> c@ == p@,
            self matches BuildError::RuntimeConstruction(p) ==> c@ == p@,
    {
        match self {
            BuildError::ProbeRegistration(c) => c,
            BuildError::RuntimeConstruction(c) => c,
        }
    }
}

} // verus!
