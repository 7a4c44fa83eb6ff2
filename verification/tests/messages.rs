//! The failure taxonomy: each stage's diagnostic message names the stage
//! and carries the underlying cause.

use oxide_tokio_rt::construction_outcome_to_result;
use oxide_tokio_rt::probe_outcome_to_result;
use oxide_tokio_rt::BuildError;
use oxide_tokio_rt::ProbeOutcome;

#[test]
fn probe_registration_message_names_the_stage() {
    let e = BuildError::ProbeRegistration(String::from("probes unavailable"));
    assert_eq!(
        e.message(),
        "failed to initialize tokio-dtrace probes: probes unavailable"
    );
    assert_eq!(e.cause(), "probes unavailable");
}

#[test]
fn construction_message_names_the_stage() {
    let e = BuildError::RuntimeConstruction(String::from("could not spawn a worker"));
    assert_eq!(
        e.message(),
        "failed to initialize Tokio runtime: could not spawn a worker"
    );
    assert_eq!(e.cause(), "could not spawn a worker");
}

#[test]
fn probe_failure_blocks_construction() {
    let outcome = ProbeOutcome::Failed(String::from("dtrace rejected the probes"));
    match probe_outcome_to_result(outcome) {
        Err(BuildError::ProbeRegistration(cause)) => {
            assert_eq!(cause, "dtrace rejected the probes");
        }
        other => panic!("a failed registration must be an error, got {other:?}"),
    }
}

#[test]
fn probe_success_and_absence_let_construction_proceed() {
    assert!(probe_outcome_to_result(ProbeOutcome::Registered).is_ok());
    assert!(probe_outcome_to_result(ProbeOutcome::Unsupported).is_ok());
}

#[test]
fn engine_failure_becomes_construction_error() {
    let outcome = Err(String::from("no worker could be spawned"));
    match construction_outcome_to_result(outcome) {
        Err(BuildError::RuntimeConstruction(cause)) => {
            assert_eq!(cause, "no worker could be spawned");
        }
        Err(other) => panic!("unexpected error kind: {other:?}"),
        Ok(_) => panic!("a failed engine build must be an error"),
    }
}

#[test]
fn engine_success_passes_the_runtime_through() {
    let rt = tokio::runtime::Builder::new_current_thread()
        .build()
        .expect("the engine should build a bare runtime");
    let mapped = construction_outcome_to_result(Ok(rt));
    match mapped {
        Ok(rt) => assert_eq!(rt.block_on(async { 5 }), 5),
        Err(e) => panic!("a constructed runtime must be handed on: {e:?}"),
    }
}
