use std::time::Duration;

use sky_mirror::core_model::state::State;
use sky_mirror::smithay_backend::nested_runtime_loop::{
    NestedRuntimeLoopConfig, NestedRuntimeLoopError, NestedRuntimeLoopExitReason,
    NestedRuntimeLoopReport, NestedRuntimeLoopRun, NestedRuntimePumpError, NestedRuntimePumpErrorKind,
};
use sky_mirror::smithay_backend::nested_runtime_orchestrator::{
    NestedRuntimeLifecycleState, NestedRuntimeOrchestrator, NestedRuntimeOrchestratorBlocker,
    NestedRuntimeOrchestratorConfig, NestedRuntimeOrchestratorError,
    NestedRuntimeOrchestratorOperation, nested_runtime_orchestrator_readiness_report,
};

fn config(label: &str, max_iterations: usize) -> NestedRuntimeOrchestratorConfig {
    NestedRuntimeOrchestratorConfig {
        socket_name: format!("sky-mirror-test-{label}"),
        loop_config: NestedRuntimeLoopConfig {
            max_iterations,
            pump_timeout: Duration::ZERO,
            stop_when_idle: false,
            continue_after_error: false,
        },
    }
}

/// Starts `orchestrator` the way the runtime does once its socket is bound.
fn start(
    orchestrator: &mut NestedRuntimeOrchestrator,
) -> Result<sky_mirror::smithay_backend::nested_runtime_orchestrator::NestedRuntimeStartReport, NestedRuntimeOrchestratorError> {
    orchestrator.begin_start()?;
    let socket_name = orchestrator.config().socket_name.clone();
    orchestrator.finish_start(Ok(socket_name))
}

/// A bounded run with no pump, as a zero-iteration loop reports it.
fn empty_loop_report(config: NestedRuntimeLoopConfig) -> NestedRuntimeLoopReport<(), (), ()> {
    let run: NestedRuntimeLoopRun<(), (), ()> = NestedRuntimeLoopRun::new(config);
    run.finish(&State::new(), Duration::ZERO, true)
}

/// C 路线只上调 Linux CI 已证明的 start/run/stop capability。
#[test]
fn runtime_orchestrator_linux_proof_capabilities_are_precise() {
    let report = nested_runtime_orchestrator_readiness_report();

    assert_eq!(
        report.blockers,
        vec![NestedRuntimeOrchestratorBlocker::MissingCompleteRuntimeLoop]
    );
    assert!(report.orchestration_boundary_defined);
    assert!(report.runtime_orchestrator_available);
    assert!(report.start_run_stop_available);
    assert!(report.external_stop_supported);
    assert!(report.clean_shutdown_supported);
    assert!(!report.long_running_loop_available);
    assert!(!report.accepts_clients);
    assert!(!report.runtime_accept_loop_started);
    assert!(!report.protocol_dispatch_started);
    assert!(!report.surface_support);
    assert!(!report.shell_role_support);
    assert!(!report.render_support);
    assert!(!report.input_support);
    assert!(report.is_start_run_stop_ready());
}

/// `Created` allows a start, which moves to `Started`.
#[test]
fn runtime_orchestrator_start_transitions_state() {
    let mut orchestrator = NestedRuntimeOrchestrator::new(config("orchestrator-start", 0));

    let report = start(&mut orchestrator).expect("Created 必须允许 start");

    assert!(report.started);
    assert_eq!(report.previous_state, NestedRuntimeLifecycleState::Created);
    assert_eq!(report.state, NestedRuntimeLifecycleState::Started);
    assert_eq!(orchestrator.state(), NestedRuntimeLifecycleState::Started);
    assert!(!report.socket_name.is_empty());
}

/// A second start is refused and leaves the state alone.
#[test]
fn runtime_orchestrator_rejects_double_start() {
    let mut orchestrator = NestedRuntimeOrchestrator::new(config("orchestrator-double", 0));
    start(&mut orchestrator).expect("首次 start 必须成功");

    let error = start(&mut orchestrator).expect_err("重复 start 必须失败");

    assert_eq!(
        error,
        NestedRuntimeOrchestratorError::InvalidTransition {
            state: NestedRuntimeLifecycleState::Started,
            operation: NestedRuntimeOrchestratorOperation::Start,
        }
    );
    assert_eq!(orchestrator.state(), NestedRuntimeLifecycleState::Started);
}

/// A run needs a start first.
#[test]
fn runtime_orchestrator_run_requires_start() {
    let mut orchestrator = NestedRuntimeOrchestrator::new(config("orchestrator-no-start", 1));
    let state = State::new();

    let error = orchestrator.begin_run().expect_err("Created 不得直接 run");

    assert_eq!(
        error,
        NestedRuntimeOrchestratorError::InvalidTransition {
            state: NestedRuntimeLifecycleState::Created,
            operation: NestedRuntimeOrchestratorOperation::Run,
        }
    );
    assert_eq!(orchestrator.state(), NestedRuntimeLifecycleState::Created);
    assert!(state.validate().is_clean());
}

/// A stop before any start is safe and requests nothing.
#[test]
fn runtime_orchestrator_stop_before_start_is_safe() {
    let mut orchestrator = NestedRuntimeOrchestrator::new(config("orchestrator-stop", 1));
    let state = State::new();

    let report = orchestrator.stop(&state);

    assert_eq!(report.previous_state, NestedRuntimeLifecycleState::Created);
    assert_eq!(report.state, NestedRuntimeLifecycleState::Stopped);
    assert!(!report.stop_requested);
    assert!(!report.wakeup_requested);
    assert!(report.shutdown_completed);
    assert!(report.validation_is_clean);
}

/// A run with no pump shuts down cleanly.
#[test]
fn runtime_orchestrator_zero_iteration_run_shuts_down_cleanly() {
    let mut orchestrator = NestedRuntimeOrchestrator::new(config("orchestrator-zero", 0));
    start(&mut orchestrator).expect("Created 必须允许 start");
    orchestrator.begin_run().expect("Started 必须允许 run");

    let loop_config = orchestrator.config().loop_config;
    let report = orchestrator.finish_run(empty_loop_report(loop_config));

    assert!(report.started);
    assert!(report.run_entered);
    assert_eq!(report.pump_iterations, 0);
    assert_eq!(report.loop_exit_reason, NestedRuntimeLoopExitReason::MaxIterationsReached);
    assert_eq!(report.final_state, NestedRuntimeLifecycleState::Stopped);
    assert!(report.shutdown_completed);
    assert!(report.validation_is_clean);
    assert!(report.is_clean_shutdown());
}

/// Pump errors reach the lifecycle report unchanged and fail the run.
#[test]
fn runtime_orchestrator_preserves_structured_pump_errors() {
    let mut orchestrator = NestedRuntimeOrchestrator::new(config("orchestrator-error", 0));
    start(&mut orchestrator).expect("Created 必须允许 start");
    orchestrator.begin_run().expect("Started 必须允许 run");
    let mut loop_report = empty_loop_report(config("unused", 0).loop_config);
    let pump_error = NestedRuntimePumpError {
        kind: NestedRuntimePumpErrorKind::DisplayDispatch,
        message: "controlled orchestrator pump failure".to_owned(),
    };
    let loop_error = NestedRuntimeLoopError { iteration: 1, pump_errors: vec![pump_error] };
    loop_report.exit_reason = NestedRuntimeLoopExitReason::Error;
    loop_report.errors = vec![loop_error.clone()];

    let report = orchestrator.finish_run(loop_report);

    assert_eq!(report.loop_exit_reason, NestedRuntimeLoopExitReason::Error);
    assert_eq!(report.errors, vec![loop_error]);
    assert_eq!(report.final_state, NestedRuntimeLifecycleState::Failed);
    assert!(!report.shutdown_completed);
    assert!(!report.is_clean_shutdown());
    assert!(report.validation_is_clean);
}

/// A stop of a started runtime asks for stop with wakeup.
#[test]
fn runtime_orchestrator_direct_stop_requests_wakeup() {
    let mut orchestrator = NestedRuntimeOrchestrator::new(config("orchestrator-direct-stop", 1));
    let state = State::new();
    start(&mut orchestrator).expect("Created 必须允许 start");

    let report = orchestrator.stop(&state);

    assert_eq!(report.previous_state, NestedRuntimeLifecycleState::Started);
    assert_eq!(report.state, NestedRuntimeLifecycleState::Stopped);
    assert!(report.stop_requested);
    assert!(report.wakeup_requested);
    assert!(report.shutdown_completed);
    assert!(report.validation_is_clean);
}

/// A failed socket creation fails the start with its message.
#[test]
fn orchestrator_start_failure_is_reported() {
    let mut orchestrator = NestedRuntimeOrchestrator::new(config("orchestrator-fail", 0));
    let error = orchestrator
        .finish_start(Err("no runtime dir".to_string()))
        .expect_err("a failed creation fails the start");

    assert_eq!(error, NestedRuntimeOrchestratorError::StartFailed { message: "no runtime dir".to_string() });
    assert_eq!(orchestrator.state(), NestedRuntimeLifecycleState::Failed);
    assert_eq!(
        orchestrator.stop_handle(),
        Err(NestedRuntimeOrchestratorError::InvalidTransition {
            state: NestedRuntimeLifecycleState::Failed,
            operation: NestedRuntimeOrchestratorOperation::StopHandle,
        })
    );
}

/// The stop handle is handed out once started.
#[test]
fn orchestrator_stop_handle_after_start() {
    let mut orchestrator = NestedRuntimeOrchestrator::new(config("orchestrator-handle", 0));
    assert!(orchestrator.stop_handle().is_err());
    start(&mut orchestrator).expect("Created 必须允许 start");
    assert_eq!(orchestrator.stop_handle(), Ok(()));
}

/// A second stop finds the runtime stopped and requests nothing more.
#[test]
fn orchestrator_stop_is_idempotent() {
    let mut orchestrator = NestedRuntimeOrchestrator::new(config("orchestrator-twice", 1));
    let state = State::new();
    start(&mut orchestrator).expect("Created 必须允许 start");

    let first = orchestrator.stop(&state);
    let second = orchestrator.stop(&state);

    assert!(first.stop_requested);
    assert_eq!(second.previous_state, NestedRuntimeLifecycleState::Stopped);
    assert_eq!(second.state, NestedRuntimeLifecycleState::Stopped);
    assert!(!second.stop_requested);
    assert!(!second.wakeup_requested);
    assert!(second.shutdown_completed);
    assert_eq!(
        orchestrator.begin_run(),
        Err(NestedRuntimeOrchestratorError::InvalidTransition {
            state: NestedRuntimeLifecycleState::Stopped,
            operation: NestedRuntimeOrchestratorOperation::Run,
        })
    );
}
