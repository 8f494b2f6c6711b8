use std::time::Duration;

use sky_mirror::core_model::state::State;
use sky_mirror::smithay_backend::client_disconnect::nested_client_disconnect_callback_readiness_report;
use sky_mirror::smithay_backend::real_disconnect_flow::NestedRealDisconnectCallbackReport;
use sky_mirror::smithay_backend::nested_runtime_loop::{
    NestedRuntimeLiveAdmissionRunSummary, NestedRuntimeLiveUnmapRunSummary, NestedRuntimeLoopConfig,
    NestedRuntimeLoopExitReason, NestedRuntimeLoopReport, NestedRuntimeLoopRun, NestedRuntimeLoopStep,
    NestedRuntimePumpError, NestedRuntimePumpErrorKind, NestedRuntimePumpReport,
    NestedRuntimeSurfaceCommitRunSummary, ObservedNestedRuntimePumpReport,
};
use sky_mirror::smithay_backend::nested_runtime_loop::{
    NestedRuntimeLoopBlocker, nested_runtime_loop_readiness_report,
};

/// 验证 51M-C 只上调 Linux proof 支持的 wakeup 字段，不冒充完整 runtime。
#[test]
fn nested_runtime_wakeup_proof_capabilities_are_precise() {
    let report = nested_runtime_loop_readiness_report();

    assert_eq!(
        report.blockers,
        vec![NestedRuntimeLoopBlocker::MissingCompleteRuntimeLoop]
    );
    assert!(report.loop_boundary_defined);
    assert!(report.nested_runtime_loop_available);
    assert!(report.bounded_loop_available);
    assert!(report.stop_requested_supported);
    assert!(report.wakeup_supported);
    assert!(report.interruptible_wait_available);
    assert!(report.stop_can_interrupt_wait);
    assert!(!report.long_running_loop_available);
    assert!(!report.accepts_clients);
    assert!(!report.runtime_accept_loop_started);
    assert!(!report.protocol_dispatch_started);
    assert!(!report.surface_support);
    assert!(!report.shell_role_support);
    assert!(!report.render_support);
    assert!(!report.input_support);
    assert!(report.is_bounded_loop_ready());
    assert!(report.is_interruptible_wait_ready());
}

type Run = NestedRuntimeLoopRun<(), (), ()>;

fn config(max_iterations: usize) -> NestedRuntimeLoopConfig {
    NestedRuntimeLoopConfig {
        max_iterations,
        pump_timeout: Duration::ZERO,
        stop_when_idle: false,
        continue_after_error: false,
    }
}

fn synthetic_pump_report(errors: Vec<NestedRuntimePumpError>) -> NestedRuntimePumpReport {
    NestedRuntimePumpReport {
        accepted_clients: 0,
        inserted_clients: 0,
        connected_events_drained: 0,
        registered_core_clients: Vec::new(),
        dispatch_clients_called: true,
        dispatched_requests: Some(0),
        disconnected_events_drained: 0,
        closed_core_clients: Vec::new(),
        validation_is_clean: true,
        errors,
    }
}

fn observed(
    lifecycle_report: NestedRuntimePumpReport,
    live_unmap: NestedRuntimeLiveUnmapRunSummary,
) -> ObservedNestedRuntimePumpReport<(), (), ()> {
    ObservedNestedRuntimePumpReport {
        lifecycle_report,
        live_admission: NestedRuntimeLiveAdmissionRunSummary::zero(),
        live_unmap,
        surface_commit: NestedRuntimeSurfaceCommitRunSummary::zero(),
    }
}

/// Drives a run the way the runtime loop does: pump while asked, take no
/// wakeup, and take a stop request only when `stop_after` says so.
fn drive(
    config: NestedRuntimeLoopConfig,
    mut pump: impl FnMut(usize) -> ObservedNestedRuntimePumpReport<(), (), ()>,
    stop_after: impl Fn(usize) -> bool,
) -> (usize, NestedRuntimeLoopReport<(), (), ()>) {
    let mut run = Run::new(config);
    let mut calls = 0usize;
    while run.next_step() == NestedRuntimeLoopStep::Pump {
        calls += 1;
        if run.after_pump(pump(calls), false, false) {
            run.after_stop_check(stop_after(calls));
        }
    }
    (calls, run.finish(&State::new(), Duration::ZERO, true))
}

/// `max_iterations = 0` exits at once without a pump.
#[test]
fn nested_runtime_loop_zero_iterations_is_safe() {
    let (calls, report) = drive(config(0), |_| observed(synthetic_pump_report(Vec::new()), NestedRuntimeLiveUnmapRunSummary::zero()), |_| false);

    assert_eq!(calls, 0);
    assert_eq!(report.iterations_run, 0);
    assert!(report.pump_reports.is_empty());
    assert_eq!(report.dispatch_calls, 0);
    assert_eq!(report.exit_reason, NestedRuntimeLoopExitReason::MaxIterationsReached);
    assert!(report.validation_is_clean);
    assert!(report.is_successful());
}

/// `max_iterations` is a hard limit.
#[test]
fn nested_runtime_loop_respects_max_iterations() {
    let (calls, report) = drive(config(3), |_| observed(synthetic_pump_report(Vec::new()), NestedRuntimeLiveUnmapRunSummary::zero()), |_| false);

    assert_eq!(calls, 3);
    assert_eq!(report.iterations_run, 3);
    assert_eq!(report.pump_reports.len(), 3);
    assert_eq!(report.dispatch_calls, 3);
    assert_eq!(report.exit_reason, NestedRuntimeLoopExitReason::MaxIterationsReached);
    assert!(report.validation_is_clean);
}

/// With `stop_when_idle`, an idle pump ends the run.
#[test]
fn nested_runtime_loop_exits_when_idle() {
    let mut idle_config = config(4);
    idle_config.stop_when_idle = true;
    let (_, report) = drive(idle_config, |_| observed(synthetic_pump_report(Vec::new()), NestedRuntimeLiveUnmapRunSummary::zero()), |_| false);

    assert_eq!(report.iterations_run, 1);
    assert_eq!(report.exit_reason, NestedRuntimeLoopExitReason::Idle);
    assert!(report.validation_is_clean);
}

/// A stop request taken after a pump ends the run.
#[test]
fn nested_runtime_loop_exits_on_stop_request() {
    let (calls, report) = drive(config(4), |_| observed(synthetic_pump_report(Vec::new()), NestedRuntimeLiveUnmapRunSummary::zero()), |_| true);

    assert_eq!(calls, 1);
    assert_eq!(report.iterations_run, 1);
    assert_eq!(report.exit_reason, NestedRuntimeLoopExitReason::StopRequested);
    assert!(report.wakeup.stop_requested);
    assert!(report.validation_is_clean);
    assert!(report.readiness.is_bounded_loop_ready());
    assert!(report.readiness.wakeup_supported);
    assert!(!report.readiness.long_running_loop_available);
}

/// A stop requested before the run ends it before any pump.
#[test]
fn nested_runtime_loop_public_stop_handle_exits_before_pump() {
    let mut run = Run::new(config(3));
    run.stopped_before_start(false, false);

    assert_eq!(run.next_step(), NestedRuntimeLoopStep::Finish);
    let report = run.finish(&State::new(), Duration::ZERO, true);
    assert_eq!(report.iterations_run, 0);
    assert!(report.pump_reports.is_empty());
    assert_eq!(report.exit_reason, NestedRuntimeLoopExitReason::StopRequested);
    assert!(report.validation_is_clean);
}

/// A pump error ends the run and is kept with its 1-based iteration.
#[test]
fn nested_runtime_loop_reports_pump_error() {
    let error = NestedRuntimePumpError {
        kind: NestedRuntimePumpErrorKind::DisplayDispatch,
        message: "controlled loop dispatch failure".to_owned(),
    };
    let (_, report) = drive(config(3), |_| observed(synthetic_pump_report(vec![error.clone()]), NestedRuntimeLiveUnmapRunSummary::zero()), |_| false);

    assert_eq!(report.iterations_run, 1);
    assert_eq!(report.exit_reason, NestedRuntimeLoopExitReason::Error);
    assert_eq!(report.errors.len(), 1);
    assert_eq!(report.errors[0].iteration, 1);
    assert_eq!(report.errors[0].pump_errors, vec![error]);
    assert!(!report.is_successful());
    assert!(report.validation_is_clean);
}

/// With `continue_after_error`, errors are recorded and the run goes on.
#[test]
fn loop_run_continues_after_error_when_configured() {
    let mut keep_going = config(2);
    keep_going.continue_after_error = true;
    let error = NestedRuntimePumpError {
        kind: NestedRuntimePumpErrorKind::AcceptPump,
        message: "accept failed".to_owned(),
    };
    let (calls, report) = drive(keep_going, |_| observed(synthetic_pump_report(vec![error.clone()]), NestedRuntimeLiveUnmapRunSummary::zero()), |_| false);

    assert_eq!(calls, 2);
    assert_eq!(report.exit_reason, NestedRuntimeLoopExitReason::MaxIterationsReached);
    assert_eq!(report.errors.len(), 2);
    assert_eq!(report.errors[1].iteration, 2);
    assert!(!report.is_successful());
}

/// Live unmap progress keeps a pump from counting as idle.
#[test]
fn nested_runtime_loop_stop_when_idle_counts_live_unmap_progress() {
    let idle_config = NestedRuntimeLoopConfig {
        max_iterations: 3,
        pump_timeout: Duration::ZERO,
        stop_when_idle: true,
        continue_after_error: false,
    };
    let (calls, report) = drive(
        idle_config,
        |call| {
            let live_unmap = if call == 1 {
                NestedRuntimeLiveUnmapRunSummary {
                    drain_invocations: 1,
                    live_unmap_observations: 1,
                    ledger_unmaps: 1,
                    core_detaches: 1,
                    surface_mappings_retained: 1,
                    toplevel_mappings_removed: 1,
                }
            } else {
                NestedRuntimeLiveUnmapRunSummary::zero()
            };
            observed(synthetic_pump_report(Vec::new()), live_unmap)
        },
        |_| false,
    );

    assert_eq!(calls, 2);
    assert_eq!(report.iterations_run, 2);
    assert_eq!(report.exit_reason, NestedRuntimeLoopExitReason::Idle);
    assert!(report.is_successful());
    assert_eq!(report.live_admission.admissions_consumed, 0);
    assert_eq!(report.live_unmap.live_unmap_observations, 1);
    assert_eq!(report.live_unmap.ledger_unmaps, 1);
    assert_eq!(report.live_unmap.core_detaches, 1);
}

/// A stop that interrupted a wait ends the run as interrupted, before the timeout.
#[test]
fn loop_run_stop_with_interrupted_wait_is_interrupted() {
    let mut run = Run::new(NestedRuntimeLoopConfig {
        max_iterations: 5,
        pump_timeout: Duration::from_secs(30),
        stop_when_idle: false,
        continue_after_error: false,
    });
    assert!(run.after_pump(observed(synthetic_pump_report(Vec::new()), NestedRuntimeLiveUnmapRunSummary::zero()), true, true));
    run.after_stop_check(true);
    assert_eq!(run.next_step(), NestedRuntimeLoopStep::Finish);
    let report = run.finish(&State::new(), Duration::from_millis(5), true);

    assert_eq!(report.exit_reason, NestedRuntimeLoopExitReason::Interrupted);
    assert!(report.wakeup.wakeup_requested);
    assert!(report.wakeup.wait_interrupted);
    assert!(report.wakeup.exited_before_timeout);
    assert_eq!(report.wakeup.configured_pump_timeout, Duration::from_secs(30));
    assert_eq!(report.wakeup.elapsed_before_exit, Duration::from_millis(5));
}

/// Commit sequences of successive pumps accumulate in order.
#[test]
fn loop_run_accumulates_commit_sequences_fifo() {
    let mut run = Run::new(config(2));
    for sequences in [vec![1u64, 2], vec![3u64]] {
        let mut commit = NestedRuntimeSurfaceCommitRunSummary::zero();
        commit.drain_invocations = 1;
        commit.commit_observations_drained = sequences.len();
        commit.drained_commit_sequences = sequences;
        let pump = ObservedNestedRuntimePumpReport {
            lifecycle_report: synthetic_pump_report(Vec::new()),
            live_admission: NestedRuntimeLiveAdmissionRunSummary::zero(),
            live_unmap: NestedRuntimeLiveUnmapRunSummary::zero(),
            surface_commit: commit,
        };
        assert!(run.after_pump(pump, false, false));
        run.after_stop_check(false);
    }
    let report = run.finish(&State::new(), Duration::ZERO, true);
    assert_eq!(report.surface_commit.drain_invocations, 2);
    assert_eq!(report.surface_commit.commit_observations_drained, 3);
    assert_eq!(report.surface_commit.drained_commit_sequences, vec![1, 2, 3]);
}

/// Each failing step of a pump adds its error, in step order.
#[test]
fn pump_report_from_failed_steps_lists_errors_in_order() {
    let disconnect = NestedRealDisconnectCallbackReport {
        disconnected_records: Vec::new(),
        bridge_outcomes: Vec::new(),
        removed_backend_mapping_count: 0,
        all_observed_validations_clean: None,
        readiness: nested_client_disconnect_callback_readiness_report(),
    };
    let report = NestedRuntimePumpReport::from_steps(
        Err("poll failed".to_string()),
        Err("dispatch failed".to_string()),
        Err("flush failed".to_string()),
        &disconnect,
        &State::new(),
    );

    assert_eq!(report.accepted_clients, 0);
    assert_eq!(report.dispatched_requests, None);
    assert!(report.dispatch_clients_called);
    assert!(report.validation_is_clean);
    assert_eq!(
        report.errors,
        vec![
            NestedRuntimePumpError { kind: NestedRuntimePumpErrorKind::AcceptPump, message: "poll failed".to_string() },
            NestedRuntimePumpError { kind: NestedRuntimePumpErrorKind::DisplayDispatch, message: "dispatch failed".to_string() },
            NestedRuntimePumpError { kind: NestedRuntimePumpErrorKind::DisplayFlush, message: "flush failed".to_string() },
        ]
    );

    let quiet = NestedRuntimePumpReport::from_steps(Err("x".to_string()), Ok(0), Ok(()), &disconnect, &State::new());
    assert_eq!(quiet.dispatched_requests, Some(0));
    assert_eq!(quiet.errors.len(), 1);
}

type TaggedRun = NestedRuntimeLoopRun<u32, u32, u32>;

fn admission(enqueued: usize, consumed: usize, pending_after: usize) -> NestedRuntimeLiveAdmissionRunSummary {
    NestedRuntimeLiveAdmissionRunSummary {
        owner_invocations: 1,
        enqueue_invocations: enqueued,
        admissions_enqueued: enqueued,
        drain_invocations: 1,
        admissions_consumed: consumed,
        pending_admissions_after: pending_after,
    }
}

fn tagged_pump(
    live_admission: NestedRuntimeLiveAdmissionRunSummary,
    surface_commit: NestedRuntimeSurfaceCommitRunSummary<u32, u32, u32>,
) -> ObservedNestedRuntimePumpReport<u32, u32, u32> {
    ObservedNestedRuntimePumpReport {
        lifecycle_report: synthetic_pump_report(Vec::new()),
        live_admission,
        live_unmap: NestedRuntimeLiveUnmapRunSummary::zero(),
        surface_commit,
    }
}

/// Admission counts add up over pumps; the pending count is the last pump's.
#[test]
fn loop_run_accumulates_live_admission_over_pumps() {
    let mut run = TaggedRun::new(config(3));
    for (enqueued, consumed, pending) in [(1, 0, 1), (1, 1, 1), (0, 1, 0)] {
        assert!(run.after_pump(
            tagged_pump(admission(enqueued, consumed, pending), NestedRuntimeSurfaceCommitRunSummary::zero()),
            false,
            false,
        ));
        run.after_stop_check(false);
    }
    let report = run.finish(&State::new(), Duration::ZERO, true);
    assert_eq!(report.iterations_run, 3);
    assert_eq!(report.live_admission.owner_invocations, 3);
    assert_eq!(report.live_admission.admissions_enqueued, 2);
    assert_eq!(report.live_admission.admissions_consumed, 2);
    assert_eq!(report.live_admission.drain_invocations, 3);
    assert_eq!(report.live_admission.pending_admissions_after, 0);
}

/// With `stop_when_idle`, a pump that still drains admissions is not idle;
/// the first pump with no progress ends the run.
#[test]
fn loop_run_stop_when_idle_waits_for_admission_backlog() {
    let mut idle_config = config(5);
    idle_config.stop_when_idle = true;
    let mut run = TaggedRun::new(idle_config);
    let pumps = [admission(1, 1, 1), admission(0, 1, 0), admission(0, 0, 0)];
    let mut calls = 0usize;
    while run.next_step() == NestedRuntimeLoopStep::Pump {
        let pump = tagged_pump(pumps[calls], NestedRuntimeSurfaceCommitRunSummary::zero());
        calls += 1;
        if run.after_pump(pump, false, false) {
            run.after_stop_check(false);
        }
    }
    let report = run.finish(&State::new(), Duration::ZERO, true);
    assert_eq!(calls, 3);
    assert_eq!(report.exit_reason, NestedRuntimeLoopExitReason::Idle);
    assert_eq!(report.live_admission.admissions_consumed, 2);
    assert_eq!(report.live_admission.pending_admissions_after, 0);
}

/// Render-dirty intents, renderer work intents and render operation
/// intents of successive pumps come out in pump order.
#[test]
fn loop_run_keeps_render_intents_fifo() {
    let mut run = TaggedRun::new(config(2));
    for tag in [10u32, 20] {
        let mut commit = NestedRuntimeSurfaceCommitRunSummary::zero();
        commit.render_dirty_readiness_intents = vec![tag];
        commit.render_dirty_intents_enqueued = 1;
        commit.render_dirty_intents_drained = 1;
        commit.render_dirty_queue_drained_intents = vec![tag];
        commit.renderer_work_intents_created = 1;
        commit.renderer_work_intents = vec![tag + 1];
        commit.renderer_owner_work_intents_consumed = 1;
        commit.renderer_owner_consumed_work_intents = vec![tag + 1];
        commit.renderer_owner_missing_renderer_owner = true;
        commit.render_operation_intents_created = 1;
        commit.render_operation_intents = vec![tag + 2];
        assert!(run.after_pump(tagged_pump(admission(0, 0, 0), commit), false, false));
        run.after_stop_check(false);
    }
    let report = run.finish(&State::new(), Duration::ZERO, true);
    let commit = &report.surface_commit;
    assert_eq!(commit.render_dirty_readiness_intents, vec![10, 20]);
    assert_eq!(commit.render_dirty_queue_drained_intents, vec![10, 20]);
    assert_eq!(commit.render_dirty_intents_enqueued, 2);
    assert_eq!(commit.renderer_work_intents, vec![11, 21]);
    assert_eq!(commit.renderer_owner_consumed_work_intents, vec![11, 21]);
    assert!(commit.renderer_owner_missing_renderer_owner);
    assert!(!commit.renderer_owner_buffer_imported);
    assert_eq!(commit.render_operation_intents, vec![12, 22]);
    assert!(!commit.render_invoked);
}
