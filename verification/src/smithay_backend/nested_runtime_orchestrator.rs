//! Start/run/stop orchestration of the nested runtime, as a lifecycle state
//! machine. Creating the runtime loop, running it and signalling its stop
//! handle are the caller's work; each step here checks the transition, records
//! the caller's result and says what state the runtime is in.

use vstd::prelude::*;

use crate::core_model::state::{State, output_invalid};
use crate::smithay_backend::nested_runtime_loop::{
    NestedRuntimeLiveAdmissionRunSummary, NestedRuntimeLiveUnmapRunSummary, NestedRuntimeLoopConfig,
    NestedRuntimeLoopError, NestedRuntimeLoopExitReason, NestedRuntimeLoopReport,
    NestedRuntimeSurfaceCommitRunSummary, commit_cloned,
};

verus! {

/// A missing capability of the orchestrator.
#[derive(Debug, Clone, Copy, PartialEq, Eq, Structural)]
pub enum NestedRuntimeOrchestratorBlocker {
    /// No Linux proof of the lifecycle.
    MissingLinuxLifecycleProof,
    /// No complete compositor runtime exists.
    MissingCompleteRuntimeLoop,
}

/// Conservative capabilities of the orchestrator.
#[derive(Debug, Clone, PartialEq, Eq)]
pub struct NestedRuntimeOrchestratorReadinessReport {
    /// Remaining blockers.
    pub blockers: Vec<NestedRuntimeOrchestratorBlocker>,
    /// The orchestration boundary is defined.
    pub orchestration_boundary_defined: bool,
    /// The orchestrator is available.
    pub runtime_orchestrator_available: bool,
    /// Start, run and stop are available.
    pub start_run_stop_available: bool,
    /// An external stop is supported.
    pub external_stop_supported: bool,
    /// A clean shutdown is supported.
    pub clean_shutdown_supported: bool,
    /// A long-running compositor loop exists; always false.
    pub long_running_loop_available: bool,
    /// Real clients are accepted; always false.
    pub accepts_clients: bool,
    /// A long-running accept loop started; always false.
    pub runtime_accept_loop_started: bool,
    /// Long-running protocol dispatch started; always false.
    pub protocol_dispatch_started: bool,
    /// Real surfaces are supported; always false.
    pub surface_support: bool,
    /// Shell roles are supported; always false.
    pub shell_role_support: bool,
    /// Rendering is supported; always false.
    pub render_support: bool,
    /// Input is supported; always false.
    pub input_support: bool,
}

impl NestedRuntimeOrchestratorReadinessReport {
    /// Whether start, run, external stop and clean shutdown are all available.
    pub fn is_start_run_stop_ready(&self) -> (r: bool)
        ensures
            r == (self.runtime_orchestrator_available && self.start_run_stop_available
                && self.external_stop_supported && self.clean_shutdown_supported),
    {
        self.runtime_orchestrator_available && self.start_run_stop_available
            && self.external_stop_supported && self.clean_shutdown_supported
    }
}

/// `r` is the orchestrator readiness report: only the complete-runtime
/// blocker, start/run/stop capabilities on, every real-client capability off.
pub open spec fn is_orchestrator_readiness(r: NestedRuntimeOrchestratorReadinessReport) -> bool {
    &&& r.blockers@ == seq![NestedRuntimeOrchestratorBlocker::MissingCompleteRuntimeLoop]
    &&& r.orchestration_boundary_defined
    &&& r.runtime_orchestrator_available
    &&& r.start_run_stop_available
    &&& r.external_stop_supported
    &&& r.clean_shutdown_supported
    &&& !r.long_running_loop_available
    &&& !r.accepts_clients
    &&& !r.runtime_accept_loop_started
    &&& !r.protocol_dispatch_started
    &&& !r.surface_support
    &&& !r.shell_role_support
    &&& !r.render_support
    &&& !r.input_support
}

/// The orchestrator's readiness: start, run, stop and clean shutdown are
/// available; no complete compositor runtime and no real client capability.
pub fn nested_runtime_orchestrator_readiness_report() -> (r: NestedRuntimeOrchestratorReadinessReport)
    ensures
        is_orchestrator_readiness(r),
{
    let blockers = vec![NestedRuntimeOrchestratorBlocker::MissingCompleteRuntimeLoop];
    assert(blockers@ =~= seq![NestedRuntimeOrchestratorBlocker::MissingCompleteRuntimeLoop]);
    NestedRuntimeOrchestratorReadinessReport {
        blockers,
        orchestration_boundary_defined: true,
        runtime_orchestrator_available: true,
        start_run_stop_available: true,
        external_stop_supported: true,
        clean_shutdown_supported: true,
        long_running_loop_available: false,
        accepts_clients: false,
        runtime_accept_loop_started: false,
        protocol_dispatch_started: false,
        surface_support: false,
        shell_role_support: false,
        render_support: false,
        input_support: false,
    }
}

/// The lifecycle of the orchestrated runtime.
#[derive(Debug, Clone, Copy, PartialEq, Eq, Structural)]
pub enum NestedRuntimeLifecycleState {
    /// Configured, nothing created.
    Created,
    /// The runtime loop exists.
    Started,
    /// The runtime loop is running.
    Running,
    /// Shutting down.
    Stopping,
    /// Shut down.
    Stopped,
    /// Start or run failed.
    Failed,
}

/// An orchestrator operation.
#[derive(Debug, Clone, Copy, PartialEq, Eq, Structural)]
pub enum NestedRuntimeOrchestratorOperation {
    /// Create the runtime loop.
    Start,
    /// Run the runtime loop.
    Run,
    /// Stop.
    Stop,
    /// Hand out the stop handle.
    StopHandle,
}

/// Why an orchestrator operation was refused or failed.
#[derive(Debug, Clone, PartialEq, Eq)]
pub enum NestedRuntimeOrchestratorError {
    /// The operation is not allowed in this state.
    InvalidTransition {
        state: NestedRuntimeLifecycleState,
        operation: NestedRuntimeOrchestratorOperation,
    },
    /// Creating the runtime loop failed.
    StartFailed { message: String },
    /// No runtime loop exists in this state.
    MissingRuntimeLoop { state: NestedRuntimeLifecycleState },
}

/// What the orchestrator starts.
#[derive(Debug, Clone, PartialEq, Eq)]
pub struct NestedRuntimeOrchestratorConfig {
    /// The Wayland socket to bind.
    pub socket_name: String,
    /// The limits of the bounded run.
    pub loop_config: NestedRuntimeLoopConfig,
}

/// The result of a start.
#[derive(Debug, Clone, PartialEq, Eq)]
pub struct NestedRuntimeStartReport {
    /// State before.
    pub previous_state: NestedRuntimeLifecycleState,
    /// State after.
    pub state: NestedRuntimeLifecycleState,
    /// The runtime loop was created.
    pub started: bool,
    /// The bound socket.
    pub socket_name: String,
}

/// The result of a stop.
#[derive(Debug, Clone, PartialEq, Eq)]
pub struct NestedRuntimeStopReport {
    /// State before.
    pub previous_state: NestedRuntimeLifecycleState,
    /// State after.
    pub state: NestedRuntimeLifecycleState,
    /// A stop was requested from the runtime loop.
    pub stop_requested: bool,
    /// A wakeup was requested with the stop.
    pub wakeup_requested: bool,
    /// Shutdown completed.
    pub shutdown_completed: bool,
    /// The core state was valid.
    pub validation_is_clean: bool,
}

/// The result of a run.
#[derive(Debug, Clone, PartialEq, Eq)]
pub struct NestedRuntimeLifecycleReport<D, W, O> {
    /// The runtime had been started.
    pub started: bool,
    /// The run was entered.
    pub run_entered: bool,
    /// The loop consumed a stop request.
    pub stop_requested: bool,
    /// A wakeup was requested.
    pub wakeup_requested: bool,
    /// The runtime ended stopped.
    pub shutdown_completed: bool,
    /// Why the loop ended.
    pub loop_exit_reason: NestedRuntimeLoopExitReason,
    /// Pumps that ran.
    pub pump_iterations: usize,
    /// Core clients registered.
    pub registered_clients: usize,
    /// Core clients closed.
    pub closed_clients: usize,
    /// Pumps with errors.
    pub errors: Vec<NestedRuntimeLoopError>,
    /// The state after the run.
    pub final_state: NestedRuntimeLifecycleState,
    /// The core state was valid at the end.
    pub validation_is_clean: bool,
    /// Live admission work.
    pub live_admission: NestedRuntimeLiveAdmissionRunSummary,
    /// Live unmap work.
    pub live_unmap: NestedRuntimeLiveUnmapRunSummary,
    /// Surface commit work.
    pub surface_commit: NestedRuntimeSurfaceCommitRunSummary<D, W, O>,
    /// The loop's own report.
    pub loop_report: NestedRuntimeLoopReport<D, W, O>,
    /// The orchestrator's readiness.
    pub readiness: NestedRuntimeOrchestratorReadinessReport,
}

impl<D, W, O> NestedRuntimeLifecycleReport<D, W, O> {
    /// Stopped with shutdown completed, no error and a valid state.
    pub fn is_clean_shutdown(&self) -> (r: bool)
        ensures
            r == (self.shutdown_completed && self.final_state == NestedRuntimeLifecycleState::Stopped
                && self.errors@.len() == 0 && self.validation_is_clean),
    {
        let stopped = match self.final_state {
            NestedRuntimeLifecycleState::Stopped => true,
            _ => false,
        };
        self.shutdown_completed && stopped && self.errors.len() == 0 && self.validation_is_clean
    }
}

/// The runtime loop is handed out or stopped only while started or running.
pub open spec fn loop_active(s: NestedRuntimeLifecycleState) -> bool {
    s == NestedRuntimeLifecycleState::Started || s == NestedRuntimeLifecycleState::Running
}

fn copy_loop_errors(errors: &Vec<NestedRuntimeLoopError>) -> (r: Vec<NestedRuntimeLoopError>)
    ensures
        r@.len() == errors@.len(),
        forall|k: int|
            0 <= k < errors@.len() ==> (#[trigger] r@[k]).iteration == errors@[k].iteration
                && r@[k].pump_errors@ == errors@[k].pump_errors@,
{
    let mut out: Vec<NestedRuntimeLoopError> = Vec::new();
    let mut i: usize = 0;
    while i < errors.len()
        invariant
            i <= errors@.len(),
            out@.len() == i,
            forall|k: int|
                0 <= k < i ==> (#[trigger] out@[k]).iteration == errors@[k].iteration
                    && out@[k].pump_errors@ == errors@[k].pump_errors@,
        decreases errors@.len() - i,
    {
        let mut pump_errors = Vec::new();
        let mut j: usize = 0;
        while j < errors[i].pump_errors.len()
            invariant
                i < errors@.len(),
                j <= errors@[i as int].pump_errors@.len(),
                pump_errors@ == errors@[i as int].pump_errors@.take(j as int),
            decreases errors@[i as int].pump_errors@.len() - j,
        {
            pump_errors.push(errors[i].pump_errors[j].copy());
            assert(pump_errors@ =~= errors@[i as int].pump_errors@.take(j + 1));
            j = j + 1;
        }
        assert(errors@[i as int].pump_errors@.take(errors@[i as int].pump_errors@.len() as int)
            =~= errors@[i as int].pump_errors@);
        out.push(NestedRuntimeLoopError { iteration: errors[i].iteration, pump_errors });
        i = i + 1;
    }
    out
}

/// The orchestrator's lifecycle state machine.
#[derive(Debug)]
pub struct NestedRuntimeOrchestrator {
    config: NestedRuntimeOrchestratorConfig,
    state: NestedRuntimeLifecycleState,
    has_loop: bool,
}

impl NestedRuntimeOrchestrator {
    /// The current lifecycle state.
    pub closed spec fn spec_state(&self) -> NestedRuntimeLifecycleState {
        self.state
    }

    /// A runtime loop was created and is held.
    pub closed spec fn spec_has_loop(&self) -> bool {
        self.has_loop
    }

    /// The configuration.
    pub closed spec fn spec_config(&self) -> NestedRuntimeOrchestratorConfig {
        self.config
    }

    /// A configured orchestrator; nothing is created yet.
    pub fn new(config: NestedRuntimeOrchestratorConfig) -> (r: Self)
        ensures
            r.spec_state() == NestedRuntimeLifecycleState::Created,
            !r.spec_has_loop(),
            r.spec_config() == config,
    {
        Self { config, state: NestedRuntimeLifecycleState::Created, has_loop: false }
    }

    /// The current lifecycle state.
    pub fn state(&self) -> (r: NestedRuntimeLifecycleState)
        ensures
            r == self.spec_state(),
    {
        self.state
    }

    /// The configuration.
    pub fn config(&self) -> (r: &NestedRuntimeOrchestratorConfig)
        ensures
            *r == self.spec_config(),
    {
        &self.config
    }

    /// Checks that a start is allowed: only from `Created`.
    pub fn begin_start(&self) -> (r: Result<(), NestedRuntimeOrchestratorError>)
        ensures
            r is Ok <==> self.spec_state() == NestedRuntimeLifecycleState::Created,
            r is Err ==> r == Err::<(), NestedRuntimeOrchestratorError>(
                NestedRuntimeOrchestratorError::InvalidTransition {
                    state: self.spec_state(),
                    operation: NestedRuntimeOrchestratorOperation::Start,
                },
            ),
    {
        match self.state {
            NestedRuntimeLifecycleState::Created => Ok(()),
            _ => Err(
                NestedRuntimeOrchestratorError::InvalidTransition {
                    state: self.state,
                    operation: NestedRuntimeOrchestratorOperation::Start,
                },
            ),
        }
    }

    /// Records the creation of the runtime loop: its socket name on success,
    /// the error text on failure. A start from any state but `Created` is refused.
    pub fn finish_start(&mut self, created: Result<String, String>) -> (r: Result<
        NestedRuntimeStartReport,
        NestedRuntimeOrchestratorError,
    >)
        ensures
            final(self).spec_config() == old(self).spec_config(),
            old(self).spec_state() != NestedRuntimeLifecycleState::Created ==> {
                &&& r == Err::<NestedRuntimeStartReport, NestedRuntimeOrchestratorError>(
                    NestedRuntimeOrchestratorError::InvalidTransition {
                        state: old(self).spec_state(),
                        operation: NestedRuntimeOrchestratorOperation::Start,
                    },
                )
                &&& final(self).spec_state() == old(self).spec_state()
                &&& final(self).spec_has_loop() == old(self).spec_has_loop()
            },
            old(self).spec_state() == NestedRuntimeLifecycleState::Created ==> match created {
                Ok(socket_name) => {
                    &&& r matches Ok(report) && report.previous_state
                        == NestedRuntimeLifecycleState::Created && report.state
                        == NestedRuntimeLifecycleState::Started && report.started
                        && report.socket_name == socket_name
                    &&& final(self).spec_state() == NestedRuntimeLifecycleState::Started
                    &&& final(self).spec_has_loop()
                },
                Err(message) => {
                    &&& r == Err::<NestedRuntimeStartReport, NestedRuntimeOrchestratorError>(
                        NestedRuntimeOrchestratorError::StartFailed { message },
                    )
                    &&& final(self).spec_state() == NestedRuntimeLifecycleState::Failed
                    &&& final(self).spec_has_loop() == old(self).spec_has_loop()
                },
            },
    {
        match self.state {
            NestedRuntimeLifecycleState::Created => {},
            _ => {
                return Err(
                    NestedRuntimeOrchestratorError::InvalidTransition {
                        state: self.state,
                        operation: NestedRuntimeOrchestratorOperation::Start,
                    },
                );
            },
        }
        let previous_state = self.state;
        match created {
            Ok(socket_name) => {
                self.has_loop = true;
                self.state = NestedRuntimeLifecycleState::Started;
                Ok(NestedRuntimeStartReport { previous_state, state: self.state, started: true, socket_name })
            },
            Err(message) => {
                self.state = NestedRuntimeLifecycleState::Failed;
                Err(NestedRuntimeOrchestratorError::StartFailed { message })
            },
        }
    }

    /// Checks that the stop handle may be handed out: only while started or
    /// running, and only when the runtime loop exists.
    pub fn stop_handle(&self) -> (r: Result<(), NestedRuntimeOrchestratorError>)
        ensures
            !loop_active(self.spec_state()) ==> r == Err::<(), NestedRuntimeOrchestratorError>(
                NestedRuntimeOrchestratorError::InvalidTransition {
                    state: self.spec_state(),
                    operation: NestedRuntimeOrchestratorOperation::StopHandle,
                },
            ),
            loop_active(self.spec_state()) && !self.spec_has_loop() ==> r == Err::<
                (),
                NestedRuntimeOrchestratorError,
            >(NestedRuntimeOrchestratorError::MissingRuntimeLoop { state: self.spec_state() }),
            loop_active(self.spec_state()) && self.spec_has_loop() ==> r is Ok,
    {
        let active = match self.state {
            NestedRuntimeLifecycleState::Started => true,
            NestedRuntimeLifecycleState::Running => true,
            _ => false,
        };
        if !active {
            return Err(
                NestedRuntimeOrchestratorError::InvalidTransition {
                    state: self.state,
                    operation: NestedRuntimeOrchestratorOperation::StopHandle,
                },
            );
        }
        if self.has_loop {
            Ok(())
        } else {
            Err(NestedRuntimeOrchestratorError::MissingRuntimeLoop { state: self.state })
        }
    }

    /// Enters a run: only from `Started`. The state becomes `Running`, or
    /// `Failed` when no runtime loop exists.
    pub fn begin_run(&mut self) -> (r: Result<(), NestedRuntimeOrchestratorError>)
        ensures
            final(self).spec_config() == old(self).spec_config(),
            final(self).spec_has_loop() == old(self).spec_has_loop(),
            old(self).spec_state() != NestedRuntimeLifecycleState::Started ==> {
                &&& r == Err::<(), NestedRuntimeOrchestratorError>(
                    NestedRuntimeOrchestratorError::InvalidTransition {
                        state: old(self).spec_state(),
                        operation: NestedRuntimeOrchestratorOperation::Run,
                    },
                )
                &&& final(self).spec_state() == old(self).spec_state()
            },
            old(self).spec_state() == NestedRuntimeLifecycleState::Started && old(self).spec_has_loop()
                ==> r is Ok && final(self).spec_state() == NestedRuntimeLifecycleState::Running,
            old(self).spec_state() == NestedRuntimeLifecycleState::Started && !old(self).spec_has_loop()
                ==> r == Err::<(), NestedRuntimeOrchestratorError>(
                NestedRuntimeOrchestratorError::MissingRuntimeLoop {
                    state: NestedRuntimeLifecycleState::Failed,
                },
            ) && final(self).spec_state() == NestedRuntimeLifecycleState::Failed,
    {
        match self.state {
            NestedRuntimeLifecycleState::Started => {},
            _ => {
                return Err(
                    NestedRuntimeOrchestratorError::InvalidTransition {
                        state: self.state,
                        operation: NestedRuntimeOrchestratorOperation::Run,
                    },
                );
            },
        }
        self.state = NestedRuntimeLifecycleState::Running;
        if !self.has_loop {
            self.state = NestedRuntimeLifecycleState::Failed;
            return Err(NestedRuntimeOrchestratorError::MissingRuntimeLoop { state: self.state });
        }
        Ok(())
    }

    /// Ends a run with the loop's report: `Failed` after an error exit or an
    /// invalid final state, `Stopped` otherwise.
    pub fn finish_run<D: Clone, W: Clone, O: Clone>(&mut self, loop_report: NestedRuntimeLoopReport<D, W, O>) -> (r:
        NestedRuntimeLifecycleReport<D, W, O>)
        requires
            old(self).spec_state() == NestedRuntimeLifecycleState::Running,
        ensures
            final(self).spec_config() == old(self).spec_config(),
            final(self).spec_has_loop() == old(self).spec_has_loop(),
            final(self).spec_state() == if loop_report.exit_reason == NestedRuntimeLoopExitReason::Error
                || !loop_report.validation_is_clean {
                NestedRuntimeLifecycleState::Failed
            } else {
                NestedRuntimeLifecycleState::Stopped
            },
            r.final_state == final(self).spec_state(),
            r.shutdown_completed == (final(self).spec_state() == NestedRuntimeLifecycleState::Stopped),
            r.started,
            r.run_entered,
            r.stop_requested == loop_report.wakeup.stop_requested,
            r.wakeup_requested == loop_report.wakeup.wakeup_requested,
            r.loop_exit_reason == loop_report.exit_reason,
            r.pump_iterations == loop_report.iterations_run,
            r.registered_clients == loop_report.connected_clients_registered,
            r.closed_clients == loop_report.disconnected_clients_closed,
            r.errors@.len() == loop_report.errors@.len(),
            forall|k: int|
                0 <= k < loop_report.errors@.len() ==> (#[trigger] r.errors@[k]).iteration
                    == loop_report.errors@[k].iteration && r.errors@[k].pump_errors@
                    == loop_report.errors@[k].pump_errors@,
            r.validation_is_clean == loop_report.validation_is_clean,
            r.live_admission == loop_report.live_admission,
            r.live_unmap == loop_report.live_unmap,
            commit_cloned(loop_report.surface_commit, r.surface_commit),
            r.loop_report == loop_report,
            is_orchestrator_readiness(r.readiness),
    {
        let error_exit = match loop_report.exit_reason {
            NestedRuntimeLoopExitReason::Error => true,
            _ => false,
        };
        if error_exit || !loop_report.validation_is_clean {
            self.state = NestedRuntimeLifecycleState::Failed;
        } else {
            self.state = NestedRuntimeLifecycleState::Stopping;
            self.state = NestedRuntimeLifecycleState::Stopped;
        }
        let shutdown_completed = match self.state {
            NestedRuntimeLifecycleState::Stopped => true,
            _ => false,
        };
        NestedRuntimeLifecycleReport {
            started: true,
            run_entered: true,
            stop_requested: loop_report.wakeup.stop_requested,
            wakeup_requested: loop_report.wakeup.wakeup_requested,
            shutdown_completed,
            loop_exit_reason: loop_report.exit_reason,
            pump_iterations: loop_report.iterations_run,
            registered_clients: loop_report.connected_clients_registered,
            closed_clients: loop_report.disconnected_clients_closed,
            errors: copy_loop_errors(&loop_report.errors),
            final_state: self.state,
            validation_is_clean: loop_report.validation_is_clean,
            live_admission: loop_report.live_admission,
            live_unmap: loop_report.live_unmap,
            surface_commit: loop_report.surface_commit.duplicate(),
            loop_report,
            readiness: nested_runtime_orchestrator_readiness_report(),
        }
    }

    /// Stops: always ends `Stopped`. While started or running with a runtime
    /// loop, the report asks the caller to request stop with wakeup from it.
    pub fn stop(&mut self, state: &State) -> (r: NestedRuntimeStopReport)
        ensures
            final(self).spec_config() == old(self).spec_config(),
            final(self).spec_has_loop() == old(self).spec_has_loop(),
            final(self).spec_state() == NestedRuntimeLifecycleState::Stopped,
            r.previous_state == old(self).spec_state(),
            r.state == NestedRuntimeLifecycleState::Stopped,
            r.stop_requested == (loop_active(old(self).spec_state()) && old(self).spec_has_loop()),
            r.wakeup_requested == r.stop_requested,
            r.shutdown_completed,
            r.validation_is_clean == !output_invalid(state.view()),
    {
        let previous_state = self.state;
        let active = match self.state {
            NestedRuntimeLifecycleState::Started => true,
            NestedRuntimeLifecycleState::Running => true,
            _ => false,
        };
        let mut stop_requested = false;
        let mut wakeup_requested = false;
        if active && self.has_loop {
            stop_requested = true;
            wakeup_requested = true;
            self.state = NestedRuntimeLifecycleState::Stopping;
        }
        self.state = NestedRuntimeLifecycleState::Stopped;
        NestedRuntimeStopReport {
            previous_state,
            state: self.state,
            stop_requested,
            wakeup_requested,
            shutdown_completed: true,
            validation_is_clean: state.validate().is_clean(),
        }
    }
}

} // verus!
