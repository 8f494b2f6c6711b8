//! The bounded nested runtime loop, as decisions: how many pumps run, when the
//! loop stops (iteration limit, idle, stop request, interrupt, error), and what
//! the run report accumulates. The pump itself, the clock, and the stop/wakeup
//! flags stay with the caller, which feeds each observation in.

use core::time::Duration;

use vstd::prelude::*;

use crate::core_model::state::{State, output_invalid};
use crate::core_model::types::CoreClientId;
use crate::smithay_backend::real_accept_flow::{
    NestedRealAcceptPumpReport, accepted_count, connected_clients, inserted_count,
};
use crate::smithay_backend::real_disconnect_flow::{
    NestedRealDisconnectCallbackReport, disconnected_clients,
};

verus! {

/// A missing capability of the bounded loop.
#[derive(Debug, Clone, Copy, PartialEq, Eq, Structural)]
pub enum NestedRuntimeLoopBlocker {
    /// No Linux proof that the loop can pump the real coordinator repeatedly.
    MissingLinuxBoundedLoopProof,
    /// The stop flag cannot wake a waiting pump.
    MissingWakeup,
    /// No complete compositor runtime exists.
    MissingCompleteRuntimeLoop,
}

/// Conservative capabilities of the bounded loop.
#[derive(Debug, Clone, PartialEq, Eq)]
pub struct NestedRuntimeLoopReadinessReport {
    /// Remaining blockers.
    pub blockers: Vec<NestedRuntimeLoopBlocker>,
    /// The bounded loop interface is defined.
    pub loop_boundary_defined: bool,
    /// A nested runtime loop is available.
    pub nested_runtime_loop_available: bool,
    /// A bounded iteration loop is available.
    pub bounded_loop_available: bool,
    /// Stop requests are supported.
    pub stop_requested_supported: bool,
    /// A stop request can wake a blocked event source.
    pub wakeup_supported: bool,
    /// Poll waits can be interrupted.
    pub interruptible_wait_available: bool,
    /// A cooperative stop can interrupt a pump wait.
    pub stop_can_interrupt_wait: bool,
    /// A long-running compositor loop exists; always false.
    pub long_running_loop_available: bool,
    /// Real clients are accepted; always false.
    pub accepts_clients: bool,
    /// A long-running accept loop started; always false.
    pub runtime_accept_loop_started: bool,
    /// Long-running protocol dispatch started; always false.
    pub protocol_dispatch_started: bool,
    /// Real surfaces are supported; always false.
    pub surface_support: bool,
    /// Shell roles are supported; always false.
    pub shell_role_support: bool,
    /// Rendering is supported; always false.
    pub render_support: bool,
    /// Input is supported; always false.
    pub input_support: bool,
}

impl NestedRuntimeLoopReadinessReport {
    /// Whether the bounded loop is available with stop support.
    pub fn is_bounded_loop_ready(&self) -> (r: bool)
        ensures
            r == (self.nested_runtime_loop_available && self.bounded_loop_available
                && self.stop_requested_supported),
    {
        self.nested_runtime_loop_available && self.bounded_loop_available
            && self.stop_requested_supported
    }

    /// Whether waits can be interrupted by a stop with wakeup.
    pub fn is_interruptible_wait_ready(&self) -> (r: bool)
        ensures
            r == (self.wakeup_supported && self.interruptible_wait_available
                && self.stop_can_interrupt_wait),
    {
        self.wakeup_supported && self.interruptible_wait_available && self.stop_can_interrupt_wait
    }
}

/// `r` is the loop readiness report: only the complete-runtime blocker,
/// every bounded-loop capability on, every real-client capability off.
pub open spec fn is_loop_readiness(r: NestedRuntimeLoopReadinessReport) -> bool {
    &&& r.blockers@ == seq![NestedRuntimeLoopBlocker::MissingCompleteRuntimeLoop]
    &&& r.loop_boundary_defined
    &&& r.nested_runtime_loop_available
    &&& r.bounded_loop_available
    &&& r.stop_requested_supported
    &&& r.wakeup_supported
    &&& r.interruptible_wait_available
    &&& r.stop_can_interrupt_wait
    &&& !r.long_running_loop_available
    &&& !r.accepts_clients
    &&& !r.runtime_accept_loop_started
    &&& !r.protocol_dispatch_started
    &&& !r.surface_support
    &&& !r.shell_role_support
    &&& !r.render_support
    &&& !r.input_support
}

/// The loop's readiness: bounded, stoppable and interruptible; no complete
/// compositor runtime and no real client capability.
pub fn nested_runtime_loop_readiness_report() -> (r: NestedRuntimeLoopReadinessReport)
    ensures
        is_loop_readiness(r),
{
    let blockers = vec![NestedRuntimeLoopBlocker::MissingCompleteRuntimeLoop];
    assert(blockers@ =~= seq![NestedRuntimeLoopBlocker::MissingCompleteRuntimeLoop]);
    NestedRuntimeLoopReadinessReport {
        blockers,
        loop_boundary_defined: true,
        nested_runtime_loop_available: true,
        bounded_loop_available: true,
        stop_requested_supported: true,
        wakeup_supported: true,
        interruptible_wait_available: true,
        stop_can_interrupt_wait: true,
        long_running_loop_available: false,
        accepts_clients: false,
        runtime_accept_loop_started: false,
        protocol_dispatch_started: false,
        surface_support: false,
        shell_role_support: false,
        render_support: false,
        input_support: false,
    }
}

/// Limits of one bounded run.
#[derive(Debug, Clone, Copy, PartialEq, Eq)]
pub struct NestedRuntimeLoopConfig {
    /// At most this many pumps; zero exits at once.
    pub max_iterations: usize,
    /// How long one pump may wait.
    pub pump_timeout: Duration,
    /// Exit as soon as a pump shows no activity.
    pub stop_when_idle: bool,
    /// Keep going after a pump reports errors.
    pub continue_after_error: bool,
}

/// Why a bounded run ended.
#[derive(Debug, Clone, Copy, PartialEq, Eq, Structural)]
pub enum NestedRuntimeLoopExitReason {
    /// `max_iterations` pumps ran (zero included).
    MaxIterationsReached,
    /// A pump showed no activity and `stop_when_idle` was set.
    Idle,
    /// A stop request was observed and consumed.
    StopRequested,
    /// A pump reported errors and `continue_after_error` was not set.
    Error,
    /// A stop with wakeup interrupted a pump wait.
    Interrupted,
}

/// What failed in one pump.
#[derive(Debug, Clone, Copy, PartialEq, Eq, Structural)]
pub enum NestedRuntimePumpErrorKind {
    /// Accepting connections failed.
    AcceptPump,
    /// Dispatching client requests failed.
    DisplayDispatch,
    /// Flushing client events failed.
    DisplayFlush,
}

/// One error of one pump.
#[derive(Debug, Clone, PartialEq, Eq)]
pub struct NestedRuntimePumpError {
    /// What failed.
    pub kind: NestedRuntimePumpErrorKind,
    /// Diagnostic text.
    pub message: String,
}

impl NestedRuntimePumpError {
    /// Copies the error; the copy is equal to it.
    pub fn copy(&self) -> (r: Self)
        ensures
            r == *self,
    {
        NestedRuntimePumpError { kind: self.kind, message: self.message.clone() }
    }
}

fn copy_pump_errors(errors: &Vec<NestedRuntimePumpError>) -> (r: Vec<NestedRuntimePumpError>)
    ensures
        r@ == errors@,
{
    let mut out: Vec<NestedRuntimePumpError> = Vec::new();
    let mut i: usize = 0;
    while i < errors.len()
        invariant
            i <= errors@.len(),
            out@ == errors@.take(i as int),
        decreases errors@.len() - i,
    {
        out.push(errors[i].copy());
        assert(out@ =~= errors@.take(i + 1));
        i = i + 1;
    }
    assert(errors@.take(errors@.len() as int) =~= errors@);
    out
}

/// What one pump of the lifecycle coordinator did.
#[derive(Debug, Clone, PartialEq, Eq)]
pub struct NestedRuntimePumpReport {
    /// Streams accepted.
    pub accepted_clients: usize,
    /// Clients inserted.
    pub inserted_clients: usize,
    /// Connected events drained.
    pub connected_events_drained: usize,
    /// Core clients registered.
    pub registered_core_clients: Vec<CoreClientId>,
    /// Client dispatch was called.
    pub dispatch_clients_called: bool,
    /// Requests dispatched, when dispatch ran.
    pub dispatched_requests: Option<usize>,
    /// Disconnected events drained.
    pub disconnected_events_drained: usize,
    /// Core clients closed.
    pub closed_core_clients: Vec<CoreClientId>,
    /// The core state was valid afterwards.
    pub validation_is_clean: bool,
    /// Errors of this pump.
    pub errors: Vec<NestedRuntimePumpError>,
}

/// The errors of a pump whose accept, dispatch and flush steps ended as
/// given, in that order.
pub open spec fn step_errors(
    accept: Result<NestedRealAcceptPumpReport, String>,
    dispatch: Result<usize, String>,
    flush: Result<(), String>,
) -> Seq<NestedRuntimePumpError> {
    let a = match accept {
        Ok(_) => Seq::<NestedRuntimePumpError>::empty(),
        Err(message) => seq![
            NestedRuntimePumpError { kind: NestedRuntimePumpErrorKind::AcceptPump, message },
        ],
    };
    let d = match dispatch {
        Ok(_) => a,
        Err(message) => a.push(
            NestedRuntimePumpError { kind: NestedRuntimePumpErrorKind::DisplayDispatch, message },
        ),
    };
    match flush {
        Ok(_) => d,
        Err(message) => d.push(
            NestedRuntimePumpError { kind: NestedRuntimePumpErrorKind::DisplayFlush, message },
        ),
    }
}

impl NestedRuntimePumpReport {
    /// The report of one pump from its steps: the accept pump (or the error
    /// that stopped it), the client dispatch (requests dispatched, or its
    /// error), the flush, the disconnect bridge, and the core state afterwards.
    pub fn from_steps(
        accept: Result<NestedRealAcceptPumpReport, String>,
        dispatch: Result<usize, String>,
        flush: Result<(), String>,
        disconnect: &NestedRealDisconnectCallbackReport,
        state: &State,
    ) -> (r: Self)
        ensures
            r.accepted_clients == match accept {
                Ok(report) => accepted_count(report.attempts@),
                Err(_) => 0nat,
            },
            r.inserted_clients == match accept {
                Ok(report) => inserted_count(report.attempts@),
                Err(_) => 0nat,
            },
            r.connected_events_drained == match accept {
                Ok(report) => report.connected_records@.len(),
                Err(_) => 0nat,
            },
            r.registered_core_clients@ == match accept {
                Ok(report) => connected_clients(report.bridge_outcomes@),
                Err(_) => Seq::<CoreClientId>::empty(),
            },
            r.dispatch_clients_called,
            r.dispatched_requests == match dispatch {
                Ok(n) => Some(n),
                Err(_) => None::<usize>,
            },
            r.disconnected_events_drained == disconnect.disconnected_records@.len(),
            r.closed_core_clients@ == disconnected_clients(disconnect.bridge_outcomes@),
            r.validation_is_clean == !output_invalid(state.view()),
            r.errors@ == step_errors(accept, dispatch, flush),
    {
        let mut errors: Vec<NestedRuntimePumpError> = Vec::new();
        let (accepted_clients, inserted_clients, connected_events_drained, registered_core_clients) =
            match &accept {
            Ok(report) => (
                report.accepted_stream_count(),
                report.inserted_client_count(),
                report.connected_records.len(),
                report.registered_core_clients(),
            ),
            Err(message) => {
                errors.push(
                    NestedRuntimePumpError {
                        kind: NestedRuntimePumpErrorKind::AcceptPump,
                        message: message.clone(),
                    },
                );
                (0, 0, 0, Vec::new())
            },
        };
        let dispatched_requests = match &dispatch {
            Ok(n) => Some(*n),
            Err(message) => {
                errors.push(
                    NestedRuntimePumpError {
                        kind: NestedRuntimePumpErrorKind::DisplayDispatch,
                        message: message.clone(),
                    },
                );
                None
            },
        };
        match &flush {
            Ok(()) => {},
            Err(message) => {
                errors.push(
                    NestedRuntimePumpError {
                        kind: NestedRuntimePumpErrorKind::DisplayFlush,
                        message: message.clone(),
                    },
                );
            },
        }
        assert(errors@ =~= step_errors(accept, dispatch, flush));
        NestedRuntimePumpReport {
            accepted_clients,
            inserted_clients,
            connected_events_drained,
            registered_core_clients,
            dispatch_clients_called: true,
            dispatched_requests,
            disconnected_events_drained: disconnect.disconnected_count(),
            closed_core_clients: disconnect.closed_core_clients(),
            validation_is_clean: state.validate().is_clean(),
            errors,
        }
    }
}

/// The pump showed no lifecycle or protocol activity and no error.
pub open spec fn pump_idle(r: NestedRuntimePumpReport) -> bool {
    &&& r.accepted_clients == 0
    &&& r.inserted_clients == 0
    &&& r.connected_events_drained == 0
    &&& r.registered_core_clients@.len() == 0
    &&& r.dispatched_requests == Some(0usize)
    &&& r.disconnected_events_drained == 0
    &&& r.closed_core_clients@.len() == 0
    &&& r.errors@.len() == 0
}

fn pump_report_is_idle(report: &NestedRuntimePumpReport) -> (r: bool)
    ensures
        r == pump_idle(*report),
{
    let dispatched_none = match report.dispatched_requests {
        Some(n) => n == 0,
        None => false,
    };
    report.accepted_clients == 0 && report.inserted_clients == 0 && report.connected_events_drained
        == 0 && report.registered_core_clients.len() == 0 && dispatched_none
        && report.disconnected_events_drained == 0 && report.closed_core_clients.len() == 0
        && report.errors.len() == 0
}

/// The errors of the pump at a 1-based iteration.
#[derive(Debug, Clone, PartialEq, Eq)]
pub struct NestedRuntimeLoopError {
    /// The 1-based iteration of the pump.
    pub iteration: usize,
    /// The pump's errors.
    pub pump_errors: Vec<NestedRuntimePumpError>,
}

/// What the run observed of stop and wakeup.
#[derive(Debug, Clone, Copy, PartialEq, Eq)]
pub struct NestedRuntimeWakeupReport {
    /// A stop with wakeup was requested.
    pub wakeup_requested: bool,
    /// A stop request was consumed.
    pub stop_requested: bool,
    /// A wakeup arrived while a pump was waiting.
    pub wait_interrupted: bool,
    /// Time from entering the run to its exit.
    pub elapsed_before_exit: Duration,
    /// The configured pump timeout.
    pub configured_pump_timeout: Duration,
    /// A wait was interrupted and the run ended before one full timeout.
    pub exited_before_timeout: bool,
}

/// `a + b`, stopping at the maximum.
pub open spec fn sat_add(a: usize, b: usize) -> usize {
    if a + b > usize::MAX {
        usize::MAX
    } else {
        (a + b) as usize
    }
}

/// `after` is `before` with `delta` observed: counts added (saturating), the
/// pending count taken from `delta`.
pub open spec fn admission_observed(
    before: NestedRuntimeLiveAdmissionRunSummary,
    delta: NestedRuntimeLiveAdmissionRunSummary,
    after: NestedRuntimeLiveAdmissionRunSummary,
) -> bool {
    &&& after.owner_invocations == sat_add(before.owner_invocations, delta.owner_invocations)
    &&& after.enqueue_invocations == sat_add(before.enqueue_invocations, delta.enqueue_invocations)
    &&& after.admissions_enqueued == sat_add(before.admissions_enqueued, delta.admissions_enqueued)
    &&& after.drain_invocations == sat_add(before.drain_invocations, delta.drain_invocations)
    &&& after.admissions_consumed == sat_add(before.admissions_consumed, delta.admissions_consumed)
    &&& after.pending_admissions_after == delta.pending_admissions_after
}

/// `after` is `before` with `delta`'s counts added (saturating).
pub open spec fn unmap_observed(
    before: NestedRuntimeLiveUnmapRunSummary,
    delta: NestedRuntimeLiveUnmapRunSummary,
    after: NestedRuntimeLiveUnmapRunSummary,
) -> bool {
    &&& after.drain_invocations == sat_add(before.drain_invocations, delta.drain_invocations)
    &&& after.live_unmap_observations == sat_add(
        before.live_unmap_observations,
        delta.live_unmap_observations,
    )
    &&& after.ledger_unmaps == sat_add(before.ledger_unmaps, delta.ledger_unmaps)
    &&& after.core_detaches == sat_add(before.core_detaches, delta.core_detaches)
    &&& after.surface_mappings_retained == sat_add(
        before.surface_mappings_retained,
        delta.surface_mappings_retained,
    )
    &&& after.toplevel_mappings_removed == sat_add(
        before.toplevel_mappings_removed,
        delta.toplevel_mappings_removed,
    )
}

/// Live toplevel admission work of a run.
#[derive(Debug, Clone, Copy, PartialEq, Eq, Default, Structural)]
pub struct NestedRuntimeLiveAdmissionRunSummary {
    /// Times the admission owner ran.
    pub owner_invocations: usize,
    /// Times the enqueue seam ran.
    pub enqueue_invocations: usize,
    /// Admissions enqueued.
    pub admissions_enqueued: usize,
    /// Times the admission drain ran.
    pub drain_invocations: usize,
    /// Admissions consumed.
    pub admissions_consumed: usize,
    /// Admissions still pending after the last drain.
    pub pending_admissions_after: usize,
}

impl NestedRuntimeLiveAdmissionRunSummary {
    /// The summary with nothing observed.
    pub open spec fn spec_zero() -> Self {
        Self {
            owner_invocations: 0,
            enqueue_invocations: 0,
            admissions_enqueued: 0,
            drain_invocations: 0,
            admissions_consumed: 0,
            pending_admissions_after: 0,
        }
    }

    /// Nothing observed yet.
    pub fn zero() -> (r: Self)
        ensures
            r == (Self {
                owner_invocations: 0,
                enqueue_invocations: 0,
                admissions_enqueued: 0,
                drain_invocations: 0,
                admissions_consumed: 0,
                pending_admissions_after: 0,
            }),
    {
        Self {
            owner_invocations: 0,
            enqueue_invocations: 0,
            admissions_enqueued: 0,
            drain_invocations: 0,
            admissions_consumed: 0,
            pending_admissions_after: 0,
        }
    }

    /// Admission work progressed: something was enqueued or consumed.
    pub open spec fn spec_has_progress(self) -> bool {
        self.enqueue_invocations > 0 || self.admissions_enqueued > 0 || self.admissions_consumed > 0
    }

    /// Whether admission work progressed.
    pub fn has_progress(&self) -> (r: bool)
        ensures
            r == self.spec_has_progress(),
    {
        self.enqueue_invocations > 0 || self.admissions_enqueued > 0 || self.admissions_consumed > 0
    }

    /// Adds `delta`'s counts (saturating); the pending count becomes `delta`'s.
    pub fn observe(&mut self, delta: Self)
        ensures
            admission_observed(*old(self), delta, *final(self)),
    {
        self.owner_invocations = self.owner_invocations.saturating_add(delta.owner_invocations);
        self.enqueue_invocations = self.enqueue_invocations.saturating_add(delta.enqueue_invocations);
        self.admissions_enqueued = self.admissions_enqueued.saturating_add(delta.admissions_enqueued);
        self.drain_invocations = self.drain_invocations.saturating_add(delta.drain_invocations);
        self.admissions_consumed = self.admissions_consumed.saturating_add(delta.admissions_consumed);
        self.pending_admissions_after = delta.pending_admissions_after;
    }
}

/// Live toplevel unmap work of a run.
#[derive(Debug, Clone, Copy, PartialEq, Eq, Default, Structural)]
pub struct NestedRuntimeLiveUnmapRunSummary {
    /// Times the unmap drain ran.
    pub drain_invocations: usize,
    /// Live unmap observations read.
    pub live_unmap_observations: usize,
    /// Ledger unmaps.
    pub ledger_unmaps: usize,
    /// Core detaches.
    pub core_detaches: usize,
    /// Surface mappings kept after unmap.
    pub surface_mappings_retained: usize,
    /// Toplevel mappings removed after unmap.
    pub toplevel_mappings_removed: usize,
}

impl NestedRuntimeLiveUnmapRunSummary {
    /// The summary with nothing observed.
    pub open spec fn spec_zero() -> Self {
        Self {
            drain_invocations: 0,
            live_unmap_observations: 0,
            ledger_unmaps: 0,
            core_detaches: 0,
            surface_mappings_retained: 0,
            toplevel_mappings_removed: 0,
        }
    }

    /// Nothing observed yet.
    pub fn zero() -> (r: Self)
        ensures
            r == (Self {
                drain_invocations: 0,
                live_unmap_observations: 0,
                ledger_unmaps: 0,
                core_detaches: 0,
                surface_mappings_retained: 0,
                toplevel_mappings_removed: 0,
            }),
    {
        Self {
            drain_invocations: 0,
            live_unmap_observations: 0,
            ledger_unmaps: 0,
            core_detaches: 0,
            surface_mappings_retained: 0,
            toplevel_mappings_removed: 0,
        }
    }

    /// Unmap work progressed: an observation, a ledger unmap or a core detach.
    pub open spec fn spec_has_progress(self) -> bool {
        self.live_unmap_observations > 0 || self.ledger_unmaps > 0 || self.core_detaches > 0
    }

    /// Whether unmap work progressed.
    pub fn has_progress(&self) -> (r: bool)
        ensures
            r == self.spec_has_progress(),
    {
        self.live_unmap_observations > 0 || self.ledger_unmaps > 0 || self.core_detaches > 0
    }

    /// Adds `delta`'s counts, saturating.
    pub fn observe(&mut self, delta: Self)
        ensures
            unmap_observed(*old(self), delta, *final(self)),
    {
        self.drain_invocations = self.drain_invocations.saturating_add(delta.drain_invocations);
        self.live_unmap_observations = self.live_unmap_observations.saturating_add(
            delta.live_unmap_observations,
        );
        self.ledger_unmaps = self.ledger_unmaps.saturating_add(delta.ledger_unmaps);
        self.core_detaches = self.core_detaches.saturating_add(delta.core_detaches);
        self.surface_mappings_retained = self.surface_mappings_retained.saturating_add(
            delta.surface_mappings_retained,
        );
        self.toplevel_mappings_removed = self.toplevel_mappings_removed.saturating_add(
            delta.toplevel_mappings_removed,
        );
    }
}

/// Surface commit work of a run: commit drains, their buffer, damage and
/// frame-callback evidence, and the render-path intents built from them, in
/// FIFO order. The three intent types are those of the runtime coordinator:
/// `D` render-dirty readiness intents, `W` renderer work intents, `O` render
/// operation intents. Every count is a number of events or invocations; every
/// flag records whether the stage ever did it.
#[derive(Debug, Clone, PartialEq, Eq, Default)]
pub struct NestedRuntimeSurfaceCommitRunSummary<D, W, O> {
    pub drain_invocations: usize,
    pub commit_observations_drained: usize,
    pub commit_observation_errors: usize,
    pub drained_commit_sequences: Vec<u64>,
    pub buffer_attach_observations: usize,
    pub buffer_presence_observations: usize,
    pub buffer_removed_observations: usize,
    pub renderable_buffer_observations: usize,
    pub damage_observations: usize,
    pub surface_damage_rects: usize,
    pub buffer_damage_rects: usize,
    pub frame_callback_observations: usize,
    pub frame_callback_count: usize,
    pub render_dirty_readiness_intents: Vec<D>,
    pub render_dirty_queue_drain_invocations: usize,
    pub render_dirty_intents_enqueued: usize,
    pub render_dirty_intents_drained: usize,
    pub render_dirty_queue_drained_intents: Vec<D>,
    pub render_dirty_queue_buffer_imported: bool,
    pub render_dirty_queue_texture_created: bool,
    pub render_dirty_queue_render_submitted: bool,
    pub render_dirty_queue_frame_callback_done_sent: bool,
    pub render_dirty_queue_input_support: bool,
    pub renderer_admission_invocations: usize,
    pub renderer_work_intents_created: usize,
    pub renderer_work_intents: Vec<W>,
    pub renderer_admission_buffer_imported: bool,
    pub renderer_admission_texture_created: bool,
    pub renderer_admission_render_submitted: bool,
    pub renderer_admission_damage_submitted: bool,
    pub renderer_admission_frame_callback_done_sent: bool,
    pub renderer_admission_input_support: bool,
    pub renderer_admission_core_mutation_invoked: bool,
    pub renderer_owner_boundary_invocations: usize,
    pub renderer_owner_work_intents_consumed: usize,
    pub renderer_owner_consumed_work_intents: Vec<W>,
    pub renderer_owner_missing_renderer_owner: bool,
    pub renderer_owner_missing_buffer_importer: bool,
    pub renderer_owner_missing_texture_support: bool,
    pub renderer_owner_buffer_imported: bool,
    pub renderer_owner_texture_created: bool,
    pub renderer_owner_renderer_called: bool,
    pub renderer_owner_damage_submitted: bool,
    pub renderer_owner_frame_callback_done_sent: bool,
    pub renderer_owner_input_support: bool,
    pub renderer_owner_core_mutation_invoked: bool,
    pub renderer_owner_shell_readiness_invocations: usize,
    pub renderer_owner_shell_work_intents_observed: usize,
    pub renderer_owner_shell_observed_work_intents: Vec<W>,
    pub renderer_owner_shell_available: bool,
    pub renderer_owner_shell_missing_renderer_owner: bool,
    pub renderer_owner_shell_missing_buffer_importer: bool,
    pub renderer_owner_shell_missing_texture_support: bool,
    pub renderer_owner_shell_buffer_imported: bool,
    pub renderer_owner_shell_texture_created: bool,
    pub renderer_owner_shell_renderer_called: bool,
    pub renderer_owner_shell_damage_submitted: bool,
    pub renderer_owner_shell_frame_callback_done_sent: bool,
    pub renderer_owner_shell_input_support: bool,
    pub renderer_owner_shell_core_mutation_invoked: bool,
    pub buffer_importer_shell_readiness_invocations: usize,
    pub buffer_importer_shell_work_intents_observed: usize,
    pub buffer_importer_shell_observed_work_intents: Vec<W>,
    pub buffer_importer_shell_available: bool,
    pub buffer_importer_shell_missing_renderer_owner_shell: bool,
    pub buffer_importer_shell_missing_buffer_importer: bool,
    pub buffer_importer_shell_missing_texture_support: bool,
    pub buffer_importer_shell_buffer_imported: bool,
    pub buffer_importer_shell_texture_created: bool,
    pub buffer_importer_shell_renderer_called: bool,
    pub buffer_importer_shell_damage_submitted: bool,
    pub buffer_importer_shell_frame_callback_done_sent: bool,
    pub buffer_importer_shell_input_support: bool,
    pub buffer_importer_shell_core_mutation_invoked: bool,
    pub texture_support_shell_readiness_invocations: usize,
    pub texture_support_shell_work_intents_observed: usize,
    pub texture_support_shell_observed_work_intents: Vec<W>,
    pub texture_support_shell_available: bool,
    pub texture_support_shell_missing_buffer_importer_shell: bool,
    pub texture_support_shell_missing_texture_support: bool,
    pub texture_support_shell_buffer_imported: bool,
    pub texture_support_shell_texture_created: bool,
    pub texture_support_shell_renderer_called: bool,
    pub texture_support_shell_damage_submitted: bool,
    pub texture_support_shell_frame_callback_done_sent: bool,
    pub texture_support_shell_input_support: bool,
    pub texture_support_shell_core_mutation_invoked: bool,
    pub render_operation_readiness_invocations: usize,
    pub render_operation_intents_created: usize,
    pub render_operation_intents: Vec<O>,
    pub render_operation_buffer_imported: bool,
    pub render_operation_texture_created: bool,
    pub render_operation_renderer_called: bool,
    pub render_operation_damage_submitted: bool,
    pub render_operation_frame_callback_done_sent: bool,
    pub render_operation_input_support: bool,
    pub render_operation_core_mutation_invoked: bool,
    pub render_operation_queue_drain_invocations: usize,
    pub render_operation_intents_enqueued: usize,
    pub render_operation_intents_drained: usize,
    pub render_operation_queue_drained_intents: Vec<O>,
    pub render_operation_queue_buffer_imported: bool,
    pub render_operation_queue_texture_created: bool,
    pub render_operation_queue_renderer_called: bool,
    pub render_operation_queue_damage_submitted: bool,
    pub render_operation_queue_frame_callback_done_sent: bool,
    pub render_operation_queue_input_support: bool,
    pub render_operation_queue_core_mutation_invoked: bool,
    pub buffer_attached: bool,
    pub damage_submitted: bool,
    pub frame_callback_requested: bool,
    pub render_invoked: bool,
    pub input_invoked: bool,
    pub core_mutation_invoked: bool,
}

/// `after` is `before` with `delta` observed: counts added (saturating), flags
/// or-ed, lists appended.
pub open spec fn commit_observed<D, W, O>(
    before: NestedRuntimeSurfaceCommitRunSummary<D, W, O>,
    delta: NestedRuntimeSurfaceCommitRunSummary<D, W, O>,
    after: NestedRuntimeSurfaceCommitRunSummary<D, W, O>,
) -> bool {
    &&& after.drain_invocations == sat_add(before.drain_invocations, delta.drain_invocations)
    &&& after.commit_observations_drained == sat_add(before.commit_observations_drained, delta.commit_observations_drained)
    &&& after.commit_observation_errors == sat_add(before.commit_observation_errors, delta.commit_observation_errors)
    &&& after.drained_commit_sequences@ == before.drained_commit_sequences@ + delta.drained_commit_sequences@
    &&& after.buffer_attach_observations == sat_add(before.buffer_attach_observations, delta.buffer_attach_observations)
    &&& after.buffer_presence_observations == sat_add(before.buffer_presence_observations, delta.buffer_presence_observations)
    &&& after.buffer_removed_observations == sat_add(before.buffer_removed_observations, delta.buffer_removed_observations)
    &&& after.renderable_buffer_observations == sat_add(before.renderable_buffer_observations, delta.renderable_buffer_observations)
    &&& after.damage_observations == sat_add(before.damage_observations, delta.damage_observations)
    &&& after.surface_damage_rects == sat_add(before.surface_damage_rects, delta.surface_damage_rects)
    &&& after.buffer_damage_rects == sat_add(before.buffer_damage_rects, delta.buffer_damage_rects)
    &&& after.frame_callback_observations == sat_add(before.frame_callback_observations, delta.frame_callback_observations)
    &&& after.frame_callback_count == sat_add(before.frame_callback_count, delta.frame_callback_count)
    &&& after.render_dirty_readiness_intents@ == before.render_dirty_readiness_intents@ + delta.render_dirty_readiness_intents@
    &&& after.render_dirty_queue_drain_invocations == sat_add(before.render_dirty_queue_drain_invocations, delta.render_dirty_queue_drain_invocations)
    &&& after.render_dirty_intents_enqueued == sat_add(before.render_dirty_intents_enqueued, delta.render_dirty_intents_enqueued)
    &&& after.render_dirty_intents_drained == sat_add(before.render_dirty_intents_drained, delta.render_dirty_intents_drained)
    &&& after.render_dirty_queue_drained_intents@ == before.render_dirty_queue_drained_intents@ + delta.render_dirty_queue_drained_intents@
    &&& after.render_dirty_queue_buffer_imported == (before.render_dirty_queue_buffer_imported || delta.render_dirty_queue_buffer_imported)
    &&& after.render_dirty_queue_texture_created == (before.render_dirty_queue_texture_created || delta.render_dirty_queue_texture_created)
    &&& after.render_dirty_queue_render_submitted == (before.render_dirty_queue_render_submitted || delta.render_dirty_queue_render_submitted)
    &&& after.render_dirty_queue_frame_callback_done_sent == (before.render_dirty_queue_frame_callback_done_sent || delta.render_dirty_queue_frame_callback_done_sent)
    &&& after.render_dirty_queue_input_support == (before.render_dirty_queue_input_support || delta.render_dirty_queue_input_support)
    &&& after.renderer_admission_invocations == sat_add(before.renderer_admission_invocations, delta.renderer_admission_invocations)
    &&& after.renderer_work_intents_created == sat_add(before.renderer_work_intents_created, delta.renderer_work_intents_created)
    &&& after.renderer_work_intents@ == before.renderer_work_intents@ + delta.renderer_work_intents@
    &&& after.renderer_admission_buffer_imported == (before.renderer_admission_buffer_imported || delta.renderer_admission_buffer_imported)
    &&& after.renderer_admission_texture_created == (before.renderer_admission_texture_created || delta.renderer_admission_texture_created)
    &&& after.renderer_admission_render_submitted == (before.renderer_admission_render_submitted || delta.renderer_admission_render_submitted)
    &&& after.renderer_admission_damage_submitted == (before.renderer_admission_damage_submitted || delta.renderer_admission_damage_submitted)
    &&& after.renderer_admission_frame_callback_done_sent == (before.renderer_admission_frame_callback_done_sent || delta.renderer_admission_frame_callback_done_sent)
    &&& after.renderer_admission_input_support == (before.renderer_admission_input_support || delta.renderer_admission_input_support)
    &&& after.renderer_admission_core_mutation_invoked == (before.renderer_admission_core_mutation_invoked || delta.renderer_admission_core_mutation_invoked)
    &&& after.renderer_owner_boundary_invocations == sat_add(before.renderer_owner_boundary_invocations, delta.renderer_owner_boundary_invocations)
    &&& after.renderer_owner_work_intents_consumed == sat_add(before.renderer_owner_work_intents_consumed, delta.renderer_owner_work_intents_consumed)
    &&& after.renderer_owner_consumed_work_intents@ == before.renderer_owner_consumed_work_intents@ + delta.renderer_owner_consumed_work_intents@
    &&& after.renderer_owner_missing_renderer_owner == (before.renderer_owner_missing_renderer_owner || delta.renderer_owner_missing_renderer_owner)
    &&& after.renderer_owner_missing_buffer_importer == (before.renderer_owner_missing_buffer_importer || delta.renderer_owner_missing_buffer_importer)
    &&& after.renderer_owner_missing_texture_support == (before.renderer_owner_missing_texture_support || delta.renderer_owner_missing_texture_support)
    &&& after.renderer_owner_buffer_imported == (before.renderer_owner_buffer_imported || delta.renderer_owner_buffer_imported)
    &&& after.renderer_owner_texture_created == (before.renderer_owner_texture_created || delta.renderer_owner_texture_created)
    &&& after.renderer_owner_renderer_called == (before.renderer_owner_renderer_called || delta.renderer_owner_renderer_called)
    &&& after.renderer_owner_damage_submitted == (before.renderer_owner_damage_submitted || delta.renderer_owner_damage_submitted)
    &&& after.renderer_owner_frame_callback_done_sent == (before.renderer_owner_frame_callback_done_sent || delta.renderer_owner_frame_callback_done_sent)
    &&& after.renderer_owner_input_support == (before.renderer_owner_input_support || delta.renderer_owner_input_support)
    &&& after.renderer_owner_core_mutation_invoked == (before.renderer_owner_core_mutation_invoked || delta.renderer_owner_core_mutation_invoked)
    &&& after.renderer_owner_shell_readiness_invocations == sat_add(before.renderer_owner_shell_readiness_invocations, delta.renderer_owner_shell_readiness_invocations)
    &&& after.renderer_owner_shell_work_intents_observed == sat_add(before.renderer_owner_shell_work_intents_observed, delta.renderer_owner_shell_work_intents_observed)
    &&& after.renderer_owner_shell_observed_work_intents@ == before.renderer_owner_shell_observed_work_intents@ + delta.renderer_owner_shell_observed_work_intents@
    &&& after.renderer_owner_shell_available == (before.renderer_owner_shell_available || delta.renderer_owner_shell_available)
    &&& after.renderer_owner_shell_missing_renderer_owner == (before.renderer_owner_shell_missing_renderer_owner || delta.renderer_owner_shell_missing_renderer_owner)
    &&& after.renderer_owner_shell_missing_buffer_importer == (before.renderer_owner_shell_missing_buffer_importer || delta.renderer_owner_shell_missing_buffer_importer)
    &&& after.renderer_owner_shell_missing_texture_support == (before.renderer_owner_shell_missing_texture_support || delta.renderer_owner_shell_missing_texture_support)
    &&& after.renderer_owner_shell_buffer_imported == (before.renderer_owner_shell_buffer_imported || delta.renderer_owner_shell_buffer_imported)
    &&& after.renderer_owner_shell_texture_created == (before.renderer_owner_shell_texture_created || delta.renderer_owner_shell_texture_created)
    &&& after.renderer_owner_shell_renderer_called == (before.renderer_owner_shell_renderer_called || delta.renderer_owner_shell_renderer_called)
    &&& after.renderer_owner_shell_damage_submitted == (before.renderer_owner_shell_damage_submitted || delta.renderer_owner_shell_damage_submitted)
    &&& after.renderer_owner_shell_frame_callback_done_sent == (before.renderer_owner_shell_frame_callback_done_sent || delta.renderer_owner_shell_frame_callback_done_sent)
    &&& after.renderer_owner_shell_input_support == (before.renderer_owner_shell_input_support || delta.renderer_owner_shell_input_support)
    &&& after.renderer_owner_shell_core_mutation_invoked == (before.renderer_owner_shell_core_mutation_invoked || delta.renderer_owner_shell_core_mutation_invoked)
    &&& after.buffer_importer_shell_readiness_invocations == sat_add(before.buffer_importer_shell_readiness_invocations, delta.buffer_importer_shell_readiness_invocations)
    &&& after.buffer_importer_shell_work_intents_observed == sat_add(before.buffer_importer_shell_work_intents_observed, delta.buffer_importer_shell_work_intents_observed)
    &&& after.buffer_importer_shell_observed_work_intents@ == before.buffer_importer_shell_observed_work_intents@ + delta.buffer_importer_shell_observed_work_intents@
    &&& after.buffer_importer_shell_available == (before.buffer_importer_shell_available || delta.buffer_importer_shell_available)
    &&& after.buffer_importer_shell_missing_renderer_owner_shell == (before.buffer_importer_shell_missing_renderer_owner_shell || delta.buffer_importer_shell_missing_renderer_owner_shell)
    &&& after.buffer_importer_shell_missing_buffer_importer == (before.buffer_importer_shell_missing_buffer_importer || delta.buffer_importer_shell_missing_buffer_importer)
    &&& after.buffer_importer_shell_missing_texture_support == (before.buffer_importer_shell_missing_texture_support || delta.buffer_importer_shell_missing_texture_support)
    &&& after.buffer_importer_shell_buffer_imported == (before.buffer_importer_shell_buffer_imported || delta.buffer_importer_shell_buffer_imported)
    &&& after.buffer_importer_shell_texture_created == (before.buffer_importer_shell_texture_created || delta.buffer_importer_shell_texture_created)
    &&& after.buffer_importer_shell_renderer_called == (before.buffer_importer_shell_renderer_called || delta.buffer_importer_shell_renderer_called)
    &&& after.buffer_importer_shell_damage_submitted == (before.buffer_importer_shell_damage_submitted || delta.buffer_importer_shell_damage_submitted)
    &&& after.buffer_importer_shell_frame_callback_done_sent == (before.buffer_importer_shell_frame_callback_done_sent || delta.buffer_importer_shell_frame_callback_done_sent)
    &&& after.buffer_importer_shell_input_support == (before.buffer_importer_shell_input_support || delta.buffer_importer_shell_input_support)
    &&& after.buffer_importer_shell_core_mutation_invoked == (before.buffer_importer_shell_core_mutation_invoked || delta.buffer_importer_shell_core_mutation_invoked)
    &&& after.texture_support_shell_readiness_invocations == sat_add(before.texture_support_shell_readiness_invocations, delta.texture_support_shell_readiness_invocations)
    &&& after.texture_support_shell_work_intents_observed == sat_add(before.texture_support_shell_work_intents_observed, delta.texture_support_shell_work_intents_observed)
    &&& after.texture_support_shell_observed_work_intents@ == before.texture_support_shell_observed_work_intents@ + delta.texture_support_shell_observed_work_intents@
    &&& after.texture_support_shell_available == (before.texture_support_shell_available || delta.texture_support_shell_available)
    &&& after.texture_support_shell_missing_buffer_importer_shell == (before.texture_support_shell_missing_buffer_importer_shell || delta.texture_support_shell_missing_buffer_importer_shell)
    &&& after.texture_support_shell_missing_texture_support == (before.texture_support_shell_missing_texture_support || delta.texture_support_shell_missing_texture_support)
    &&& after.texture_support_shell_buffer_imported == (before.texture_support_shell_buffer_imported || delta.texture_support_shell_buffer_imported)
    &&& after.texture_support_shell_texture_created == (before.texture_support_shell_texture_created || delta.texture_support_shell_texture_created)
    &&& after.texture_support_shell_renderer_called == (before.texture_support_shell_renderer_called || delta.texture_support_shell_renderer_called)
    &&& after.texture_support_shell_damage_submitted == (before.texture_support_shell_damage_submitted || delta.texture_support_shell_damage_submitted)
    &&& after.texture_support_shell_frame_callback_done_sent == (before.texture_support_shell_frame_callback_done_sent || delta.texture_support_shell_frame_callback_done_sent)
    &&& after.texture_support_shell_input_support == (before.texture_support_shell_input_support || delta.texture_support_shell_input_support)
    &&& after.texture_support_shell_core_mutation_invoked == (before.texture_support_shell_core_mutation_invoked || delta.texture_support_shell_core_mutation_invoked)
    &&& after.render_operation_readiness_invocations == sat_add(before.render_operation_readiness_invocations, delta.render_operation_readiness_invocations)
    &&& after.render_operation_intents_created == sat_add(before.render_operation_intents_created, delta.render_operation_intents_created)
    &&& after.render_operation_intents@ == before.render_operation_intents@ + delta.render_operation_intents@
    &&& after.render_operation_buffer_imported == (before.render_operation_buffer_imported || delta.render_operation_buffer_imported)
    &&& after.render_operation_texture_created == (before.render_operation_texture_created || delta.render_operation_texture_created)
    &&& after.render_operation_renderer_called == (before.render_operation_renderer_called || delta.render_operation_renderer_called)
    &&& after.render_operation_damage_submitted == (before.render_operation_damage_submitted || delta.render_operation_damage_submitted)
    &&& after.render_operation_frame_callback_done_sent == (before.render_operation_frame_callback_done_sent || delta.render_operation_frame_callback_done_sent)
    &&& after.render_operation_input_support == (before.render_operation_input_support || delta.render_operation_input_support)
    &&& after.render_operation_core_mutation_invoked == (before.render_operation_core_mutation_invoked || delta.render_operation_core_mutation_invoked)
    &&& after.render_operation_queue_drain_invocations == sat_add(before.render_operation_queue_drain_invocations, delta.render_operation_queue_drain_invocations)
    &&& after.render_operation_intents_enqueued == sat_add(before.render_operation_intents_enqueued, delta.render_operation_intents_enqueued)
    &&& after.render_operation_intents_drained == sat_add(before.render_operation_intents_drained, delta.render_operation_intents_drained)
    &&& after.render_operation_queue_drained_intents@ == before.render_operation_queue_drained_intents@ + delta.render_operation_queue_drained_intents@
    &&& after.render_operation_queue_buffer_imported == (before.render_operation_queue_buffer_imported || delta.render_operation_queue_buffer_imported)
    &&& after.render_operation_queue_texture_created == (before.render_operation_queue_texture_created || delta.render_operation_queue_texture_created)
    &&& after.render_operation_queue_renderer_called == (before.render_operation_queue_renderer_called || delta.render_operation_queue_renderer_called)
    &&& after.render_operation_queue_damage_submitted == (before.render_operation_queue_damage_submitted || delta.render_operation_queue_damage_submitted)
    &&& after.render_operation_queue_frame_callback_done_sent == (before.render_operation_queue_frame_callback_done_sent || delta.render_operation_queue_frame_callback_done_sent)
    &&& after.render_operation_queue_input_support == (before.render_operation_queue_input_support || delta.render_operation_queue_input_support)
    &&& after.render_operation_queue_core_mutation_invoked == (before.render_operation_queue_core_mutation_invoked || delta.render_operation_queue_core_mutation_invoked)
    &&& after.buffer_attached == (before.buffer_attached || delta.buffer_attached)
    &&& after.damage_submitted == (before.damage_submitted || delta.damage_submitted)
    &&& after.frame_callback_requested == (before.frame_callback_requested || delta.frame_callback_requested)
    &&& after.render_invoked == (before.render_invoked || delta.render_invoked)
    &&& after.input_invoked == (before.input_invoked || delta.input_invoked)
    &&& after.core_mutation_invoked == (before.core_mutation_invoked || delta.core_mutation_invoked)
}

/// `s` has zero counts, no flag and empty lists.
pub open spec fn commit_empty<D, W, O>(s: NestedRuntimeSurfaceCommitRunSummary<D, W, O>) -> bool {
    &&& s.drain_invocations == 0
    &&& s.commit_observations_drained == 0
    &&& s.commit_observation_errors == 0
    &&& s.drained_commit_sequences@.len() == 0
    &&& s.buffer_attach_observations == 0
    &&& s.buffer_presence_observations == 0
    &&& s.buffer_removed_observations == 0
    &&& s.renderable_buffer_observations == 0
    &&& s.damage_observations == 0
    &&& s.surface_damage_rects == 0
    &&& s.buffer_damage_rects == 0
    &&& s.frame_callback_observations == 0
    &&& s.frame_callback_count == 0
    &&& s.render_dirty_readiness_intents@.len() == 0
    &&& s.render_dirty_queue_drain_invocations == 0
    &&& s.render_dirty_intents_enqueued == 0
    &&& s.render_dirty_intents_drained == 0
    &&& s.render_dirty_queue_drained_intents@.len() == 0
    &&& !s.render_dirty_queue_buffer_imported
    &&& !s.render_dirty_queue_texture_created
    &&& !s.render_dirty_queue_render_submitted
    &&& !s.render_dirty_queue_frame_callback_done_sent
    &&& !s.render_dirty_queue_input_support
    &&& s.renderer_admission_invocations == 0
    &&& s.renderer_work_intents_created == 0
    &&& s.renderer_work_intents@.len() == 0
    &&& !s.renderer_admission_buffer_imported
    &&& !s.renderer_admission_texture_created
    &&& !s.renderer_admission_render_submitted
    &&& !s.renderer_admission_damage_submitted
    &&& !s.renderer_admission_frame_callback_done_sent
    &&& !s.renderer_admission_input_support
    &&& !s.renderer_admission_core_mutation_invoked
    &&& s.renderer_owner_boundary_invocations == 0
    &&& s.renderer_owner_work_intents_consumed == 0
    &&& s.renderer_owner_consumed_work_intents@.len() == 0
    &&& !s.renderer_owner_missing_renderer_owner
    &&& !s.renderer_owner_missing_buffer_importer
    &&& !s.renderer_owner_missing_texture_support
    &&& !s.renderer_owner_buffer_imported
    &&& !s.renderer_owner_texture_created
    &&& !s.renderer_owner_renderer_called
    &&& !s.renderer_owner_damage_submitted
    &&& !s.renderer_owner_frame_callback_done_sent
    &&& !s.renderer_owner_input_support
    &&& !s.renderer_owner_core_mutation_invoked
    &&& s.renderer_owner_shell_readiness_invocations == 0
    &&& s.renderer_owner_shell_work_intents_observed == 0
    &&& s.renderer_owner_shell_observed_work_intents@.len() == 0
    &&& !s.renderer_owner_shell_available
    &&& !s.renderer_owner_shell_missing_renderer_owner
    &&& !s.renderer_owner_shell_missing_buffer_importer
    &&& !s.renderer_owner_shell_missing_texture_support
    &&& !s.renderer_owner_shell_buffer_imported
    &&& !s.renderer_owner_shell_texture_created
    &&& !s.renderer_owner_shell_renderer_called
    &&& !s.renderer_owner_shell_damage_submitted
    &&& !s.renderer_owner_shell_frame_callback_done_sent
    &&& !s.renderer_owner_shell_input_support
    &&& !s.renderer_owner_shell_core_mutation_invoked
    &&& s.buffer_importer_shell_readiness_invocations == 0
    &&& s.buffer_importer_shell_work_intents_observed == 0
    &&& s.buffer_importer_shell_observed_work_intents@.len() == 0
    &&& !s.buffer_importer_shell_available
    &&& !s.buffer_importer_shell_missing_renderer_owner_shell
    &&& !s.buffer_importer_shell_missing_buffer_importer
    &&& !s.buffer_importer_shell_missing_texture_support
    &&& !s.buffer_importer_shell_buffer_imported
    &&& !s.buffer_importer_shell_texture_created
    &&& !s.buffer_importer_shell_renderer_called
    &&& !s.buffer_importer_shell_damage_submitted
    &&& !s.buffer_importer_shell_frame_callback_done_sent
    &&& !s.buffer_importer_shell_input_support
    &&& !s.buffer_importer_shell_core_mutation_invoked
    &&& s.texture_support_shell_readiness_invocations == 0
    &&& s.texture_support_shell_work_intents_observed == 0
    &&& s.texture_support_shell_observed_work_intents@.len() == 0
    &&& !s.texture_support_shell_available
    &&& !s.texture_support_shell_missing_buffer_importer_shell
    &&& !s.texture_support_shell_missing_texture_support
    &&& !s.texture_support_shell_buffer_imported
    &&& !s.texture_support_shell_texture_created
    &&& !s.texture_support_shell_renderer_called
    &&& !s.texture_support_shell_damage_submitted
    &&& !s.texture_support_shell_frame_callback_done_sent
    &&& !s.texture_support_shell_input_support
    &&& !s.texture_support_shell_core_mutation_invoked
    &&& s.render_operation_readiness_invocations == 0
    &&& s.render_operation_intents_created == 0
    &&& s.render_operation_intents@.len() == 0
    &&& !s.render_operation_buffer_imported
    &&& !s.render_operation_texture_created
    &&& !s.render_operation_renderer_called
    &&& !s.render_operation_damage_submitted
    &&& !s.render_operation_frame_callback_done_sent
    &&& !s.render_operation_input_support
    &&& !s.render_operation_core_mutation_invoked
    &&& s.render_operation_queue_drain_invocations == 0
    &&& s.render_operation_intents_enqueued == 0
    &&& s.render_operation_intents_drained == 0
    &&& s.render_operation_queue_drained_intents@.len() == 0
    &&& !s.render_operation_queue_buffer_imported
    &&& !s.render_operation_queue_texture_created
    &&& !s.render_operation_queue_renderer_called
    &&& !s.render_operation_queue_damage_submitted
    &&& !s.render_operation_queue_frame_callback_done_sent
    &&& !s.render_operation_queue_input_support
    &&& !s.render_operation_queue_core_mutation_invoked
    &&& !s.buffer_attached
    &&& !s.damage_submitted
    &&& !s.frame_callback_requested
    &&& !s.render_invoked
    &&& !s.input_invoked
    &&& !s.core_mutation_invoked
}

/// `b` is a clone of `a`: equal counts and flags, and lists cloned item by item.
pub open spec fn commit_cloned<D: Clone, W: Clone, O: Clone>(
    a: NestedRuntimeSurfaceCommitRunSummary<D, W, O>,
    b: NestedRuntimeSurfaceCommitRunSummary<D, W, O>,
) -> bool {
    &&& b.drain_invocations == a.drain_invocations
    &&& b.commit_observations_drained == a.commit_observations_drained
    &&& b.commit_observation_errors == a.commit_observation_errors
    &&& b.drained_commit_sequences@.len() == a.drained_commit_sequences@.len()
    &&& forall|i: int| 0 <= i < a.drained_commit_sequences@.len() ==> cloned::<u64>(a.drained_commit_sequences@[i], b.drained_commit_sequences@[i])
    &&& b.buffer_attach_observations == a.buffer_attach_observations
    &&& b.buffer_presence_observations == a.buffer_presence_observations
    &&& b.buffer_removed_observations == a.buffer_removed_observations
    &&& b.renderable_buffer_observations == a.renderable_buffer_observations
    &&& b.damage_observations == a.damage_observations
    &&& b.surface_damage_rects == a.surface_damage_rects
    &&& b.buffer_damage_rects == a.buffer_damage_rects
    &&& b.frame_callback_observations == a.frame_callback_observations
    &&& b.frame_callback_count == a.frame_callback_count
    &&& b.render_dirty_readiness_intents@.len() == a.render_dirty_readiness_intents@.len()
    &&& forall|i: int| 0 <= i < a.render_dirty_readiness_intents@.len() ==> cloned::<D>(a.render_dirty_readiness_intents@[i], b.render_dirty_readiness_intents@[i])
    &&& b.render_dirty_queue_drain_invocations == a.render_dirty_queue_drain_invocations
    &&& b.render_dirty_intents_enqueued == a.render_dirty_intents_enqueued
    &&& b.render_dirty_intents_drained == a.render_dirty_intents_drained
    &&& b.render_dirty_queue_drained_intents@.len() == a.render_dirty_queue_drained_intents@.len()
    &&& forall|i: int| 0 <= i < a.render_dirty_queue_drained_intents@.len() ==> cloned::<D>(a.render_dirty_queue_drained_intents@[i], b.render_dirty_queue_drained_intents@[i])
    &&& b.render_dirty_queue_buffer_imported == a.render_dirty_queue_buffer_imported
    &&& b.render_dirty_queue_texture_created == a.render_dirty_queue_texture_created
    &&& b.render_dirty_queue_render_submitted == a.render_dirty_queue_render_submitted
    &&& b.render_dirty_queue_frame_callback_done_sent == a.render_dirty_queue_frame_callback_done_sent
    &&& b.render_dirty_queue_input_support == a.render_dirty_queue_input_support
    &&& b.renderer_admission_invocations == a.renderer_admission_invocations
    &&& b.renderer_work_intents_created == a.renderer_work_intents_created
    &&& b.renderer_work_intents@.len() == a.renderer_work_intents@.len()
    &&& forall|i: int| 0 <= i < a.renderer_work_intents@.len() ==> cloned::<W>(a.renderer_work_intents@[i], b.renderer_work_intents@[i])
    &&& b.renderer_admission_buffer_imported == a.renderer_admission_buffer_imported
    &&& b.renderer_admission_texture_created == a.renderer_admission_texture_created
    &&& b.renderer_admission_render_submitted == a.renderer_admission_render_submitted
    &&& b.renderer_admission_damage_submitted == a.renderer_admission_damage_submitted
    &&& b.renderer_admission_frame_callback_done_sent == a.renderer_admission_frame_callback_done_sent
    &&& b.renderer_admission_input_support == a.renderer_admission_input_support
    &&& b.renderer_admission_core_mutation_invoked == a.renderer_admission_core_mutation_invoked
    &&& b.renderer_owner_boundary_invocations == a.renderer_owner_boundary_invocations
    &&& b.renderer_owner_work_intents_consumed == a.renderer_owner_work_intents_consumed
    &&& b.renderer_owner_consumed_work_intents@.len() == a.renderer_owner_consumed_work_intents@.len()
    &&& forall|i: int| 0 <= i < a.renderer_owner_consumed_work_intents@.len() ==> cloned::<W>(a.renderer_owner_consumed_work_intents@[i], b.renderer_owner_consumed_work_intents@[i])
    &&& b.renderer_owner_missing_renderer_owner == a.renderer_owner_missing_renderer_owner
    &&& b.renderer_owner_missing_buffer_importer == a.renderer_owner_missing_buffer_importer
    &&& b.renderer_owner_missing_texture_support == a.renderer_owner_missing_texture_support
    &&& b.renderer_owner_buffer_imported == a.renderer_owner_buffer_imported
    &&& b.renderer_owner_texture_created == a.renderer_owner_texture_created
    &&& b.renderer_owner_renderer_called == a.renderer_owner_renderer_called
    &&& b.renderer_owner_damage_submitted == a.renderer_owner_damage_submitted
    &&& b.renderer_owner_frame_callback_done_sent == a.renderer_owner_frame_callback_done_sent
    &&& b.renderer_owner_input_support == a.renderer_owner_input_support
    &&& b.renderer_owner_core_mutation_invoked == a.renderer_owner_core_mutation_invoked
    &&& b.renderer_owner_shell_readiness_invocations == a.renderer_owner_shell_readiness_invocations
    &&& b.renderer_owner_shell_work_intents_observed == a.renderer_owner_shell_work_intents_observed
    &&& b.renderer_owner_shell_observed_work_intents@.len() == a.renderer_owner_shell_observed_work_intents@.len()
    &&& forall|i: int| 0 <= i < a.renderer_owner_shell_observed_work_intents@.len() ==> cloned::<W>(a.renderer_owner_shell_observed_work_intents@[i], b.renderer_owner_shell_observed_work_intents@[i])
    &&& b.renderer_owner_shell_available == a.renderer_owner_shell_available
    &&& b.renderer_owner_shell_missing_renderer_owner == a.renderer_owner_shell_missing_renderer_owner
    &&& b.renderer_owner_shell_missing_buffer_importer == a.renderer_owner_shell_missing_buffer_importer
    &&& b.renderer_owner_shell_missing_texture_support == a.renderer_owner_shell_missing_texture_support
    &&& b.renderer_owner_shell_buffer_imported == a.renderer_owner_shell_buffer_imported
    &&& b.renderer_owner_shell_texture_created == a.renderer_owner_shell_texture_created
    &&& b.renderer_owner_shell_renderer_called == a.renderer_owner_shell_renderer_called
    &&& b.renderer_owner_shell_damage_submitted == a.renderer_owner_shell_damage_submitted
    &&& b.renderer_owner_shell_frame_callback_done_sent == a.renderer_owner_shell_frame_callback_done_sent
    &&& b.renderer_owner_shell_input_support == a.renderer_owner_shell_input_support
    &&& b.renderer_owner_shell_core_mutation_invoked == a.renderer_owner_shell_core_mutation_invoked
    &&& b.buffer_importer_shell_readiness_invocations == a.buffer_importer_shell_readiness_invocations
    &&& b.buffer_importer_shell_work_intents_observed == a.buffer_importer_shell_work_intents_observed
    &&& b.buffer_importer_shell_observed_work_intents@.len() == a.buffer_importer_shell_observed_work_intents@.len()
    &&& forall|i: int| 0 <= i < a.buffer_importer_shell_observed_work_intents@.len() ==> cloned::<W>(a.buffer_importer_shell_observed_work_intents@[i], b.buffer_importer_shell_observed_work_intents@[i])
    &&& b.buffer_importer_shell_available == a.buffer_importer_shell_available
    &&& b.buffer_importer_shell_missing_renderer_owner_shell == a.buffer_importer_shell_missing_renderer_owner_shell
    &&& b.buffer_importer_shell_missing_buffer_importer == a.buffer_importer_shell_missing_buffer_importer
    &&& b.buffer_importer_shell_missing_texture_support == a.buffer_importer_shell_missing_texture_support
    &&& b.buffer_importer_shell_buffer_imported == a.buffer_importer_shell_buffer_imported
    &&& b.buffer_importer_shell_texture_created == a.buffer_importer_shell_texture_created
    &&& b.buffer_importer_shell_renderer_called == a.buffer_importer_shell_renderer_called
    &&& b.buffer_importer_shell_damage_submitted == a.buffer_importer_shell_damage_submitted
    &&& b.buffer_importer_shell_frame_callback_done_sent == a.buffer_importer_shell_frame_callback_done_sent
    &&& b.buffer_importer_shell_input_support == a.buffer_importer_shell_input_support
    &&& b.buffer_importer_shell_core_mutation_invoked == a.buffer_importer_shell_core_mutation_invoked
    &&& b.texture_support_shell_readiness_invocations == a.texture_support_shell_readiness_invocations
    &&& b.texture_support_shell_work_intents_observed == a.texture_support_shell_work_intents_observed
    &&& b.texture_support_shell_observed_work_intents@.len() == a.texture_support_shell_observed_work_intents@.len()
    &&& forall|i: int| 0 <= i < a.texture_support_shell_observed_work_intents@.len() ==> cloned::<W>(a.texture_support_shell_observed_work_intents@[i], b.texture_support_shell_observed_work_intents@[i])
    &&& b.texture_support_shell_available == a.texture_support_shell_available
    &&& b.texture_support_shell_missing_buffer_importer_shell == a.texture_support_shell_missing_buffer_importer_shell
    &&& b.texture_support_shell_missing_texture_support == a.texture_support_shell_missing_texture_support
    &&& b.texture_support_shell_buffer_imported == a.texture_support_shell_buffer_imported
    &&& b.texture_support_shell_texture_created == a.texture_support_shell_texture_created
    &&& b.texture_support_shell_renderer_called == a.texture_support_shell_renderer_called
    &&& b.texture_support_shell_damage_submitted == a.texture_support_shell_damage_submitted
    &&& b.texture_support_shell_frame_callback_done_sent == a.texture_support_shell_frame_callback_done_sent
    &&& b.texture_support_shell_input_support == a.texture_support_shell_input_support
    &&& b.texture_support_shell_core_mutation_invoked == a.texture_support_shell_core_mutation_invoked
    &&& b.render_operation_readiness_invocations == a.render_operation_readiness_invocations
    &&& b.render_operation_intents_created == a.render_operation_intents_created
    &&& b.render_operation_intents@.len() == a.render_operation_intents@.len()
    &&& forall|i: int| 0 <= i < a.render_operation_intents@.len() ==> cloned::<O>(a.render_operation_intents@[i], b.render_operation_intents@[i])
    &&& b.render_operation_buffer_imported == a.render_operation_buffer_imported
    &&& b.render_operation_texture_created == a.render_operation_texture_created
    &&& b.render_operation_renderer_called == a.render_operation_renderer_called
    &&& b.render_operation_damage_submitted == a.render_operation_damage_submitted
    &&& b.render_operation_frame_callback_done_sent == a.render_operation_frame_callback_done_sent
    &&& b.render_operation_input_support == a.render_operation_input_support
    &&& b.render_operation_core_mutation_invoked == a.render_operation_core_mutation_invoked
    &&& b.render_operation_queue_drain_invocations == a.render_operation_queue_drain_invocations
    &&& b.render_operation_intents_enqueued == a.render_operation_intents_enqueued
    &&& b.render_operation_intents_drained == a.render_operation_intents_drained
    &&& b.render_operation_queue_drained_intents@.len() == a.render_operation_queue_drained_intents@.len()
    &&& forall|i: int| 0 <= i < a.render_operation_queue_drained_intents@.len() ==> cloned::<O>(a.render_operation_queue_drained_intents@[i], b.render_operation_queue_drained_intents@[i])
    &&& b.render_operation_queue_buffer_imported == a.render_operation_queue_buffer_imported
    &&& b.render_operation_queue_texture_created == a.render_operation_queue_texture_created
    &&& b.render_operation_queue_renderer_called == a.render_operation_queue_renderer_called
    &&& b.render_operation_queue_damage_submitted == a.render_operation_queue_damage_submitted
    &&& b.render_operation_queue_frame_callback_done_sent == a.render_operation_queue_frame_callback_done_sent
    &&& b.render_operation_queue_input_support == a.render_operation_queue_input_support
    &&& b.render_operation_queue_core_mutation_invoked == a.render_operation_queue_core_mutation_invoked
    &&& b.buffer_attached == a.buffer_attached
    &&& b.damage_submitted == a.damage_submitted
    &&& b.frame_callback_requested == a.frame_callback_requested
    &&& b.render_invoked == a.render_invoked
    &&& b.input_invoked == a.input_invoked
    &&& b.core_mutation_invoked == a.core_mutation_invoked
}

impl<D, W, O> NestedRuntimeSurfaceCommitRunSummary<D, W, O> {
    /// Nothing observed yet.
    pub fn zero() -> (r: Self)
        ensures
            commit_empty(r),
    {
        Self {
            drain_invocations: 0,
            commit_observations_drained: 0,
            commit_observation_errors: 0,
            drained_commit_sequences: Vec::new(),
            buffer_attach_observations: 0,
            buffer_presence_observations: 0,
            buffer_removed_observations: 0,
            renderable_buffer_observations: 0,
            damage_observations: 0,
            surface_damage_rects: 0,
            buffer_damage_rects: 0,
            frame_callback_observations: 0,
            frame_callback_count: 0,
            render_dirty_readiness_intents: Vec::new(),
            render_dirty_queue_drain_invocations: 0,
            render_dirty_intents_enqueued: 0,
            render_dirty_intents_drained: 0,
            render_dirty_queue_drained_intents: Vec::new(),
            render_dirty_queue_buffer_imported: false,
            render_dirty_queue_texture_created: false,
            render_dirty_queue_render_submitted: false,
            render_dirty_queue_frame_callback_done_sent: false,
            render_dirty_queue_input_support: false,
            renderer_admission_invocations: 0,
            renderer_work_intents_created: 0,
            renderer_work_intents: Vec::new(),
            renderer_admission_buffer_imported: false,
            renderer_admission_texture_created: false,
            renderer_admission_render_submitted: false,
            renderer_admission_damage_submitted: false,
            renderer_admission_frame_callback_done_sent: false,
            renderer_admission_input_support: false,
            renderer_admission_core_mutation_invoked: false,
            renderer_owner_boundary_invocations: 0,
            renderer_owner_work_intents_consumed: 0,
            renderer_owner_consumed_work_intents: Vec::new(),
            renderer_owner_missing_renderer_owner: false,
            renderer_owner_missing_buffer_importer: false,
            renderer_owner_missing_texture_support: false,
            renderer_owner_buffer_imported: false,
            renderer_owner_texture_created: false,
            renderer_owner_renderer_called: false,
            renderer_owner_damage_submitted: false,
            renderer_owner_frame_callback_done_sent: false,
            renderer_owner_input_support: false,
            renderer_owner_core_mutation_invoked: false,
            renderer_owner_shell_readiness_invocations: 0,
            renderer_owner_shell_work_intents_observed: 0,
            renderer_owner_shell_observed_work_intents: Vec::new(),
            renderer_owner_shell_available: false,
            renderer_owner_shell_missing_renderer_owner: false,
            renderer_owner_shell_missing_buffer_importer: false,
            renderer_owner_shell_missing_texture_support: false,
            renderer_owner_shell_buffer_imported: false,
            renderer_owner_shell_texture_created: false,
            renderer_owner_shell_renderer_called: false,
            renderer_owner_shell_damage_submitted: false,
            renderer_owner_shell_frame_callback_done_sent: false,
            renderer_owner_shell_input_support: false,
            renderer_owner_shell_core_mutation_invoked: false,
            buffer_importer_shell_readiness_invocations: 0,
            buffer_importer_shell_work_intents_observed: 0,
            buffer_importer_shell_observed_work_intents: Vec::new(),
            buffer_importer_shell_available: false,
            buffer_importer_shell_missing_renderer_owner_shell: false,
            buffer_importer_shell_missing_buffer_importer: false,
            buffer_importer_shell_missing_texture_support: false,
            buffer_importer_shell_buffer_imported: false,
            buffer_importer_shell_texture_created: false,
            buffer_importer_shell_renderer_called: false,
            buffer_importer_shell_damage_submitted: false,
            buffer_importer_shell_frame_callback_done_sent: false,
            buffer_importer_shell_input_support: false,
            buffer_importer_shell_core_mutation_invoked: false,
            texture_support_shell_readiness_invocations: 0,
            texture_support_shell_work_intents_observed: 0,
            texture_support_shell_observed_work_intents: Vec::new(),
            texture_support_shell_available: false,
            texture_support_shell_missing_buffer_importer_shell: false,
            texture_support_shell_missing_texture_support: false,
            texture_support_shell_buffer_imported: false,
            texture_support_shell_texture_created: false,
            texture_support_shell_renderer_called: false,
            texture_support_shell_damage_submitted: false,
            texture_support_shell_frame_callback_done_sent: false,
            texture_support_shell_input_support: false,
            texture_support_shell_core_mutation_invoked: false,
            render_operation_readiness_invocations: 0,
            render_operation_intents_created: 0,
            render_operation_intents: Vec::new(),
            render_operation_buffer_imported: false,
            render_operation_texture_created: false,
            render_operation_renderer_called: false,
            render_operation_damage_submitted: false,
            render_operation_frame_callback_done_sent: false,
            render_operation_input_support: false,
            render_operation_core_mutation_invoked: false,
            render_operation_queue_drain_invocations: 0,
            render_operation_intents_enqueued: 0,
            render_operation_intents_drained: 0,
            render_operation_queue_drained_intents: Vec::new(),
            render_operation_queue_buffer_imported: false,
            render_operation_queue_texture_created: false,
            render_operation_queue_renderer_called: false,
            render_operation_queue_damage_submitted: false,
            render_operation_queue_frame_callback_done_sent: false,
            render_operation_queue_input_support: false,
            render_operation_queue_core_mutation_invoked: false,
            buffer_attached: false,
            damage_submitted: false,
            frame_callback_requested: false,
            render_invoked: false,
            input_invoked: false,
            core_mutation_invoked: false,
        }
    }

    /// Commit work progressed: a commit was drained or failed, or an intent was
    /// built, queued, drained, consumed or observed.
    pub open spec fn spec_has_progress(&self) -> bool {
        self.commit_observations_drained > 0
            || self.commit_observation_errors > 0
            || self.render_dirty_intents_enqueued > 0
            || self.render_dirty_intents_drained > 0
            || self.renderer_work_intents_created > 0
            || self.renderer_owner_work_intents_consumed > 0
            || self.renderer_owner_shell_work_intents_observed > 0
            || self.buffer_importer_shell_work_intents_observed > 0
            || self.texture_support_shell_work_intents_observed > 0
            || self.render_operation_intents_created > 0
            || self.render_operation_intents_drained > 0
    }

    /// Whether commit work progressed.
    pub fn has_progress(&self) -> (r: bool)
        ensures
            r == self.spec_has_progress(),
    {
        self.commit_observations_drained > 0
            || self.commit_observation_errors > 0
            || self.render_dirty_intents_enqueued > 0
            || self.render_dirty_intents_drained > 0
            || self.renderer_work_intents_created > 0
            || self.renderer_owner_work_intents_consumed > 0
            || self.renderer_owner_shell_work_intents_observed > 0
            || self.buffer_importer_shell_work_intents_observed > 0
            || self.texture_support_shell_work_intents_observed > 0
            || self.render_operation_intents_created > 0
            || self.render_operation_intents_drained > 0
    }

    /// Adds `delta`: counts add (saturating), flags accumulate, and the
    /// sequence and intent lists are appended in order.
    pub fn observe(&mut self, delta: Self)
        ensures
            commit_observed(*old(self), delta, *final(self)),
    {
        let mut before = Self::zero();
        std::mem::swap(&mut before, self);
        let Self {
            drain_invocations: a_drain_invocations,
            commit_observations_drained: a_commit_observations_drained,
            commit_observation_errors: a_commit_observation_errors,
            drained_commit_sequences: a_drained_commit_sequences,
            buffer_attach_observations: a_buffer_attach_observations,
            buffer_presence_observations: a_buffer_presence_observations,
            buffer_removed_observations: a_buffer_removed_observations,
            renderable_buffer_observations: a_renderable_buffer_observations,
            damage_observations: a_damage_observations,
            surface_damage_rects: a_surface_damage_rects,
            buffer_damage_rects: a_buffer_damage_rects,
            frame_callback_observations: a_frame_callback_observations,
            frame_callback_count: a_frame_callback_count,
            render_dirty_readiness_intents: a_render_dirty_readiness_intents,
            render_dirty_queue_drain_invocations: a_render_dirty_queue_drain_invocations,
            render_dirty_intents_enqueued: a_render_dirty_intents_enqueued,
            render_dirty_intents_drained: a_render_dirty_intents_drained,
            render_dirty_queue_drained_intents: a_render_dirty_queue_drained_intents,
            render_dirty_queue_buffer_imported: a_render_dirty_queue_buffer_imported,
            render_dirty_queue_texture_created: a_render_dirty_queue_texture_created,
            render_dirty_queue_render_submitted: a_render_dirty_queue_render_submitted,
            render_dirty_queue_frame_callback_done_sent: a_render_dirty_queue_frame_callback_done_sent,
            render_dirty_queue_input_support: a_render_dirty_queue_input_support,
            renderer_admission_invocations: a_renderer_admission_invocations,
            renderer_work_intents_created: a_renderer_work_intents_created,
            renderer_work_intents: a_renderer_work_intents,
            renderer_admission_buffer_imported: a_renderer_admission_buffer_imported,
            renderer_admission_texture_created: a_renderer_admission_texture_created,
            renderer_admission_render_submitted: a_renderer_admission_render_submitted,
            renderer_admission_damage_submitted: a_renderer_admission_damage_submitted,
            renderer_admission_frame_callback_done_sent: a_renderer_admission_frame_callback_done_sent,
            renderer_admission_input_support: a_renderer_admission_input_support,
            renderer_admission_core_mutation_invoked: a_renderer_admission_core_mutation_invoked,
            renderer_owner_boundary_invocations: a_renderer_owner_boundary_invocations,
            renderer_owner_work_intents_consumed: a_renderer_owner_work_intents_consumed,
            renderer_owner_consumed_work_intents: a_renderer_owner_consumed_work_intents,
            renderer_owner_missing_renderer_owner: a_renderer_owner_missing_renderer_owner,
            renderer_owner_missing_buffer_importer: a_renderer_owner_missing_buffer_importer,
            renderer_owner_missing_texture_support: a_renderer_owner_missing_texture_support,
            renderer_owner_buffer_imported: a_renderer_owner_buffer_imported,
            renderer_owner_texture_created: a_renderer_owner_texture_created,
            renderer_owner_renderer_called: a_renderer_owner_renderer_called,
            renderer_owner_damage_submitted: a_renderer_owner_damage_submitted,
            renderer_owner_frame_callback_done_sent: a_renderer_owner_frame_callback_done_sent,
            renderer_owner_input_support: a_renderer_owner_input_support,
            renderer_owner_core_mutation_invoked: a_renderer_owner_core_mutation_invoked,
            renderer_owner_shell_readiness_invocations: a_renderer_owner_shell_readiness_invocations,
            renderer_owner_shell_work_intents_observed: a_renderer_owner_shell_work_intents_observed,
            renderer_owner_shell_observed_work_intents: a_renderer_owner_shell_observed_work_intents,
            renderer_owner_shell_available: a_renderer_owner_shell_available,
            renderer_owner_shell_missing_renderer_owner: a_renderer_owner_shell_missing_renderer_owner,
            renderer_owner_shell_missing_buffer_importer: a_renderer_owner_shell_missing_buffer_importer,
            renderer_owner_shell_missing_texture_support: a_renderer_owner_shell_missing_texture_support,
            renderer_owner_shell_buffer_imported: a_renderer_owner_shell_buffer_imported,
            renderer_owner_shell_texture_created: a_renderer_owner_shell_texture_created,
            renderer_owner_shell_renderer_called: a_renderer_owner_shell_renderer_called,
            renderer_owner_shell_damage_submitted: a_renderer_owner_shell_damage_submitted,
            renderer_owner_shell_frame_callback_done_sent: a_renderer_owner_shell_frame_callback_done_sent,
            renderer_owner_shell_input_support: a_renderer_owner_shell_input_support,
            renderer_owner_shell_core_mutation_invoked: a_renderer_owner_shell_core_mutation_invoked,
            buffer_importer_shell_readiness_invocations: a_buffer_importer_shell_readiness_invocations,
            buffer_importer_shell_work_intents_observed: a_buffer_importer_shell_work_intents_observed,
            buffer_importer_shell_observed_work_intents: a_buffer_importer_shell_observed_work_intents,
            buffer_importer_shell_available: a_buffer_importer_shell_available,
            buffer_importer_shell_missing_renderer_owner_shell: a_buffer_importer_shell_missing_renderer_owner_shell,
            buffer_importer_shell_missing_buffer_importer: a_buffer_importer_shell_missing_buffer_importer,
            buffer_importer_shell_missing_texture_support: a_buffer_importer_shell_missing_texture_support,
            buffer_importer_shell_buffer_imported: a_buffer_importer_shell_buffer_imported,
            buffer_importer_shell_texture_created: a_buffer_importer_shell_texture_created,
            buffer_importer_shell_renderer_called: a_buffer_importer_shell_renderer_called,
            buffer_importer_shell_damage_submitted: a_buffer_importer_shell_damage_submitted,
            buffer_importer_shell_frame_callback_done_sent: a_buffer_importer_shell_frame_callback_done_sent,
            buffer_importer_shell_input_support: a_buffer_importer_shell_input_support,
            buffer_importer_shell_core_mutation_invoked: a_buffer_importer_shell_core_mutation_invoked,
            texture_support_shell_readiness_invocations: a_texture_support_shell_readiness_invocations,
            texture_support_shell_work_intents_observed: a_texture_support_shell_work_intents_observed,
            texture_support_shell_observed_work_intents: a_texture_support_shell_observed_work_intents,
            texture_support_shell_available: a_texture_support_shell_available,
            texture_support_shell_missing_buffer_importer_shell: a_texture_support_shell_missing_buffer_importer_shell,
            texture_support_shell_missing_texture_support: a_texture_support_shell_missing_texture_support,
            texture_support_shell_buffer_imported: a_texture_support_shell_buffer_imported,
            texture_support_shell_texture_created: a_texture_support_shell_texture_created,
            texture_support_shell_renderer_called: a_texture_support_shell_renderer_called,
            texture_support_shell_damage_submitted: a_texture_support_shell_damage_submitted,
            texture_support_shell_frame_callback_done_sent: a_texture_support_shell_frame_callback_done_sent,
            texture_support_shell_input_support: a_texture_support_shell_input_support,
            texture_support_shell_core_mutation_invoked: a_texture_support_shell_core_mutation_invoked,
            render_operation_readiness_invocations: a_render_operation_readiness_invocations,
            render_operation_intents_created: a_render_operation_intents_created,
            render_operation_intents: a_render_operation_intents,
            render_operation_buffer_imported: a_render_operation_buffer_imported,
            render_operation_texture_created: a_render_operation_texture_created,
            render_operation_renderer_called: a_render_operation_renderer_called,
            render_operation_damage_submitted: a_render_operation_damage_submitted,
            render_operation_frame_callback_done_sent: a_render_operation_frame_callback_done_sent,
            render_operation_input_support: a_render_operation_input_support,
            render_operation_core_mutation_invoked: a_render_operation_core_mutation_invoked,
            render_operation_queue_drain_invocations: a_render_operation_queue_drain_invocations,
            render_operation_intents_enqueued: a_render_operation_intents_enqueued,
            render_operation_intents_drained: a_render_operation_intents_drained,
            render_operation_queue_drained_intents: a_render_operation_queue_drained_intents,
            render_operation_queue_buffer_imported: a_render_operation_queue_buffer_imported,
            render_operation_queue_texture_created: a_render_operation_queue_texture_created,
            render_operation_queue_renderer_called: a_render_operation_queue_renderer_called,
            render_operation_queue_damage_submitted: a_render_operation_queue_damage_submitted,
            render_operation_queue_frame_callback_done_sent: a_render_operation_queue_frame_callback_done_sent,
            render_operation_queue_input_support: a_render_operation_queue_input_support,
            render_operation_queue_core_mutation_invoked: a_render_operation_queue_core_mutation_invoked,
            buffer_attached: a_buffer_attached,
            damage_submitted: a_damage_submitted,
            frame_callback_requested: a_frame_callback_requested,
            render_invoked: a_render_invoked,
            input_invoked: a_input_invoked,
            core_mutation_invoked: a_core_mutation_invoked,
        } = before;
        let Self {
            drain_invocations: b_drain_invocations,
            commit_observations_drained: b_commit_observations_drained,
            commit_observation_errors: b_commit_observation_errors,
            drained_commit_sequences: b_drained_commit_sequences,
            buffer_attach_observations: b_buffer_attach_observations,
            buffer_presence_observations: b_buffer_presence_observations,
            buffer_removed_observations: b_buffer_removed_observations,
            renderable_buffer_observations: b_renderable_buffer_observations,
            damage_observations: b_damage_observations,
            surface_damage_rects: b_surface_damage_rects,
            buffer_damage_rects: b_buffer_damage_rects,
            frame_callback_observations: b_frame_callback_observations,
            frame_callback_count: b_frame_callback_count,
            render_dirty_readiness_intents: b_render_dirty_readiness_intents,
            render_dirty_queue_drain_invocations: b_render_dirty_queue_drain_invocations,
            render_dirty_intents_enqueued: b_render_dirty_intents_enqueued,
            render_dirty_intents_drained: b_render_dirty_intents_drained,
            render_dirty_queue_drained_intents: b_render_dirty_queue_drained_intents,
            render_dirty_queue_buffer_imported: b_render_dirty_queue_buffer_imported,
            render_dirty_queue_texture_created: b_render_dirty_queue_texture_created,
            render_dirty_queue_render_submitted: b_render_dirty_queue_render_submitted,
            render_dirty_queue_frame_callback_done_sent: b_render_dirty_queue_frame_callback_done_sent,
            render_dirty_queue_input_support: b_render_dirty_queue_input_support,
            renderer_admission_invocations: b_renderer_admission_invocations,
            renderer_work_intents_created: b_renderer_work_intents_created,
            renderer_work_intents: b_renderer_work_intents,
            renderer_admission_buffer_imported: b_renderer_admission_buffer_imported,
            renderer_admission_texture_created: b_renderer_admission_texture_created,
            renderer_admission_render_submitted: b_renderer_admission_render_submitted,
            renderer_admission_damage_submitted: b_renderer_admission_damage_submitted,
            renderer_admission_frame_callback_done_sent: b_renderer_admission_frame_callback_done_sent,
            renderer_admission_input_support: b_renderer_admission_input_support,
            renderer_admission_core_mutation_invoked: b_renderer_admission_core_mutation_invoked,
            renderer_owner_boundary_invocations: b_renderer_owner_boundary_invocations,
            renderer_owner_work_intents_consumed: b_renderer_owner_work_intents_consumed,
            renderer_owner_consumed_work_intents: b_renderer_owner_consumed_work_intents,
            renderer_owner_missing_renderer_owner: b_renderer_owner_missing_renderer_owner,
            renderer_owner_missing_buffer_importer: b_renderer_owner_missing_buffer_importer,
            renderer_owner_missing_texture_support: b_renderer_owner_missing_texture_support,
            renderer_owner_buffer_imported: b_renderer_owner_buffer_imported,
            renderer_owner_texture_created: b_renderer_owner_texture_created,
            renderer_owner_renderer_called: b_renderer_owner_renderer_called,
            renderer_owner_damage_submitted: b_renderer_owner_damage_submitted,
            renderer_owner_frame_callback_done_sent: b_renderer_owner_frame_callback_done_sent,
            renderer_owner_input_support: b_renderer_owner_input_support,
            renderer_owner_core_mutation_invoked: b_renderer_owner_core_mutation_invoked,
            renderer_owner_shell_readiness_invocations: b_renderer_owner_shell_readiness_invocations,
            renderer_owner_shell_work_intents_observed: b_renderer_owner_shell_work_intents_observed,
            renderer_owner_shell_observed_work_intents: b_renderer_owner_shell_observed_work_intents,
            renderer_owner_shell_available: b_renderer_owner_shell_available,
            renderer_owner_shell_missing_renderer_owner: b_renderer_owner_shell_missing_renderer_owner,
            renderer_owner_shell_missing_buffer_importer: b_renderer_owner_shell_missing_buffer_importer,
            renderer_owner_shell_missing_texture_support: b_renderer_owner_shell_missing_texture_support,
            renderer_owner_shell_buffer_imported: b_renderer_owner_shell_buffer_imported,
            renderer_owner_shell_texture_created: b_renderer_owner_shell_texture_created,
            renderer_owner_shell_renderer_called: b_renderer_owner_shell_renderer_called,
            renderer_owner_shell_damage_submitted: b_renderer_owner_shell_damage_submitted,
            renderer_owner_shell_frame_callback_done_sent: b_renderer_owner_shell_frame_callback_done_sent,
            renderer_owner_shell_input_support: b_renderer_owner_shell_input_support,
            renderer_owner_shell_core_mutation_invoked: b_renderer_owner_shell_core_mutation_invoked,
            buffer_importer_shell_readiness_invocations: b_buffer_importer_shell_readiness_invocations,
            buffer_importer_shell_work_intents_observed: b_buffer_importer_shell_work_intents_observed,
            buffer_importer_shell_observed_work_intents: b_buffer_importer_shell_observed_work_intents,
            buffer_importer_shell_available: b_buffer_importer_shell_available,
            buffer_importer_shell_missing_renderer_owner_shell: b_buffer_importer_shell_missing_renderer_owner_shell,
            buffer_importer_shell_missing_buffer_importer: b_buffer_importer_shell_missing_buffer_importer,
            buffer_importer_shell_missing_texture_support: b_buffer_importer_shell_missing_texture_support,
            buffer_importer_shell_buffer_imported: b_buffer_importer_shell_buffer_imported,
            buffer_importer_shell_texture_created: b_buffer_importer_shell_texture_created,
            buffer_importer_shell_renderer_called: b_buffer_importer_shell_renderer_called,
            buffer_importer_shell_damage_submitted: b_buffer_importer_shell_damage_submitted,
            buffer_importer_shell_frame_callback_done_sent: b_buffer_importer_shell_frame_callback_done_sent,
            buffer_importer_shell_input_support: b_buffer_importer_shell_input_support,
            buffer_importer_shell_core_mutation_invoked: b_buffer_importer_shell_core_mutation_invoked,
            texture_support_shell_readiness_invocations: b_texture_support_shell_readiness_invocations,
            texture_support_shell_work_intents_observed: b_texture_support_shell_work_intents_observed,
            texture_support_shell_observed_work_intents: b_texture_support_shell_observed_work_intents,
            texture_support_shell_available: b_texture_support_shell_available,
            texture_support_shell_missing_buffer_importer_shell: b_texture_support_shell_missing_buffer_importer_shell,
            texture_support_shell_missing_texture_support: b_texture_support_shell_missing_texture_support,
            texture_support_shell_buffer_imported: b_texture_support_shell_buffer_imported,
            texture_support_shell_texture_created: b_texture_support_shell_texture_created,
            texture_support_shell_renderer_called: b_texture_support_shell_renderer_called,
            texture_support_shell_damage_submitted: b_texture_support_shell_damage_submitted,
            texture_support_shell_frame_callback_done_sent: b_texture_support_shell_frame_callback_done_sent,
            texture_support_shell_input_support: b_texture_support_shell_input_support,
            texture_support_shell_core_mutation_invoked: b_texture_support_shell_core_mutation_invoked,
            render_operation_readiness_invocations: b_render_operation_readiness_invocations,
            render_operation_intents_created: b_render_operation_intents_created,
            render_operation_intents: b_render_operation_intents,
            render_operation_buffer_imported: b_render_operation_buffer_imported,
            render_operation_texture_created: b_render_operation_texture_created,
            render_operation_renderer_called: b_render_operation_renderer_called,
            render_operation_damage_submitted: b_render_operation_damage_submitted,
            render_operation_frame_callback_done_sent: b_render_operation_frame_callback_done_sent,
            render_operation_input_support: b_render_operation_input_support,
            render_operation_core_mutation_invoked: b_render_operation_core_mutation_invoked,
            render_operation_queue_drain_invocations: b_render_operation_queue_drain_invocations,
            render_operation_intents_enqueued: b_render_operation_intents_enqueued,
            render_operation_intents_drained: b_render_operation_intents_drained,
            render_operation_queue_drained_intents: b_render_operation_queue_drained_intents,
            render_operation_queue_buffer_imported: b_render_operation_queue_buffer_imported,
            render_operation_queue_texture_created: b_render_operation_queue_texture_created,
            render_operation_queue_renderer_called: b_render_operation_queue_renderer_called,
            render_operation_queue_damage_submitted: b_render_operation_queue_damage_submitted,
            render_operation_queue_frame_callback_done_sent: b_render_operation_queue_frame_callback_done_sent,
            render_operation_queue_input_support: b_render_operation_queue_input_support,
            render_operation_queue_core_mutation_invoked: b_render_operation_queue_core_mutation_invoked,
            buffer_attached: b_buffer_attached,
            damage_submitted: b_damage_submitted,
            frame_callback_requested: b_frame_callback_requested,
            render_invoked: b_render_invoked,
            input_invoked: b_input_invoked,
            core_mutation_invoked: b_core_mutation_invoked,
        } = delta;
        let mut a_drained_commit_sequences = a_drained_commit_sequences;
        let mut b_drained_commit_sequences = b_drained_commit_sequences;
        a_drained_commit_sequences.append(&mut b_drained_commit_sequences);
        let mut a_render_dirty_readiness_intents = a_render_dirty_readiness_intents;
        let mut b_render_dirty_readiness_intents = b_render_dirty_readiness_intents;
        a_render_dirty_readiness_intents.append(&mut b_render_dirty_readiness_intents);
        let mut a_render_dirty_queue_drained_intents = a_render_dirty_queue_drained_intents;
        let mut b_render_dirty_queue_drained_intents = b_render_dirty_queue_drained_intents;
        a_render_dirty_queue_drained_intents.append(&mut b_render_dirty_queue_drained_intents);
        let mut a_renderer_work_intents = a_renderer_work_intents;
        let mut b_renderer_work_intents = b_renderer_work_intents;
        a_renderer_work_intents.append(&mut b_renderer_work_intents);
        let mut a_renderer_owner_consumed_work_intents = a_renderer_owner_consumed_work_intents;
        let mut b_renderer_owner_consumed_work_intents = b_renderer_owner_consumed_work_intents;
        a_renderer_owner_consumed_work_intents.append(&mut b_renderer_owner_consumed_work_intents);
        let mut a_renderer_owner_shell_observed_work_intents = a_renderer_owner_shell_observed_work_intents;
        let mut b_renderer_owner_shell_observed_work_intents = b_renderer_owner_shell_observed_work_intents;
        a_renderer_owner_shell_observed_work_intents.append(&mut b_renderer_owner_shell_observed_work_intents);
        let mut a_buffer_importer_shell_observed_work_intents = a_buffer_importer_shell_observed_work_intents;
        let mut b_buffer_importer_shell_observed_work_intents = b_buffer_importer_shell_observed_work_intents;
        a_buffer_importer_shell_observed_work_intents.append(&mut b_buffer_importer_shell_observed_work_intents);
        let mut a_texture_support_shell_observed_work_intents = a_texture_support_shell_observed_work_intents;
        let mut b_texture_support_shell_observed_work_intents = b_texture_support_shell_observed_work_intents;
        a_texture_support_shell_observed_work_intents.append(&mut b_texture_support_shell_observed_work_intents);
        let mut a_render_operation_intents = a_render_operation_intents;
        let mut b_render_operation_intents = b_render_operation_intents;
        a_render_operation_intents.append(&mut b_render_operation_intents);
        let mut a_render_operation_queue_drained_intents = a_render_operation_queue_drained_intents;
        let mut b_render_operation_queue_drained_intents = b_render_operation_queue_drained_intents;
        a_render_operation_queue_drained_intents.append(&mut b_render_operation_queue_drained_intents);
        *self = Self {
            drain_invocations: a_drain_invocations.saturating_add(b_drain_invocations),
            commit_observations_drained: a_commit_observations_drained.saturating_add(b_commit_observations_drained),
            commit_observation_errors: a_commit_observation_errors.saturating_add(b_commit_observation_errors),
            drained_commit_sequences: a_drained_commit_sequences,
            buffer_attach_observations: a_buffer_attach_observations.saturating_add(b_buffer_attach_observations),
            buffer_presence_observations: a_buffer_presence_observations.saturating_add(b_buffer_presence_observations),
            buffer_removed_observations: a_buffer_removed_observations.saturating_add(b_buffer_removed_observations),
            renderable_buffer_observations: a_renderable_buffer_observations.saturating_add(b_renderable_buffer_observations),
            damage_observations: a_damage_observations.saturating_add(b_damage_observations),
            surface_damage_rects: a_surface_damage_rects.saturating_add(b_surface_damage_rects),
            buffer_damage_rects: a_buffer_damage_rects.saturating_add(b_buffer_damage_rects),
            frame_callback_observations: a_frame_callback_observations.saturating_add(b_frame_callback_observations),
            frame_callback_count: a_frame_callback_count.saturating_add(b_frame_callback_count),
            render_dirty_readiness_intents: a_render_dirty_readiness_intents,
            render_dirty_queue_drain_invocations: a_render_dirty_queue_drain_invocations.saturating_add(b_render_dirty_queue_drain_invocations),
            render_dirty_intents_enqueued: a_render_dirty_intents_enqueued.saturating_add(b_render_dirty_intents_enqueued),
            render_dirty_intents_drained: a_render_dirty_intents_drained.saturating_add(b_render_dirty_intents_drained),
            render_dirty_queue_drained_intents: a_render_dirty_queue_drained_intents,
            render_dirty_queue_buffer_imported: a_render_dirty_queue_buffer_imported || b_render_dirty_queue_buffer_imported,
            render_dirty_queue_texture_created: a_render_dirty_queue_texture_created || b_render_dirty_queue_texture_created,
            render_dirty_queue_render_submitted: a_render_dirty_queue_render_submitted || b_render_dirty_queue_render_submitted,
            render_dirty_queue_frame_callback_done_sent: a_render_dirty_queue_frame_callback_done_sent || b_render_dirty_queue_frame_callback_done_sent,
            render_dirty_queue_input_support: a_render_dirty_queue_input_support || b_render_dirty_queue_input_support,
            renderer_admission_invocations: a_renderer_admission_invocations.saturating_add(b_renderer_admission_invocations),
            renderer_work_intents_created: a_renderer_work_intents_created.saturating_add(b_renderer_work_intents_created),
            renderer_work_intents: a_renderer_work_intents,
            renderer_admission_buffer_imported: a_renderer_admission_buffer_imported || b_renderer_admission_buffer_imported,
            renderer_admission_texture_created: a_renderer_admission_texture_created || b_renderer_admission_texture_created,
            renderer_admission_render_submitted: a_renderer_admission_render_submitted || b_renderer_admission_render_submitted,
            renderer_admission_damage_submitted: a_renderer_admission_damage_submitted || b_renderer_admission_damage_submitted,
            renderer_admission_frame_callback_done_sent: a_renderer_admission_frame_callback_done_sent || b_renderer_admission_frame_callback_done_sent,
            renderer_admission_input_support: a_renderer_admission_input_support || b_renderer_admission_input_support,
            renderer_admission_core_mutation_invoked: a_renderer_admission_core_mutation_invoked || b_renderer_admission_core_mutation_invoked,
            renderer_owner_boundary_invocations: a_renderer_owner_boundary_invocations.saturating_add(b_renderer_owner_boundary_invocations),
            renderer_owner_work_intents_consumed: a_renderer_owner_work_intents_consumed.saturating_add(b_renderer_owner_work_intents_consumed),
            renderer_owner_consumed_work_intents: a_renderer_owner_consumed_work_intents,
            renderer_owner_missing_renderer_owner: a_renderer_owner_missing_renderer_owner || b_renderer_owner_missing_renderer_owner,
            renderer_owner_missing_buffer_importer: a_renderer_owner_missing_buffer_importer || b_renderer_owner_missing_buffer_importer,
            renderer_owner_missing_texture_support: a_renderer_owner_missing_texture_support || b_renderer_owner_missing_texture_support,
            renderer_owner_buffer_imported: a_renderer_owner_buffer_imported || b_renderer_owner_buffer_imported,
            renderer_owner_texture_created: a_renderer_owner_texture_created || b_renderer_owner_texture_created,
            renderer_owner_renderer_called: a_renderer_owner_renderer_called || b_renderer_owner_renderer_called,
            renderer_owner_damage_submitted: a_renderer_owner_damage_submitted || b_renderer_owner_damage_submitted,
            renderer_owner_frame_callback_done_sent: a_renderer_owner_frame_callback_done_sent || b_renderer_owner_frame_callback_done_sent,
            renderer_owner_input_support: a_renderer_owner_input_support || b_renderer_owner_input_support,
            renderer_owner_core_mutation_invoked: a_renderer_owner_core_mutation_invoked || b_renderer_owner_core_mutation_invoked,
            renderer_owner_shell_readiness_invocations: a_renderer_owner_shell_readiness_invocations.saturating_add(b_renderer_owner_shell_readiness_invocations),
            renderer_owner_shell_work_intents_observed: a_renderer_owner_shell_work_intents_observed.saturating_add(b_renderer_owner_shell_work_intents_observed),
            renderer_owner_shell_observed_work_intents: a_renderer_owner_shell_observed_work_intents,
            renderer_owner_shell_available: a_renderer_owner_shell_available || b_renderer_owner_shell_available,
            renderer_owner_shell_missing_renderer_owner: a_renderer_owner_shell_missing_renderer_owner || b_renderer_owner_shell_missing_renderer_owner,
            renderer_owner_shell_missing_buffer_importer: a_renderer_owner_shell_missing_buffer_importer || b_renderer_owner_shell_missing_buffer_importer,
            renderer_owner_shell_missing_texture_support: a_renderer_owner_shell_missing_texture_support || b_renderer_owner_shell_missing_texture_support,
            renderer_owner_shell_buffer_imported: a_renderer_owner_shell_buffer_imported || b_renderer_owner_shell_buffer_imported,
            renderer_owner_shell_texture_created: a_renderer_owner_shell_texture_created || b_renderer_owner_shell_texture_created,
            renderer_owner_shell_renderer_called: a_renderer_owner_shell_renderer_called || b_renderer_owner_shell_renderer_called,
            renderer_owner_shell_damage_submitted: a_renderer_owner_shell_damage_submitted || b_renderer_owner_shell_damage_submitted,
            renderer_owner_shell_frame_callback_done_sent: a_renderer_owner_shell_frame_callback_done_sent || b_renderer_owner_shell_frame_callback_done_sent,
            renderer_owner_shell_input_support: a_renderer_owner_shell_input_support || b_renderer_owner_shell_input_support,
            renderer_owner_shell_core_mutation_invoked: a_renderer_owner_shell_core_mutation_invoked || b_renderer_owner_shell_core_mutation_invoked,
            buffer_importer_shell_readiness_invocations: a_buffer_importer_shell_readiness_invocations.saturating_add(b_buffer_importer_shell_readiness_invocations),
            buffer_importer_shell_work_intents_observed: a_buffer_importer_shell_work_intents_observed.saturating_add(b_buffer_importer_shell_work_intents_observed),
            buffer_importer_shell_observed_work_intents: a_buffer_importer_shell_observed_work_intents,
            buffer_importer_shell_available: a_buffer_importer_shell_available || b_buffer_importer_shell_available,
            buffer_importer_shell_missing_renderer_owner_shell: a_buffer_importer_shell_missing_renderer_owner_shell || b_buffer_importer_shell_missing_renderer_owner_shell,
            buffer_importer_shell_missing_buffer_importer: a_buffer_importer_shell_missing_buffer_importer || b_buffer_importer_shell_missing_buffer_importer,
            buffer_importer_shell_missing_texture_support: a_buffer_importer_shell_missing_texture_support || b_buffer_importer_shell_missing_texture_support,
            buffer_importer_shell_buffer_imported: a_buffer_importer_shell_buffer_imported || b_buffer_importer_shell_buffer_imported,
            buffer_importer_shell_texture_created: a_buffer_importer_shell_texture_created || b_buffer_importer_shell_texture_created,
            buffer_importer_shell_renderer_called: a_buffer_importer_shell_renderer_called || b_buffer_importer_shell_renderer_called,
            buffer_importer_shell_damage_submitted: a_buffer_importer_shell_damage_submitted || b_buffer_importer_shell_damage_submitted,
            buffer_importer_shell_frame_callback_done_sent: a_buffer_importer_shell_frame_callback_done_sent || b_buffer_importer_shell_frame_callback_done_sent,
            buffer_importer_shell_input_support: a_buffer_importer_shell_input_support || b_buffer_importer_shell_input_support,
            buffer_importer_shell_core_mutation_invoked: a_buffer_importer_shell_core_mutation_invoked || b_buffer_importer_shell_core_mutation_invoked,
            texture_support_shell_readiness_invocations: a_texture_support_shell_readiness_invocations.saturating_add(b_texture_support_shell_readiness_invocations),
            texture_support_shell_work_intents_observed: a_texture_support_shell_work_intents_observed.saturating_add(b_texture_support_shell_work_intents_observed),
            texture_support_shell_observed_work_intents: a_texture_support_shell_observed_work_intents,
            texture_support_shell_available: a_texture_support_shell_available || b_texture_support_shell_available,
            texture_support_shell_missing_buffer_importer_shell: a_texture_support_shell_missing_buffer_importer_shell || b_texture_support_shell_missing_buffer_importer_shell,
            texture_support_shell_missing_texture_support: a_texture_support_shell_missing_texture_support || b_texture_support_shell_missing_texture_support,
            texture_support_shell_buffer_imported: a_texture_support_shell_buffer_imported || b_texture_support_shell_buffer_imported,
            texture_support_shell_texture_created: a_texture_support_shell_texture_created || b_texture_support_shell_texture_created,
            texture_support_shell_renderer_called: a_texture_support_shell_renderer_called || b_texture_support_shell_renderer_called,
            texture_support_shell_damage_submitted: a_texture_support_shell_damage_submitted || b_texture_support_shell_damage_submitted,
            texture_support_shell_frame_callback_done_sent: a_texture_support_shell_frame_callback_done_sent || b_texture_support_shell_frame_callback_done_sent,
            texture_support_shell_input_support: a_texture_support_shell_input_support || b_texture_support_shell_input_support,
            texture_support_shell_core_mutation_invoked: a_texture_support_shell_core_mutation_invoked || b_texture_support_shell_core_mutation_invoked,
            render_operation_readiness_invocations: a_render_operation_readiness_invocations.saturating_add(b_render_operation_readiness_invocations),
            render_operation_intents_created: a_render_operation_intents_created.saturating_add(b_render_operation_intents_created),
            render_operation_intents: a_render_operation_intents,
            render_operation_buffer_imported: a_render_operation_buffer_imported || b_render_operation_buffer_imported,
            render_operation_texture_created: a_render_operation_texture_created || b_render_operation_texture_created,
            render_operation_renderer_called: a_render_operation_renderer_called || b_render_operation_renderer_called,
            render_operation_damage_submitted: a_render_operation_damage_submitted || b_render_operation_damage_submitted,
            render_operation_frame_callback_done_sent: a_render_operation_frame_callback_done_sent || b_render_operation_frame_callback_done_sent,
            render_operation_input_support: a_render_operation_input_support || b_render_operation_input_support,
            render_operation_core_mutation_invoked: a_render_operation_core_mutation_invoked || b_render_operation_core_mutation_invoked,
            render_operation_queue_drain_invocations: a_render_operation_queue_drain_invocations.saturating_add(b_render_operation_queue_drain_invocations),
            render_operation_intents_enqueued: a_render_operation_intents_enqueued.saturating_add(b_render_operation_intents_enqueued),
            render_operation_intents_drained: a_render_operation_intents_drained.saturating_add(b_render_operation_intents_drained),
            render_operation_queue_drained_intents: a_render_operation_queue_drained_intents,
            render_operation_queue_buffer_imported: a_render_operation_queue_buffer_imported || b_render_operation_queue_buffer_imported,
            render_operation_queue_texture_created: a_render_operation_queue_texture_created || b_render_operation_queue_texture_created,
            render_operation_queue_renderer_called: a_render_operation_queue_renderer_called || b_render_operation_queue_renderer_called,
            render_operation_queue_damage_submitted: a_render_operation_queue_damage_submitted || b_render_operation_queue_damage_submitted,
            render_operation_queue_frame_callback_done_sent: a_render_operation_queue_frame_callback_done_sent || b_render_operation_queue_frame_callback_done_sent,
            render_operation_queue_input_support: a_render_operation_queue_input_support || b_render_operation_queue_input_support,
            render_operation_queue_core_mutation_invoked: a_render_operation_queue_core_mutation_invoked || b_render_operation_queue_core_mutation_invoked,
            buffer_attached: a_buffer_attached || b_buffer_attached,
            damage_submitted: a_damage_submitted || b_damage_submitted,
            frame_callback_requested: a_frame_callback_requested || b_frame_callback_requested,
            render_invoked: a_render_invoked || b_render_invoked,
            input_invoked: a_input_invoked || b_input_invoked,
            core_mutation_invoked: a_core_mutation_invoked || b_core_mutation_invoked,
        };
    }
}

impl<D: Clone, W: Clone, O: Clone> NestedRuntimeSurfaceCommitRunSummary<D, W, O> {
    /// A clone of the summary.
    pub fn duplicate(&self) -> (r: Self)
        ensures
            commit_cloned(*self, r),
    {
        Self {
            drain_invocations: self.drain_invocations,
            commit_observations_drained: self.commit_observations_drained,
            commit_observation_errors: self.commit_observation_errors,
            drained_commit_sequences: self.drained_commit_sequences.clone(),
            buffer_attach_observations: self.buffer_attach_observations,
            buffer_presence_observations: self.buffer_presence_observations,
            buffer_removed_observations: self.buffer_removed_observations,
            renderable_buffer_observations: self.renderable_buffer_observations,
            damage_observations: self.damage_observations,
            surface_damage_rects: self.surface_damage_rects,
            buffer_damage_rects: self.buffer_damage_rects,
            frame_callback_observations: self.frame_callback_observations,
            frame_callback_count: self.frame_callback_count,
            render_dirty_readiness_intents: self.render_dirty_readiness_intents.clone(),
            render_dirty_queue_drain_invocations: self.render_dirty_queue_drain_invocations,
            render_dirty_intents_enqueued: self.render_dirty_intents_enqueued,
            render_dirty_intents_drained: self.render_dirty_intents_drained,
            render_dirty_queue_drained_intents: self.render_dirty_queue_drained_intents.clone(),
            render_dirty_queue_buffer_imported: self.render_dirty_queue_buffer_imported,
            render_dirty_queue_texture_created: self.render_dirty_queue_texture_created,
            render_dirty_queue_render_submitted: self.render_dirty_queue_render_submitted,
            render_dirty_queue_frame_callback_done_sent: self.render_dirty_queue_frame_callback_done_sent,
            render_dirty_queue_input_support: self.render_dirty_queue_input_support,
            renderer_admission_invocations: self.renderer_admission_invocations,
            renderer_work_intents_created: self.renderer_work_intents_created,
            renderer_work_intents: self.renderer_work_intents.clone(),
            renderer_admission_buffer_imported: self.renderer_admission_buffer_imported,
            renderer_admission_texture_created: self.renderer_admission_texture_created,
            renderer_admission_render_submitted: self.renderer_admission_render_submitted,
            renderer_admission_damage_submitted: self.renderer_admission_damage_submitted,
            renderer_admission_frame_callback_done_sent: self.renderer_admission_frame_callback_done_sent,
            renderer_admission_input_support: self.renderer_admission_input_support,
            renderer_admission_core_mutation_invoked: self.renderer_admission_core_mutation_invoked,
            renderer_owner_boundary_invocations: self.renderer_owner_boundary_invocations,
            renderer_owner_work_intents_consumed: self.renderer_owner_work_intents_consumed,
            renderer_owner_consumed_work_intents: self.renderer_owner_consumed_work_intents.clone(),
            renderer_owner_missing_renderer_owner: self.renderer_owner_missing_renderer_owner,
            renderer_owner_missing_buffer_importer: self.renderer_owner_missing_buffer_importer,
            renderer_owner_missing_texture_support: self.renderer_owner_missing_texture_support,
            renderer_owner_buffer_imported: self.renderer_owner_buffer_imported,
            renderer_owner_texture_created: self.renderer_owner_texture_created,
            renderer_owner_renderer_called: self.renderer_owner_renderer_called,
            renderer_owner_damage_submitted: self.renderer_owner_damage_submitted,
            renderer_owner_frame_callback_done_sent: self.renderer_owner_frame_callback_done_sent,
            renderer_owner_input_support: self.renderer_owner_input_support,
            renderer_owner_core_mutation_invoked: self.renderer_owner_core_mutation_invoked,
            renderer_owner_shell_readiness_invocations: self.renderer_owner_shell_readiness_invocations,
            renderer_owner_shell_work_intents_observed: self.renderer_owner_shell_work_intents_observed,
            renderer_owner_shell_observed_work_intents: self.renderer_owner_shell_observed_work_intents.clone(),
            renderer_owner_shell_available: self.renderer_owner_shell_available,
            renderer_owner_shell_missing_renderer_owner: self.renderer_owner_shell_missing_renderer_owner,
            renderer_owner_shell_missing_buffer_importer: self.renderer_owner_shell_missing_buffer_importer,
            renderer_owner_shell_missing_texture_support: self.renderer_owner_shell_missing_texture_support,
            renderer_owner_shell_buffer_imported: self.renderer_owner_shell_buffer_imported,
            renderer_owner_shell_texture_created: self.renderer_owner_shell_texture_created,
            renderer_owner_shell_renderer_called: self.renderer_owner_shell_renderer_called,
            renderer_owner_shell_damage_submitted: self.renderer_owner_shell_damage_submitted,
            renderer_owner_shell_frame_callback_done_sent: self.renderer_owner_shell_frame_callback_done_sent,
            renderer_owner_shell_input_support: self.renderer_owner_shell_input_support,
            renderer_owner_shell_core_mutation_invoked: self.renderer_owner_shell_core_mutation_invoked,
            buffer_importer_shell_readiness_invocations: self.buffer_importer_shell_readiness_invocations,
            buffer_importer_shell_work_intents_observed: self.buffer_importer_shell_work_intents_observed,
            buffer_importer_shell_observed_work_intents: self.buffer_importer_shell_observed_work_intents.clone(),
            buffer_importer_shell_available: self.buffer_importer_shell_available,
            buffer_importer_shell_missing_renderer_owner_shell: self.buffer_importer_shell_missing_renderer_owner_shell,
            buffer_importer_shell_missing_buffer_importer: self.buffer_importer_shell_missing_buffer_importer,
            buffer_importer_shell_missing_texture_support: self.buffer_importer_shell_missing_texture_support,
            buffer_importer_shell_buffer_imported: self.buffer_importer_shell_buffer_imported,
            buffer_importer_shell_texture_created: self.buffer_importer_shell_texture_created,
            buffer_importer_shell_renderer_called: self.buffer_importer_shell_renderer_called,
            buffer_importer_shell_damage_submitted: self.buffer_importer_shell_damage_submitted,
            buffer_importer_shell_frame_callback_done_sent: self.buffer_importer_shell_frame_callback_done_sent,
            buffer_importer_shell_input_support: self.buffer_importer_shell_input_support,
            buffer_importer_shell_core_mutation_invoked: self.buffer_importer_shell_core_mutation_invoked,
            texture_support_shell_readiness_invocations: self.texture_support_shell_readiness_invocations,
            texture_support_shell_work_intents_observed: self.texture_support_shell_work_intents_observed,
            texture_support_shell_observed_work_intents: self.texture_support_shell_observed_work_intents.clone(),
            texture_support_shell_available: self.texture_support_shell_available,
            texture_support_shell_missing_buffer_importer_shell: self.texture_support_shell_missing_buffer_importer_shell,
            texture_support_shell_missing_texture_support: self.texture_support_shell_missing_texture_support,
            texture_support_shell_buffer_imported: self.texture_support_shell_buffer_imported,
            texture_support_shell_texture_created: self.texture_support_shell_texture_created,
            texture_support_shell_renderer_called: self.texture_support_shell_renderer_called,
            texture_support_shell_damage_submitted: self.texture_support_shell_damage_submitted,
            texture_support_shell_frame_callback_done_sent: self.texture_support_shell_frame_callback_done_sent,
            texture_support_shell_input_support: self.texture_support_shell_input_support,
            texture_support_shell_core_mutation_invoked: self.texture_support_shell_core_mutation_invoked,
            render_operation_readiness_invocations: self.render_operation_readiness_invocations,
            render_operation_intents_created: self.render_operation_intents_created,
            render_operation_intents: self.render_operation_intents.clone(),
            render_operation_buffer_imported: self.render_operation_buffer_imported,
            render_operation_texture_created: self.render_operation_texture_created,
            render_operation_renderer_called: self.render_operation_renderer_called,
            render_operation_damage_submitted: self.render_operation_damage_submitted,
            render_operation_frame_callback_done_sent: self.render_operation_frame_callback_done_sent,
            render_operation_input_support: self.render_operation_input_support,
            render_operation_core_mutation_invoked: self.render_operation_core_mutation_invoked,
            render_operation_queue_drain_invocations: self.render_operation_queue_drain_invocations,
            render_operation_intents_enqueued: self.render_operation_intents_enqueued,
            render_operation_intents_drained: self.render_operation_intents_drained,
            render_operation_queue_drained_intents: self.render_operation_queue_drained_intents.clone(),
            render_operation_queue_buffer_imported: self.render_operation_queue_buffer_imported,
            render_operation_queue_texture_created: self.render_operation_queue_texture_created,
            render_operation_queue_renderer_called: self.render_operation_queue_renderer_called,
            render_operation_queue_damage_submitted: self.render_operation_queue_damage_submitted,
            render_operation_queue_frame_callback_done_sent: self.render_operation_queue_frame_callback_done_sent,
            render_operation_queue_input_support: self.render_operation_queue_input_support,
            render_operation_queue_core_mutation_invoked: self.render_operation_queue_core_mutation_invoked,
            buffer_attached: self.buffer_attached,
            damage_submitted: self.damage_submitted,
            frame_callback_requested: self.frame_callback_requested,
            render_invoked: self.render_invoked,
            input_invoked: self.input_invoked,
            core_mutation_invoked: self.core_mutation_invoked,
        }
    }
}

/// One observed pump: the lifecycle report and the live work summaries.
#[derive(Debug, Clone, PartialEq, Eq)]
pub struct ObservedNestedRuntimePumpReport<D, W, O> {
    /// The lifecycle pump report.
    pub lifecycle_report: NestedRuntimePumpReport,
    /// Live admission work of this pump.
    pub live_admission: NestedRuntimeLiveAdmissionRunSummary,
    /// Live unmap work of this pump.
    pub live_unmap: NestedRuntimeLiveUnmapRunSummary,
    /// Surface commit work of this pump.
    pub surface_commit: NestedRuntimeSurfaceCommitRunSummary<D, W, O>,
}

/// The report of one bounded run.
#[derive(Debug, Clone, PartialEq, Eq)]
pub struct NestedRuntimeLoopReport<D, W, O> {
    /// Pumps that ran.
    pub iterations_run: usize,
    /// The lifecycle report of each pump, in order.
    pub pump_reports: Vec<NestedRuntimePumpReport>,
    /// Core clients registered over the run (saturating).
    pub connected_clients_registered: usize,
    /// Core clients closed over the run (saturating).
    pub disconnected_clients_closed: usize,
    /// Pumps that called client dispatch (saturating).
    pub dispatch_calls: usize,
    /// The pumps that reported errors.
    pub errors: Vec<NestedRuntimeLoopError>,
    /// Why the run ended.
    pub exit_reason: NestedRuntimeLoopExitReason,
    /// The core state was valid at the end.
    pub validation_is_clean: bool,
    /// The loop's readiness.
    pub readiness: NestedRuntimeLoopReadinessReport,
    /// Stop and wakeup facts.
    pub wakeup: NestedRuntimeWakeupReport,
    /// Live admission work over the run.
    pub live_admission: NestedRuntimeLiveAdmissionRunSummary,
    /// Live unmap work over the run.
    pub live_unmap: NestedRuntimeLiveUnmapRunSummary,
    /// Surface commit work over the run.
    pub surface_commit: NestedRuntimeSurfaceCommitRunSummary<D, W, O>,
}

impl<D, W, O> NestedRuntimeLoopReport<D, W, O> {
    /// No error, a valid final state, and not an error exit.
    pub fn is_successful(&self) -> (r: bool)
        ensures
            r == (self.errors@.len() == 0 && self.validation_is_clean && self.exit_reason
                != NestedRuntimeLoopExitReason::Error),
    {
        let error_exit = match self.exit_reason {
            NestedRuntimeLoopExitReason::Error => true,
            _ => false,
        };
        self.errors.len() == 0 && self.validation_is_clean && !error_exit
    }
}

/// What the caller does next in a bounded run.
#[derive(Debug, Clone, Copy, PartialEq, Eq, Structural)]
pub enum NestedRuntimeLoopStep {
    /// Run one more pump, then report it with `after_pump`.
    Pump,
    /// The run is over; call `finish`.
    Finish,
}

/// The decisions of one bounded run, fed by the caller's observations.
#[derive(Debug)]
pub struct NestedRuntimeLoopRun<D, W, O> {
    config: NestedRuntimeLoopConfig,
    pump_reports: Vec<NestedRuntimePumpReport>,
    connected_clients_registered: usize,
    disconnected_clients_closed: usize,
    dispatch_calls: usize,
    errors: Vec<NestedRuntimeLoopError>,
    exit_reason: Option<NestedRuntimeLoopExitReason>,
    wakeup_requested: bool,
    stop_requested: bool,
    wait_interrupted: bool,
    last_pump_quiet: bool,
    live_admission: NestedRuntimeLiveAdmissionRunSummary,
    live_unmap: NestedRuntimeLiveUnmapRunSummary,
    surface_commit: NestedRuntimeSurfaceCommitRunSummary<D, W, O>,
}

/// The pump showed no activity at all, live and commit work included.
pub open spec fn pump_quiet<D, W, O>(o: ObservedNestedRuntimePumpReport<D, W, O>) -> bool {
    pump_idle(o.lifecycle_report) && !o.live_admission.spec_has_progress()
        && !o.live_unmap.spec_has_progress() && !o.surface_commit.spec_has_progress()
}

impl<D, W, O> NestedRuntimeLoopRun<D, W, O> {
    /// Live admission work so far.
    pub closed spec fn spec_live_admission(&self) -> NestedRuntimeLiveAdmissionRunSummary {
        self.live_admission
    }

    /// Live unmap work so far.
    pub closed spec fn spec_live_unmap(&self) -> NestedRuntimeLiveUnmapRunSummary {
        self.live_unmap
    }

    /// Surface commit work so far.
    pub closed spec fn spec_surface_commit(&self) -> NestedRuntimeSurfaceCommitRunSummary<D, W, O> {
        self.surface_commit
    }

    /// The run's limits.
    pub closed spec fn spec_config(&self) -> NestedRuntimeLoopConfig {
        self.config
    }

    /// The pump reports so far.
    pub closed spec fn spec_pumps(&self) -> Seq<NestedRuntimePumpReport> {
        self.pump_reports@
    }

    /// The pumps with errors so far.
    pub closed spec fn spec_errors(&self) -> Seq<NestedRuntimeLoopError> {
        self.errors@
    }

    /// The exit reason, once decided.
    pub closed spec fn spec_exit(&self) -> Option<NestedRuntimeLoopExitReason> {
        self.exit_reason
    }

    /// Stop-request, wakeup and interrupt facts so far.
    pub closed spec fn spec_flags(&self) -> (bool, bool, bool) {
        (self.stop_requested, self.wakeup_requested, self.wait_interrupted)
    }

    /// The last pump showed no activity.
    pub closed spec fn spec_last_quiet(&self) -> bool {
        self.last_pump_quiet
    }

    /// Counters: registered, closed, dispatch calls.
    pub closed spec fn spec_counters(&self) -> (usize, usize, usize) {
        (self.connected_clients_registered, self.disconnected_clients_closed, self.dispatch_calls)
    }

    /// Never more pumps than the limit.
    pub closed spec fn wf(&self) -> bool {
        self.pump_reports@.len() <= self.config.max_iterations
    }

    /// Whether another pump runs.
    pub open spec fn spec_wants_pump(&self) -> bool {
        self.spec_exit() is None && self.spec_pumps().len() < self.spec_config().max_iterations
    }

    /// A run with nothing observed.
    pub fn new(config: NestedRuntimeLoopConfig) -> (r: Self)
        ensures
            r.wf(),
            r.spec_config() == config,
            r.spec_pumps() == Seq::<NestedRuntimePumpReport>::empty(),
            r.spec_errors() == Seq::<NestedRuntimeLoopError>::empty(),
            r.spec_exit() is None,
            r.spec_flags() == (false, false, false),
            r.spec_counters() == (0usize, 0usize, 0usize),
            r.spec_live_admission() == NestedRuntimeLiveAdmissionRunSummary::spec_zero(),
            r.spec_live_unmap() == NestedRuntimeLiveUnmapRunSummary::spec_zero(),
            commit_empty(r.spec_surface_commit()),
    {
        Self {
            config,
            pump_reports: Vec::new(),
            connected_clients_registered: 0,
            disconnected_clients_closed: 0,
            dispatch_calls: 0,
            errors: Vec::new(),
            exit_reason: None,
            wakeup_requested: false,
            stop_requested: false,
            wait_interrupted: false,
            last_pump_quiet: false,
            live_admission: NestedRuntimeLiveAdmissionRunSummary::zero(),
            live_unmap: NestedRuntimeLiveUnmapRunSummary::zero(),
            surface_commit: NestedRuntimeSurfaceCommitRunSummary::zero(),
        }
    }

    /// A stop request was pending before the first pump: the run ends with no
    /// pump, keeping the wakeup and interrupt facts taken with it.
    pub fn stopped_before_start(&mut self, wakeup_taken: bool, interrupt_taken: bool)
        requires
            old(self).wf(),
            old(self).spec_exit() is None,
        ensures
            final(self).wf(),
            final(self).spec_config() == old(self).spec_config(),
            final(self).spec_pumps() == old(self).spec_pumps(),
            final(self).spec_errors() == old(self).spec_errors(),
            final(self).spec_counters() == old(self).spec_counters(),
            final(self).spec_exit() == Some(NestedRuntimeLoopExitReason::StopRequested),
            final(self).spec_flags() == (true, wakeup_taken, interrupt_taken),
    {
        self.stop_requested = true;
        self.wakeup_requested = wakeup_taken;
        self.wait_interrupted = interrupt_taken;
        self.exit_reason = Some(NestedRuntimeLoopExitReason::StopRequested);
    }

    /// What to do next: pump while no exit is decided and the limit is not reached.
    pub fn next_step(&self) -> (r: NestedRuntimeLoopStep)
        ensures
            r == (if self.spec_wants_pump() {
                NestedRuntimeLoopStep::Pump
            } else {
                NestedRuntimeLoopStep::Finish
            }),
    {
        if self.exit_reason.is_none() && self.pump_reports.len() < self.config.max_iterations {
            NestedRuntimeLoopStep::Pump
        } else {
            NestedRuntimeLoopStep::Finish
        }
    }

    /// Records one pump and the wakeup and interrupt facts taken after it.
    /// Returns `false` when the pump's errors end the run; otherwise the caller
    /// takes the stop request and reports it with `after_stop_check`.
    #[verifier::rlimit(40)]
    pub fn after_pump(
        &mut self,
        observed: ObservedNestedRuntimePumpReport<D, W, O>,
        wakeup_taken: bool,
        interrupt_taken: bool,
    ) -> (r: bool)
        requires
            old(self).wf(),
            old(self).spec_wants_pump(),
        ensures
            final(self).wf(),
            final(self).spec_config() == old(self).spec_config(),
            final(self).spec_pumps() == old(self).spec_pumps().push(observed.lifecycle_report),
            final(self).spec_flags() == (
                old(self).spec_flags().0,
                old(self).spec_flags().1 || wakeup_taken,
                old(self).spec_flags().2 || interrupt_taken,
            ),
            final(self).spec_counters() == (
                sat_add(
                    old(self).spec_counters().0,
                    observed.lifecycle_report.registered_core_clients@.len() as usize,
                ),
                sat_add(
                    old(self).spec_counters().1,
                    observed.lifecycle_report.closed_core_clients@.len() as usize,
                ),
                if observed.lifecycle_report.dispatch_clients_called {
                    sat_add(old(self).spec_counters().2, 1)
                } else {
                    old(self).spec_counters().2
                },
            ),
            observed.lifecycle_report.errors@.len() > 0 ==> {
                &&& final(self).spec_errors().len() == old(self).spec_errors().len() + 1
                &&& final(self).spec_errors().drop_last() == old(self).spec_errors()
                &&& final(self).spec_errors().last().iteration == old(self).spec_pumps().len() + 1
                &&& final(self).spec_errors().last().pump_errors@
                    == observed.lifecycle_report.errors@
            },
            observed.lifecycle_report.errors@.len() == 0 ==> final(self).spec_errors() == old(
                self,
            ).spec_errors(),
            final(self).spec_last_quiet() == pump_quiet(observed),
            admission_observed(
                old(self).spec_live_admission(),
                observed.live_admission,
                final(self).spec_live_admission(),
            ),
            unmap_observed(old(self).spec_live_unmap(), observed.live_unmap, final(self).spec_live_unmap()),
            commit_observed(
                old(self).spec_surface_commit(),
                observed.surface_commit,
                final(self).spec_surface_commit(),
            ),
            r == !(observed.lifecycle_report.errors@.len() > 0
                && !old(self).spec_config().continue_after_error),
            r ==> final(self).spec_exit() is None,
            !r ==> final(self).spec_exit() == Some(NestedRuntimeLoopExitReason::Error),
    {
        self.wakeup_requested = self.wakeup_requested || wakeup_taken;
        self.wait_interrupted = self.wait_interrupted || interrupt_taken;
        let iteration = self.pump_reports.len() + 1;
        let admission_progress = observed.live_admission.has_progress();
        let unmap_progress = observed.live_unmap.has_progress();
        let commit_progress = observed.surface_commit.has_progress();
        self.live_admission.observe(observed.live_admission);
        self.live_unmap.observe(observed.live_unmap);
        self.surface_commit.observe(observed.surface_commit);
        let report = observed.lifecycle_report;
        let idle = pump_report_is_idle(&report);
        let has_errors = report.errors.len() > 0;
        self.connected_clients_registered = self.connected_clients_registered.saturating_add(
            report.registered_core_clients.len(),
        );
        self.disconnected_clients_closed = self.disconnected_clients_closed.saturating_add(
            report.closed_core_clients.len(),
        );
        if report.dispatch_clients_called {
            self.dispatch_calls = self.dispatch_calls.saturating_add(1);
        }
        if has_errors {
            let ghost before = self.errors@;
            self.errors.push(NestedRuntimeLoopError { iteration, pump_errors: copy_pump_errors(&report.errors) });
            assert(self.errors@.drop_last() =~= before);
        }
        self.last_pump_quiet = idle && !admission_progress && !unmap_progress && !commit_progress;
        self.pump_reports.push(report);
        if has_errors && !self.config.continue_after_error {
            self.exit_reason = Some(NestedRuntimeLoopExitReason::Error);
            false
        } else {
            true
        }
    }

    /// Reports whether a stop request was taken after the pump. A stop ends
    /// the run (as an interrupt when a wait was interrupted); otherwise a quiet
    /// pump ends it when `stop_when_idle` is set.
    pub fn after_stop_check(&mut self, stop_taken: bool)
        requires
            old(self).wf(),
            old(self).spec_exit() is None,
        ensures
            final(self).wf(),
            final(self).spec_config() == old(self).spec_config(),
            final(self).spec_pumps() == old(self).spec_pumps(),
            final(self).spec_errors() == old(self).spec_errors(),
            final(self).spec_counters() == old(self).spec_counters(),
            final(self).spec_last_quiet() == old(self).spec_last_quiet(),
            final(self).spec_flags() == (
                old(self).spec_flags().0 || stop_taken,
                old(self).spec_flags().1,
                old(self).spec_flags().2,
            ),
            final(self).spec_exit() == if stop_taken {
                if old(self).spec_flags().2 {
                    Some(NestedRuntimeLoopExitReason::Interrupted)
                } else {
                    Some(NestedRuntimeLoopExitReason::StopRequested)
                }
            } else if old(self).spec_config().stop_when_idle && old(self).spec_last_quiet() {
                Some(NestedRuntimeLoopExitReason::Idle)
            } else {
                None::<NestedRuntimeLoopExitReason>
            },
    {
        if stop_taken {
            self.stop_requested = true;
            self.exit_reason = if self.wait_interrupted {
                Some(NestedRuntimeLoopExitReason::Interrupted)
            } else {
                Some(NestedRuntimeLoopExitReason::StopRequested)
            };
        } else if self.config.stop_when_idle && self.last_pump_quiet {
            self.exit_reason = Some(NestedRuntimeLoopExitReason::Idle);
        }
    }

    /// The run's report: the decided exit, or the iteration limit when none was
    /// decided, and the validation of `state`.
    pub fn finish(self, state: &State, elapsed_before_exit: Duration, elapsed_within_timeout: bool) -> (r:
        NestedRuntimeLoopReport<D, W, O>)
        requires
            self.wf(),
        ensures
            r.iterations_run == self.spec_pumps().len(),
            r.iterations_run <= self.spec_config().max_iterations,
            r.pump_reports@ == self.spec_pumps(),
            r.errors@ == self.spec_errors(),
            (r.connected_clients_registered, r.disconnected_clients_closed, r.dispatch_calls)
                == self.spec_counters(),
            r.exit_reason == match self.spec_exit() {
                Some(reason) => reason,
                None => NestedRuntimeLoopExitReason::MaxIterationsReached,
            },
            r.validation_is_clean == !output_invalid(state.view()),
            r.wakeup.stop_requested == self.spec_flags().0,
            r.wakeup.wakeup_requested == self.spec_flags().1,
            r.wakeup.wait_interrupted == self.spec_flags().2,
            r.wakeup.elapsed_before_exit == elapsed_before_exit,
            r.wakeup.configured_pump_timeout == self.spec_config().pump_timeout,
            r.wakeup.exited_before_timeout == (self.spec_flags().2 && elapsed_within_timeout),
            is_loop_readiness(r.readiness),
            r.live_admission == self.spec_live_admission(),
            r.live_unmap == self.spec_live_unmap(),
            r.surface_commit == self.spec_surface_commit(),
    {
        let iterations_run = self.pump_reports.len();
        let exit_reason = match self.exit_reason {
            Some(reason) => reason,
            None => NestedRuntimeLoopExitReason::MaxIterationsReached,
        };
        let validation_is_clean = state.validate().is_clean();
        NestedRuntimeLoopReport {
            iterations_run,
            pump_reports: self.pump_reports,
            connected_clients_registered: self.connected_clients_registered,
            disconnected_clients_closed: self.disconnected_clients_closed,
            dispatch_calls: self.dispatch_calls,
            errors: self.errors,
            exit_reason,
            validation_is_clean,
            readiness: nested_runtime_loop_readiness_report(),
            wakeup: NestedRuntimeWakeupReport {
                wakeup_requested: self.wakeup_requested,
                stop_requested: self.stop_requested,
                wait_interrupted: self.wait_interrupted,
                elapsed_before_exit,
                configured_pump_timeout: self.config.pump_timeout,
                exited_before_timeout: self.wait_interrupted && elapsed_within_timeout,
            },
            live_admission: self.live_admission,
            live_unmap: self.live_unmap,
            surface_commit: self.surface_commit,
        }
    }
}

/// A pump that accepted or inserted a client, drained a connected or
/// disconnected event, registered or closed a core client, dispatched a
/// request (or failed to dispatch), or reported an error is not idle, and so
/// not quiet: `after_pump` records it as not quiet, and `after_stop_check`
/// then never ends the run as `Idle`, whatever `stop_when_idle` says.
pub proof fn law_active_pump_is_not_idle<D, W, O>(observed: ObservedNestedRuntimePumpReport<D, W, O>)
    ensures
        ({
            let r = observed.lifecycle_report;
            (r.accepted_clients > 0 || r.inserted_clients > 0 || r.connected_events_drained > 0
                || r.registered_core_clients@.len() > 0 || r.dispatched_requests != Some(0usize)
                || r.disconnected_events_drained > 0 || r.closed_core_clients@.len() > 0
                || r.errors@.len() > 0) ==> !pump_idle(r) && !pump_quiet(observed)
        }),
        observed.live_admission.spec_has_progress() || observed.live_unmap.spec_has_progress()
            || observed.surface_commit.spec_has_progress() ==> !pump_quiet(observed),
{
}

} // verus!
