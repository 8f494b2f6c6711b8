//! The stages of one surface commit pump, as seen by the bounded loop: what
//! each stage reported, and the run summary each report converts to. A
//! stage's summary carries that stage's counts, intents and flags and leaves
//! every other stage's fields empty; the pump's summary observes them in
//! pipeline order (see `commit_observed`).

use vstd::prelude::*;

use crate::smithay_backend::nested_runtime_loop::{
    NestedRuntimeLiveAdmissionRunSummary, NestedRuntimeLiveUnmapRunSummary, NestedRuntimePumpReport,
    NestedRuntimeSurfaceCommitRunSummary, ObservedNestedRuntimePumpReport, commit_observed,
};

verus! {

fn option_into_vec<T>(o: Option<T>) -> (r: Vec<T>)
    ensures
        r@ == match o {
            Some(v) => seq![v],
            None => Seq::<T>::empty(),
        },
{
    let mut r: Vec<T> = Vec::new();
    match o {
        Some(v) => {
            r.push(v);
        },
        None => {},
    }
    r
}

/// What the conversion reads of one surface commit drain.
#[derive(Debug, Clone, PartialEq, Eq)]
pub struct RuntimeSurfaceCommitDrainReport {
    /// The drain ran.
    pub drain_invoked: bool,
    /// A commit observation was resolved.
    pub commit_observation_resolved: bool,
    /// Resolving a commit observation failed.
    pub commit_observation_failed: bool,
    /// The sequence number of the drained commit.
    pub commit_sequence: Option<u64>,
    /// The commit attached a buffer.
    pub buffer_attach_observed: bool,
    /// A buffer is present.
    pub buffer_present: bool,
    /// The buffer was removed.
    pub buffer_removed: bool,
    /// The buffer is renderable.
    pub renderable_buffer: bool,
    /// Damage was observed.
    pub damage_observed: bool,
    /// Surface damage rectangles.
    pub surface_damage_rects: usize,
    /// Buffer damage rectangles.
    pub buffer_damage_rects: usize,
    /// A frame callback was observed.
    pub frame_callback_observed: bool,
    /// Frame callbacks requested.
    pub frame_callback_count: usize,
    /// A buffer was attached to the renderer.
    pub buffer_attached: bool,
    /// Damage was submitted.
    pub damage_submitted: bool,
    /// A frame callback was requested.
    pub frame_callback_requested: bool,
    /// Rendering ran.
    pub render_invoked: bool,
    /// Input ran.
    pub input_invoked: bool,
    /// The core was changed.
    pub core_mutation_invoked: bool,
}

/// What the conversion reads of one render-dirty intent queue drain.
#[derive(Debug, Clone, PartialEq, Eq)]
pub struct RuntimeSurfaceCommitRenderDirtyIntentDrainReport<D> {
    /// The drain ran.
    pub drain_invoked: bool,
    /// An intent was enqueued.
    pub intent_enqueued: bool,
    /// An intent was drained.
    pub intent_drained: bool,
    /// The drained intent.
    pub drained_intent: Option<D>,
    /// A buffer was imported.
    pub buffer_imported: bool,
    /// A texture was created.
    pub texture_created: bool,
    /// A render was submitted.
    pub render_submitted: bool,
    /// A frame callback `done` was sent.
    pub frame_callback_done_sent: bool,
    /// Input is supported.
    pub input_support: bool,
}

/// What the conversion reads of one renderer admission.
#[derive(Debug, Clone, PartialEq, Eq)]
pub struct RuntimeSurfaceCommitRendererAdmissionReport<W> {
    /// The admission ran.
    pub renderer_admission_invoked: bool,
    /// A work intent was created.
    pub work_intent_created: bool,
    /// The created work intent.
    pub work_intent: Option<W>,
    /// A buffer was imported.
    pub buffer_imported: bool,
    /// A texture was created.
    pub texture_created: bool,
    /// A render was submitted.
    pub render_submitted: bool,
    /// Damage was submitted.
    pub damage_submitted: bool,
    /// A frame callback `done` was sent.
    pub frame_callback_done_sent: bool,
    /// Input is supported.
    pub input_support: bool,
    /// The core was changed.
    pub core_mutation_invoked: bool,
}

/// What can block renderer owner boundary.
#[derive(Debug, Clone, Copy, PartialEq, Eq, Structural)]
pub enum RuntimeSurfaceCommitRendererOwnerBoundaryBlocker {
    /// No renderer owner exists.
    MissingRendererOwner,
    /// No buffer importer exists.
    MissingBufferImporter,
    /// No texture support exists.
    MissingTextureSupport,
}

fn lists_runtime_surface_commit_renderer_owner_boundary_blocker(blockers: &Vec<RuntimeSurfaceCommitRendererOwnerBoundaryBlocker>, blocker: RuntimeSurfaceCommitRendererOwnerBoundaryBlocker) -> (r: bool)
    ensures
        r == blockers@.contains(blocker),
{
    let mut i: usize = 0;
    while i < blockers.len()
        invariant
            i <= blockers@.len(),
            forall|k: int| 0 <= k < i ==> blockers@[k] != blocker,
        decreases blockers@.len() - i,
    {
        if blockers[i] == blocker {
            assert(blockers@[i as int] == blocker);
            return true;
        }
        i = i + 1;
    }
    false
}

/// What the conversion reads of one renderer owner boundary.
#[derive(Debug, Clone, PartialEq, Eq)]
pub struct RuntimeSurfaceCommitRendererOwnerBoundaryReport<W> {
    /// The consume step ran.
    pub consume_invoked: bool,
    /// A work intent was consumed.
    pub work_intent_consumed: bool,
    /// The consumed work intent.
    pub consumed_work_intent: Option<W>,
    /// What blocks the owner.
    pub blockers: Vec<RuntimeSurfaceCommitRendererOwnerBoundaryBlocker>,
    /// A buffer was imported.
    pub buffer_imported: bool,
    /// A texture was created.
    pub texture_created: bool,
    /// The renderer was called.
    pub renderer_called: bool,
    /// Damage was submitted.
    pub damage_submitted: bool,
    /// A frame callback `done` was sent.
    pub frame_callback_done_sent: bool,
    /// Input is supported.
    pub input_support: bool,
    /// The core was changed.
    pub core_mutation_invoked: bool,
}

/// What can block renderer owner shell readiness check.
#[derive(Debug, Clone, Copy, PartialEq, Eq, Structural)]
pub enum RuntimeSurfaceCommitRendererOwnerShellBlocker {
    /// No renderer owner exists.
    MissingRendererOwner,
    /// No buffer importer exists.
    MissingBufferImporter,
    /// No texture support exists.
    MissingTextureSupport,
}

fn lists_runtime_surface_commit_renderer_owner_shell_blocker(blockers: &Vec<RuntimeSurfaceCommitRendererOwnerShellBlocker>, blocker: RuntimeSurfaceCommitRendererOwnerShellBlocker) -> (r: bool)
    ensures
        r == blockers@.contains(blocker),
{
    let mut i: usize = 0;
    while i < blockers.len()
        invariant
            i <= blockers@.len(),
            forall|k: int| 0 <= k < i ==> blockers@[k] != blocker,
        decreases blockers@.len() - i,
    {
        if blockers[i] == blocker {
            assert(blockers@[i as int] == blocker);
            return true;
        }
        i = i + 1;
    }
    false
}

/// What the conversion reads of one renderer owner shell readiness check.
#[derive(Debug, Clone, PartialEq, Eq)]
pub struct RuntimeSurfaceCommitRendererOwnerShellReadinessReport<W> {
    /// The check ran.
    pub readiness_invoked: bool,
    /// The work intent it observed.
    pub observed_work_intent: Option<W>,
    /// The shell is available.
    pub renderer_owner_shell_available: bool,
    /// What blocks the shell.
    pub blockers: Vec<RuntimeSurfaceCommitRendererOwnerShellBlocker>,
    /// A buffer was imported.
    pub buffer_imported: bool,
    /// A texture was created.
    pub texture_created: bool,
    /// The renderer was called.
    pub renderer_called: bool,
    /// Damage was submitted.
    pub damage_submitted: bool,
    /// A frame callback `done` was sent.
    pub frame_callback_done_sent: bool,
    /// Input is supported.
    pub input_support: bool,
    /// The core was changed.
    pub core_mutation_invoked: bool,
}

/// What can block buffer importer shell readiness check.
#[derive(Debug, Clone, Copy, PartialEq, Eq, Structural)]
pub enum RuntimeSurfaceCommitBufferImporterShellBlocker {
    /// No renderer owner shell exists.
    MissingRendererOwnerShell,
    /// No buffer importer exists.
    MissingBufferImporter,
    /// No texture support exists.
    MissingTextureSupport,
}

fn lists_runtime_surface_commit_buffer_importer_shell_blocker(blockers: &Vec<RuntimeSurfaceCommitBufferImporterShellBlocker>, blocker: RuntimeSurfaceCommitBufferImporterShellBlocker) -> (r: bool)
    ensures
        r == blockers@.contains(blocker),
{
    let mut i: usize = 0;
    while i < blockers.len()
        invariant
            i <= blockers@.len(),
            forall|k: int| 0 <= k < i ==> blockers@[k] != blocker,
        decreases blockers@.len() - i,
    {
        if blockers[i] == blocker {
            assert(blockers@[i as int] == blocker);
            return true;
        }
        i = i + 1;
    }
    false
}

/// What the conversion reads of one buffer importer shell readiness check.
#[derive(Debug, Clone, PartialEq, Eq)]
pub struct RuntimeSurfaceCommitBufferImporterShellReadinessReport<W> {
    /// The check ran.
    pub readiness_invoked: bool,
    /// The work intent it observed.
    pub observed_work_intent: Option<W>,
    /// The shell is available.
    pub buffer_importer_shell_available: bool,
    /// What blocks the shell.
    pub blockers: Vec<RuntimeSurfaceCommitBufferImporterShellBlocker>,
    /// A buffer was imported.
    pub buffer_imported: bool,
    /// A texture was created.
    pub texture_created: bool,
    /// The renderer was called.
    pub renderer_called: bool,
    /// Damage was submitted.
    pub damage_submitted: bool,
    /// A frame callback `done` was sent.
    pub frame_callback_done_sent: bool,
    /// Input is supported.
    pub input_support: bool,
    /// The core was changed.
    pub core_mutation_invoked: bool,
}

/// What can block texture support shell readiness check.
#[derive(Debug, Clone, Copy, PartialEq, Eq, Structural)]
pub enum RuntimeSurfaceCommitTextureSupportShellBlocker {
    /// No buffer importer shell exists.
    MissingBufferImporterShell,
    /// No texture support exists.
    MissingTextureSupport,
}

fn lists_runtime_surface_commit_texture_support_shell_blocker(blockers: &Vec<RuntimeSurfaceCommitTextureSupportShellBlocker>, blocker: RuntimeSurfaceCommitTextureSupportShellBlocker) -> (r: bool)
    ensures
        r == blockers@.contains(blocker),
{
    let mut i: usize = 0;
    while i < blockers.len()
        invariant
            i <= blockers@.len(),
            forall|k: int| 0 <= k < i ==> blockers@[k] != blocker,
        decreases blockers@.len() - i,
    {
        if blockers[i] == blocker {
            assert(blockers@[i as int] == blocker);
            return true;
        }
        i = i + 1;
    }
    false
}

/// What the conversion reads of one texture support shell readiness check.
#[derive(Debug, Clone, PartialEq, Eq)]
pub struct RuntimeSurfaceCommitTextureSupportShellReadinessReport<W> {
    /// The check ran.
    pub readiness_invoked: bool,
    /// The work intent it observed.
    pub observed_work_intent: Option<W>,
    /// The shell is available.
    pub texture_support_shell_available: bool,
    /// What blocks the shell.
    pub blockers: Vec<RuntimeSurfaceCommitTextureSupportShellBlocker>,
    /// A buffer was imported.
    pub buffer_imported: bool,
    /// A texture was created.
    pub texture_created: bool,
    /// The renderer was called.
    pub renderer_called: bool,
    /// Damage was submitted.
    pub damage_submitted: bool,
    /// A frame callback `done` was sent.
    pub frame_callback_done_sent: bool,
    /// Input is supported.
    pub input_support: bool,
    /// The core was changed.
    pub core_mutation_invoked: bool,
}

/// What the conversion reads of one render operation readiness check.
#[derive(Debug, Clone, PartialEq, Eq)]
pub struct RuntimeSurfaceCommitRenderOperationReadinessReport<O> {
    /// The check ran.
    pub readiness_invoked: bool,
    /// A render operation intent was created.
    pub render_operation_intent_created: bool,
    /// The created intent.
    pub render_operation_intent: Option<O>,
    /// A buffer was imported.
    pub buffer_imported: bool,
    /// A texture was created.
    pub texture_created: bool,
    /// The renderer was called.
    pub renderer_called: bool,
    /// Damage was submitted.
    pub damage_submitted: bool,
    /// A frame callback `done` was sent.
    pub frame_callback_done_sent: bool,
    /// Input is supported.
    pub input_support: bool,
    /// The core was changed.
    pub core_mutation_invoked: bool,
}

/// What the conversion reads of one render operation intent queue drain.
#[derive(Debug, Clone, PartialEq, Eq)]
pub struct RuntimeSurfaceCommitRenderOperationIntentDrainReport<O> {
    /// The drain ran.
    pub drain_invoked: bool,
    /// An intent was enqueued.
    pub intent_enqueued: bool,
    /// An intent was drained.
    pub intent_drained: bool,
    /// The drained intent.
    pub drained_intent: Option<O>,
    /// A buffer was imported.
    pub buffer_imported: bool,
    /// A texture was created.
    pub texture_created: bool,
    /// The renderer was called.
    pub renderer_called: bool,
    /// Damage was submitted.
    pub damage_submitted: bool,
    /// A frame callback `done` was sent.
    pub frame_callback_done_sent: bool,
    /// Input is supported.
    pub input_support: bool,
    /// The core was changed.
    pub core_mutation_invoked: bool,
}

/// `s` is the summary of what one commit drain observed: its counts, the commit sequence,
/// the buffer, damage and frame callback evidence, and the render-dirty readiness intent
/// derived from the drain, given as `render_dirty_intent`. Every field of the other
/// stages is empty.
pub open spec fn drain_stage<D, W, O>(s: NestedRuntimeSurfaceCommitRunSummary<D, W, O>, report: RuntimeSurfaceCommitDrainReport, render_dirty_intent: Option<D>) -> bool {
    &&& s.drain_invocations == (if report.drain_invoked { 1usize } else { 0usize })
    &&& s.commit_observations_drained == (if report.commit_observation_resolved { 1usize } else { 0usize })
    &&& s.commit_observation_errors == (if report.commit_observation_failed { 1usize } else { 0usize })
    &&& s.drained_commit_sequences@ == match report.commit_sequence { Some(v) => seq![v], None => Seq::empty() }
    &&& s.buffer_attach_observations == (if report.buffer_attach_observed { 1usize } else { 0usize })
    &&& s.buffer_presence_observations == (if report.buffer_present { 1usize } else { 0usize })
    &&& s.buffer_removed_observations == (if report.buffer_removed { 1usize } else { 0usize })
    &&& s.renderable_buffer_observations == (if report.renderable_buffer { 1usize } else { 0usize })
    &&& s.damage_observations == (if report.damage_observed { 1usize } else { 0usize })
    &&& s.surface_damage_rects == report.surface_damage_rects
    &&& s.buffer_damage_rects == report.buffer_damage_rects
    &&& s.frame_callback_observations == (if report.frame_callback_observed { 1usize } else { 0usize })
    &&& s.frame_callback_count == report.frame_callback_count
    &&& s.render_dirty_readiness_intents@ == match render_dirty_intent { Some(v) => seq![v], None => Seq::empty() }
    &&& s.buffer_attached == report.buffer_attached
    &&& s.damage_submitted == report.damage_submitted
    &&& s.frame_callback_requested == report.frame_callback_requested
    &&& s.render_invoked == report.render_invoked
    &&& s.input_invoked == report.input_invoked
    &&& s.core_mutation_invoked == report.core_mutation_invoked
    &&& s.render_dirty_queue_drain_invocations == 0
    &&& s.render_dirty_intents_enqueued == 0
    &&& s.render_dirty_intents_drained == 0
    &&& s.render_dirty_queue_drained_intents@.len() == 0
    &&& !s.render_dirty_queue_buffer_imported
    &&& !s.render_dirty_queue_texture_created
    &&& !s.render_dirty_queue_render_submitted
    &&& !s.render_dirty_queue_frame_callback_done_sent
    &&& !s.render_dirty_queue_input_support
    &&& s.renderer_admission_invocations == 0
    &&& s.renderer_work_intents_created == 0
    &&& s.renderer_work_intents@.len() == 0
    &&& !s.renderer_admission_buffer_imported
    &&& !s.renderer_admission_texture_created
    &&& !s.renderer_admission_render_submitted
    &&& !s.renderer_admission_damage_submitted
    &&& !s.renderer_admission_frame_callback_done_sent
    &&& !s.renderer_admission_input_support
    &&& !s.renderer_admission_core_mutation_invoked
    &&& s.renderer_owner_boundary_invocations == 0
    &&& s.renderer_owner_work_intents_consumed == 0
    &&& s.renderer_owner_consumed_work_intents@.len() == 0
    &&& !s.renderer_owner_missing_renderer_owner
    &&& !s.renderer_owner_missing_buffer_importer
    &&& !s.renderer_owner_missing_texture_support
    &&& !s.renderer_owner_buffer_imported
    &&& !s.renderer_owner_texture_created
    &&& !s.renderer_owner_renderer_called
    &&& !s.renderer_owner_damage_submitted
    &&& !s.renderer_owner_frame_callback_done_sent
    &&& !s.renderer_owner_input_support
    &&& !s.renderer_owner_core_mutation_invoked
    &&& s.renderer_owner_shell_readiness_invocations == 0
    &&& s.renderer_owner_shell_work_intents_observed == 0
    &&& s.renderer_owner_shell_observed_work_intents@.len() == 0
    &&& !s.renderer_owner_shell_available
    &&& !s.renderer_owner_shell_missing_renderer_owner
    &&& !s.renderer_owner_shell_missing_buffer_importer
    &&& !s.renderer_owner_shell_missing_texture_support
    &&& !s.renderer_owner_shell_buffer_imported
    &&& !s.renderer_owner_shell_texture_created
    &&& !s.renderer_owner_shell_renderer_called
    &&& !s.renderer_owner_shell_damage_submitted
    &&& !s.renderer_owner_shell_frame_callback_done_sent
    &&& !s.renderer_owner_shell_input_support
    &&& !s.renderer_owner_shell_core_mutation_invoked
    &&& s.buffer_importer_shell_readiness_invocations == 0
    &&& s.buffer_importer_shell_work_intents_observed == 0
    &&& s.buffer_importer_shell_observed_work_intents@.len() == 0
    &&& !s.buffer_importer_shell_available
    &&& !s.buffer_importer_shell_missing_renderer_owner_shell
    &&& !s.buffer_importer_shell_missing_buffer_importer
    &&& !s.buffer_importer_shell_missing_texture_support
    &&& !s.buffer_importer_shell_buffer_imported
    &&& !s.buffer_importer_shell_texture_created
    &&& !s.buffer_importer_shell_renderer_called
    &&& !s.buffer_importer_shell_damage_submitted
    &&& !s.buffer_importer_shell_frame_callback_done_sent
    &&& !s.buffer_importer_shell_input_support
    &&& !s.buffer_importer_shell_core_mutation_invoked
    &&& s.texture_support_shell_readiness_invocations == 0
    &&& s.texture_support_shell_work_intents_observed == 0
    &&& s.texture_support_shell_observed_work_intents@.len() == 0
    &&& !s.texture_support_shell_available
    &&& !s.texture_support_shell_missing_buffer_importer_shell
    &&& !s.texture_support_shell_missing_texture_support
    &&& !s.texture_support_shell_buffer_imported
    &&& !s.texture_support_shell_texture_created
    &&& !s.texture_support_shell_renderer_called
    &&& !s.texture_support_shell_damage_submitted
    &&& !s.texture_support_shell_frame_callback_done_sent
    &&& !s.texture_support_shell_input_support
    &&& !s.texture_support_shell_core_mutation_invoked
    &&& s.render_operation_readiness_invocations == 0
    &&& s.render_operation_intents_created == 0
    &&& s.render_operation_intents@.len() == 0
    &&& !s.render_operation_buffer_imported
    &&& !s.render_operation_texture_created
    &&& !s.render_operation_renderer_called
    &&& !s.render_operation_damage_submitted
    &&& !s.render_operation_frame_callback_done_sent
    &&& !s.render_operation_input_support
    &&& !s.render_operation_core_mutation_invoked
    &&& s.render_operation_queue_drain_invocations == 0
    &&& s.render_operation_intents_enqueued == 0
    &&& s.render_operation_intents_drained == 0
    &&& s.render_operation_queue_drained_intents@.len() == 0
    &&& !s.render_operation_queue_buffer_imported
    &&& !s.render_operation_queue_texture_created
    &&& !s.render_operation_queue_renderer_called
    &&& !s.render_operation_queue_damage_submitted
    &&& !s.render_operation_queue_frame_callback_done_sent
    &&& !s.render_operation_queue_input_support
    &&& !s.render_operation_queue_core_mutation_invoked
}

/// `s` is the summary of what one render-dirty intent queue drain did. Every field of the
/// other stages is empty.
pub open spec fn dirty_queue_stage<D, W, O>(s: NestedRuntimeSurfaceCommitRunSummary<D, W, O>, report: RuntimeSurfaceCommitRenderDirtyIntentDrainReport<D>) -> bool {
    &&& s.render_dirty_queue_drain_invocations == (if report.drain_invoked { 1usize } else { 0usize })
    &&& s.render_dirty_intents_enqueued == (if report.intent_enqueued { 1usize } else { 0usize })
    &&& s.render_dirty_intents_drained == (if report.intent_drained { 1usize } else { 0usize })
    &&& s.render_dirty_queue_drained_intents@ == match report.drained_intent { Some(v) => seq![v], None => Seq::empty() }
    &&& s.render_dirty_queue_buffer_imported == report.buffer_imported
    &&& s.render_dirty_queue_texture_created == report.texture_created
    &&& s.render_dirty_queue_render_submitted == report.render_submitted
    &&& s.render_dirty_queue_frame_callback_done_sent == report.frame_callback_done_sent
    &&& s.render_dirty_queue_input_support == report.input_support
    &&& s.drain_invocations == 0
    &&& s.commit_observations_drained == 0
    &&& s.commit_observation_errors == 0
    &&& s.drained_commit_sequences@.len() == 0
    &&& s.buffer_attach_observations == 0
    &&& s.buffer_presence_observations == 0
    &&& s.buffer_removed_observations == 0
    &&& s.renderable_buffer_observations == 0
    &&& s.damage_observations == 0
    &&& s.surface_damage_rects == 0
    &&& s.buffer_damage_rects == 0
    &&& s.frame_callback_observations == 0
    &&& s.frame_callback_count == 0
    &&& s.render_dirty_readiness_intents@.len() == 0
    &&& s.renderer_admission_invocations == 0
    &&& s.renderer_work_intents_created == 0
    &&& s.renderer_work_intents@.len() == 0
    &&& !s.renderer_admission_buffer_imported
    &&& !s.renderer_admission_texture_created
    &&& !s.renderer_admission_render_submitted
    &&& !s.renderer_admission_damage_submitted
    &&& !s.renderer_admission_frame_callback_done_sent
    &&& !s.renderer_admission_input_support
    &&& !s.renderer_admission_core_mutation_invoked
    &&& s.renderer_owner_boundary_invocations == 0
    &&& s.renderer_owner_work_intents_consumed == 0
    &&& s.renderer_owner_consumed_work_intents@.len() == 0
    &&& !s.renderer_owner_missing_renderer_owner
    &&& !s.renderer_owner_missing_buffer_importer
    &&& !s.renderer_owner_missing_texture_support
    &&& !s.renderer_owner_buffer_imported
    &&& !s.renderer_owner_texture_created
    &&& !s.renderer_owner_renderer_called
    &&& !s.renderer_owner_damage_submitted
    &&& !s.renderer_owner_frame_callback_done_sent
    &&& !s.renderer_owner_input_support
    &&& !s.renderer_owner_core_mutation_invoked
    &&& s.renderer_owner_shell_readiness_invocations == 0
    &&& s.renderer_owner_shell_work_intents_observed == 0
    &&& s.renderer_owner_shell_observed_work_intents@.len() == 0
    &&& !s.renderer_owner_shell_available
    &&& !s.renderer_owner_shell_missing_renderer_owner
    &&& !s.renderer_owner_shell_missing_buffer_importer
    &&& !s.renderer_owner_shell_missing_texture_support
    &&& !s.renderer_owner_shell_buffer_imported
    &&& !s.renderer_owner_shell_texture_created
    &&& !s.renderer_owner_shell_renderer_called
    &&& !s.renderer_owner_shell_damage_submitted
    &&& !s.renderer_owner_shell_frame_callback_done_sent
    &&& !s.renderer_owner_shell_input_support
    &&& !s.renderer_owner_shell_core_mutation_invoked
    &&& s.buffer_importer_shell_readiness_invocations == 0
    &&& s.buffer_importer_shell_work_intents_observed == 0
    &&& s.buffer_importer_shell_observed_work_intents@.len() == 0
    &&& !s.buffer_importer_shell_available
    &&& !s.buffer_importer_shell_missing_renderer_owner_shell
    &&& !s.buffer_importer_shell_missing_buffer_importer
    &&& !s.buffer_importer_shell_missing_texture_support
    &&& !s.buffer_importer_shell_buffer_imported
    &&& !s.buffer_importer_shell_texture_created
    &&& !s.buffer_importer_shell_renderer_called
    &&& !s.buffer_importer_shell_damage_submitted
    &&& !s.buffer_importer_shell_frame_callback_done_sent
    &&& !s.buffer_importer_shell_input_support
    &&& !s.buffer_importer_shell_core_mutation_invoked
    &&& s.texture_support_shell_readiness_invocations == 0
    &&& s.texture_support_shell_work_intents_observed == 0
    &&& s.texture_support_shell_observed_work_intents@.len() == 0
    &&& !s.texture_support_shell_available
    &&& !s.texture_support_shell_missing_buffer_importer_shell
    &&& !s.texture_support_shell_missing_texture_support
    &&& !s.texture_support_shell_buffer_imported
    &&& !s.texture_support_shell_texture_created
    &&& !s.texture_support_shell_renderer_called
    &&& !s.texture_support_shell_damage_submitted
    &&& !s.texture_support_shell_frame_callback_done_sent
    &&& !s.texture_support_shell_input_support
    &&& !s.texture_support_shell_core_mutation_invoked
    &&& s.render_operation_readiness_invocations == 0
    &&& s.render_operation_intents_created == 0
    &&& s.render_operation_intents@.len() == 0
    &&& !s.render_operation_buffer_imported
    &&& !s.render_operation_texture_created
    &&& !s.render_operation_renderer_called
    &&& !s.render_operation_damage_submitted
    &&& !s.render_operation_frame_callback_done_sent
    &&& !s.render_operation_input_support
    &&& !s.render_operation_core_mutation_invoked
    &&& s.render_operation_queue_drain_invocations == 0
    &&& s.render_operation_intents_enqueued == 0
    &&& s.render_operation_intents_drained == 0
    &&& s.render_operation_queue_drained_intents@.len() == 0
    &&& !s.render_operation_queue_buffer_imported
    &&& !s.render_operation_queue_texture_created
    &&& !s.render_operation_queue_renderer_called
    &&& !s.render_operation_queue_damage_submitted
    &&& !s.render_operation_queue_frame_callback_done_sent
    &&& !s.render_operation_queue_input_support
    &&& !s.render_operation_queue_core_mutation_invoked
    &&& !s.buffer_attached
    &&& !s.damage_submitted
    &&& !s.frame_callback_requested
    &&& !s.render_invoked
    &&& !s.input_invoked
    &&& !s.core_mutation_invoked
}

/// `s` is the summary of what one renderer admission did. Every field of the other stages
/// is empty.
pub open spec fn renderer_admission_stage<D, W, O>(s: NestedRuntimeSurfaceCommitRunSummary<D, W, O>, report: RuntimeSurfaceCommitRendererAdmissionReport<W>) -> bool {
    &&& s.renderer_admission_invocations == (if report.renderer_admission_invoked { 1usize } else { 0usize })
    &&& s.renderer_work_intents_created == (if report.work_intent_created { 1usize } else { 0usize })
    &&& s.renderer_work_intents@ == match report.work_intent { Some(v) => seq![v], None => Seq::empty() }
    &&& s.renderer_admission_buffer_imported == report.buffer_imported
    &&& s.renderer_admission_texture_created == report.texture_created
    &&& s.renderer_admission_render_submitted == report.render_submitted
    &&& s.renderer_admission_damage_submitted == report.damage_submitted
    &&& s.renderer_admission_frame_callback_done_sent == report.frame_callback_done_sent
    &&& s.renderer_admission_input_support == report.input_support
    &&& s.renderer_admission_core_mutation_invoked == report.core_mutation_invoked
    &&& s.drain_invocations == 0
    &&& s.commit_observations_drained == 0
    &&& s.commit_observation_errors == 0
    &&& s.drained_commit_sequences@.len() == 0
    &&& s.buffer_attach_observations == 0
    &&& s.buffer_presence_observations == 0
    &&& s.buffer_removed_observations == 0
    &&& s.renderable_buffer_observations == 0
    &&& s.damage_observations == 0
    &&& s.surface_damage_rects == 0
    &&& s.buffer_damage_rects == 0
    &&& s.frame_callback_observations == 0
    &&& s.frame_callback_count == 0
    &&& s.render_dirty_readiness_intents@.len() == 0
    &&& s.render_dirty_queue_drain_invocations == 0
    &&& s.render_dirty_intents_enqueued == 0
    &&& s.render_dirty_intents_drained == 0
    &&& s.render_dirty_queue_drained_intents@.len() == 0
    &&& !s.render_dirty_queue_buffer_imported
    &&& !s.render_dirty_queue_texture_created
    &&& !s.render_dirty_queue_render_submitted
    &&& !s.render_dirty_queue_frame_callback_done_sent
    &&& !s.render_dirty_queue_input_support
    &&& s.renderer_owner_boundary_invocations == 0
    &&& s.renderer_owner_work_intents_consumed == 0
    &&& s.renderer_owner_consumed_work_intents@.len() == 0
    &&& !s.renderer_owner_missing_renderer_owner
    &&& !s.renderer_owner_missing_buffer_importer
    &&& !s.renderer_owner_missing_texture_support
    &&& !s.renderer_owner_buffer_imported
    &&& !s.renderer_owner_texture_created
    &&& !s.renderer_owner_renderer_called
    &&& !s.renderer_owner_damage_submitted
    &&& !s.renderer_owner_frame_callback_done_sent
    &&& !s.renderer_owner_input_support
    &&& !s.renderer_owner_core_mutation_invoked
    &&& s.renderer_owner_shell_readiness_invocations == 0
    &&& s.renderer_owner_shell_work_intents_observed == 0
    &&& s.renderer_owner_shell_observed_work_intents@.len() == 0
    &&& !s.renderer_owner_shell_available
    &&& !s.renderer_owner_shell_missing_renderer_owner
    &&& !s.renderer_owner_shell_missing_buffer_importer
    &&& !s.renderer_owner_shell_missing_texture_support
    &&& !s.renderer_owner_shell_buffer_imported
    &&& !s.renderer_owner_shell_texture_created
    &&& !s.renderer_owner_shell_renderer_called
    &&& !s.renderer_owner_shell_damage_submitted
    &&& !s.renderer_owner_shell_frame_callback_done_sent
    &&& !s.renderer_owner_shell_input_support
    &&& !s.renderer_owner_shell_core_mutation_invoked
    &&& s.buffer_importer_shell_readiness_invocations == 0
    &&& s.buffer_importer_shell_work_intents_observed == 0
    &&& s.buffer_importer_shell_observed_work_intents@.len() == 0
    &&& !s.buffer_importer_shell_available
    &&& !s.buffer_importer_shell_missing_renderer_owner_shell
    &&& !s.buffer_importer_shell_missing_buffer_importer
    &&& !s.buffer_importer_shell_missing_texture_support
    &&& !s.buffer_importer_shell_buffer_imported
    &&& !s.buffer_importer_shell_texture_created
    &&& !s.buffer_importer_shell_renderer_called
    &&& !s.buffer_importer_shell_damage_submitted
    &&& !s.buffer_importer_shell_frame_callback_done_sent
    &&& !s.buffer_importer_shell_input_support
    &&& !s.buffer_importer_shell_core_mutation_invoked
    &&& s.texture_support_shell_readiness_invocations == 0
    &&& s.texture_support_shell_work_intents_observed == 0
    &&& s.texture_support_shell_observed_work_intents@.len() == 0
    &&& !s.texture_support_shell_available
    &&& !s.texture_support_shell_missing_buffer_importer_shell
    &&& !s.texture_support_shell_missing_texture_support
    &&& !s.texture_support_shell_buffer_imported
    &&& !s.texture_support_shell_texture_created
    &&& !s.texture_support_shell_renderer_called
    &&& !s.texture_support_shell_damage_submitted
    &&& !s.texture_support_shell_frame_callback_done_sent
    &&& !s.texture_support_shell_input_support
    &&& !s.texture_support_shell_core_mutation_invoked
    &&& s.render_operation_readiness_invocations == 0
    &&& s.render_operation_intents_created == 0
    &&& s.render_operation_intents@.len() == 0
    &&& !s.render_operation_buffer_imported
    &&& !s.render_operation_texture_created
    &&& !s.render_operation_renderer_called
    &&& !s.render_operation_damage_submitted
    &&& !s.render_operation_frame_callback_done_sent
    &&& !s.render_operation_input_support
    &&& !s.render_operation_core_mutation_invoked
    &&& s.render_operation_queue_drain_invocations == 0
    &&& s.render_operation_intents_enqueued == 0
    &&& s.render_operation_intents_drained == 0
    &&& s.render_operation_queue_drained_intents@.len() == 0
    &&& !s.render_operation_queue_buffer_imported
    &&& !s.render_operation_queue_texture_created
    &&& !s.render_operation_queue_renderer_called
    &&& !s.render_operation_queue_damage_submitted
    &&& !s.render_operation_queue_frame_callback_done_sent
    &&& !s.render_operation_queue_input_support
    &&& !s.render_operation_queue_core_mutation_invoked
    &&& !s.buffer_attached
    &&& !s.damage_submitted
    &&& !s.frame_callback_requested
    &&& !s.render_invoked
    &&& !s.input_invoked
    &&& !s.core_mutation_invoked
}

/// `s` is the summary of what one renderer owner boundary did; each `missing_*` flag says
/// whether its blocker is listed. Every field of the other stages is empty.
pub open spec fn renderer_owner_stage<D, W, O>(s: NestedRuntimeSurfaceCommitRunSummary<D, W, O>, report: RuntimeSurfaceCommitRendererOwnerBoundaryReport<W>) -> bool {
    &&& s.renderer_owner_boundary_invocations == (if report.consume_invoked { 1usize } else { 0usize })
    &&& s.renderer_owner_work_intents_consumed == (if report.work_intent_consumed { 1usize } else { 0usize })
    &&& s.renderer_owner_consumed_work_intents@ == match report.consumed_work_intent { Some(v) => seq![v], None => Seq::empty() }
    &&& s.renderer_owner_missing_renderer_owner == report.blockers@.contains(RuntimeSurfaceCommitRendererOwnerBoundaryBlocker::MissingRendererOwner)
    &&& s.renderer_owner_missing_buffer_importer == report.blockers@.contains(RuntimeSurfaceCommitRendererOwnerBoundaryBlocker::MissingBufferImporter)
    &&& s.renderer_owner_missing_texture_support == report.blockers@.contains(RuntimeSurfaceCommitRendererOwnerBoundaryBlocker::MissingTextureSupport)
    &&& s.renderer_owner_buffer_imported == report.buffer_imported
    &&& s.renderer_owner_texture_created == report.texture_created
    &&& s.renderer_owner_renderer_called == report.renderer_called
    &&& s.renderer_owner_damage_submitted == report.damage_submitted
    &&& s.renderer_owner_frame_callback_done_sent == report.frame_callback_done_sent
    &&& s.renderer_owner_input_support == report.input_support
    &&& s.renderer_owner_core_mutation_invoked == report.core_mutation_invoked
    &&& s.drain_invocations == 0
    &&& s.commit_observations_drained == 0
    &&& s.commit_observation_errors == 0
    &&& s.drained_commit_sequences@.len() == 0
    &&& s.buffer_attach_observations == 0
    &&& s.buffer_presence_observations == 0
    &&& s.buffer_removed_observations == 0
    &&& s.renderable_buffer_observations == 0
    &&& s.damage_observations == 0
    &&& s.surface_damage_rects == 0
    &&& s.buffer_damage_rects == 0
    &&& s.frame_callback_observations == 0
    &&& s.frame_callback_count == 0
    &&& s.render_dirty_readiness_intents@.len() == 0
    &&& s.render_dirty_queue_drain_invocations == 0
    &&& s.render_dirty_intents_enqueued == 0
    &&& s.render_dirty_intents_drained == 0
    &&& s.render_dirty_queue_drained_intents@.len() == 0
    &&& !s.render_dirty_queue_buffer_imported
    &&& !s.render_dirty_queue_texture_created
    &&& !s.render_dirty_queue_render_submitted
    &&& !s.render_dirty_queue_frame_callback_done_sent
    &&& !s.render_dirty_queue_input_support
    &&& s.renderer_admission_invocations == 0
    &&& s.renderer_work_intents_created == 0
    &&& s.renderer_work_intents@.len() == 0
    &&& !s.renderer_admission_buffer_imported
    &&& !s.renderer_admission_texture_created
    &&& !s.renderer_admission_render_submitted
    &&& !s.renderer_admission_damage_submitted
    &&& !s.renderer_admission_frame_callback_done_sent
    &&& !s.renderer_admission_input_support
    &&& !s.renderer_admission_core_mutation_invoked
    &&& s.renderer_owner_shell_readiness_invocations == 0
    &&& s.renderer_owner_shell_work_intents_observed == 0
    &&& s.renderer_owner_shell_observed_work_intents@.len() == 0
    &&& !s.renderer_owner_shell_available
    &&& !s.renderer_owner_shell_missing_renderer_owner
    &&& !s.renderer_owner_shell_missing_buffer_importer
    &&& !s.renderer_owner_shell_missing_texture_support
    &&& !s.renderer_owner_shell_buffer_imported
    &&& !s.renderer_owner_shell_texture_created
    &&& !s.renderer_owner_shell_renderer_called
    &&& !s.renderer_owner_shell_damage_submitted
    &&& !s.renderer_owner_shell_frame_callback_done_sent
    &&& !s.renderer_owner_shell_input_support
    &&& !s.renderer_owner_shell_core_mutation_invoked
    &&& s.buffer_importer_shell_readiness_invocations == 0
    &&& s.buffer_importer_shell_work_intents_observed == 0
    &&& s.buffer_importer_shell_observed_work_intents@.len() == 0
    &&& !s.buffer_importer_shell_available
    &&& !s.buffer_importer_shell_missing_renderer_owner_shell
    &&& !s.buffer_importer_shell_missing_buffer_importer
    &&& !s.buffer_importer_shell_missing_texture_support
    &&& !s.buffer_importer_shell_buffer_imported
    &&& !s.buffer_importer_shell_texture_created
    &&& !s.buffer_importer_shell_renderer_called
    &&& !s.buffer_importer_shell_damage_submitted
    &&& !s.buffer_importer_shell_frame_callback_done_sent
    &&& !s.buffer_importer_shell_input_support
    &&& !s.buffer_importer_shell_core_mutation_invoked
    &&& s.texture_support_shell_readiness_invocations == 0
    &&& s.texture_support_shell_work_intents_observed == 0
    &&& s.texture_support_shell_observed_work_intents@.len() == 0
    &&& !s.texture_support_shell_available
    &&& !s.texture_support_shell_missing_buffer_importer_shell
    &&& !s.texture_support_shell_missing_texture_support
    &&& !s.texture_support_shell_buffer_imported
    &&& !s.texture_support_shell_texture_created
    &&& !s.texture_support_shell_renderer_called
    &&& !s.texture_support_shell_damage_submitted
    &&& !s.texture_support_shell_frame_callback_done_sent
    &&& !s.texture_support_shell_input_support
    &&& !s.texture_support_shell_core_mutation_invoked
    &&& s.render_operation_readiness_invocations == 0
    &&& s.render_operation_intents_created == 0
    &&& s.render_operation_intents@.len() == 0
    &&& !s.render_operation_buffer_imported
    &&& !s.render_operation_texture_created
    &&& !s.render_operation_renderer_called
    &&& !s.render_operation_damage_submitted
    &&& !s.render_operation_frame_callback_done_sent
    &&& !s.render_operation_input_support
    &&& !s.render_operation_core_mutation_invoked
    &&& s.render_operation_queue_drain_invocations == 0
    &&& s.render_operation_intents_enqueued == 0
    &&& s.render_operation_intents_drained == 0
    &&& s.render_operation_queue_drained_intents@.len() == 0
    &&& !s.render_operation_queue_buffer_imported
    &&& !s.render_operation_queue_texture_created
    &&& !s.render_operation_queue_renderer_called
    &&& !s.render_operation_queue_damage_submitted
    &&& !s.render_operation_queue_frame_callback_done_sent
    &&& !s.render_operation_queue_input_support
    &&& !s.render_operation_queue_core_mutation_invoked
    &&& !s.buffer_attached
    &&& !s.damage_submitted
    &&& !s.frame_callback_requested
    &&& !s.render_invoked
    &&& !s.input_invoked
    &&& !s.core_mutation_invoked
}

/// `s` is the summary of what one renderer owner shell readiness check saw; each
/// `missing_*` flag says whether its blocker is listed. Every field of the other stages
/// is empty.
pub open spec fn renderer_owner_shell_stage<D, W, O>(s: NestedRuntimeSurfaceCommitRunSummary<D, W, O>, report: RuntimeSurfaceCommitRendererOwnerShellReadinessReport<W>) -> bool {
    &&& s.renderer_owner_shell_readiness_invocations == (if report.readiness_invoked { 1usize } else { 0usize })
    &&& s.renderer_owner_shell_work_intents_observed == (if report.observed_work_intent is Some { 1usize } else { 0usize })
    &&& s.renderer_owner_shell_observed_work_intents@ == match report.observed_work_intent { Some(v) => seq![v], None => Seq::empty() }
    &&& s.renderer_owner_shell_available == report.renderer_owner_shell_available
    &&& s.renderer_owner_shell_missing_renderer_owner == report.blockers@.contains(RuntimeSurfaceCommitRendererOwnerShellBlocker::MissingRendererOwner)
    &&& s.renderer_owner_shell_missing_buffer_importer == report.blockers@.contains(RuntimeSurfaceCommitRendererOwnerShellBlocker::MissingBufferImporter)
    &&& s.renderer_owner_shell_missing_texture_support == report.blockers@.contains(RuntimeSurfaceCommitRendererOwnerShellBlocker::MissingTextureSupport)
    &&& s.renderer_owner_shell_buffer_imported == report.buffer_imported
    &&& s.renderer_owner_shell_texture_created == report.texture_created
    &&& s.renderer_owner_shell_renderer_called == report.renderer_called
    &&& s.renderer_owner_shell_damage_submitted == report.damage_submitted
    &&& s.renderer_owner_shell_frame_callback_done_sent == report.frame_callback_done_sent
    &&& s.renderer_owner_shell_input_support == report.input_support
    &&& s.renderer_owner_shell_core_mutation_invoked == report.core_mutation_invoked
    &&& s.drain_invocations == 0
    &&& s.commit_observations_drained == 0
    &&& s.commit_observation_errors == 0
    &&& s.drained_commit_sequences@.len() == 0
    &&& s.buffer_attach_observations == 0
    &&& s.buffer_presence_observations == 0
    &&& s.buffer_removed_observations == 0
    &&& s.renderable_buffer_observations == 0
    &&& s.damage_observations == 0
    &&& s.surface_damage_rects == 0
    &&& s.buffer_damage_rects == 0
    &&& s.frame_callback_observations == 0
    &&& s.frame_callback_count == 0
    &&& s.render_dirty_readiness_intents@.len() == 0
    &&& s.render_dirty_queue_drain_invocations == 0
    &&& s.render_dirty_intents_enqueued == 0
    &&& s.render_dirty_intents_drained == 0
    &&& s.render_dirty_queue_drained_intents@.len() == 0
    &&& !s.render_dirty_queue_buffer_imported
    &&& !s.render_dirty_queue_texture_created
    &&& !s.render_dirty_queue_render_submitted
    &&& !s.render_dirty_queue_frame_callback_done_sent
    &&& !s.render_dirty_queue_input_support
    &&& s.renderer_admission_invocations == 0
    &&& s.renderer_work_intents_created == 0
    &&& s.renderer_work_intents@.len() == 0
    &&& !s.renderer_admission_buffer_imported
    &&& !s.renderer_admission_texture_created
    &&& !s.renderer_admission_render_submitted
    &&& !s.renderer_admission_damage_submitted
    &&& !s.renderer_admission_frame_callback_done_sent
    &&& !s.renderer_admission_input_support
    &&& !s.renderer_admission_core_mutation_invoked
    &&& s.renderer_owner_boundary_invocations == 0
    &&& s.renderer_owner_work_intents_consumed == 0
    &&& s.renderer_owner_consumed_work_intents@.len() == 0
    &&& !s.renderer_owner_missing_renderer_owner
    &&& !s.renderer_owner_missing_buffer_importer
    &&& !s.renderer_owner_missing_texture_support
    &&& !s.renderer_owner_buffer_imported
    &&& !s.renderer_owner_texture_created
    &&& !s.renderer_owner_renderer_called
    &&& !s.renderer_owner_damage_submitted
    &&& !s.renderer_owner_frame_callback_done_sent
    &&& !s.renderer_owner_input_support
    &&& !s.renderer_owner_core_mutation_invoked
    &&& s.buffer_importer_shell_readiness_invocations == 0
    &&& s.buffer_importer_shell_work_intents_observed == 0
    &&& s.buffer_importer_shell_observed_work_intents@.len() == 0
    &&& !s.buffer_importer_shell_available
    &&& !s.buffer_importer_shell_missing_renderer_owner_shell
    &&& !s.buffer_importer_shell_missing_buffer_importer
    &&& !s.buffer_importer_shell_missing_texture_support
    &&& !s.buffer_importer_shell_buffer_imported
    &&& !s.buffer_importer_shell_texture_created
    &&& !s.buffer_importer_shell_renderer_called
    &&& !s.buffer_importer_shell_damage_submitted
    &&& !s.buffer_importer_shell_frame_callback_done_sent
    &&& !s.buffer_importer_shell_input_support
    &&& !s.buffer_importer_shell_core_mutation_invoked
    &&& s.texture_support_shell_readiness_invocations == 0
    &&& s.texture_support_shell_work_intents_observed == 0
    &&& s.texture_support_shell_observed_work_intents@.len() == 0
    &&& !s.texture_support_shell_available
    &&& !s.texture_support_shell_missing_buffer_importer_shell
    &&& !s.texture_support_shell_missing_texture_support
    &&& !s.texture_support_shell_buffer_imported
    &&& !s.texture_support_shell_texture_created
    &&& !s.texture_support_shell_renderer_called
    &&& !s.texture_support_shell_damage_submitted
    &&& !s.texture_support_shell_frame_callback_done_sent
    &&& !s.texture_support_shell_input_support
    &&& !s.texture_support_shell_core_mutation_invoked
    &&& s.render_operation_readiness_invocations == 0
    &&& s.render_operation_intents_created == 0
    &&& s.render_operation_intents@.len() == 0
    &&& !s.render_operation_buffer_imported
    &&& !s.render_operation_texture_created
    &&& !s.render_operation_renderer_called
    &&& !s.render_operation_damage_submitted
    &&& !s.render_operation_frame_callback_done_sent
    &&& !s.render_operation_input_support
    &&& !s.render_operation_core_mutation_invoked
    &&& s.render_operation_queue_drain_invocations == 0
    &&& s.render_operation_intents_enqueued == 0
    &&& s.render_operation_intents_drained == 0
    &&& s.render_operation_queue_drained_intents@.len() == 0
    &&& !s.render_operation_queue_buffer_imported
    &&& !s.render_operation_queue_texture_created
    &&& !s.render_operation_queue_renderer_called
    &&& !s.render_operation_queue_damage_submitted
    &&& !s.render_operation_queue_frame_callback_done_sent
    &&& !s.render_operation_queue_input_support
    &&& !s.render_operation_queue_core_mutation_invoked
    &&& !s.buffer_attached
    &&& !s.damage_submitted
    &&& !s.frame_callback_requested
    &&& !s.render_invoked
    &&& !s.input_invoked
    &&& !s.core_mutation_invoked
}

/// `s` is the summary of what one buffer importer shell readiness check saw; each
/// `missing_*` flag says whether its blocker is listed. Every field of the other stages
/// is empty.
pub open spec fn buffer_importer_shell_stage<D, W, O>(s: NestedRuntimeSurfaceCommitRunSummary<D, W, O>, report: RuntimeSurfaceCommitBufferImporterShellReadinessReport<W>) -> bool {
    &&& s.buffer_importer_shell_readiness_invocations == (if report.readiness_invoked { 1usize } else { 0usize })
    &&& s.buffer_importer_shell_work_intents_observed == (if report.observed_work_intent is Some { 1usize } else { 0usize })
    &&& s.buffer_importer_shell_observed_work_intents@ == match report.observed_work_intent { Some(v) => seq![v], None => Seq::empty() }
    &&& s.buffer_importer_shell_available == report.buffer_importer_shell_available
    &&& s.buffer_importer_shell_missing_renderer_owner_shell == report.blockers@.contains(RuntimeSurfaceCommitBufferImporterShellBlocker::MissingRendererOwnerShell)
    &&& s.buffer_importer_shell_missing_buffer_importer == report.blockers@.contains(RuntimeSurfaceCommitBufferImporterShellBlocker::MissingBufferImporter)
    &&& s.buffer_importer_shell_missing_texture_support == report.blockers@.contains(RuntimeSurfaceCommitBufferImporterShellBlocker::MissingTextureSupport)
    &&& s.buffer_importer_shell_buffer_imported == report.buffer_imported
    &&& s.buffer_importer_shell_texture_created == report.texture_created
    &&& s.buffer_importer_shell_renderer_called == report.renderer_called
    &&& s.buffer_importer_shell_damage_submitted == report.damage_submitted
    &&& s.buffer_importer_shell_frame_callback_done_sent == report.frame_callback_done_sent
    &&& s.buffer_importer_shell_input_support == report.input_support
    &&& s.buffer_importer_shell_core_mutation_invoked == report.core_mutation_invoked
    &&& s.drain_invocations == 0
    &&& s.commit_observations_drained == 0
    &&& s.commit_observation_errors == 0
    &&& s.drained_commit_sequences@.len() == 0
    &&& s.buffer_attach_observations == 0
    &&& s.buffer_presence_observations == 0
    &&& s.buffer_removed_observations == 0
    &&& s.renderable_buffer_observations == 0
    &&& s.damage_observations == 0
    &&& s.surface_damage_rects == 0
    &&& s.buffer_damage_rects == 0
    &&& s.frame_callback_observations == 0
    &&& s.frame_callback_count == 0
    &&& s.render_dirty_readiness_intents@.len() == 0
    &&& s.render_dirty_queue_drain_invocations == 0
    &&& s.render_dirty_intents_enqueued == 0
    &&& s.render_dirty_intents_drained == 0
    &&& s.render_dirty_queue_drained_intents@.len() == 0
    &&& !s.render_dirty_queue_buffer_imported
    &&& !s.render_dirty_queue_texture_created
    &&& !s.render_dirty_queue_render_submitted
    &&& !s.render_dirty_queue_frame_callback_done_sent
    &&& !s.render_dirty_queue_input_support
    &&& s.renderer_admission_invocations == 0
    &&& s.renderer_work_intents_created == 0
    &&& s.renderer_work_intents@.len() == 0
    &&& !s.renderer_admission_buffer_imported
    &&& !s.renderer_admission_texture_created
    &&& !s.renderer_admission_render_submitted
    &&& !s.renderer_admission_damage_submitted
    &&& !s.renderer_admission_frame_callback_done_sent
    &&& !s.renderer_admission_input_support
    &&& !s.renderer_admission_core_mutation_invoked
    &&& s.renderer_owner_boundary_invocations == 0
    &&& s.renderer_owner_work_intents_consumed == 0
    &&& s.renderer_owner_consumed_work_intents@.len() == 0
    &&& !s.renderer_owner_missing_renderer_owner
    &&& !s.renderer_owner_missing_buffer_importer
    &&& !s.renderer_owner_missing_texture_support
    &&& !s.renderer_owner_buffer_imported
    &&& !s.renderer_owner_texture_created
    &&& !s.renderer_owner_renderer_called
    &&& !s.renderer_owner_damage_submitted
    &&& !s.renderer_owner_frame_callback_done_sent
    &&& !s.renderer_owner_input_support
    &&& !s.renderer_owner_core_mutation_invoked
    &&& s.renderer_owner_shell_readiness_invocations == 0
    &&& s.renderer_owner_shell_work_intents_observed == 0
    &&& s.renderer_owner_shell_observed_work_intents@.len() == 0
    &&& !s.renderer_owner_shell_available
    &&& !s.renderer_owner_shell_missing_renderer_owner
    &&& !s.renderer_owner_shell_missing_buffer_importer
    &&& !s.renderer_owner_shell_missing_texture_support
    &&& !s.renderer_owner_shell_buffer_imported
    &&& !s.renderer_owner_shell_texture_created
    &&& !s.renderer_owner_shell_renderer_called
    &&& !s.renderer_owner_shell_damage_submitted
    &&& !s.renderer_owner_shell_frame_callback_done_sent
    &&& !s.renderer_owner_shell_input_support
    &&& !s.renderer_owner_shell_core_mutation_invoked
    &&& s.texture_support_shell_readiness_invocations == 0
    &&& s.texture_support_shell_work_intents_observed == 0
    &&& s.texture_support_shell_observed_work_intents@.len() == 0
    &&& !s.texture_support_shell_available
    &&& !s.texture_support_shell_missing_buffer_importer_shell
    &&& !s.texture_support_shell_missing_texture_support
    &&& !s.texture_support_shell_buffer_imported
    &&& !s.texture_support_shell_texture_created
    &&& !s.texture_support_shell_renderer_called
    &&& !s.texture_support_shell_damage_submitted
    &&& !s.texture_support_shell_frame_callback_done_sent
    &&& !s.texture_support_shell_input_support
    &&& !s.texture_support_shell_core_mutation_invoked
    &&& s.render_operation_readiness_invocations == 0
    &&& s.render_operation_intents_created == 0
    &&& s.render_operation_intents@.len() == 0
    &&& !s.render_operation_buffer_imported
    &&& !s.render_operation_texture_created
    &&& !s.render_operation_renderer_called
    &&& !s.render_operation_damage_submitted
    &&& !s.render_operation_frame_callback_done_sent
    &&& !s.render_operation_input_support
    &&& !s.render_operation_core_mutation_invoked
    &&& s.render_operation_queue_drain_invocations == 0
    &&& s.render_operation_intents_enqueued == 0
    &&& s.render_operation_intents_drained == 0
    &&& s.render_operation_queue_drained_intents@.len() == 0
    &&& !s.render_operation_queue_buffer_imported
    &&& !s.render_operation_queue_texture_created
    &&& !s.render_operation_queue_renderer_called
    &&& !s.render_operation_queue_damage_submitted
    &&& !s.render_operation_queue_frame_callback_done_sent
    &&& !s.render_operation_queue_input_support
    &&& !s.render_operation_queue_core_mutation_invoked
    &&& !s.buffer_attached
    &&& !s.damage_submitted
    &&& !s.frame_callback_requested
    &&& !s.render_invoked
    &&& !s.input_invoked
    &&& !s.core_mutation_invoked
}

/// `s` is the summary of what one texture support shell readiness check saw; each
/// `missing_*` flag says whether its blocker is listed. Every field of the other stages
/// is empty.
pub open spec fn texture_support_shell_stage<D, W, O>(s: NestedRuntimeSurfaceCommitRunSummary<D, W, O>, report: RuntimeSurfaceCommitTextureSupportShellReadinessReport<W>) -> bool {
    &&& s.texture_support_shell_readiness_invocations == (if report.readiness_invoked { 1usize } else { 0usize })
    &&& s.texture_support_shell_work_intents_observed == (if report.observed_work_intent is Some { 1usize } else { 0usize })
    &&& s.texture_support_shell_observed_work_intents@ == match report.observed_work_intent { Some(v) => seq![v], None => Seq::empty() }
    &&& s.texture_support_shell_available == report.texture_support_shell_available
    &&& s.texture_support_shell_missing_buffer_importer_shell == report.blockers@.contains(RuntimeSurfaceCommitTextureSupportShellBlocker::MissingBufferImporterShell)
    &&& s.texture_support_shell_missing_texture_support == report.blockers@.contains(RuntimeSurfaceCommitTextureSupportShellBlocker::MissingTextureSupport)
    &&& s.texture_support_shell_buffer_imported == report.buffer_imported
    &&& s.texture_support_shell_texture_created == report.texture_created
    &&& s.texture_support_shell_renderer_called == report.renderer_called
    &&& s.texture_support_shell_damage_submitted == report.damage_submitted
    &&& s.texture_support_shell_frame_callback_done_sent == report.frame_callback_done_sent
    &&& s.texture_support_shell_input_support == report.input_support
    &&& s.texture_support_shell_core_mutation_invoked == report.core_mutation_invoked
    &&& s.drain_invocations == 0
    &&& s.commit_observations_drained == 0
    &&& s.commit_observation_errors == 0
    &&& s.drained_commit_sequences@.len() == 0
    &&& s.buffer_attach_observations == 0
    &&& s.buffer_presence_observations == 0
    &&& s.buffer_removed_observations == 0
    &&& s.renderable_buffer_observations == 0
    &&& s.damage_observations == 0
    &&& s.surface_damage_rects == 0
    &&& s.buffer_damage_rects == 0
    &&& s.frame_callback_observations == 0
    &&& s.frame_callback_count == 0
    &&& s.render_dirty_readiness_intents@.len() == 0
    &&& s.render_dirty_queue_drain_invocations == 0
    &&& s.render_dirty_intents_enqueued == 0
    &&& s.render_dirty_intents_drained == 0
    &&& s.render_dirty_queue_drained_intents@.len() == 0
    &&& !s.render_dirty_queue_buffer_imported
    &&& !s.render_dirty_queue_texture_created
    &&& !s.render_dirty_queue_render_submitted
    &&& !s.render_dirty_queue_frame_callback_done_sent
    &&& !s.render_dirty_queue_input_support
    &&& s.renderer_admission_invocations == 0
    &&& s.renderer_work_intents_created == 0
    &&& s.renderer_work_intents@.len() == 0
    &&& !s.renderer_admission_buffer_imported
    &&& !s.renderer_admission_texture_created
    &&& !s.renderer_admission_render_submitted
    &&& !s.renderer_admission_damage_submitted
    &&& !s.renderer_admission_frame_callback_done_sent
    &&& !s.renderer_admission_input_support
    &&& !s.renderer_admission_core_mutation_invoked
    &&& s.renderer_owner_boundary_invocations == 0
    &&& s.renderer_owner_work_intents_consumed == 0
    &&& s.renderer_owner_consumed_work_intents@.len() == 0
    &&& !s.renderer_owner_missing_renderer_owner
    &&& !s.renderer_owner_missing_buffer_importer
    &&& !s.renderer_owner_missing_texture_support
    &&& !s.renderer_owner_buffer_imported
    &&& !s.renderer_owner_texture_created
    &&& !s.renderer_owner_renderer_called
    &&& !s.renderer_owner_damage_submitted
    &&& !s.renderer_owner_frame_callback_done_sent
    &&& !s.renderer_owner_input_support
    &&& !s.renderer_owner_core_mutation_invoked
    &&& s.renderer_owner_shell_readiness_invocations == 0
    &&& s.renderer_owner_shell_work_intents_observed == 0
    &&& s.renderer_owner_shell_observed_work_intents@.len() == 0
    &&& !s.renderer_owner_shell_available
    &&& !s.renderer_owner_shell_missing_renderer_owner
    &&& !s.renderer_owner_shell_missing_buffer_importer
    &&& !s.renderer_owner_shell_missing_texture_support
    &&& !s.renderer_owner_shell_buffer_imported
    &&& !s.renderer_owner_shell_texture_created
    &&& !s.renderer_owner_shell_renderer_called
    &&& !s.renderer_owner_shell_damage_submitted
    &&& !s.renderer_owner_shell_frame_callback_done_sent
    &&& !s.renderer_owner_shell_input_support
    &&& !s.renderer_owner_shell_core_mutation_invoked
    &&& s.buffer_importer_shell_readiness_invocations == 0
    &&& s.buffer_importer_shell_work_intents_observed == 0
    &&& s.buffer_importer_shell_observed_work_intents@.len() == 0
    &&& !s.buffer_importer_shell_available
    &&& !s.buffer_importer_shell_missing_renderer_owner_shell
    &&& !s.buffer_importer_shell_missing_buffer_importer
    &&& !s.buffer_importer_shell_missing_texture_support
    &&& !s.buffer_importer_shell_buffer_imported
    &&& !s.buffer_importer_shell_texture_created
    &&& !s.buffer_importer_shell_renderer_called
    &&& !s.buffer_importer_shell_damage_submitted
    &&& !s.buffer_importer_shell_frame_callback_done_sent
    &&& !s.buffer_importer_shell_input_support
    &&& !s.buffer_importer_shell_core_mutation_invoked
    &&& s.render_operation_readiness_invocations == 0
    &&& s.render_operation_intents_created == 0
    &&& s.render_operation_intents@.len() == 0
    &&& !s.render_operation_buffer_imported
    &&& !s.render_operation_texture_created
    &&& !s.render_operation_renderer_called
    &&& !s.render_operation_damage_submitted
    &&& !s.render_operation_frame_callback_done_sent
    &&& !s.render_operation_input_support
    &&& !s.render_operation_core_mutation_invoked
    &&& s.render_operation_queue_drain_invocations == 0
    &&& s.render_operation_intents_enqueued == 0
    &&& s.render_operation_intents_drained == 0
    &&& s.render_operation_queue_drained_intents@.len() == 0
    &&& !s.render_operation_queue_buffer_imported
    &&& !s.render_operation_queue_texture_created
    &&& !s.render_operation_queue_renderer_called
    &&& !s.render_operation_queue_damage_submitted
    &&& !s.render_operation_queue_frame_callback_done_sent
    &&& !s.render_operation_queue_input_support
    &&& !s.render_operation_queue_core_mutation_invoked
    &&& !s.buffer_attached
    &&& !s.damage_submitted
    &&& !s.frame_callback_requested
    &&& !s.render_invoked
    &&& !s.input_invoked
    &&& !s.core_mutation_invoked
}

/// `s` is the summary of what one render operation readiness check did. Every field of
/// the other stages is empty.
pub open spec fn render_operation_stage<D, W, O>(s: NestedRuntimeSurfaceCommitRunSummary<D, W, O>, report: RuntimeSurfaceCommitRenderOperationReadinessReport<O>) -> bool {
    &&& s.render_operation_readiness_invocations == (if report.readiness_invoked { 1usize } else { 0usize })
    &&& s.render_operation_intents_created == (if report.render_operation_intent_created { 1usize } else { 0usize })
    &&& s.render_operation_intents@ == match report.render_operation_intent { Some(v) => seq![v], None => Seq::empty() }
    &&& s.render_operation_buffer_imported == report.buffer_imported
    &&& s.render_operation_texture_created == report.texture_created
    &&& s.render_operation_renderer_called == report.renderer_called
    &&& s.render_operation_damage_submitted == report.damage_submitted
    &&& s.render_operation_frame_callback_done_sent == report.frame_callback_done_sent
    &&& s.render_operation_input_support == report.input_support
    &&& s.render_operation_core_mutation_invoked == report.core_mutation_invoked
    &&& s.drain_invocations == 0
    &&& s.commit_observations_drained == 0
    &&& s.commit_observation_errors == 0
    &&& s.drained_commit_sequences@.len() == 0
    &&& s.buffer_attach_observations == 0
    &&& s.buffer_presence_observations == 0
    &&& s.buffer_removed_observations == 0
    &&& s.renderable_buffer_observations == 0
    &&& s.damage_observations == 0
    &&& s.surface_damage_rects == 0
    &&& s.buffer_damage_rects == 0
    &&& s.frame_callback_observations == 0
    &&& s.frame_callback_count == 0
    &&& s.render_dirty_readiness_intents@.len() == 0
    &&& s.render_dirty_queue_drain_invocations == 0
    &&& s.render_dirty_intents_enqueued == 0
    &&& s.render_dirty_intents_drained == 0
    &&& s.render_dirty_queue_drained_intents@.len() == 0
    &&& !s.render_dirty_queue_buffer_imported
    &&& !s.render_dirty_queue_texture_created
    &&& !s.render_dirty_queue_render_submitted
    &&& !s.render_dirty_queue_frame_callback_done_sent
    &&& !s.render_dirty_queue_input_support
    &&& s.renderer_admission_invocations == 0
    &&& s.renderer_work_intents_created == 0
    &&& s.renderer_work_intents@.len() == 0
    &&& !s.renderer_admission_buffer_imported
    &&& !s.renderer_admission_texture_created
    &&& !s.renderer_admission_render_submitted
    &&& !s.renderer_admission_damage_submitted
    &&& !s.renderer_admission_frame_callback_done_sent
    &&& !s.renderer_admission_input_support
    &&& !s.renderer_admission_core_mutation_invoked
    &&& s.renderer_owner_boundary_invocations == 0
    &&& s.renderer_owner_work_intents_consumed == 0
    &&& s.renderer_owner_consumed_work_intents@.len() == 0
    &&& !s.renderer_owner_missing_renderer_owner
    &&& !s.renderer_owner_missing_buffer_importer
    &&& !s.renderer_owner_missing_texture_support
    &&& !s.renderer_owner_buffer_imported
    &&& !s.renderer_owner_texture_created
    &&& !s.renderer_owner_renderer_called
    &&& !s.renderer_owner_damage_submitted
    &&& !s.renderer_owner_frame_callback_done_sent
    &&& !s.renderer_owner_input_support
    &&& !s.renderer_owner_core_mutation_invoked
    &&& s.renderer_owner_shell_readiness_invocations == 0
    &&& s.renderer_owner_shell_work_intents_observed == 0
    &&& s.renderer_owner_shell_observed_work_intents@.len() == 0
    &&& !s.renderer_owner_shell_available
    &&& !s.renderer_owner_shell_missing_renderer_owner
    &&& !s.renderer_owner_shell_missing_buffer_importer
    &&& !s.renderer_owner_shell_missing_texture_support
    &&& !s.renderer_owner_shell_buffer_imported
    &&& !s.renderer_owner_shell_texture_created
    &&& !s.renderer_owner_shell_renderer_called
    &&& !s.renderer_owner_shell_damage_submitted
    &&& !s.renderer_owner_shell_frame_callback_done_sent
    &&& !s.renderer_owner_shell_input_support
    &&& !s.renderer_owner_shell_core_mutation_invoked
    &&& s.buffer_importer_shell_readiness_invocations == 0
    &&& s.buffer_importer_shell_work_intents_observed == 0
    &&& s.buffer_importer_shell_observed_work_intents@.len() == 0
    &&& !s.buffer_importer_shell_available
    &&& !s.buffer_importer_shell_missing_renderer_owner_shell
    &&& !s.buffer_importer_shell_missing_buffer_importer
    &&& !s.buffer_importer_shell_missing_texture_support
    &&& !s.buffer_importer_shell_buffer_imported
    &&& !s.buffer_importer_shell_texture_created
    &&& !s.buffer_importer_shell_renderer_called
    &&& !s.buffer_importer_shell_damage_submitted
    &&& !s.buffer_importer_shell_frame_callback_done_sent
    &&& !s.buffer_importer_shell_input_support
    &&& !s.buffer_importer_shell_core_mutation_invoked
    &&& s.texture_support_shell_readiness_invocations == 0
    &&& s.texture_support_shell_work_intents_observed == 0
    &&& s.texture_support_shell_observed_work_intents@.len() == 0
    &&& !s.texture_support_shell_available
    &&& !s.texture_support_shell_missing_buffer_importer_shell
    &&& !s.texture_support_shell_missing_texture_support
    &&& !s.texture_support_shell_buffer_imported
    &&& !s.texture_support_shell_texture_created
    &&& !s.texture_support_shell_renderer_called
    &&& !s.texture_support_shell_damage_submitted
    &&& !s.texture_support_shell_frame_callback_done_sent
    &&& !s.texture_support_shell_input_support
    &&& !s.texture_support_shell_core_mutation_invoked
    &&& s.render_operation_queue_drain_invocations == 0
    &&& s.render_operation_intents_enqueued == 0
    &&& s.render_operation_intents_drained == 0
    &&& s.render_operation_queue_drained_intents@.len() == 0
    &&& !s.render_operation_queue_buffer_imported
    &&& !s.render_operation_queue_texture_created
    &&& !s.render_operation_queue_renderer_called
    &&& !s.render_operation_queue_damage_submitted
    &&& !s.render_operation_queue_frame_callback_done_sent
    &&& !s.render_operation_queue_input_support
    &&& !s.render_operation_queue_core_mutation_invoked
    &&& !s.buffer_attached
    &&& !s.damage_submitted
    &&& !s.frame_callback_requested
    &&& !s.render_invoked
    &&& !s.input_invoked
    &&& !s.core_mutation_invoked
}

/// `s` is the summary of what one render operation intent queue drain did. Every field of
/// the other stages is empty.
pub open spec fn render_operation_queue_stage<D, W, O>(s: NestedRuntimeSurfaceCommitRunSummary<D, W, O>, report: RuntimeSurfaceCommitRenderOperationIntentDrainReport<O>) -> bool {
    &&& s.render_operation_queue_drain_invocations == (if report.drain_invoked { 1usize } else { 0usize })
    &&& s.render_operation_intents_enqueued == (if report.intent_enqueued { 1usize } else { 0usize })
    &&& s.render_operation_intents_drained == (if report.intent_drained { 1usize } else { 0usize })
    &&& s.render_operation_queue_drained_intents@ == match report.drained_intent { Some(v) => seq![v], None => Seq::empty() }
    &&& s.render_operation_queue_buffer_imported == report.buffer_imported
    &&& s.render_operation_queue_texture_created == report.texture_created
    &&& s.render_operation_queue_renderer_called == report.renderer_called
    &&& s.render_operation_queue_damage_submitted == report.damage_submitted
    &&& s.render_operation_queue_frame_callback_done_sent == report.frame_callback_done_sent
    &&& s.render_operation_queue_input_support == report.input_support
    &&& s.render_operation_queue_core_mutation_invoked == report.core_mutation_invoked
    &&& s.drain_invocations == 0
    &&& s.commit_observations_drained == 0
    &&& s.commit_observation_errors == 0
    &&& s.drained_commit_sequences@.len() == 0
    &&& s.buffer_attach_observations == 0
    &&& s.buffer_presence_observations == 0
    &&& s.buffer_removed_observations == 0
    &&& s.renderable_buffer_observations == 0
    &&& s.damage_observations == 0
    &&& s.surface_damage_rects == 0
    &&& s.buffer_damage_rects == 0
    &&& s.frame_callback_observations == 0
    &&& s.frame_callback_count == 0
    &&& s.render_dirty_readiness_intents@.len() == 0
    &&& s.render_dirty_queue_drain_invocations == 0
    &&& s.render_dirty_intents_enqueued == 0
    &&& s.render_dirty_intents_drained == 0
    &&& s.render_dirty_queue_drained_intents@.len() == 0
    &&& !s.render_dirty_queue_buffer_imported
    &&& !s.render_dirty_queue_texture_created
    &&& !s.render_dirty_queue_render_submitted
    &&& !s.render_dirty_queue_frame_callback_done_sent
    &&& !s.render_dirty_queue_input_support
    &&& s.renderer_admission_invocations == 0
    &&& s.renderer_work_intents_created == 0
    &&& s.renderer_work_intents@.len() == 0
    &&& !s.renderer_admission_buffer_imported
    &&& !s.renderer_admission_texture_created
    &&& !s.renderer_admission_render_submitted
    &&& !s.renderer_admission_damage_submitted
    &&& !s.renderer_admission_frame_callback_done_sent
    &&& !s.renderer_admission_input_support
    &&& !s.renderer_admission_core_mutation_invoked
    &&& s.renderer_owner_boundary_invocations == 0
    &&& s.renderer_owner_work_intents_consumed == 0
    &&& s.renderer_owner_consumed_work_intents@.len() == 0
    &&& !s.renderer_owner_missing_renderer_owner
    &&& !s.renderer_owner_missing_buffer_importer
    &&& !s.renderer_owner_missing_texture_support
    &&& !s.renderer_owner_buffer_imported
    &&& !s.renderer_owner_texture_created
    &&& !s.renderer_owner_renderer_called
    &&& !s.renderer_owner_damage_submitted
    &&& !s.renderer_owner_frame_callback_done_sent
    &&& !s.renderer_owner_input_support
    &&& !s.renderer_owner_core_mutation_invoked
    &&& s.renderer_owner_shell_readiness_invocations == 0
    &&& s.renderer_owner_shell_work_intents_observed == 0
    &&& s.renderer_owner_shell_observed_work_intents@.len() == 0
    &&& !s.renderer_owner_shell_available
    &&& !s.renderer_owner_shell_missing_renderer_owner
    &&& !s.renderer_owner_shell_missing_buffer_importer
    &&& !s.renderer_owner_shell_missing_texture_support
    &&& !s.renderer_owner_shell_buffer_imported
    &&& !s.renderer_owner_shell_texture_created
    &&& !s.renderer_owner_shell_renderer_called
    &&& !s.renderer_owner_shell_damage_submitted
    &&& !s.renderer_owner_shell_frame_callback_done_sent
    &&& !s.renderer_owner_shell_input_support
    &&& !s.renderer_owner_shell_core_mutation_invoked
    &&& s.buffer_importer_shell_readiness_invocations == 0
    &&& s.buffer_importer_shell_work_intents_observed == 0
    &&& s.buffer_importer_shell_observed_work_intents@.len() == 0
    &&& !s.buffer_importer_shell_available
    &&& !s.buffer_importer_shell_missing_renderer_owner_shell
    &&& !s.buffer_importer_shell_missing_buffer_importer
    &&& !s.buffer_importer_shell_missing_texture_support
    &&& !s.buffer_importer_shell_buffer_imported
    &&& !s.buffer_importer_shell_texture_created
    &&& !s.buffer_importer_shell_renderer_called
    &&& !s.buffer_importer_shell_damage_submitted
    &&& !s.buffer_importer_shell_frame_callback_done_sent
    &&& !s.buffer_importer_shell_input_support
    &&& !s.buffer_importer_shell_core_mutation_invoked
    &&& s.texture_support_shell_readiness_invocations == 0
    &&& s.texture_support_shell_work_intents_observed == 0
    &&& s.texture_support_shell_observed_work_intents@.len() == 0
    &&& !s.texture_support_shell_available
    &&& !s.texture_support_shell_missing_buffer_importer_shell
    &&& !s.texture_support_shell_missing_texture_support
    &&& !s.texture_support_shell_buffer_imported
    &&& !s.texture_support_shell_texture_created
    &&& !s.texture_support_shell_renderer_called
    &&& !s.texture_support_shell_damage_submitted
    &&& !s.texture_support_shell_frame_callback_done_sent
    &&& !s.texture_support_shell_input_support
    &&& !s.texture_support_shell_core_mutation_invoked
    &&& s.render_operation_readiness_invocations == 0
    &&& s.render_operation_intents_created == 0
    &&& s.render_operation_intents@.len() == 0
    &&& !s.render_operation_buffer_imported
    &&& !s.render_operation_texture_created
    &&& !s.render_operation_renderer_called
    &&& !s.render_operation_damage_submitted
    &&& !s.render_operation_frame_callback_done_sent
    &&& !s.render_operation_input_support
    &&& !s.render_operation_core_mutation_invoked
    &&& !s.buffer_attached
    &&& !s.damage_submitted
    &&& !s.frame_callback_requested
    &&& !s.render_invoked
    &&& !s.input_invoked
    &&& !s.core_mutation_invoked
}

impl<D, W, O> NestedRuntimeSurfaceCommitRunSummary<D, W, O> {
    /// The summary of what one commit drain observed: its counts, the commit sequence,
    /// the buffer, damage and frame callback evidence, and the render-dirty readiness
    /// intent derived from the drain, given as `render_dirty_intent`.
    pub fn from_surface_commit_drain(report: RuntimeSurfaceCommitDrainReport, render_dirty_intent: Option<D>) -> (r: Self)
        ensures
            drain_stage(r, report, render_dirty_intent),
    {
        let l_drain_invocations: usize = if report.drain_invoked { 1 } else { 0 };
        let l_commit_observations_drained: usize = if report.commit_observation_resolved { 1 } else { 0 };
        let l_commit_observation_errors: usize = if report.commit_observation_failed { 1 } else { 0 };
        let l_buffer_attach_observations: usize = if report.buffer_attach_observed { 1 } else { 0 };
        let l_buffer_presence_observations: usize = if report.buffer_present { 1 } else { 0 };
        let l_buffer_removed_observations: usize = if report.buffer_removed { 1 } else { 0 };
        let l_renderable_buffer_observations: usize = if report.renderable_buffer { 1 } else { 0 };
        let l_damage_observations: usize = if report.damage_observed { 1 } else { 0 };
        let l_surface_damage_rects = report.surface_damage_rects;
        let l_buffer_damage_rects = report.buffer_damage_rects;
        let l_frame_callback_observations: usize = if report.frame_callback_observed { 1 } else { 0 };
        let l_frame_callback_count = report.frame_callback_count;
        let l_buffer_attached = report.buffer_attached;
        let l_damage_submitted = report.damage_submitted;
        let l_frame_callback_requested = report.frame_callback_requested;
        let l_render_invoked = report.render_invoked;
        let l_input_invoked = report.input_invoked;
        let l_core_mutation_invoked = report.core_mutation_invoked;
        let l_drained_commit_sequences = option_into_vec(report.commit_sequence);
        let l_render_dirty_readiness_intents = option_into_vec(render_dirty_intent);
        Self {
            drain_invocations: l_drain_invocations,
            commit_observations_drained: l_commit_observations_drained,
            commit_observation_errors: l_commit_observation_errors,
            drained_commit_sequences: l_drained_commit_sequences,
            buffer_attach_observations: l_buffer_attach_observations,
            buffer_presence_observations: l_buffer_presence_observations,
            buffer_removed_observations: l_buffer_removed_observations,
            renderable_buffer_observations: l_renderable_buffer_observations,
            damage_observations: l_damage_observations,
            surface_damage_rects: l_surface_damage_rects,
            buffer_damage_rects: l_buffer_damage_rects,
            frame_callback_observations: l_frame_callback_observations,
            frame_callback_count: l_frame_callback_count,
            render_dirty_readiness_intents: l_render_dirty_readiness_intents,
            render_dirty_queue_drain_invocations: 0,
            render_dirty_intents_enqueued: 0,
            render_dirty_intents_drained: 0,
            render_dirty_queue_drained_intents: Vec::new(),
            render_dirty_queue_buffer_imported: false,
            render_dirty_queue_texture_created: false,
            render_dirty_queue_render_submitted: false,
            render_dirty_queue_frame_callback_done_sent: false,
            render_dirty_queue_input_support: false,
            renderer_admission_invocations: 0,
            renderer_work_intents_created: 0,
            renderer_work_intents: Vec::new(),
            renderer_admission_buffer_imported: false,
            renderer_admission_texture_created: false,
            renderer_admission_render_submitted: false,
            renderer_admission_damage_submitted: false,
            renderer_admission_frame_callback_done_sent: false,
            renderer_admission_input_support: false,
            renderer_admission_core_mutation_invoked: false,
            renderer_owner_boundary_invocations: 0,
            renderer_owner_work_intents_consumed: 0,
            renderer_owner_consumed_work_intents: Vec::new(),
            renderer_owner_missing_renderer_owner: false,
            renderer_owner_missing_buffer_importer: false,
            renderer_owner_missing_texture_support: false,
            renderer_owner_buffer_imported: false,
            renderer_owner_texture_created: false,
            renderer_owner_renderer_called: false,
            renderer_owner_damage_submitted: false,
            renderer_owner_frame_callback_done_sent: false,
            renderer_owner_input_support: false,
            renderer_owner_core_mutation_invoked: false,
            renderer_owner_shell_readiness_invocations: 0,
            renderer_owner_shell_work_intents_observed: 0,
            renderer_owner_shell_observed_work_intents: Vec::new(),
            renderer_owner_shell_available: false,
            renderer_owner_shell_missing_renderer_owner: false,
            renderer_owner_shell_missing_buffer_importer: false,
            renderer_owner_shell_missing_texture_support: false,
            renderer_owner_shell_buffer_imported: false,
            renderer_owner_shell_texture_created: false,
            renderer_owner_shell_renderer_called: false,
            renderer_owner_shell_damage_submitted: false,
            renderer_owner_shell_frame_callback_done_sent: false,
            renderer_owner_shell_input_support: false,
            renderer_owner_shell_core_mutation_invoked: false,
            buffer_importer_shell_readiness_invocations: 0,
            buffer_importer_shell_work_intents_observed: 0,
            buffer_importer_shell_observed_work_intents: Vec::new(),
            buffer_importer_shell_available: false,
            buffer_importer_shell_missing_renderer_owner_shell: false,
            buffer_importer_shell_missing_buffer_importer: false,
            buffer_importer_shell_missing_texture_support: false,
            buffer_importer_shell_buffer_imported: false,
            buffer_importer_shell_texture_created: false,
            buffer_importer_shell_renderer_called: false,
            buffer_importer_shell_damage_submitted: false,
            buffer_importer_shell_frame_callback_done_sent: false,
            buffer_importer_shell_input_support: false,
            buffer_importer_shell_core_mutation_invoked: false,
            texture_support_shell_readiness_invocations: 0,
            texture_support_shell_work_intents_observed: 0,
            texture_support_shell_observed_work_intents: Vec::new(),
            texture_support_shell_available: false,
            texture_support_shell_missing_buffer_importer_shell: false,
            texture_support_shell_missing_texture_support: false,
            texture_support_shell_buffer_imported: false,
            texture_support_shell_texture_created: false,
            texture_support_shell_renderer_called: false,
            texture_support_shell_damage_submitted: false,
            texture_support_shell_frame_callback_done_sent: false,
            texture_support_shell_input_support: false,
            texture_support_shell_core_mutation_invoked: false,
            render_operation_readiness_invocations: 0,
            render_operation_intents_created: 0,
            render_operation_intents: Vec::new(),
            render_operation_buffer_imported: false,
            render_operation_texture_created: false,
            render_operation_renderer_called: false,
            render_operation_damage_submitted: false,
            render_operation_frame_callback_done_sent: false,
            render_operation_input_support: false,
            render_operation_core_mutation_invoked: false,
            render_operation_queue_drain_invocations: 0,
            render_operation_intents_enqueued: 0,
            render_operation_intents_drained: 0,
            render_operation_queue_drained_intents: Vec::new(),
            render_operation_queue_buffer_imported: false,
            render_operation_queue_texture_created: false,
            render_operation_queue_renderer_called: false,
            render_operation_queue_damage_submitted: false,
            render_operation_queue_frame_callback_done_sent: false,
            render_operation_queue_input_support: false,
            render_operation_queue_core_mutation_invoked: false,
            buffer_attached: l_buffer_attached,
            damage_submitted: l_damage_submitted,
            frame_callback_requested: l_frame_callback_requested,
            render_invoked: l_render_invoked,
            input_invoked: l_input_invoked,
            core_mutation_invoked: l_core_mutation_invoked,
        }
    }

    /// The summary of what one render-dirty intent queue drain did.
    pub fn from_render_dirty_intent_drain(report: RuntimeSurfaceCommitRenderDirtyIntentDrainReport<D>) -> (r: Self)
        ensures
            dirty_queue_stage(r, report),
    {
        let l_render_dirty_queue_drain_invocations: usize = if report.drain_invoked { 1 } else { 0 };
        let l_render_dirty_intents_enqueued: usize = if report.intent_enqueued { 1 } else { 0 };
        let l_render_dirty_intents_drained: usize = if report.intent_drained { 1 } else { 0 };
        let l_render_dirty_queue_buffer_imported = report.buffer_imported;
        let l_render_dirty_queue_texture_created = report.texture_created;
        let l_render_dirty_queue_render_submitted = report.render_submitted;
        let l_render_dirty_queue_frame_callback_done_sent = report.frame_callback_done_sent;
        let l_render_dirty_queue_input_support = report.input_support;
        let l_render_dirty_queue_drained_intents = option_into_vec(report.drained_intent);
        Self {
            drain_invocations: 0,
            commit_observations_drained: 0,
            commit_observation_errors: 0,
            drained_commit_sequences: Vec::new(),
            buffer_attach_observations: 0,
            buffer_presence_observations: 0,
            buffer_removed_observations: 0,
            renderable_buffer_observations: 0,
            damage_observations: 0,
            surface_damage_rects: 0,
            buffer_damage_rects: 0,
            frame_callback_observations: 0,
            frame_callback_count: 0,
            render_dirty_readiness_intents: Vec::new(),
            render_dirty_queue_drain_invocations: l_render_dirty_queue_drain_invocations,
            render_dirty_intents_enqueued: l_render_dirty_intents_enqueued,
            render_dirty_intents_drained: l_render_dirty_intents_drained,
            render_dirty_queue_drained_intents: l_render_dirty_queue_drained_intents,
            render_dirty_queue_buffer_imported: l_render_dirty_queue_buffer_imported,
            render_dirty_queue_texture_created: l_render_dirty_queue_texture_created,
            render_dirty_queue_render_submitted: l_render_dirty_queue_render_submitted,
            render_dirty_queue_frame_callback_done_sent: l_render_dirty_queue_frame_callback_done_sent,
            render_dirty_queue_input_support: l_render_dirty_queue_input_support,
            renderer_admission_invocations: 0,
            renderer_work_intents_created: 0,
            renderer_work_intents: Vec::new(),
            renderer_admission_buffer_imported: false,
            renderer_admission_texture_created: false,
            renderer_admission_render_submitted: false,
            renderer_admission_damage_submitted: false,
            renderer_admission_frame_callback_done_sent: false,
            renderer_admission_input_support: false,
            renderer_admission_core_mutation_invoked: false,
            renderer_owner_boundary_invocations: 0,
            renderer_owner_work_intents_consumed: 0,
            renderer_owner_consumed_work_intents: Vec::new(),
            renderer_owner_missing_renderer_owner: false,
            renderer_owner_missing_buffer_importer: false,
            renderer_owner_missing_texture_support: false,
            renderer_owner_buffer_imported: false,
            renderer_owner_texture_created: false,
            renderer_owner_renderer_called: false,
            renderer_owner_damage_submitted: false,
            renderer_owner_frame_callback_done_sent: false,
            renderer_owner_input_support: false,
            renderer_owner_core_mutation_invoked: false,
            renderer_owner_shell_readiness_invocations: 0,
            renderer_owner_shell_work_intents_observed: 0,
            renderer_owner_shell_observed_work_intents: Vec::new(),
            renderer_owner_shell_available: false,
            renderer_owner_shell_missing_renderer_owner: false,
            renderer_owner_shell_missing_buffer_importer: false,
            renderer_owner_shell_missing_texture_support: false,
            renderer_owner_shell_buffer_imported: false,
            renderer_owner_shell_texture_created: false,
            renderer_owner_shell_renderer_called: false,
            renderer_owner_shell_damage_submitted: false,
            renderer_owner_shell_frame_callback_done_sent: false,
            renderer_owner_shell_input_support: false,
            renderer_owner_shell_core_mutation_invoked: false,
            buffer_importer_shell_readiness_invocations: 0,
            buffer_importer_shell_work_intents_observed: 0,
            buffer_importer_shell_observed_work_intents: Vec::new(),
            buffer_importer_shell_available: false,
            buffer_importer_shell_missing_renderer_owner_shell: false,
            buffer_importer_shell_missing_buffer_importer: false,
            buffer_importer_shell_missing_texture_support: false,
            buffer_importer_shell_buffer_imported: false,
            buffer_importer_shell_texture_created: false,
            buffer_importer_shell_renderer_called: false,
            buffer_importer_shell_damage_submitted: false,
            buffer_importer_shell_frame_callback_done_sent: false,
            buffer_importer_shell_input_support: false,
            buffer_importer_shell_core_mutation_invoked: false,
            texture_support_shell_readiness_invocations: 0,
            texture_support_shell_work_intents_observed: 0,
            texture_support_shell_observed_work_intents: Vec::new(),
            texture_support_shell_available: false,
            texture_support_shell_missing_buffer_importer_shell: false,
            texture_support_shell_missing_texture_support: false,
            texture_support_shell_buffer_imported: false,
            texture_support_shell_texture_created: false,
            texture_support_shell_renderer_called: false,
            texture_support_shell_damage_submitted: false,
            texture_support_shell_frame_callback_done_sent: false,
            texture_support_shell_input_support: false,
            texture_support_shell_core_mutation_invoked: false,
            render_operation_readiness_invocations: 0,
            render_operation_intents_created: 0,
            render_operation_intents: Vec::new(),
            render_operation_buffer_imported: false,
            render_operation_texture_created: false,
            render_operation_renderer_called: false,
            render_operation_damage_submitted: false,
            render_operation_frame_callback_done_sent: false,
            render_operation_input_support: false,
            render_operation_core_mutation_invoked: false,
            render_operation_queue_drain_invocations: 0,
            render_operation_intents_enqueued: 0,
            render_operation_intents_drained: 0,
            render_operation_queue_drained_intents: Vec::new(),
            render_operation_queue_buffer_imported: false,
            render_operation_queue_texture_created: false,
            render_operation_queue_renderer_called: false,
            render_operation_queue_damage_submitted: false,
            render_operation_queue_frame_callback_done_sent: false,
            render_operation_queue_input_support: false,
            render_operation_queue_core_mutation_invoked: false,
            buffer_attached: false,
            damage_submitted: false,
            frame_callback_requested: false,
            render_invoked: false,
            input_invoked: false,
            core_mutation_invoked: false,
        }
    }

    /// The summary of what one renderer admission did.
    pub fn from_renderer_admission(report: RuntimeSurfaceCommitRendererAdmissionReport<W>) -> (r: Self)
        ensures
            renderer_admission_stage(r, report),
    {
        let l_renderer_admission_invocations: usize = if report.renderer_admission_invoked { 1 } else { 0 };
        let l_renderer_work_intents_created: usize = if report.work_intent_created { 1 } else { 0 };
        let l_renderer_admission_buffer_imported = report.buffer_imported;
        let l_renderer_admission_texture_created = report.texture_created;
        let l_renderer_admission_render_submitted = report.render_submitted;
        let l_renderer_admission_damage_submitted = report.damage_submitted;
        let l_renderer_admission_frame_callback_done_sent = report.frame_callback_done_sent;
        let l_renderer_admission_input_support = report.input_support;
        let l_renderer_admission_core_mutation_invoked = report.core_mutation_invoked;
        let l_renderer_work_intents = option_into_vec(report.work_intent);
        Self {
            drain_invocations: 0,
            commit_observations_drained: 0,
            commit_observation_errors: 0,
            drained_commit_sequences: Vec::new(),
            buffer_attach_observations: 0,
            buffer_presence_observations: 0,
            buffer_removed_observations: 0,
            renderable_buffer_observations: 0,
            damage_observations: 0,
            surface_damage_rects: 0,
            buffer_damage_rects: 0,
            frame_callback_observations: 0,
            frame_callback_count: 0,
            render_dirty_readiness_intents: Vec::new(),
            render_dirty_queue_drain_invocations: 0,
            render_dirty_intents_enqueued: 0,
            render_dirty_intents_drained: 0,
            render_dirty_queue_drained_intents: Vec::new(),
            render_dirty_queue_buffer_imported: false,
            render_dirty_queue_texture_created: false,
            render_dirty_queue_render_submitted: false,
            render_dirty_queue_frame_callback_done_sent: false,
            render_dirty_queue_input_support: false,
            renderer_admission_invocations: l_renderer_admission_invocations,
            renderer_work_intents_created: l_renderer_work_intents_created,
            renderer_work_intents: l_renderer_work_intents,
            renderer_admission_buffer_imported: l_renderer_admission_buffer_imported,
            renderer_admission_texture_created: l_renderer_admission_texture_created,
            renderer_admission_render_submitted: l_renderer_admission_render_submitted,
            renderer_admission_damage_submitted: l_renderer_admission_damage_submitted,
            renderer_admission_frame_callback_done_sent: l_renderer_admission_frame_callback_done_sent,
            renderer_admission_input_support: l_renderer_admission_input_support,
            renderer_admission_core_mutation_invoked: l_renderer_admission_core_mutation_invoked,
            renderer_owner_boundary_invocations: 0,
            renderer_owner_work_intents_consumed: 0,
            renderer_owner_consumed_work_intents: Vec::new(),
            renderer_owner_missing_renderer_owner: false,
            renderer_owner_missing_buffer_importer: false,
            renderer_owner_missing_texture_support: false,
            renderer_owner_buffer_imported: false,
            renderer_owner_texture_created: false,
            renderer_owner_renderer_called: false,
            renderer_owner_damage_submitted: false,
            renderer_owner_frame_callback_done_sent: false,
            renderer_owner_input_support: false,
            renderer_owner_core_mutation_invoked: false,
            renderer_owner_shell_readiness_invocations: 0,
            renderer_owner_shell_work_intents_observed: 0,
            renderer_owner_shell_observed_work_intents: Vec::new(),
            renderer_owner_shell_available: false,
            renderer_owner_shell_missing_renderer_owner: false,
            renderer_owner_shell_missing_buffer_importer: false,
            renderer_owner_shell_missing_texture_support: false,
            renderer_owner_shell_buffer_imported: false,
            renderer_owner_shell_texture_created: false,
            renderer_owner_shell_renderer_called: false,
            renderer_owner_shell_damage_submitted: false,
            renderer_owner_shell_frame_callback_done_sent: false,
            renderer_owner_shell_input_support: false,
            renderer_owner_shell_core_mutation_invoked: false,
            buffer_importer_shell_readiness_invocations: 0,
            buffer_importer_shell_work_intents_observed: 0,
            buffer_importer_shell_observed_work_intents: Vec::new(),
            buffer_importer_shell_available: false,
            buffer_importer_shell_missing_renderer_owner_shell: false,
            buffer_importer_shell_missing_buffer_importer: false,
            buffer_importer_shell_missing_texture_support: false,
            buffer_importer_shell_buffer_imported: false,
            buffer_importer_shell_texture_created: false,
            buffer_importer_shell_renderer_called: false,
            buffer_importer_shell_damage_submitted: false,
            buffer_importer_shell_frame_callback_done_sent: false,
            buffer_importer_shell_input_support: false,
            buffer_importer_shell_core_mutation_invoked: false,
            texture_support_shell_readiness_invocations: 0,
            texture_support_shell_work_intents_observed: 0,
            texture_support_shell_observed_work_intents: Vec::new(),
            texture_support_shell_available: false,
            texture_support_shell_missing_buffer_importer_shell: false,
            texture_support_shell_missing_texture_support: false,
            texture_support_shell_buffer_imported: false,
            texture_support_shell_texture_created: false,
            texture_support_shell_renderer_called: false,
            texture_support_shell_damage_submitted: false,
            texture_support_shell_frame_callback_done_sent: false,
            texture_support_shell_input_support: false,
            texture_support_shell_core_mutation_invoked: false,
            render_operation_readiness_invocations: 0,
            render_operation_intents_created: 0,
            render_operation_intents: Vec::new(),
            render_operation_buffer_imported: false,
            render_operation_texture_created: false,
            render_operation_renderer_called: false,
            render_operation_damage_submitted: false,
            render_operation_frame_callback_done_sent: false,
            render_operation_input_support: false,
            render_operation_core_mutation_invoked: false,
            render_operation_queue_drain_invocations: 0,
            render_operation_intents_enqueued: 0,
            render_operation_intents_drained: 0,
            render_operation_queue_drained_intents: Vec::new(),
            render_operation_queue_buffer_imported: false,
            render_operation_queue_texture_created: false,
            render_operation_queue_renderer_called: false,
            render_operation_queue_damage_submitted: false,
            render_operation_queue_frame_callback_done_sent: false,
            render_operation_queue_input_support: false,
            render_operation_queue_core_mutation_invoked: false,
            buffer_attached: false,
            damage_submitted: false,
            frame_callback_requested: false,
            render_invoked: false,
            input_invoked: false,
            core_mutation_invoked: false,
        }
    }

    /// The summary of what one renderer owner boundary did; each `missing_*` flag says
    /// whether its blocker is listed.
    pub fn from_renderer_owner_boundary(report: RuntimeSurfaceCommitRendererOwnerBoundaryReport<W>) -> (r: Self)
        ensures
            renderer_owner_stage(r, report),
    {
        let l_renderer_owner_boundary_invocations: usize = if report.consume_invoked { 1 } else { 0 };
        let l_renderer_owner_work_intents_consumed: usize = if report.work_intent_consumed { 1 } else { 0 };
        let l_renderer_owner_missing_renderer_owner = lists_runtime_surface_commit_renderer_owner_boundary_blocker(&report.blockers, RuntimeSurfaceCommitRendererOwnerBoundaryBlocker::MissingRendererOwner);
        let l_renderer_owner_missing_buffer_importer = lists_runtime_surface_commit_renderer_owner_boundary_blocker(&report.blockers, RuntimeSurfaceCommitRendererOwnerBoundaryBlocker::MissingBufferImporter);
        let l_renderer_owner_missing_texture_support = lists_runtime_surface_commit_renderer_owner_boundary_blocker(&report.blockers, RuntimeSurfaceCommitRendererOwnerBoundaryBlocker::MissingTextureSupport);
        let l_renderer_owner_buffer_imported = report.buffer_imported;
        let l_renderer_owner_texture_created = report.texture_created;
        let l_renderer_owner_renderer_called = report.renderer_called;
        let l_renderer_owner_damage_submitted = report.damage_submitted;
        let l_renderer_owner_frame_callback_done_sent = report.frame_callback_done_sent;
        let l_renderer_owner_input_support = report.input_support;
        let l_renderer_owner_core_mutation_invoked = report.core_mutation_invoked;
        let l_renderer_owner_consumed_work_intents = option_into_vec(report.consumed_work_intent);
        Self {
            drain_invocations: 0,
            commit_observations_drained: 0,
            commit_observation_errors: 0,
            drained_commit_sequences: Vec::new(),
            buffer_attach_observations: 0,
            buffer_presence_observations: 0,
            buffer_removed_observations: 0,
            renderable_buffer_observations: 0,
            damage_observations: 0,
            surface_damage_rects: 0,
            buffer_damage_rects: 0,
            frame_callback_observations: 0,
            frame_callback_count: 0,
            render_dirty_readiness_intents: Vec::new(),
            render_dirty_queue_drain_invocations: 0,
            render_dirty_intents_enqueued: 0,
            render_dirty_intents_drained: 0,
            render_dirty_queue_drained_intents: Vec::new(),
            render_dirty_queue_buffer_imported: false,
            render_dirty_queue_texture_created: false,
            render_dirty_queue_render_submitted: false,
            render_dirty_queue_frame_callback_done_sent: false,
            render_dirty_queue_input_support: false,
            renderer_admission_invocations: 0,
            renderer_work_intents_created: 0,
            renderer_work_intents: Vec::new(),
            renderer_admission_buffer_imported: false,
            renderer_admission_texture_created: false,
            renderer_admission_render_submitted: false,
            renderer_admission_damage_submitted: false,
            renderer_admission_frame_callback_done_sent: false,
            renderer_admission_input_support: false,
            renderer_admission_core_mutation_invoked: false,
            renderer_owner_boundary_invocations: l_renderer_owner_boundary_invocations,
            renderer_owner_work_intents_consumed: l_renderer_owner_work_intents_consumed,
            renderer_owner_consumed_work_intents: l_renderer_owner_consumed_work_intents,
            renderer_owner_missing_renderer_owner: l_renderer_owner_missing_renderer_owner,
            renderer_owner_missing_buffer_importer: l_renderer_owner_missing_buffer_importer,
            renderer_owner_missing_texture_support: l_renderer_owner_missing_texture_support,
            renderer_owner_buffer_imported: l_renderer_owner_buffer_imported,
            renderer_owner_texture_created: l_renderer_owner_texture_created,
            renderer_owner_renderer_called: l_renderer_owner_renderer_called,
            renderer_owner_damage_submitted: l_renderer_owner_damage_submitted,
            renderer_owner_frame_callback_done_sent: l_renderer_owner_frame_callback_done_sent,
            renderer_owner_input_support: l_renderer_owner_input_support,
            renderer_owner_core_mutation_invoked: l_renderer_owner_core_mutation_invoked,
            renderer_owner_shell_readiness_invocations: 0,
            renderer_owner_shell_work_intents_observed: 0,
            renderer_owner_shell_observed_work_intents: Vec::new(),
            renderer_owner_shell_available: false,
            renderer_owner_shell_missing_renderer_owner: false,
            renderer_owner_shell_missing_buffer_importer: false,
            renderer_owner_shell_missing_texture_support: false,
            renderer_owner_shell_buffer_imported: false,
            renderer_owner_shell_texture_created: false,
            renderer_owner_shell_renderer_called: false,
            renderer_owner_shell_damage_submitted: false,
            renderer_owner_shell_frame_callback_done_sent: false,
            renderer_owner_shell_input_support: false,
            renderer_owner_shell_core_mutation_invoked: false,
            buffer_importer_shell_readiness_invocations: 0,
            buffer_importer_shell_work_intents_observed: 0,
            buffer_importer_shell_observed_work_intents: Vec::new(),
            buffer_importer_shell_available: false,
            buffer_importer_shell_missing_renderer_owner_shell: false,
            buffer_importer_shell_missing_buffer_importer: false,
            buffer_importer_shell_missing_texture_support: false,
            buffer_importer_shell_buffer_imported: false,
            buffer_importer_shell_texture_created: false,
            buffer_importer_shell_renderer_called: false,
            buffer_importer_shell_damage_submitted: false,
            buffer_importer_shell_frame_callback_done_sent: false,
            buffer_importer_shell_input_support: false,
            buffer_importer_shell_core_mutation_invoked: false,
            texture_support_shell_readiness_invocations: 0,
            texture_support_shell_work_intents_observed: 0,
            texture_support_shell_observed_work_intents: Vec::new(),
            texture_support_shell_available: false,
            texture_support_shell_missing_buffer_importer_shell: false,
            texture_support_shell_missing_texture_support: false,
            texture_support_shell_buffer_imported: false,
            texture_support_shell_texture_created: false,
            texture_support_shell_renderer_called: false,
            texture_support_shell_damage_submitted: false,
            texture_support_shell_frame_callback_done_sent: false,
            texture_support_shell_input_support: false,
            texture_support_shell_core_mutation_invoked: false,
            render_operation_readiness_invocations: 0,
            render_operation_intents_created: 0,
            render_operation_intents: Vec::new(),
            render_operation_buffer_imported: false,
            render_operation_texture_created: false,
            render_operation_renderer_called: false,
            render_operation_damage_submitted: false,
            render_operation_frame_callback_done_sent: false,
            render_operation_input_support: false,
            render_operation_core_mutation_invoked: false,
            render_operation_queue_drain_invocations: 0,
            render_operation_intents_enqueued: 0,
            render_operation_intents_drained: 0,
            render_operation_queue_drained_intents: Vec::new(),
            render_operation_queue_buffer_imported: false,
            render_operation_queue_texture_created: false,
            render_operation_queue_renderer_called: false,
            render_operation_queue_damage_submitted: false,
            render_operation_queue_frame_callback_done_sent: false,
            render_operation_queue_input_support: false,
            render_operation_queue_core_mutation_invoked: false,
            buffer_attached: false,
            damage_submitted: false,
            frame_callback_requested: false,
            render_invoked: false,
            input_invoked: false,
            core_mutation_invoked: false,
        }
    }

    /// The summary of what one renderer owner shell readiness check saw; each `missing_*`
    /// flag says whether its blocker is listed.
    pub fn from_renderer_owner_shell_readiness(report: RuntimeSurfaceCommitRendererOwnerShellReadinessReport<W>) -> (r: Self)
        ensures
            renderer_owner_shell_stage(r, report),
    {
        let l_renderer_owner_shell_readiness_invocations: usize = if report.readiness_invoked { 1 } else { 0 };
        let l_renderer_owner_shell_work_intents_observed: usize = if report.observed_work_intent.is_some() { 1 } else { 0 };
        let l_renderer_owner_shell_available = report.renderer_owner_shell_available;
        let l_renderer_owner_shell_missing_renderer_owner = lists_runtime_surface_commit_renderer_owner_shell_blocker(&report.blockers, RuntimeSurfaceCommitRendererOwnerShellBlocker::MissingRendererOwner);
        let l_renderer_owner_shell_missing_buffer_importer = lists_runtime_surface_commit_renderer_owner_shell_blocker(&report.blockers, RuntimeSurfaceCommitRendererOwnerShellBlocker::MissingBufferImporter);
        let l_renderer_owner_shell_missing_texture_support = lists_runtime_surface_commit_renderer_owner_shell_blocker(&report.blockers, RuntimeSurfaceCommitRendererOwnerShellBlocker::MissingTextureSupport);
        let l_renderer_owner_shell_buffer_imported = report.buffer_imported;
        let l_renderer_owner_shell_texture_created = report.texture_created;
        let l_renderer_owner_shell_renderer_called = report.renderer_called;
        let l_renderer_owner_shell_damage_submitted = report.damage_submitted;
        let l_renderer_owner_shell_frame_callback_done_sent = report.frame_callback_done_sent;
        let l_renderer_owner_shell_input_support = report.input_support;
        let l_renderer_owner_shell_core_mutation_invoked = report.core_mutation_invoked;
        let l_renderer_owner_shell_observed_work_intents = option_into_vec(report.observed_work_intent);
        Self {
            drain_invocations: 0,
            commit_observations_drained: 0,
            commit_observation_errors: 0,
            drained_commit_sequences: Vec::new(),
            buffer_attach_observations: 0,
            buffer_presence_observations: 0,
            buffer_removed_observations: 0,
            renderable_buffer_observations: 0,
            damage_observations: 0,
            surface_damage_rects: 0,
            buffer_damage_rects: 0,
            frame_callback_observations: 0,
            frame_callback_count: 0,
            render_dirty_readiness_intents: Vec::new(),
            render_dirty_queue_drain_invocations: 0,
            render_dirty_intents_enqueued: 0,
            render_dirty_intents_drained: 0,
            render_dirty_queue_drained_intents: Vec::new(),
            render_dirty_queue_buffer_imported: false,
            render_dirty_queue_texture_created: false,
            render_dirty_queue_render_submitted: false,
            render_dirty_queue_frame_callback_done_sent: false,
            render_dirty_queue_input_support: false,
            renderer_admission_invocations: 0,
            renderer_work_intents_created: 0,
            renderer_work_intents: Vec::new(),
            renderer_admission_buffer_imported: false,
            renderer_admission_texture_created: false,
            renderer_admission_render_submitted: false,
            renderer_admission_damage_submitted: false,
            renderer_admission_frame_callback_done_sent: false,
            renderer_admission_input_support: false,
            renderer_admission_core_mutation_invoked: false,
            renderer_owner_boundary_invocations: 0,
            renderer_owner_work_intents_consumed: 0,
            renderer_owner_consumed_work_intents: Vec::new(),
            renderer_owner_missing_renderer_owner: false,
            renderer_owner_missing_buffer_importer: false,
            renderer_owner_missing_texture_support: false,
            renderer_owner_buffer_imported: false,
            renderer_owner_texture_created: false,
            renderer_owner_renderer_called: false,
            renderer_owner_damage_submitted: false,
            renderer_owner_frame_callback_done_sent: false,
            renderer_owner_input_support: false,
            renderer_owner_core_mutation_invoked: false,
            renderer_owner_shell_readiness_invocations: l_renderer_owner_shell_readiness_invocations,
            renderer_owner_shell_work_intents_observed: l_renderer_owner_shell_work_intents_observed,
            renderer_owner_shell_observed_work_intents: l_renderer_owner_shell_observed_work_intents,
            renderer_owner_shell_available: l_renderer_owner_shell_available,
            renderer_owner_shell_missing_renderer_owner: l_renderer_owner_shell_missing_renderer_owner,
            renderer_owner_shell_missing_buffer_importer: l_renderer_owner_shell_missing_buffer_importer,
            renderer_owner_shell_missing_texture_support: l_renderer_owner_shell_missing_texture_support,
            renderer_owner_shell_buffer_imported: l_renderer_owner_shell_buffer_imported,
            renderer_owner_shell_texture_created: l_renderer_owner_shell_texture_created,
            renderer_owner_shell_renderer_called: l_renderer_owner_shell_renderer_called,
            renderer_owner_shell_damage_submitted: l_renderer_owner_shell_damage_submitted,
            renderer_owner_shell_frame_callback_done_sent: l_renderer_owner_shell_frame_callback_done_sent,
            renderer_owner_shell_input_support: l_renderer_owner_shell_input_support,
            renderer_owner_shell_core_mutation_invoked: l_renderer_owner_shell_core_mutation_invoked,
            buffer_importer_shell_readiness_invocations: 0,
            buffer_importer_shell_work_intents_observed: 0,
            buffer_importer_shell_observed_work_intents: Vec::new(),
            buffer_importer_shell_available: false,
            buffer_importer_shell_missing_renderer_owner_shell: false,
            buffer_importer_shell_missing_buffer_importer: false,
            buffer_importer_shell_missing_texture_support: false,
            buffer_importer_shell_buffer_imported: false,
            buffer_importer_shell_texture_created: false,
            buffer_importer_shell_renderer_called: false,
            buffer_importer_shell_damage_submitted: false,
            buffer_importer_shell_frame_callback_done_sent: false,
            buffer_importer_shell_input_support: false,
            buffer_importer_shell_core_mutation_invoked: false,
            texture_support_shell_readiness_invocations: 0,
            texture_support_shell_work_intents_observed: 0,
            texture_support_shell_observed_work_intents: Vec::new(),
            texture_support_shell_available: false,
            texture_support_shell_missing_buffer_importer_shell: false,
            texture_support_shell_missing_texture_support: false,
            texture_support_shell_buffer_imported: false,
            texture_support_shell_texture_created: false,
            texture_support_shell_renderer_called: false,
            texture_support_shell_damage_submitted: false,
            texture_support_shell_frame_callback_done_sent: false,
            texture_support_shell_input_support: false,
            texture_support_shell_core_mutation_invoked: false,
            render_operation_readiness_invocations: 0,
            render_operation_intents_created: 0,
            render_operation_intents: Vec::new(),
            render_operation_buffer_imported: false,
            render_operation_texture_created: false,
            render_operation_renderer_called: false,
            render_operation_damage_submitted: false,
            render_operation_frame_callback_done_sent: false,
            render_operation_input_support: false,
            render_operation_core_mutation_invoked: false,
            render_operation_queue_drain_invocations: 0,
            render_operation_intents_enqueued: 0,
            render_operation_intents_drained: 0,
            render_operation_queue_drained_intents: Vec::new(),
            render_operation_queue_buffer_imported: false,
            render_operation_queue_texture_created: false,
            render_operation_queue_renderer_called: false,
            render_operation_queue_damage_submitted: false,
            render_operation_queue_frame_callback_done_sent: false,
            render_operation_queue_input_support: false,
            render_operation_queue_core_mutation_invoked: false,
            buffer_attached: false,
            damage_submitted: false,
            frame_callback_requested: false,
            render_invoked: false,
            input_invoked: false,
            core_mutation_invoked: false,
        }
    }

    /// The summary of what one buffer importer shell readiness check saw; each
    /// `missing_*` flag says whether its blocker is listed.
    pub fn from_buffer_importer_shell_readiness(report: RuntimeSurfaceCommitBufferImporterShellReadinessReport<W>) -> (r: Self)
        ensures
            buffer_importer_shell_stage(r, report),
    {
        let l_buffer_importer_shell_readiness_invocations: usize = if report.readiness_invoked { 1 } else { 0 };
        let l_buffer_importer_shell_work_intents_observed: usize = if report.observed_work_intent.is_some() { 1 } else { 0 };
        let l_buffer_importer_shell_available = report.buffer_importer_shell_available;
        let l_buffer_importer_shell_missing_renderer_owner_shell = lists_runtime_surface_commit_buffer_importer_shell_blocker(&report.blockers, RuntimeSurfaceCommitBufferImporterShellBlocker::MissingRendererOwnerShell);
        let l_buffer_importer_shell_missing_buffer_importer = lists_runtime_surface_commit_buffer_importer_shell_blocker(&report.blockers, RuntimeSurfaceCommitBufferImporterShellBlocker::MissingBufferImporter);
        let l_buffer_importer_shell_missing_texture_support = lists_runtime_surface_commit_buffer_importer_shell_blocker(&report.blockers, RuntimeSurfaceCommitBufferImporterShellBlocker::MissingTextureSupport);
        let l_buffer_importer_shell_buffer_imported = report.buffer_imported;
        let l_buffer_importer_shell_texture_created = report.texture_created;
        let l_buffer_importer_shell_renderer_called = report.renderer_called;
        let l_buffer_importer_shell_damage_submitted = report.damage_submitted;
        let l_buffer_importer_shell_frame_callback_done_sent = report.frame_callback_done_sent;
        let l_buffer_importer_shell_input_support = report.input_support;
        let l_buffer_importer_shell_core_mutation_invoked = report.core_mutation_invoked;
        let l_buffer_importer_shell_observed_work_intents = option_into_vec(report.observed_work_intent);
        Self {
            drain_invocations: 0,
            commit_observations_drained: 0,
            commit_observation_errors: 0,
            drained_commit_sequences: Vec::new(),
            buffer_attach_observations: 0,
            buffer_presence_observations: 0,
            buffer_removed_observations: 0,
            renderable_buffer_observations: 0,
            damage_observations: 0,
            surface_damage_rects: 0,
            buffer_damage_rects: 0,
            frame_callback_observations: 0,
            frame_callback_count: 0,
            render_dirty_readiness_intents: Vec::new(),
            render_dirty_queue_drain_invocations: 0,
            render_dirty_intents_enqueued: 0,
            render_dirty_intents_drained: 0,
            render_dirty_queue_drained_intents: Vec::new(),
            render_dirty_queue_buffer_imported: false,
            render_dirty_queue_texture_created: false,
            render_dirty_queue_render_submitted: false,
            render_dirty_queue_frame_callback_done_sent: false,
            render_dirty_queue_input_support: false,
            renderer_admission_invocations: 0,
            renderer_work_intents_created: 0,
            renderer_work_intents: Vec::new(),
            renderer_admission_buffer_imported: false,
            renderer_admission_texture_created: false,
            renderer_admission_render_submitted: false,
            renderer_admission_damage_submitted: false,
            renderer_admission_frame_callback_done_sent: false,
            renderer_admission_input_support: false,
            renderer_admission_core_mutation_invoked: false,
            renderer_owner_boundary_invocations: 0,
            renderer_owner_work_intents_consumed: 0,
            renderer_owner_consumed_work_intents: Vec::new(),
            renderer_owner_missing_renderer_owner: false,
            renderer_owner_missing_buffer_importer: false,
            renderer_owner_missing_texture_support: false,
            renderer_owner_buffer_imported: false,
            renderer_owner_texture_created: false,
            renderer_owner_renderer_called: false,
            renderer_owner_damage_submitted: false,
            renderer_owner_frame_callback_done_sent: false,
            renderer_owner_input_support: false,
            renderer_owner_core_mutation_invoked: false,
            renderer_owner_shell_readiness_invocations: 0,
            renderer_owner_shell_work_intents_observed: 0,
            renderer_owner_shell_observed_work_intents: Vec::new(),
            renderer_owner_shell_available: false,
            renderer_owner_shell_missing_renderer_owner: false,
            renderer_owner_shell_missing_buffer_importer: false,
            renderer_owner_shell_missing_texture_support: false,
            renderer_owner_shell_buffer_imported: false,
            renderer_owner_shell_texture_created: false,
            renderer_owner_shell_renderer_called: false,
            renderer_owner_shell_damage_submitted: false,
            renderer_owner_shell_frame_callback_done_sent: false,
            renderer_owner_shell_input_support: false,
            renderer_owner_shell_core_mutation_invoked: false,
            buffer_importer_shell_readiness_invocations: l_buffer_importer_shell_readiness_invocations,
            buffer_importer_shell_work_intents_observed: l_buffer_importer_shell_work_intents_observed,
            buffer_importer_shell_observed_work_intents: l_buffer_importer_shell_observed_work_intents,
            buffer_importer_shell_available: l_buffer_importer_shell_available,
            buffer_importer_shell_missing_renderer_owner_shell: l_buffer_importer_shell_missing_renderer_owner_shell,
            buffer_importer_shell_missing_buffer_importer: l_buffer_importer_shell_missing_buffer_importer,
            buffer_importer_shell_missing_texture_support: l_buffer_importer_shell_missing_texture_support,
            buffer_importer_shell_buffer_imported: l_buffer_importer_shell_buffer_imported,
            buffer_importer_shell_texture_created: l_buffer_importer_shell_texture_created,
            buffer_importer_shell_renderer_called: l_buffer_importer_shell_renderer_called,
            buffer_importer_shell_damage_submitted: l_buffer_importer_shell_damage_submitted,
            buffer_importer_shell_frame_callback_done_sent: l_buffer_importer_shell_frame_callback_done_sent,
            buffer_importer_shell_input_support: l_buffer_importer_shell_input_support,
            buffer_importer_shell_core_mutation_invoked: l_buffer_importer_shell_core_mutation_invoked,
            texture_support_shell_readiness_invocations: 0,
            texture_support_shell_work_intents_observed: 0,
            texture_support_shell_observed_work_intents: Vec::new(),
            texture_support_shell_available: false,
            texture_support_shell_missing_buffer_importer_shell: false,
            texture_support_shell_missing_texture_support: false,
            texture_support_shell_buffer_imported: false,
            texture_support_shell_texture_created: false,
            texture_support_shell_renderer_called: false,
            texture_support_shell_damage_submitted: false,
            texture_support_shell_frame_callback_done_sent: false,
            texture_support_shell_input_support: false,
            texture_support_shell_core_mutation_invoked: false,
            render_operation_readiness_invocations: 0,
            render_operation_intents_created: 0,
            render_operation_intents: Vec::new(),
            render_operation_buffer_imported: false,
            render_operation_texture_created: false,
            render_operation_renderer_called: false,
            render_operation_damage_submitted: false,
            render_operation_frame_callback_done_sent: false,
            render_operation_input_support: false,
            render_operation_core_mutation_invoked: false,
            render_operation_queue_drain_invocations: 0,
            render_operation_intents_enqueued: 0,
            render_operation_intents_drained: 0,
            render_operation_queue_drained_intents: Vec::new(),
            render_operation_queue_buffer_imported: false,
            render_operation_queue_texture_created: false,
            render_operation_queue_renderer_called: false,
            render_operation_queue_damage_submitted: false,
            render_operation_queue_frame_callback_done_sent: false,
            render_operation_queue_input_support: false,
            render_operation_queue_core_mutation_invoked: false,
            buffer_attached: false,
            damage_submitted: false,
            frame_callback_requested: false,
            render_invoked: false,
            input_invoked: false,
            core_mutation_invoked: false,
        }
    }

    /// The summary of what one texture support shell readiness check saw; each
    /// `missing_*` flag says whether its blocker is listed.
    pub fn from_texture_support_shell_readiness(report: RuntimeSurfaceCommitTextureSupportShellReadinessReport<W>) -> (r: Self)
        ensures
            texture_support_shell_stage(r, report),
    {
        let l_texture_support_shell_readiness_invocations: usize = if report.readiness_invoked { 1 } else { 0 };
        let l_texture_support_shell_work_intents_observed: usize = if report.observed_work_intent.is_some() { 1 } else { 0 };
        let l_texture_support_shell_available = report.texture_support_shell_available;
        let l_texture_support_shell_missing_buffer_importer_shell = lists_runtime_surface_commit_texture_support_shell_blocker(&report.blockers, RuntimeSurfaceCommitTextureSupportShellBlocker::MissingBufferImporterShell);
        let l_texture_support_shell_missing_texture_support = lists_runtime_surface_commit_texture_support_shell_blocker(&report.blockers, RuntimeSurfaceCommitTextureSupportShellBlocker::MissingTextureSupport);
        let l_texture_support_shell_buffer_imported = report.buffer_imported;
        let l_texture_support_shell_texture_created = report.texture_created;
        let l_texture_support_shell_renderer_called = report.renderer_called;
        let l_texture_support_shell_damage_submitted = report.damage_submitted;
        let l_texture_support_shell_frame_callback_done_sent = report.frame_callback_done_sent;
        let l_texture_support_shell_input_support = report.input_support;
        let l_texture_support_shell_core_mutation_invoked = report.core_mutation_invoked;
        let l_texture_support_shell_observed_work_intents = option_into_vec(report.observed_work_intent);
        Self {
            drain_invocations: 0,
            commit_observations_drained: 0,
            commit_observation_errors: 0,
            drained_commit_sequences: Vec::new(),
            buffer_attach_observations: 0,
            buffer_presence_observations: 0,
            buffer_removed_observations: 0,
            renderable_buffer_observations: 0,
            damage_observations: 0,
            surface_damage_rects: 0,
            buffer_damage_rects: 0,
            frame_callback_observations: 0,
            frame_callback_count: 0,
            render_dirty_readiness_intents: Vec::new(),
            render_dirty_queue_drain_invocations: 0,
            render_dirty_intents_enqueued: 0,
            render_dirty_intents_drained: 0,
            render_dirty_queue_drained_intents: Vec::new(),
            render_dirty_queue_buffer_imported: false,
            render_dirty_queue_texture_created: false,
            render_dirty_queue_render_submitted: false,
            render_dirty_queue_frame_callback_done_sent: false,
            render_dirty_queue_input_support: false,
            renderer_admission_invocations: 0,
            renderer_work_intents_created: 0,
            renderer_work_intents: Vec::new(),
            renderer_admission_buffer_imported: false,
            renderer_admission_texture_created: false,
            renderer_admission_render_submitted: false,
            renderer_admission_damage_submitted: false,
            renderer_admission_frame_callback_done_sent: false,
            renderer_admission_input_support: false,
            renderer_admission_core_mutation_invoked: false,
            renderer_owner_boundary_invocations: 0,
            renderer_owner_work_intents_consumed: 0,
            renderer_owner_consumed_work_intents: Vec::new(),
            renderer_owner_missing_renderer_owner: false,
            renderer_owner_missing_buffer_importer: false,
            renderer_owner_missing_texture_support: false,
            renderer_owner_buffer_imported: false,
            renderer_owner_texture_created: false,
            renderer_owner_renderer_called: false,
            renderer_owner_damage_submitted: false,
            renderer_owner_frame_callback_done_sent: false,
            renderer_owner_input_support: false,
            renderer_owner_core_mutation_invoked: false,
            renderer_owner_shell_readiness_invocations: 0,
            renderer_owner_shell_work_intents_observed: 0,
            renderer_owner_shell_observed_work_intents: Vec::new(),
            renderer_owner_shell_available: false,
            renderer_owner_shell_missing_renderer_owner: false,
            renderer_owner_shell_missing_buffer_importer: false,
            renderer_owner_shell_missing_texture_support: false,
            renderer_owner_shell_buffer_imported: false,
            renderer_owner_shell_texture_created: false,
            renderer_owner_shell_renderer_called: false,
            renderer_owner_shell_damage_submitted: false,
            renderer_owner_shell_frame_callback_done_sent: false,
            renderer_owner_shell_input_support: false,
            renderer_owner_shell_core_mutation_invoked: false,
            buffer_importer_shell_readiness_invocations: 0,
            buffer_importer_shell_work_intents_observed: 0,
            buffer_importer_shell_observed_work_intents: Vec::new(),
            buffer_importer_shell_available: false,
            buffer_importer_shell_missing_renderer_owner_shell: false,
            buffer_importer_shell_missing_buffer_importer: false,
            buffer_importer_shell_missing_texture_support: false,
            buffer_importer_shell_buffer_imported: false,
            buffer_importer_shell_texture_created: false,
            buffer_importer_shell_renderer_called: false,
            buffer_importer_shell_damage_submitted: false,
            buffer_importer_shell_frame_callback_done_sent: false,
            buffer_importer_shell_input_support: false,
            buffer_importer_shell_core_mutation_invoked: false,
            texture_support_shell_readiness_invocations: l_texture_support_shell_readiness_invocations,
            texture_support_shell_work_intents_observed: l_texture_support_shell_work_intents_observed,
            texture_support_shell_observed_work_intents: l_texture_support_shell_observed_work_intents,
            texture_support_shell_available: l_texture_support_shell_available,
            texture_support_shell_missing_buffer_importer_shell: l_texture_support_shell_missing_buffer_importer_shell,
            texture_support_shell_missing_texture_support: l_texture_support_shell_missing_texture_support,
            texture_support_shell_buffer_imported: l_texture_support_shell_buffer_imported,
            texture_support_shell_texture_created: l_texture_support_shell_texture_created,
            texture_support_shell_renderer_called: l_texture_support_shell_renderer_called,
            texture_support_shell_damage_submitted: l_texture_support_shell_damage_submitted,
            texture_support_shell_frame_callback_done_sent: l_texture_support_shell_frame_callback_done_sent,
            texture_support_shell_input_support: l_texture_support_shell_input_support,
            texture_support_shell_core_mutation_invoked: l_texture_support_shell_core_mutation_invoked,
            render_operation_readiness_invocations: 0,
            render_operation_intents_created: 0,
            render_operation_intents: Vec::new(),
            render_operation_buffer_imported: false,
            render_operation_texture_created: false,
            render_operation_renderer_called: false,
            render_operation_damage_submitted: false,
            render_operation_frame_callback_done_sent: false,
            render_operation_input_support: false,
            render_operation_core_mutation_invoked: false,
            render_operation_queue_drain_invocations: 0,
            render_operation_intents_enqueued: 0,
            render_operation_intents_drained: 0,
            render_operation_queue_drained_intents: Vec::new(),
            render_operation_queue_buffer_imported: false,
            render_operation_queue_texture_created: false,
            render_operation_queue_renderer_called: false,
            render_operation_queue_damage_submitted: false,
            render_operation_queue_frame_callback_done_sent: false,
            render_operation_queue_input_support: false,
            render_operation_queue_core_mutation_invoked: false,
            buffer_attached: false,
            damage_submitted: false,
            frame_callback_requested: false,
            render_invoked: false,
            input_invoked: false,
            core_mutation_invoked: false,
        }
    }

    /// The summary of what one render operation readiness check did.
    pub fn from_render_operation_readiness(report: RuntimeSurfaceCommitRenderOperationReadinessReport<O>) -> (r: Self)
        ensures
            render_operation_stage(r, report),
    {
        let l_render_operation_readiness_invocations: usize = if report.readiness_invoked { 1 } else { 0 };
        let l_render_operation_intents_created: usize = if report.render_operation_intent_created { 1 } else { 0 };
        let l_render_operation_buffer_imported = report.buffer_imported;
        let l_render_operation_texture_created = report.texture_created;
        let l_render_operation_renderer_called = report.renderer_called;
        let l_render_operation_damage_submitted = report.damage_submitted;
        let l_render_operation_frame_callback_done_sent = report.frame_callback_done_sent;
        let l_render_operation_input_support = report.input_support;
        let l_render_operation_core_mutation_invoked = report.core_mutation_invoked;
        let l_render_operation_intents = option_into_vec(report.render_operation_intent);
        Self {
            drain_invocations: 0,
            commit_observations_drained: 0,
            commit_observation_errors: 0,
            drained_commit_sequences: Vec::new(),
            buffer_attach_observations: 0,
            buffer_presence_observations: 0,
            buffer_removed_observations: 0,
            renderable_buffer_observations: 0,
            damage_observations: 0,
            surface_damage_rects: 0,
            buffer_damage_rects: 0,
            frame_callback_observations: 0,
            frame_callback_count: 0,
            render_dirty_readiness_intents: Vec::new(),
            render_dirty_queue_drain_invocations: 0,
            render_dirty_intents_enqueued: 0,
            render_dirty_intents_drained: 0,
            render_dirty_queue_drained_intents: Vec::new(),
            render_dirty_queue_buffer_imported: false,
            render_dirty_queue_texture_created: false,
            render_dirty_queue_render_submitted: false,
            render_dirty_queue_frame_callback_done_sent: false,
            render_dirty_queue_input_support: false,
            renderer_admission_invocations: 0,
            renderer_work_intents_created: 0,
            renderer_work_intents: Vec::new(),
            renderer_admission_buffer_imported: false,
            renderer_admission_texture_created: false,
            renderer_admission_render_submitted: false,
            renderer_admission_damage_submitted: false,
            renderer_admission_frame_callback_done_sent: false,
            renderer_admission_input_support: false,
            renderer_admission_core_mutation_invoked: false,
            renderer_owner_boundary_invocations: 0,
            renderer_owner_work_intents_consumed: 0,
            renderer_owner_consumed_work_intents: Vec::new(),
            renderer_owner_missing_renderer_owner: false,
            renderer_owner_missing_buffer_importer: false,
            renderer_owner_missing_texture_support: false,
            renderer_owner_buffer_imported: false,
            renderer_owner_texture_created: false,
            renderer_owner_renderer_called: false,
            renderer_owner_damage_submitted: false,
            renderer_owner_frame_callback_done_sent: false,
            renderer_owner_input_support: false,
            renderer_owner_core_mutation_invoked: false,
            renderer_owner_shell_readiness_invocations: 0,
            renderer_owner_shell_work_intents_observed: 0,
            renderer_owner_shell_observed_work_intents: Vec::new(),
            renderer_owner_shell_available: false,
            renderer_owner_shell_missing_renderer_owner: false,
            renderer_owner_shell_missing_buffer_importer: false,
            renderer_owner_shell_missing_texture_support: false,
            renderer_owner_shell_buffer_imported: false,
            renderer_owner_shell_texture_created: false,
            renderer_owner_shell_renderer_called: false,
            renderer_owner_shell_damage_submitted: false,
            renderer_owner_shell_frame_callback_done_sent: false,
            renderer_owner_shell_input_support: false,
            renderer_owner_shell_core_mutation_invoked: false,
            buffer_importer_shell_readiness_invocations: 0,
            buffer_importer_shell_work_intents_observed: 0,
            buffer_importer_shell_observed_work_intents: Vec::new(),
            buffer_importer_shell_available: false,
            buffer_importer_shell_missing_renderer_owner_shell: false,
            buffer_importer_shell_missing_buffer_importer: false,
            buffer_importer_shell_missing_texture_support: false,
            buffer_importer_shell_buffer_imported: false,
            buffer_importer_shell_texture_created: false,
            buffer_importer_shell_renderer_called: false,
            buffer_importer_shell_damage_submitted: false,
            buffer_importer_shell_frame_callback_done_sent: false,
            buffer_importer_shell_input_support: false,
            buffer_importer_shell_core_mutation_invoked: false,
            texture_support_shell_readiness_invocations: 0,
            texture_support_shell_work_intents_observed: 0,
            texture_support_shell_observed_work_intents: Vec::new(),
            texture_support_shell_available: false,
            texture_support_shell_missing_buffer_importer_shell: false,
            texture_support_shell_missing_texture_support: false,
            texture_support_shell_buffer_imported: false,
            texture_support_shell_texture_created: false,
            texture_support_shell_renderer_called: false,
            texture_support_shell_damage_submitted: false,
            texture_support_shell_frame_callback_done_sent: false,
            texture_support_shell_input_support: false,
            texture_support_shell_core_mutation_invoked: false,
            render_operation_readiness_invocations: l_render_operation_readiness_invocations,
            render_operation_intents_created: l_render_operation_intents_created,
            render_operation_intents: l_render_operation_intents,
            render_operation_buffer_imported: l_render_operation_buffer_imported,
            render_operation_texture_created: l_render_operation_texture_created,
            render_operation_renderer_called: l_render_operation_renderer_called,
            render_operation_damage_submitted: l_render_operation_damage_submitted,
            render_operation_frame_callback_done_sent: l_render_operation_frame_callback_done_sent,
            render_operation_input_support: l_render_operation_input_support,
            render_operation_core_mutation_invoked: l_render_operation_core_mutation_invoked,
            render_operation_queue_drain_invocations: 0,
            render_operation_intents_enqueued: 0,
            render_operation_intents_drained: 0,
            render_operation_queue_drained_intents: Vec::new(),
            render_operation_queue_buffer_imported: false,
            render_operation_queue_texture_created: false,
            render_operation_queue_renderer_called: false,
            render_operation_queue_damage_submitted: false,
            render_operation_queue_frame_callback_done_sent: false,
            render_operation_queue_input_support: false,
            render_operation_queue_core_mutation_invoked: false,
            buffer_attached: false,
            damage_submitted: false,
            frame_callback_requested: false,
            render_invoked: false,
            input_invoked: false,
            core_mutation_invoked: false,
        }
    }

    /// The summary of what one render operation intent queue drain did.
    pub fn from_render_operation_intent_drain(report: RuntimeSurfaceCommitRenderOperationIntentDrainReport<O>) -> (r: Self)
        ensures
            render_operation_queue_stage(r, report),
    {
        let l_render_operation_queue_drain_invocations: usize = if report.drain_invoked { 1 } else { 0 };
        let l_render_operation_intents_enqueued: usize = if report.intent_enqueued { 1 } else { 0 };
        let l_render_operation_intents_drained: usize = if report.intent_drained { 1 } else { 0 };
        let l_render_operation_queue_buffer_imported = report.buffer_imported;
        let l_render_operation_queue_texture_created = report.texture_created;
        let l_render_operation_queue_renderer_called = report.renderer_called;
        let l_render_operation_queue_damage_submitted = report.damage_submitted;
        let l_render_operation_queue_frame_callback_done_sent = report.frame_callback_done_sent;
        let l_render_operation_queue_input_support = report.input_support;
        let l_render_operation_queue_core_mutation_invoked = report.core_mutation_invoked;
        let l_render_operation_queue_drained_intents = option_into_vec(report.drained_intent);
        Self {
            drain_invocations: 0,
            commit_observations_drained: 0,
            commit_observation_errors: 0,
            drained_commit_sequences: Vec::new(),
            buffer_attach_observations: 0,
            buffer_presence_observations: 0,
            buffer_removed_observations: 0,
            renderable_buffer_observations: 0,
            damage_observations: 0,
            surface_damage_rects: 0,
            buffer_damage_rects: 0,
            frame_callback_observations: 0,
            frame_callback_count: 0,
            render_dirty_readiness_intents: Vec::new(),
            render_dirty_queue_drain_invocations: 0,
            render_dirty_intents_enqueued: 0,
            render_dirty_intents_drained: 0,
            render_dirty_queue_drained_intents: Vec::new(),
            render_dirty_queue_buffer_imported: false,
            render_dirty_queue_texture_created: false,
            render_dirty_queue_render_submitted: false,
            render_dirty_queue_frame_callback_done_sent: false,
            render_dirty_queue_input_support: false,
            renderer_admission_invocations: 0,
            renderer_work_intents_created: 0,
            renderer_work_intents: Vec::new(),
            renderer_admission_buffer_imported: false,
            renderer_admission_texture_created: false,
            renderer_admission_render_submitted: false,
            renderer_admission_damage_submitted: false,
            renderer_admission_frame_callback_done_sent: false,
            renderer_admission_input_support: false,
            renderer_admission_core_mutation_invoked: false,
            renderer_owner_boundary_invocations: 0,
            renderer_owner_work_intents_consumed: 0,
            renderer_owner_consumed_work_intents: Vec::new(),
            renderer_owner_missing_renderer_owner: false,
            renderer_owner_missing_buffer_importer: false,
            renderer_owner_missing_texture_support: false,
            renderer_owner_buffer_imported: false,
            renderer_owner_texture_created: false,
            renderer_owner_renderer_called: false,
            renderer_owner_damage_submitted: false,
            renderer_owner_frame_callback_done_sent: false,
            renderer_owner_input_support: false,
            renderer_owner_core_mutation_invoked: false,
            renderer_owner_shell_readiness_invocations: 0,
            renderer_owner_shell_work_intents_observed: 0,
            renderer_owner_shell_observed_work_intents: Vec::new(),
            renderer_owner_shell_available: false,
            renderer_owner_shell_missing_renderer_owner: false,
            renderer_owner_shell_missing_buffer_importer: false,
            renderer_owner_shell_missing_texture_support: false,
            renderer_owner_shell_buffer_imported: false,
            renderer_owner_shell_texture_created: false,
            renderer_owner_shell_renderer_called: false,
            renderer_owner_shell_damage_submitted: false,
            renderer_owner_shell_frame_callback_done_sent: false,
            renderer_owner_shell_input_support: false,
            renderer_owner_shell_core_mutation_invoked: false,
            buffer_importer_shell_readiness_invocations: 0,
            buffer_importer_shell_work_intents_observed: 0,
            buffer_importer_shell_observed_work_intents: Vec::new(),
            buffer_importer_shell_available: false,
            buffer_importer_shell_missing_renderer_owner_shell: false,
            buffer_importer_shell_missing_buffer_importer: false,
            buffer_importer_shell_missing_texture_support: false,
            buffer_importer_shell_buffer_imported: false,
            buffer_importer_shell_texture_created: false,
            buffer_importer_shell_renderer_called: false,
            buffer_importer_shell_damage_submitted: false,
            buffer_importer_shell_frame_callback_done_sent: false,
            buffer_importer_shell_input_support: false,
            buffer_importer_shell_core_mutation_invoked: false,
            texture_support_shell_readiness_invocations: 0,
            texture_support_shell_work_intents_observed: 0,
            texture_support_shell_observed_work_intents: Vec::new(),
            texture_support_shell_available: false,
            texture_support_shell_missing_buffer_importer_shell: false,
            texture_support_shell_missing_texture_support: false,
            texture_support_shell_buffer_imported: false,
            texture_support_shell_texture_created: false,
            texture_support_shell_renderer_called: false,
            texture_support_shell_damage_submitted: false,
            texture_support_shell_frame_callback_done_sent: false,
            texture_support_shell_input_support: false,
            texture_support_shell_core_mutation_invoked: false,
            render_operation_readiness_invocations: 0,
            render_operation_intents_created: 0,
            render_operation_intents: Vec::new(),
            render_operation_buffer_imported: false,
            render_operation_texture_created: false,
            render_operation_renderer_called: false,
            render_operation_damage_submitted: false,
            render_operation_frame_callback_done_sent: false,
            render_operation_input_support: false,
            render_operation_core_mutation_invoked: false,
            render_operation_queue_drain_invocations: l_render_operation_queue_drain_invocations,
            render_operation_intents_enqueued: l_render_operation_intents_enqueued,
            render_operation_intents_drained: l_render_operation_intents_drained,
            render_operation_queue_drained_intents: l_render_operation_queue_drained_intents,
            render_operation_queue_buffer_imported: l_render_operation_queue_buffer_imported,
            render_operation_queue_texture_created: l_render_operation_queue_texture_created,
            render_operation_queue_renderer_called: l_render_operation_queue_renderer_called,
            render_operation_queue_damage_submitted: l_render_operation_queue_damage_submitted,
            render_operation_queue_frame_callback_done_sent: l_render_operation_queue_frame_callback_done_sent,
            render_operation_queue_input_support: l_render_operation_queue_input_support,
            render_operation_queue_core_mutation_invoked: l_render_operation_queue_core_mutation_invoked,
            buffer_attached: false,
            damage_submitted: false,
            frame_callback_requested: false,
            render_invoked: false,
            input_invoked: false,
            core_mutation_invoked: false,
        }
    }

}

/// What the coordinator reported of one admission enqueue.
#[derive(Debug, Clone, Copy, PartialEq, Eq, Structural)]
pub struct CoordinatorAdmissionEnqueueReport {
    /// A pending admission was enqueued.
    pub pending_admission_enqueued: bool,
}

/// What the conversion reads of one run of the live admission owner.
#[derive(Debug, Clone, Copy, PartialEq, Eq, Structural)]
pub struct LiveToplevelAdmissionOwnerReport {
    /// The owner called the coordinator's enqueue seam.
    pub coordinator_enqueue_invoked: bool,
    /// What that enqueue reported, when it ran.
    pub coordinator_enqueue_report: Option<CoordinatorAdmissionEnqueueReport>,
}

/// What the conversion reads of one admission drain.
#[derive(Debug, Clone, Copy, PartialEq, Eq, Structural)]
pub struct RuntimeToplevelAdmissionDrainReport {
    /// The drain ran.
    pub drain_invoked: bool,
    /// A pending admission was consumed.
    pub pending_admission_consumed: bool,
    /// Pending admissions left afterwards.
    pub pending_admission_count_after: usize,
}

/// What the conversion reads of one unmap drain.
#[derive(Debug, Clone, Copy, PartialEq, Eq, Structural)]
pub struct RuntimeToplevelUnmapDrainReport {
    /// The drain ran.
    pub drain_invoked: bool,
    /// A live unmap observation was present.
    pub live_unmap_observation_present: bool,
    /// The admission ledger unmapped the toplevel.
    pub ledger_unmap_invoked: bool,
    /// The core detached the window.
    pub core_detach_invoked: bool,
    /// The surface mapping was kept after the unmap.
    pub surface_mapping_retained_after_unmap: bool,
    /// The toplevel mapping was removed after the unmap.
    pub toplevel_mapping_removed_after_unmap: bool,
}

/// One live admission pump: the lifecycle report, the admission owner's
/// report and the admission drain's report.
#[derive(Debug, Clone, PartialEq, Eq)]
pub struct NestedRuntimeLiveAdmissionPumpReport {
    /// The lifecycle pump report.
    pub lifecycle_report: NestedRuntimePumpReport,
    /// The admission owner's report.
    pub live_admission_owner_report: LiveToplevelAdmissionOwnerReport,
    /// The admission drain's report.
    pub admission_drain_report: RuntimeToplevelAdmissionDrainReport,
}

/// One pump with live admission, unmap and every surface commit stage.
#[derive(Debug, Clone, PartialEq, Eq)]
pub struct NestedRuntimeLiveAdmissionUnmapPumpReport<D, W, O> {
    /// The lifecycle pump report.
    pub lifecycle_report: NestedRuntimePumpReport,
    /// The admission owner's report.
    pub live_admission_owner_report: LiveToplevelAdmissionOwnerReport,
    /// The admission drain's report.
    pub admission_drain_report: RuntimeToplevelAdmissionDrainReport,
    /// The unmap drain's report.
    pub unmap_drain_report: RuntimeToplevelUnmapDrainReport,
    /// The surface commit drain.
    pub surface_commit_drain_report: RuntimeSurfaceCommitDrainReport,
    /// The render-dirty readiness intent derived from the commit drain.
    pub render_dirty_readiness_intent: Option<D>,
    /// The render-dirty intent queue drain.
    pub render_dirty_intent_drain_report: RuntimeSurfaceCommitRenderDirtyIntentDrainReport<D>,
    /// The renderer admission.
    pub renderer_admission_report: RuntimeSurfaceCommitRendererAdmissionReport<W>,
    /// The renderer owner boundary.
    pub renderer_owner_boundary_report: RuntimeSurfaceCommitRendererOwnerBoundaryReport<W>,
    /// The renderer owner shell readiness check.
    pub renderer_owner_shell_readiness_report: RuntimeSurfaceCommitRendererOwnerShellReadinessReport<W>,
    /// The buffer importer shell readiness check.
    pub buffer_importer_shell_readiness_report: RuntimeSurfaceCommitBufferImporterShellReadinessReport<W>,
    /// The texture support shell readiness check.
    pub texture_support_shell_readiness_report: RuntimeSurfaceCommitTextureSupportShellReadinessReport<W>,
    /// The render operation readiness check.
    pub render_operation_readiness_report: RuntimeSurfaceCommitRenderOperationReadinessReport<O>,
    /// The render operation intent queue drain.
    pub render_operation_intent_drain_report: RuntimeSurfaceCommitRenderOperationIntentDrainReport<O>,
}

/// The live admission summary of one pump: one owner run, the enqueue and
/// consume counts as 1 or 0, and the pending count after the drain.
pub open spec fn admission_summary(
    owner: LiveToplevelAdmissionOwnerReport,
    drain: RuntimeToplevelAdmissionDrainReport,
) -> NestedRuntimeLiveAdmissionRunSummary {
    NestedRuntimeLiveAdmissionRunSummary {
        owner_invocations: 1,
        enqueue_invocations: if owner.coordinator_enqueue_invoked { 1 } else { 0 },
        admissions_enqueued: match owner.coordinator_enqueue_report {
            Some(e) => if e.pending_admission_enqueued { 1 } else { 0 },
            None => 0,
        },
        drain_invocations: if drain.drain_invoked { 1 } else { 0 },
        admissions_consumed: if drain.pending_admission_consumed { 1 } else { 0 },
        pending_admissions_after: drain.pending_admission_count_after,
    }
}

/// The live unmap summary of one unmap drain: each fact counts as 1 or 0.
pub open spec fn unmap_summary(u: RuntimeToplevelUnmapDrainReport) -> NestedRuntimeLiveUnmapRunSummary {
    NestedRuntimeLiveUnmapRunSummary {
        drain_invocations: if u.drain_invoked { 1 } else { 0 },
        live_unmap_observations: if u.live_unmap_observation_present { 1 } else { 0 },
        ledger_unmaps: if u.ledger_unmap_invoked { 1 } else { 0 },
        core_detaches: if u.core_detach_invoked { 1 } else { 0 },
        surface_mappings_retained: if u.surface_mapping_retained_after_unmap { 1 } else { 0 },
        toplevel_mappings_removed: if u.toplevel_mapping_removed_after_unmap { 1 } else { 0 },
    }
}

fn count(b: bool) -> (r: usize)
    ensures
        r == (if b { 1usize } else { 0usize }),
{
    if b {
        1
    } else {
        0
    }
}

impl NestedRuntimeLiveAdmissionRunSummary {
    /// The summary of one live admission pump.
    pub fn from_live_pump(report: &NestedRuntimeLiveAdmissionPumpReport) -> (r: Self)
        ensures
            r == admission_summary(report.live_admission_owner_report, report.admission_drain_report),
    {
        let owner = report.live_admission_owner_report;
        let drain = report.admission_drain_report;
        let enqueued = match owner.coordinator_enqueue_report {
            Some(e) => e.pending_admission_enqueued,
            None => false,
        };
        Self {
            owner_invocations: 1,
            enqueue_invocations: count(owner.coordinator_enqueue_invoked),
            admissions_enqueued: count(enqueued),
            drain_invocations: count(drain.drain_invoked),
            admissions_consumed: count(drain.pending_admission_consumed),
            pending_admissions_after: drain.pending_admission_count_after,
        }
    }
}

impl NestedRuntimeLiveUnmapRunSummary {
    /// The summary of one unmap drain.
    pub fn from_live_admission_unmap(report: &RuntimeToplevelUnmapDrainReport) -> (r: Self)
        ensures
            r == unmap_summary(*report),
    {
        Self {
            drain_invocations: count(report.drain_invoked),
            live_unmap_observations: count(report.live_unmap_observation_present),
            ledger_unmaps: count(report.ledger_unmap_invoked),
            core_detaches: count(report.core_detach_invoked),
            surface_mappings_retained: count(report.surface_mapping_retained_after_unmap),
            toplevel_mappings_removed: count(report.toplevel_mapping_removed_after_unmap),
        }
    }
}

/// `stages` are the summaries of the pump's nine commit stages, in pipeline
/// order, and `acc[k]` is the first `k + 1` of them observed one after another.
pub open spec fn commit_pipeline<D, W, O>(
    report: NestedRuntimeLiveAdmissionUnmapPumpReport<D, W, O>,
    stages: Seq<NestedRuntimeSurfaceCommitRunSummary<D, W, O>>,
    acc: Seq<NestedRuntimeSurfaceCommitRunSummary<D, W, O>>,
) -> bool {
    &&& stages.len() == 9
    &&& acc.len() == 9
    &&& drain_stage(stages[0], report.surface_commit_drain_report, report.render_dirty_readiness_intent)
    &&& dirty_queue_stage(stages[1], report.render_dirty_intent_drain_report)
    &&& renderer_admission_stage(stages[2], report.renderer_admission_report)
    &&& renderer_owner_stage(stages[3], report.renderer_owner_boundary_report)
    &&& renderer_owner_shell_stage(stages[4], report.renderer_owner_shell_readiness_report)
    &&& buffer_importer_shell_stage(stages[5], report.buffer_importer_shell_readiness_report)
    &&& texture_support_shell_stage(stages[6], report.texture_support_shell_readiness_report)
    &&& render_operation_stage(stages[7], report.render_operation_readiness_report)
    &&& render_operation_queue_stage(stages[8], report.render_operation_intent_drain_report)
    &&& acc[0] == stages[0]
    &&& commit_observed(acc[0], stages[1], acc[1])
    &&& commit_observed(acc[1], stages[2], acc[2])
    &&& commit_observed(acc[2], stages[3], acc[3])
    &&& commit_observed(acc[3], stages[4], acc[4])
    &&& commit_observed(acc[4], stages[5], acc[5])
    &&& commit_observed(acc[5], stages[6], acc[6])
    &&& commit_observed(acc[6], stages[7], acc[7])
    &&& commit_observed(acc[7], stages[8], acc[8])
}

impl<D, W, O> ObservedNestedRuntimePumpReport<D, W, O> {
    /// The observed pump of a live admission/unmap pump report: the lifecycle
    /// report as is, the admission and unmap summaries, and the surface commit
    /// summary of its nine stages observed in pipeline order.
    pub fn from_live_admission_unmap(report: NestedRuntimeLiveAdmissionUnmapPumpReport<D, W, O>) -> (r:
        Self)
        ensures
            r.lifecycle_report == report.lifecycle_report,
            r.live_admission == admission_summary(
                report.live_admission_owner_report,
                report.admission_drain_report,
            ),
            r.live_unmap == unmap_summary(report.unmap_drain_report),
            exists|stages: Seq<NestedRuntimeSurfaceCommitRunSummary<D, W, O>>, acc: Seq<
                NestedRuntimeSurfaceCommitRunSummary<D, W, O>,
            >| #[trigger] commit_pipeline(report, stages, acc) && acc[8] == r.surface_commit,
    {
        let ghost original = report;
        let NestedRuntimeLiveAdmissionUnmapPumpReport {
            lifecycle_report,
            live_admission_owner_report,
            admission_drain_report,
            unmap_drain_report,
            surface_commit_drain_report,
            render_dirty_readiness_intent,
            render_dirty_intent_drain_report,
            renderer_admission_report,
            renderer_owner_boundary_report,
            renderer_owner_shell_readiness_report,
            buffer_importer_shell_readiness_report,
            texture_support_shell_readiness_report,
            render_operation_readiness_report,
            render_operation_intent_drain_report,
        } = report;
        let mut acc = NestedRuntimeSurfaceCommitRunSummary::from_surface_commit_drain(
            surface_commit_drain_report,
            render_dirty_readiness_intent,
        );
        let ghost g0 = acc;
        let ghost a0 = acc;
        let d1 = NestedRuntimeSurfaceCommitRunSummary::from_render_dirty_intent_drain(render_dirty_intent_drain_report);
        let ghost g1 = d1;
        acc.observe(d1);
        let ghost a1 = acc;
        let d2 = NestedRuntimeSurfaceCommitRunSummary::from_renderer_admission(renderer_admission_report);
        let ghost g2 = d2;
        acc.observe(d2);
        let ghost a2 = acc;
        let d3 = NestedRuntimeSurfaceCommitRunSummary::from_renderer_owner_boundary(renderer_owner_boundary_report);
        let ghost g3 = d3;
        acc.observe(d3);
        let ghost a3 = acc;
        let d4 = NestedRuntimeSurfaceCommitRunSummary::from_renderer_owner_shell_readiness(renderer_owner_shell_readiness_report);
        let ghost g4 = d4;
        acc.observe(d4);
        let ghost a4 = acc;
        let d5 = NestedRuntimeSurfaceCommitRunSummary::from_buffer_importer_shell_readiness(buffer_importer_shell_readiness_report);
        let ghost g5 = d5;
        acc.observe(d5);
        let ghost a5 = acc;
        let d6 = NestedRuntimeSurfaceCommitRunSummary::from_texture_support_shell_readiness(texture_support_shell_readiness_report);
        let ghost g6 = d6;
        acc.observe(d6);
        let ghost a6 = acc;
        let d7 = NestedRuntimeSurfaceCommitRunSummary::from_render_operation_readiness(render_operation_readiness_report);
        let ghost g7 = d7;
        acc.observe(d7);
        let ghost a7 = acc;
        let d8 = NestedRuntimeSurfaceCommitRunSummary::from_render_operation_intent_drain(render_operation_intent_drain_report);
        let ghost g8 = d8;
        acc.observe(d8);
        let ghost a8 = acc;
        proof {
            let stages = seq![g0, g1, g2, g3, g4, g5, g6, g7, g8];
            let accs = seq![a0, a1, a2, a3, a4, a5, a6, a7, a8];
            assert(commit_pipeline(original, stages, accs));
        }
        let pump = NestedRuntimeLiveAdmissionPumpReport {
            lifecycle_report,
            live_admission_owner_report,
            admission_drain_report,
        };
        let live_admission = NestedRuntimeLiveAdmissionRunSummary::from_live_pump(&pump);
        let live_unmap = NestedRuntimeLiveUnmapRunSummary::from_live_admission_unmap(&unmap_drain_report);
        Self { lifecycle_report: pump.lifecycle_report, live_admission, live_unmap, surface_commit: acc }
    }
}

} // verus!
