use sky_mirror::smithay_backend::commit_stages::{
    CoordinatorAdmissionEnqueueReport, LiveToplevelAdmissionOwnerReport,
    NestedRuntimeLiveAdmissionPumpReport, NestedRuntimeLiveAdmissionUnmapPumpReport,
    RuntimeSurfaceCommitBufferImporterShellBlocker, RuntimeSurfaceCommitBufferImporterShellReadinessReport,
    RuntimeSurfaceCommitDrainReport, RuntimeSurfaceCommitRenderDirtyIntentDrainReport,
    RuntimeSurfaceCommitRenderOperationIntentDrainReport, RuntimeSurfaceCommitRenderOperationReadinessReport,
    RuntimeSurfaceCommitRendererAdmissionReport, RuntimeSurfaceCommitRendererOwnerBoundaryBlocker,
    RuntimeSurfaceCommitRendererOwnerBoundaryReport, RuntimeSurfaceCommitRendererOwnerShellBlocker,
    RuntimeSurfaceCommitRendererOwnerShellReadinessReport,
    RuntimeSurfaceCommitTextureSupportShellBlocker, RuntimeSurfaceCommitTextureSupportShellReadinessReport,
    RuntimeToplevelAdmissionDrainReport, RuntimeToplevelUnmapDrainReport,
};
use sky_mirror::smithay_backend::nested_runtime_loop::{
    NestedRuntimeLiveAdmissionRunSummary, NestedRuntimePumpReport, NestedRuntimeSurfaceCommitRunSummary,
    ObservedNestedRuntimePumpReport,
};

type Summary = NestedRuntimeSurfaceCommitRunSummary<&'static str, &'static str, &'static str>;

fn drain(sequence: Option<u64>) -> RuntimeSurfaceCommitDrainReport {
    RuntimeSurfaceCommitDrainReport {
        drain_invoked: true,
        commit_observation_resolved: sequence.is_some(),
        commit_observation_failed: false,
        commit_sequence: sequence,
        buffer_attach_observed: true,
        buffer_present: true,
        buffer_removed: false,
        renderable_buffer: true,
        damage_observed: true,
        surface_damage_rects: 2,
        buffer_damage_rects: 1,
        frame_callback_observed: true,
        frame_callback_count: 3,
        buffer_attached: false,
        damage_submitted: false,
        frame_callback_requested: false,
        render_invoked: false,
        input_invoked: false,
        core_mutation_invoked: false,
    }
}

/// A commit drain counts each observed fact once and keeps its sequence and
/// the derived render-dirty intent; other stages stay empty.
#[test]
fn commit_drain_summary_counts_evidence() {
    let summary: Summary = Summary::from_surface_commit_drain(drain(Some(7)), Some("dirty-7"));
    assert_eq!(summary.drain_invocations, 1);
    assert_eq!(summary.commit_observations_drained, 1);
    assert_eq!(summary.drained_commit_sequences, vec![7]);
    assert_eq!(summary.buffer_attach_observations, 1);
    assert_eq!(summary.buffer_removed_observations, 0);
    assert_eq!(summary.surface_damage_rects, 2);
    assert_eq!(summary.frame_callback_count, 3);
    assert_eq!(summary.render_dirty_readiness_intents, vec!["dirty-7"]);
    assert_eq!(summary.renderer_admission_invocations, 0);
    assert!(summary.render_operation_queue_drained_intents.is_empty());
    assert!(summary.has_progress());
}

/// A readiness check turns its blockers into the `missing_*` flags and
/// counts an observed intent once.
#[test]
fn shell_readiness_summaries_map_blockers() {
    let owner: Summary = Summary::from_renderer_owner_shell_readiness(
        RuntimeSurfaceCommitRendererOwnerShellReadinessReport {
            readiness_invoked: true,
            observed_work_intent: Some("work-1"),
            renderer_owner_shell_available: true,
            blockers: vec![
                RuntimeSurfaceCommitRendererOwnerShellBlocker::MissingBufferImporter,
                RuntimeSurfaceCommitRendererOwnerShellBlocker::MissingTextureSupport,
            ],
            buffer_imported: false,
            texture_created: false,
            renderer_called: false,
            damage_submitted: false,
            frame_callback_done_sent: false,
            input_support: false,
            core_mutation_invoked: false,
        },
    );
    assert_eq!(owner.renderer_owner_shell_readiness_invocations, 1);
    assert_eq!(owner.renderer_owner_shell_work_intents_observed, 1);
    assert_eq!(owner.renderer_owner_shell_observed_work_intents, vec!["work-1"]);
    assert!(owner.renderer_owner_shell_available);
    assert!(!owner.renderer_owner_shell_missing_renderer_owner);
    assert!(owner.renderer_owner_shell_missing_buffer_importer);
    assert!(owner.renderer_owner_shell_missing_texture_support);

    let texture: Summary = Summary::from_texture_support_shell_readiness(
        RuntimeSurfaceCommitTextureSupportShellReadinessReport {
            readiness_invoked: true,
            observed_work_intent: None,
            texture_support_shell_available: false,
            blockers: vec![RuntimeSurfaceCommitTextureSupportShellBlocker::MissingBufferImporterShell],
            buffer_imported: false,
            texture_created: false,
            renderer_called: false,
            damage_submitted: false,
            frame_callback_done_sent: false,
            input_support: false,
            core_mutation_invoked: false,
        },
    );
    assert_eq!(texture.texture_support_shell_work_intents_observed, 0);
    assert!(texture.texture_support_shell_observed_work_intents.is_empty());
    assert!(texture.texture_support_shell_missing_buffer_importer_shell);
    assert!(!texture.texture_support_shell_missing_texture_support);
}

fn flags_off_owner(blockers: Vec<RuntimeSurfaceCommitRendererOwnerBoundaryBlocker>) -> RuntimeSurfaceCommitRendererOwnerBoundaryReport<&'static str> {
    RuntimeSurfaceCommitRendererOwnerBoundaryReport {
        consume_invoked: true,
        work_intent_consumed: true,
        consumed_work_intent: Some("work-1"),
        blockers,
        buffer_imported: false,
        texture_created: false,
        renderer_called: false,
        damage_submitted: false,
        frame_callback_done_sent: false,
        input_support: false,
        core_mutation_invoked: false,
    }
}

/// One full pump: the stages are observed in pipeline order into one
/// summary, and the admission and unmap facts count as 1 or 0.
#[test]
fn live_admission_unmap_pump_observes_every_stage() {
    let report = NestedRuntimeLiveAdmissionUnmapPumpReport {
        lifecycle_report: NestedRuntimePumpReport {
            accepted_clients: 0,
            inserted_clients: 0,
            connected_events_drained: 0,
            registered_core_clients: Vec::new(),
            dispatch_clients_called: true,
            dispatched_requests: Some(0),
            disconnected_events_drained: 0,
            closed_core_clients: Vec::new(),
            validation_is_clean: true,
            errors: Vec::new(),
        },
        live_admission_owner_report: LiveToplevelAdmissionOwnerReport {
            coordinator_enqueue_invoked: true,
            coordinator_enqueue_report: Some(CoordinatorAdmissionEnqueueReport {
                pending_admission_enqueued: true,
            }),
        },
        admission_drain_report: RuntimeToplevelAdmissionDrainReport {
            drain_invoked: true,
            pending_admission_consumed: true,
            pending_admission_count_after: 0,
        },
        unmap_drain_report: RuntimeToplevelUnmapDrainReport {
            drain_invoked: true,
            live_unmap_observation_present: false,
            ledger_unmap_invoked: false,
            core_detach_invoked: false,
            surface_mapping_retained_after_unmap: false,
            toplevel_mapping_removed_after_unmap: false,
        },
        surface_commit_drain_report: drain(Some(11)),
        render_dirty_readiness_intent: Some("dirty-11"),
        render_dirty_intent_drain_report: RuntimeSurfaceCommitRenderDirtyIntentDrainReport {
            drain_invoked: true,
            intent_enqueued: true,
            intent_drained: true,
            drained_intent: Some("dirty-11"),
            buffer_imported: false,
            texture_created: false,
            render_submitted: false,
            frame_callback_done_sent: false,
            input_support: false,
        },
        renderer_admission_report: RuntimeSurfaceCommitRendererAdmissionReport {
            renderer_admission_invoked: true,
            work_intent_created: true,
            work_intent: Some("work-1"),
            buffer_imported: false,
            texture_created: false,
            render_submitted: false,
            damage_submitted: false,
            frame_callback_done_sent: false,
            input_support: false,
            core_mutation_invoked: false,
        },
        renderer_owner_boundary_report: flags_off_owner(vec![
            RuntimeSurfaceCommitRendererOwnerBoundaryBlocker::MissingRendererOwner,
        ]),
        renderer_owner_shell_readiness_report: RuntimeSurfaceCommitRendererOwnerShellReadinessReport {
            readiness_invoked: false,
            observed_work_intent: None,
            renderer_owner_shell_available: false,
            blockers: Vec::new(),
            buffer_imported: false,
            texture_created: false,
            renderer_called: false,
            damage_submitted: false,
            frame_callback_done_sent: false,
            input_support: false,
            core_mutation_invoked: false,
        },
        buffer_importer_shell_readiness_report: RuntimeSurfaceCommitBufferImporterShellReadinessReport {
            readiness_invoked: true,
            observed_work_intent: Some("work-1"),
            buffer_importer_shell_available: false,
            blockers: vec![RuntimeSurfaceCommitBufferImporterShellBlocker::MissingBufferImporter],
            buffer_imported: false,
            texture_created: false,
            renderer_called: false,
            damage_submitted: false,
            frame_callback_done_sent: false,
            input_support: false,
            core_mutation_invoked: false,
        },
        texture_support_shell_readiness_report: RuntimeSurfaceCommitTextureSupportShellReadinessReport {
            readiness_invoked: false,
            observed_work_intent: None,
            texture_support_shell_available: false,
            blockers: Vec::new(),
            buffer_imported: false,
            texture_created: false,
            renderer_called: false,
            damage_submitted: false,
            frame_callback_done_sent: false,
            input_support: false,
            core_mutation_invoked: false,
        },
        render_operation_readiness_report: RuntimeSurfaceCommitRenderOperationReadinessReport {
            readiness_invoked: true,
            render_operation_intent_created: true,
            render_operation_intent: Some("op-1"),
            buffer_imported: false,
            texture_created: false,
            renderer_called: false,
            damage_submitted: false,
            frame_callback_done_sent: false,
            input_support: false,
            core_mutation_invoked: false,
        },
        render_operation_intent_drain_report: RuntimeSurfaceCommitRenderOperationIntentDrainReport {
            drain_invoked: true,
            intent_enqueued: true,
            intent_drained: true,
            drained_intent: Some("op-1"),
            buffer_imported: false,
            texture_created: false,
            renderer_called: false,
            damage_submitted: false,
            frame_callback_done_sent: false,
            input_support: false,
            core_mutation_invoked: false,
        },
    };

    let observed = ObservedNestedRuntimePumpReport::from_live_admission_unmap(report);
    let commit = &observed.surface_commit;
    assert_eq!(commit.drained_commit_sequences, vec![11]);
    assert_eq!(commit.render_dirty_readiness_intents, vec!["dirty-11"]);
    assert_eq!(commit.render_dirty_queue_drained_intents, vec!["dirty-11"]);
    assert_eq!(commit.renderer_work_intents, vec!["work-1"]);
    assert_eq!(commit.renderer_owner_consumed_work_intents, vec!["work-1"]);
    assert!(commit.renderer_owner_missing_renderer_owner);
    assert!(!commit.renderer_owner_missing_texture_support);
    assert_eq!(commit.renderer_owner_shell_readiness_invocations, 0);
    assert_eq!(commit.buffer_importer_shell_observed_work_intents, vec!["work-1"]);
    assert!(commit.buffer_importer_shell_missing_buffer_importer);
    assert_eq!(commit.render_operation_intents, vec!["op-1"]);
    assert_eq!(commit.render_operation_queue_drained_intents, vec!["op-1"]);
    assert!(!commit.render_invoked);

    assert_eq!(observed.live_admission.owner_invocations, 1);
    assert_eq!(observed.live_admission.admissions_enqueued, 1);
    assert_eq!(observed.live_admission.admissions_consumed, 1);
    assert_eq!(observed.live_unmap.drain_invocations, 1);
    assert_eq!(observed.live_unmap.live_unmap_observations, 0);
    assert!(observed.live_admission.has_progress());
    assert!(!observed.live_unmap.has_progress());
}

/// Without an enqueue report the owner run still counts, enqueues do not.
#[test]
fn live_pump_without_enqueue_report_counts_owner_only() {
    let pump = NestedRuntimeLiveAdmissionPumpReport {
        lifecycle_report: NestedRuntimePumpReport {
            accepted_clients: 0,
            inserted_clients: 0,
            connected_events_drained: 0,
            registered_core_clients: Vec::new(),
            dispatch_clients_called: false,
            dispatched_requests: None,
            disconnected_events_drained: 0,
            closed_core_clients: Vec::new(),
            validation_is_clean: true,
            errors: Vec::new(),
        },
        live_admission_owner_report: LiveToplevelAdmissionOwnerReport {
            coordinator_enqueue_invoked: false,
            coordinator_enqueue_report: None,
        },
        admission_drain_report: RuntimeToplevelAdmissionDrainReport {
            drain_invoked: true,
            pending_admission_consumed: false,
            pending_admission_count_after: 4,
        },
    };
    let summary = NestedRuntimeLiveAdmissionRunSummary::from_live_pump(&pump);
    assert_eq!(summary.owner_invocations, 1);
    assert_eq!(summary.enqueue_invocations, 0);
    assert_eq!(summary.admissions_enqueued, 0);
    assert_eq!(summary.drain_invocations, 1);
    assert_eq!(summary.pending_admissions_after, 4);
}
