use sky_mirror::smithay_backend::surface_admission_pipeline::{
    BackendSurfaceAdmissionPipelineReport, BackendSurfaceAdmissionPipelineStatus,
    BackendSurfaceAdmissionPipelineSummary, SurfaceAdmissionPipelineRunner,
};
use sky_mirror::smithay_backend::surface_lifecycle::{
    BackendSurfaceId, BackendSurfaceLifecycleError, BackendSurfaceLifecycleEvent,
    BackendSurfaceRegistry, BackendSurfaceSize,
};
use sky_mirror::smithay_backend::surface_trace::{
    BackendSurfaceMockAdapter, BackendSurfaceTrace, BackendSurfaceTraceScenario,
};
use sky_mirror::smithay_backend::surface_window_intent::BackendWindowCandidateIntent;
use sky_mirror::smithay_backend::window_admission_preview::{
    BackendWindowAdmissionPreviewAction, BackendWindowAdmissionPreviewWarning,
};

/// 运行指定 mock 场景。
fn run_scenario(scenario: BackendSurfaceTraceScenario) -> BackendSurfaceAdmissionPipelineReport {
    SurfaceAdmissionPipelineRunner::new().run_scenario(scenario)
}

/// 验证空 trace 可以完整运行。
#[test]
fn empty_trace_runs_successfully() {
    let report = SurfaceAdmissionPipelineRunner::new().run_trace(&BackendSurfaceTrace::new());

    assert!(report.source_succeeded());
    assert!(report.trace_report.is_success());
    assert!(report.intent_report.intents.is_empty());
    assert!(report.preview_report.actions.is_empty());
}

/// 验证空 trace 的管线状态为 Complete。
#[test]
fn empty_trace_status_is_complete() {
    let report = SurfaceAdmissionPipelineRunner::new().run_trace(&BackendSurfaceTrace::new());

    assert_eq!(
        report.status,
        BackendSurfaceAdmissionPipelineStatus::Complete
    );
}

/// 验证空 trace 的 summary 保持成功状态和全部零计数。
#[test]
fn empty_trace_summary_has_zero_counts() {
    let report = SurfaceAdmissionPipelineRunner::new().run_trace(&BackendSurfaceTrace::new());

    assert_eq!(
        report.summary(),
        BackendSurfaceAdmissionPipelineSummary {
            status: BackendSurfaceAdmissionPipelineStatus::Complete,
            surface_count: 0,
            intent_count: 0,
            action_count: 0,
            warning_count: 0,
            source_failed_at: None,
        }
    );
}

/// 验证 SingleMap 场景生成 Create 候选意图。
#[test]
fn single_map_builds_create_intent() {
    let report = run_scenario(BackendSurfaceTraceScenario::SingleMap);

    assert!(matches!(
        report.intent_report.intents.as_slice(),
        [BackendWindowCandidateIntent::Create { .. }]
    ));
}

/// 验证 SingleMap 场景生成创建窗口预检动作。
#[test]
fn single_map_builds_would_create_action() {
    let report = run_scenario(BackendSurfaceTraceScenario::SingleMap);

    assert!(matches!(
        report.preview_report.actions.as_slice(),
        [BackendWindowAdmissionPreviewAction::WouldCreateWindow { .. }]
    ));
}

/// 验证 ConfigureThenMap 场景把尺寸保留到意图和预检动作。
#[test]
fn configure_then_map_preserves_size() {
    let report = run_scenario(BackendSurfaceTraceScenario::ConfigureThenMap);
    let expected_size = BackendSurfaceSize {
        width: 1280,
        height: 720,
    };

    assert!(matches!(
        report.intent_report.intents.as_slice(),
        [BackendWindowCandidateIntent::Create {
            size: Some(size),
            ..
        }] if *size == expected_size
    ));
    assert!(matches!(
        report.preview_report.actions.as_slice(),
        [BackendWindowAdmissionPreviewAction::WouldCreateWindow {
            size: Some(size),
            ..
        }] if *size == expected_size
    ));
}

/// 验证 remap 场景最终仍生成 Create 意图。
#[test]
fn map_unmap_remap_finishes_with_create_intent() {
    let report = run_scenario(BackendSurfaceTraceScenario::MapUnmapRemap);

    assert!(matches!(
        report.intent_report.intents.as_slice(),
        [BackendWindowCandidateIntent::Create { title, .. }]
            if title.as_deref() == Some("Remapped Mock Surface")
    ));
}

/// 验证 remap 场景最终仍生成创建预检动作。
#[test]
fn map_unmap_remap_finishes_with_create_action() {
    let report = run_scenario(BackendSurfaceTraceScenario::MapUnmapRemap);

    assert!(matches!(
        report.preview_report.actions.as_slice(),
        [BackendWindowAdmissionPreviewAction::WouldCreateWindow { .. }]
    ));
}

/// 验证 Destroy 场景生成 Close 候选意图。
#[test]
fn destroy_builds_close_intent() {
    let report = run_scenario(BackendSurfaceTraceScenario::Destroy);

    assert!(matches!(
        report.intent_report.intents.as_slice(),
        [BackendWindowCandidateIntent::Close { .. }]
    ));
}

/// 验证 Destroy 场景生成关闭窗口预检动作。
#[test]
fn destroy_builds_would_close_action() {
    let report = run_scenario(BackendSurfaceTraceScenario::Destroy);

    assert!(matches!(
        report.preview_report.actions.as_slice(),
        [BackendWindowAdmissionPreviewAction::WouldCloseWindow { .. }]
    ));
}

/// 验证销毁后 remap 的管线状态为来源失败。
#[test]
fn invalid_destroyed_remap_status_is_source_failed() {
    let report = run_scenario(BackendSurfaceTraceScenario::InvalidDestroyedRemap);

    assert_eq!(
        report.status,
        BackendSurfaceAdmissionPipelineStatus::SourceTraceFailed
    );
    assert!(!report.source_succeeded());
}

/// 验证失败场景完整保留失败事件下标。
#[test]
fn surface_admission_pipeline_invalid_destroyed_remap_preserves_failed_at() {
    let report = run_scenario(BackendSurfaceTraceScenario::InvalidDestroyedRemap);

    assert_eq!(report.trace_report.failed_at, Some(2));
    assert_eq!(report.intent_report.source_failed_at, Some(2));
    assert_eq!(report.preview_report.source_failed_at, Some(2));
}

/// 验证失败场景完整保留结构化来源错误。
#[test]
fn surface_admission_pipeline_invalid_destroyed_remap_preserves_source_error() {
    let report = run_scenario(BackendSurfaceTraceScenario::InvalidDestroyedRemap);
    let expected = Some(BackendSurfaceLifecycleError::AlreadyDestroyed {
        id: BackendSurfaceId::new(1),
    });

    assert_eq!(report.trace_report.error, expected);
    assert_eq!(report.intent_report.source_error, expected);
    assert_eq!(report.preview_report.source_error, expected);
}

/// 验证失败场景仍根据最终 tombstone 生成 Close 意图。
#[test]
fn invalid_destroyed_remap_still_builds_close_intent() {
    let report = run_scenario(BackendSurfaceTraceScenario::InvalidDestroyedRemap);

    assert!(matches!(
        report.intent_report.intents.as_slice(),
        [BackendWindowCandidateIntent::Close { .. }]
    ));
}

/// 验证失败场景仍根据最终 tombstone 生成关闭预检动作。
#[test]
fn invalid_destroyed_remap_still_builds_would_close_action() {
    let report = run_scenario(BackendSurfaceTraceScenario::InvalidDestroyedRemap);

    assert!(matches!(
        report.preview_report.actions.as_slice(),
        [BackendWindowAdmissionPreviewAction::WouldCloseWindow { .. }]
    ));
}

/// 验证失败场景生成来源下标和错误 warning。
#[test]
fn invalid_destroyed_remap_builds_source_warnings() {
    let report = run_scenario(BackendSurfaceTraceScenario::InvalidDestroyedRemap);

    assert!(
        report
            .preview_report
            .warnings
            .iter()
            .any(|warning| matches!(
                warning,
                BackendWindowAdmissionPreviewWarning::SourceTraceFailed { failed_at: 2 }
            ))
    );
    assert!(
        report
            .preview_report
            .warnings
            .iter()
            .any(|warning| matches!(
                warning,
                BackendWindowAdmissionPreviewWarning::SourceTraceError { .. }
            ))
    );
}

/// 验证缺失 metadata 和尺寸只形成 warning，不改变成功状态。
#[test]
fn missing_create_data_only_builds_warnings() {
    let id = BackendSurfaceId::new(7);
    let report = SurfaceAdmissionPipelineRunner::new().run_events(vec![
        BackendSurfaceLifecycleEvent::Created { id },
        BackendSurfaceLifecycleEvent::Mapped {
            id,
            title: None,
            app_id: None,
        },
    ]);

    assert_eq!(
        report.status,
        BackendSurfaceAdmissionPipelineStatus::Complete
    );
    assert!(report.source_succeeded());
    assert_eq!(report.preview_report.actions.len(), 1);
    assert_eq!(
        report.preview_report.warnings,
        vec![
            BackendWindowAdmissionPreviewWarning::MissingTitle {
                candidate_id: report.preview_report.actions[0].candidate_id(),
            },
            BackendWindowAdmissionPreviewWarning::MissingAppId {
                candidate_id: report.preview_report.actions[0].candidate_id(),
            },
            BackendWindowAdmissionPreviewWarning::MissingSize {
                candidate_id: report.preview_report.actions[0].candidate_id(),
            },
        ]
    );
}

/// 验证 preview warning 不会把完整 trace 标记为失败。
#[test]
fn preview_warnings_do_not_change_pipeline_status() {
    let report = run_scenario(BackendSurfaceTraceScenario::SingleMap);

    assert!(!report.preview_report.warnings.is_empty());
    assert_eq!(
        report.status,
        BackendSurfaceAdmissionPipelineStatus::Complete
    );
}

/// 验证事件入口和 trace 入口对同一序列生成相同报告。
#[test]
fn run_events_matches_run_trace() {
    let mut adapter = BackendSurfaceMockAdapter::new();
    let trace = adapter.single_surface_configure_then_map_trace();
    let runner = SurfaceAdmissionPipelineRunner::new();

    let from_trace = runner.run_trace(&trace);
    let from_events = runner.run_events(trace.events().to_vec());

    assert_eq!(from_events, from_trace);
}

/// 验证场景入口和显式场景 trace 生成相同报告。
#[test]
fn run_scenario_matches_built_trace() {
    let scenario = BackendSurfaceTraceScenario::MultiSurface;
    let runner = SurfaceAdmissionPipelineRunner::new();
    let mut adapter = BackendSurfaceMockAdapter::new();
    let trace = scenario.build(&mut adapter);

    assert_eq!(runner.run_scenario(scenario), runner.run_trace(&trace));
}

/// 验证外部 registry 会被实际使用并保留执行结果。
#[test]
fn run_trace_with_registry_updates_external_registry() {
    let id = BackendSurfaceId::new(40);
    let trace = BackendSurfaceTrace::from_events(vec![
        BackendSurfaceLifecycleEvent::Created { id },
        BackendSurfaceLifecycleEvent::Mapped {
            id,
            title: Some("External Registry".to_string()),
            app_id: Some("sky-mirror.external".to_string()),
        },
    ]);
    let mut registry = BackendSurfaceRegistry::new();

    let report =
        SurfaceAdmissionPipelineRunner::new().run_trace_with_registry(&trace, &mut registry);

    assert!(registry.get_surface(id).is_some());
    assert_eq!(report.trace_report.final_records[0].id, id);
}

/// 验证外部 registry 的已有状态参与后续 trace。
#[test]
fn run_trace_with_registry_uses_existing_state() {
    let id = BackendSurfaceId::new(41);
    let mut registry = BackendSurfaceRegistry::new();
    registry
        .create_surface_with_id(id)
        .expect("测试 surface 必须创建成功");
    let trace = BackendSurfaceTrace::from_events(vec![BackendSurfaceLifecycleEvent::Mapped {
        id,
        title: Some("Existing Surface".to_string()),
        app_id: None,
    }]);

    let report =
        SurfaceAdmissionPipelineRunner::new().run_trace_with_registry(&trace, &mut registry);

    assert_eq!(
        report.status,
        BackendSurfaceAdmissionPipelineStatus::Complete
    );
    assert!(matches!(
        report.intent_report.intents.as_slice(),
        [BackendWindowCandidateIntent::Create { .. }]
    ));
}

/// 验证多 surface 场景按稳定 surface ID 顺序生成动作。
#[test]
fn multi_surface_actions_have_stable_order() {
    let report = run_scenario(BackendSurfaceTraceScenario::MultiSurface);
    let ids: Vec<_> = report
        .preview_report
        .actions
        .iter()
        .map(BackendWindowAdmissionPreviewAction::surface_id)
        .map(BackendSurfaceId::value)
        .collect();

    assert_eq!(ids, vec![1, 2, 3]);
    assert!(matches!(
        report.preview_report.actions.as_slice(),
        [
            BackendWindowAdmissionPreviewAction::WouldCreateWindow { .. },
            BackendWindowAdmissionPreviewAction::WouldHideWindow { .. },
            BackendWindowAdmissionPreviewAction::WouldCloseWindow { .. },
        ]
    ));
}

/// 验证 summary 的 surface 数量来自最终记录。
#[test]
fn summary_surface_count_matches_final_records() {
    let report = run_scenario(BackendSurfaceTraceScenario::MultiSurface);
    let summary = report.summary();

    assert_eq!(
        summary.surface_count,
        report.trace_report.final_records.len()
    );
    assert_eq!(summary.surface_count, 3);
}

/// 验证 summary 的意图数量来自意图报告。
#[test]
fn summary_intent_count_matches_intent_report() {
    let report = run_scenario(BackendSurfaceTraceScenario::MultiSurface);
    let summary = report.summary();

    assert_eq!(summary.intent_count, report.intent_report.intents.len());
    assert_eq!(summary.intent_count, 3);
}

/// 验证 summary 的动作数量来自预检报告。
#[test]
fn summary_action_count_matches_preview_report() {
    let report = run_scenario(BackendSurfaceTraceScenario::MultiSurface);
    let summary = report.summary();

    assert_eq!(summary.action_count, report.preview_report.actions.len());
    assert_eq!(summary.action_count, 3);
}

/// 验证 summary 的 warning 数量来自预检报告。
#[test]
fn summary_warning_count_matches_preview_report() {
    let report = run_scenario(BackendSurfaceTraceScenario::SingleMap);
    let summary = report.summary();

    assert_eq!(summary.warning_count, report.preview_report.warnings.len());
    assert_eq!(summary.warning_count, 1);
}

/// 验证失败 summary 保留整体状态和失败下标。
#[test]
fn failed_summary_preserves_status_and_failed_at() {
    let report = run_scenario(BackendSurfaceTraceScenario::InvalidDestroyedRemap);

    assert_eq!(
        report.summary(),
        BackendSurfaceAdmissionPipelineSummary {
            status: BackendSurfaceAdmissionPipelineStatus::SourceTraceFailed,
            surface_count: 1,
            intent_count: 1,
            action_count: 1,
            warning_count: 2,
            source_failed_at: Some(2),
        }
    );
}

/// 验证管线报告保持纯数据可克隆和可比较。
#[test]
fn pipeline_report_is_cloneable_and_comparable() {
    let report = run_scenario(BackendSurfaceTraceScenario::ConfigureThenMap);

    assert_eq!(report.clone(), report);
}

/// 验证管线状态可复制并直接比较。
#[test]
fn pipeline_status_is_copyable_and_comparable() {
    let status = BackendSurfaceAdmissionPipelineStatus::Complete;
    let copied = status;

    assert_eq!(copied, status);
}

/// 验证管线 summary 保持纯数据可复制和可比较。
#[test]
fn pipeline_summary_is_copyable_and_comparable() {
    let summary = run_scenario(BackendSurfaceTraceScenario::SingleMap).summary();
    let copied = summary;

    assert_eq!(copied, summary);
}
