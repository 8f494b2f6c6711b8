use sky_mirror::smithay_backend::runtime_facade::BackendRuntimeCapabilities;
use sky_mirror::smithay_backend::surface_admission_contract::{
    BackendSurfaceAdmissionContractScenario, BackendSurfaceAdmissionContractSnapshot,
    SurfaceAdmissionContractRunner,
};
use sky_mirror::smithay_backend::surface_admission_pipeline::BackendSurfaceAdmissionPipelineStatus;
use sky_mirror::smithay_backend::surface_lifecycle::{
    BackendSurfaceId, BackendSurfaceLifecycleError, BackendSurfaceSize,
};
use sky_mirror::smithay_backend::surface_window_intent::BackendWindowCandidateIntent;
use sky_mirror::smithay_backend::window_admission_preview::BackendWindowAdmissionPreviewAction;

/// 返回指定契约场景的快照。
fn snapshot(scenario: BackendSurfaceAdmissionContractScenario) -> BackendSurfaceAdmissionContractSnapshot {
    SurfaceAdmissionContractRunner::new().snapshot_for_scenario(scenario)
}

/// 验证 Empty 契约快照固定为全零成功状态。
#[test]
fn empty_contract_snapshot_matches_golden_rule() {
    assert_eq!(
        snapshot(BackendSurfaceAdmissionContractScenario::Empty),
        BackendSurfaceAdmissionContractSnapshot {
            scenario_name: "Empty",
            status: BackendSurfaceAdmissionPipelineStatus::Complete,
            surface_count: 0,
            intent_count: 0,
            action_count: 0,
            warning_count: 0,
            source_failed_at: None,
        }
    );
}

/// 验证 SingleMap 固定生成一个缺少尺寸的创建预检。
#[test]
fn single_map_contract_snapshot_matches_golden_rule() {
    assert_eq!(
        snapshot(BackendSurfaceAdmissionContractScenario::SingleMap),
        BackendSurfaceAdmissionContractSnapshot {
            scenario_name: "SingleMap",
            status: BackendSurfaceAdmissionPipelineStatus::Complete,
            surface_count: 1,
            intent_count: 1,
            action_count: 1,
            warning_count: 1,
            source_failed_at: None,
        }
    );
}

/// 验证 ConfigureThenMap 固定生成完整创建预检。
#[test]
fn configure_then_map_contract_snapshot_matches_golden_rule() {
    assert_eq!(
        snapshot(BackendSurfaceAdmissionContractScenario::ConfigureThenMap),
        BackendSurfaceAdmissionContractSnapshot {
            scenario_name: "ConfigureThenMap",
            status: BackendSurfaceAdmissionPipelineStatus::Complete,
            surface_count: 1,
            intent_count: 1,
            action_count: 1,
            warning_count: 0,
            source_failed_at: None,
        }
    );
}

/// 验证 ConfigureThenMap 的完整报告保留配置尺寸。
#[test]
fn configure_then_map_full_report_preserves_size() {
    let report = SurfaceAdmissionContractRunner::new()
        .report_for_scenario(BackendSurfaceAdmissionContractScenario::ConfigureThenMap);
    let expected_size = BackendSurfaceSize::new(1280, 720).expect("测试尺寸必须有效");

    assert!(matches!(
        report.preview_report.actions.as_slice(),
        [BackendWindowAdmissionPreviewAction::WouldCreateWindow {
            size: Some(size),
            ..
        }] if *size == expected_size
    ));
}

/// 验证 MapUnmapRemap 最终仍生成创建预检。
#[test]
fn map_unmap_remap_finishes_with_create_preview() {
    let report = SurfaceAdmissionContractRunner::new()
        .report_for_scenario(BackendSurfaceAdmissionContractScenario::MapUnmapRemap);

    assert!(matches!(
        report.preview_report.actions.as_slice(),
        [BackendWindowAdmissionPreviewAction::WouldCreateWindow { .. }]
    ));
}

/// 验证 Destroy 最终生成关闭意图和关闭预检。
#[test]
fn destroy_finishes_with_close_contract() {
    let report = SurfaceAdmissionContractRunner::new()
        .report_for_scenario(BackendSurfaceAdmissionContractScenario::Destroy);

    assert!(matches!(
        report.intent_report.intents.as_slice(),
        [BackendWindowCandidateIntent::Close { .. }]
    ));
    assert!(matches!(
        report.preview_report.actions.as_slice(),
        [BackendWindowAdmissionPreviewAction::WouldCloseWindow { .. }]
    ));
}

/// 验证非法销毁后重映射形成来源失败快照。
#[test]
fn invalid_destroyed_remap_snapshot_is_source_failed() {
    let snapshot = snapshot(BackendSurfaceAdmissionContractScenario::InvalidDestroyedRemap);

    assert_eq!(
        snapshot.status,
        BackendSurfaceAdmissionPipelineStatus::SourceTraceFailed
    );
}

/// 验证非法销毁后重映射保留失败事件下标。
#[test]
fn surface_admission_contract_invalid_destroyed_remap_preserves_failed_at() {
    let snapshot = snapshot(BackendSurfaceAdmissionContractScenario::InvalidDestroyedRemap);

    assert_eq!(snapshot.source_failed_at, Some(2));
}

/// 验证非法销毁后重映射保留结构化来源错误。
#[test]
fn surface_admission_contract_invalid_destroyed_remap_preserves_source_error() {
    let report = SurfaceAdmissionContractRunner::new()
        .report_for_scenario(BackendSurfaceAdmissionContractScenario::InvalidDestroyedRemap);

    assert_eq!(
        report.trace_report.error,
        Some(BackendSurfaceLifecycleError::AlreadyDestroyed {
            id: BackendSurfaceId::new(1)
        })
    );
}

/// 验证来源失败后仍为 tombstone 生成关闭意图和预检。
#[test]
fn invalid_destroyed_remap_keeps_close_contract() {
    let report = SurfaceAdmissionContractRunner::new()
        .report_for_scenario(BackendSurfaceAdmissionContractScenario::InvalidDestroyedRemap);

    assert!(matches!(
        report.intent_report.intents.as_slice(),
        [BackendWindowCandidateIntent::Close { .. }]
    ));
    assert!(matches!(
        report.preview_report.actions.as_slice(),
        [BackendWindowAdmissionPreviewAction::WouldCloseWindow { .. }]
    ));
}

/// 验证 MultiSurface 快照固定为三个有序结果。
#[test]
fn multi_surface_snapshot_matches_golden_rule() {
    assert_eq!(
        snapshot(BackendSurfaceAdmissionContractScenario::MultiSurface),
        BackendSurfaceAdmissionContractSnapshot {
            scenario_name: "MultiSurface",
            status: BackendSurfaceAdmissionPipelineStatus::Complete,
            surface_count: 3,
            intent_count: 3,
            action_count: 3,
            warning_count: 0,
            source_failed_at: None,
        }
    );
}

/// 验证 MultiSurface 动作按 surface ID 保持创建、隐藏、关闭顺序。
#[test]
fn multi_surface_action_order_is_stable() {
    let report = SurfaceAdmissionContractRunner::new()
        .report_for_scenario(BackendSurfaceAdmissionContractScenario::MultiSurface);
    let actions = report.preview_report.actions.as_slice();

    assert!(matches!(
        actions,
        [
            BackendWindowAdmissionPreviewAction::WouldCreateWindow { .. },
            BackendWindowAdmissionPreviewAction::WouldHideWindow { .. },
            BackendWindowAdmissionPreviewAction::WouldCloseWindow { .. }
        ]
    ));
    assert_eq!(
        actions
            .iter()
            .map(|action| action.surface_id().value())
            .collect::<Vec<_>>(),
        vec![1, 2, 3]
    );
}

/// 验证全部快照始终使用契约枚举定义的稳定顺序。
#[test]
fn snapshots_for_all_scenarios_have_stable_order() {
    let names: Vec<_> = SurfaceAdmissionContractRunner::new()
        .snapshots_for_all_scenarios()
        .into_iter()
        .map(|snapshot| snapshot.scenario_name)
        .collect();

    assert_eq!(
        names,
        vec![
            "Empty",
            "SingleMap",
            "ConfigureThenMap",
            "MapUnmapRemap",
            "Destroy",
            "InvalidDestroyedRemap",
            "MultiSurface",
        ]
    );
}

/// 验证每个契约场景都提供固定名称。
#[test]
fn contract_scenario_names_are_stable() {
    let names = BackendSurfaceAdmissionContractScenario::ALL
        .map(BackendSurfaceAdmissionContractScenario::name);

    assert_eq!(
        names,
        [
            "Empty",
            "SingleMap",
            "ConfigureThenMap",
            "MapUnmapRemap",
            "Destroy",
            "InvalidDestroyedRemap",
            "MultiSurface",
        ]
    );
}

/// 验证契约摘要中的场景顺序稳定。
#[test]
fn contract_summary_text_has_stable_order() {
    let text = SurfaceAdmissionContractRunner::new().contract_summary_text();
    let positions: Vec<_> = BackendSurfaceAdmissionContractScenario::ALL
        .into_iter()
        .map(|scenario| text.find(scenario.name()).expect("摘要必须包含全部场景"))
        .collect();

    assert!(positions.windows(2).all(|pair| pair[0] < pair[1]));
}

/// 验证契约摘要包含固定 Empty 行。
#[test]
fn contract_summary_text_contains_empty_line() {
    let text = SurfaceAdmissionContractRunner::new().contract_summary_text();

    assert!(text.contains("* Empty: Complete, surfaces=0, intents=0, actions=0, warnings=0\n"));
}

/// 验证契约摘要包含固定 SingleMap 行。
#[test]
fn contract_summary_text_contains_single_map_line() {
    let text = SurfaceAdmissionContractRunner::new().contract_summary_text();

    assert!(
        text.contains("* SingleMap: Complete, surfaces=1, intents=1, actions=1, warnings=1\n")
    );
}

/// 验证契约摘要包含固定 ConfigureThenMap 行。
#[test]
fn contract_summary_text_contains_configure_then_map_line() {
    let text = SurfaceAdmissionContractRunner::new().contract_summary_text();

    assert!(text.contains(
        "* ConfigureThenMap: Complete, surfaces=1, intents=1, actions=1, warnings=0\n"
    ));
}

/// 验证契约摘要包含固定来源失败行。
#[test]
fn contract_summary_text_contains_invalid_destroyed_remap_line() {
    let text = SurfaceAdmissionContractRunner::new().contract_summary_text();

    assert!(text.contains(
        "* InvalidDestroyedRemap: SourceTraceFailed, surfaces=1, intents=1, actions=1, warnings=2, source_failed_at=2\n"
    ));
}

/// 验证契约快照保持可克隆和可直接比较。
#[test]
fn contract_snapshot_is_cloneable_and_comparable() {
    let snapshot = snapshot(BackendSurfaceAdmissionContractScenario::SingleMap);

    assert_eq!(snapshot.clone(), snapshot);
}

/// 验证纯数据 probe 不会宣称真实 surface 能力。
#[test]
fn real_surface_capability_remains_disabled() {
    assert!(!BackendRuntimeCapabilities::smithay_probe().supports_real_wayland_surfaces);
}

/// 验证纯数据 probe 不会宣称 GPU 渲染能力。
#[test]
fn gpu_rendering_capability_remains_disabled() {
    assert!(!BackendRuntimeCapabilities::smithay_probe().supports_gpu_rendering);
}
