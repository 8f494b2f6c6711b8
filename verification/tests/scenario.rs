use sky_mirror::core_model::state::State;
use sky_mirror::core_model::types::{Action, SurfaceRole};
use sky_mirror::smithay_backend::runtime::SmithayRuntimeProbe;
use sky_mirror::smithay_backend::scenario::{SmithayRuntimeScenario, SmithayRuntimeScenarioMode};

/// 验证场景回放器及其内部 runtime 都保持纯探针模式。
#[test]
fn smithay_runtime_scenario_mode_is_probe_only() {
    let scenario = SmithayRuntimeScenario::new_probe_only();

    assert!(scenario.is_probe_only());
    assert_eq!(scenario.mode(), SmithayRuntimeScenarioMode::ProbeOnly);
}

/// 验证 client、surface 和 toplevel map 可以通过场景步骤建立完整绑定。
#[test]
fn smithay_runtime_scenario_maps_toplevel_window() {
    let mut scenario = SmithayRuntimeScenario::new_probe_only();

    let client = scenario.connect_allocated_client(Some("app".to_string()));
    let surface = scenario.create_allocated_surface(Some(client), SurfaceRole::XdgToplevel);
    let window = scenario.map_toplevel(surface, "Terminal", Some("foot".to_string()));

    assert!(scenario.state().clients.is_alive(client));

    let surface_record = scenario
        .state()
        .surfaces
        .get(surface)
        .expect("surface 必须存在");

    assert_eq!(surface_record.client, Some(client));
    assert_eq!(surface_record.window, Some(window));

    let window_record = scenario
        .state()
        .registry
        .get(window)
        .expect("window 必须存在");

    assert!(window_record.alive);
    assert_eq!(window_record.title, "Terminal");
    assert_eq!(window_record.app_id, Some("foot".to_string()));
    assert_eq!(scenario.report().len(), 3);
    assert!(scenario.report().all_handled());
    assert!(scenario.report().all_valid());
}

/// 验证关闭单个 surface 只结束目标 surface 和其绑定窗口。
#[test]
fn smithay_runtime_scenario_surface_close_only_closes_target_window() {
    let mut scenario = SmithayRuntimeScenario::new_probe_only();

    let client = scenario.connect_allocated_client(Some("app".to_string()));
    let first_surface =
        scenario.create_allocated_surface(Some(client), SurfaceRole::XdgToplevel);
    let second_surface =
        scenario.create_allocated_surface(Some(client), SurfaceRole::XdgToplevel);
    let first_window = scenario.map_toplevel(first_surface, "First", None);
    let second_window = scenario.map_toplevel(second_surface, "Second", None);

    scenario.close_surface(first_surface);

    assert!(!scenario.state().surfaces.is_alive(first_surface));
    assert!(!scenario.state().registry.is_alive(first_window));
    assert!(scenario.state().surfaces.is_alive(second_surface));
    assert!(scenario.state().registry.is_alive(second_window));
    assert!(scenario.state().clients.is_alive(client));
    assert!(scenario.report().all_handled());
    assert!(scenario.report().all_valid());
}

/// 验证 client 断开会由核心级联关闭其全部 surface 和窗口。
#[test]
fn smithay_runtime_scenario_client_disconnect_cascades_all_owned_surfaces() {
    let mut scenario = SmithayRuntimeScenario::new_probe_only();

    let client = scenario.connect_allocated_client(Some("app".to_string()));
    let first_surface =
        scenario.create_allocated_surface(Some(client), SurfaceRole::XdgToplevel);
    let second_surface =
        scenario.create_allocated_surface(Some(client), SurfaceRole::XdgToplevel);
    let first_window = scenario.map_toplevel(first_surface, "First", None);
    let second_window = scenario.map_toplevel(second_surface, "Second", None);

    scenario.disconnect_client(client);

    assert!(!scenario.state().clients.is_alive(client));
    assert!(!scenario.state().surfaces.is_alive(first_surface));
    assert!(!scenario.state().surfaces.is_alive(second_surface));
    assert!(!scenario.state().registry.is_alive(first_window));
    assert!(!scenario.state().registry.is_alive(second_window));
    assert!(
        scenario
            .state()
            .compositor
            .workspaces
            .iter()
            .all(|workspace| {
                let windows = workspace.window_ids();
                !windows.contains(&first_window) && !windows.contains(&second_window)
            })
    );
    assert!(scenario.report().all_handled());
    assert!(scenario.report().all_valid());
}

/// 验证输出尺寸和动作请求都通过场景步骤进入核心。
#[test]
fn smithay_runtime_scenario_resize_and_action_work() {
    let mut scenario = SmithayRuntimeScenario::new_probe_only();

    scenario.resize_output(1600, 900);

    let output = scenario.state().compositor.current_output_size();
    let previous_workspace = scenario.state().compositor.current_workspace;

    scenario.request_action(Action::NextWorkspace);

    assert_eq!(output.width, 1600);
    assert_eq!(output.height, 900);
    assert_ne!(
        scenario.state().compositor.current_workspace,
        previous_workspace
    );
    assert!(scenario.report().all_handled());
    assert!(scenario.report().all_valid());
}

/// 验证完整诊断和状态验证步骤都会返回核心生成的文本。
#[test]
fn smithay_runtime_scenario_diagnostics_return_text() {
    let mut scenario = SmithayRuntimeScenario::new_probe_only();

    let debug_text = scenario.request_debug_text();
    let validation_text = scenario.request_validation_text();

    assert!(debug_text.contains("Sky Mirror Debug Snapshot"));
    assert!(debug_text.contains("Workspaces"));
    assert!(debug_text.contains("Windows"));
    assert!(validation_text.contains("Validation Report"));
    assert!(scenario.report().all_handled());
    assert!(scenario.report().all_valid());
}

/// 验证非法输出尺寸会保留无效状态，并让整体报告保持无效。
#[test]
fn smithay_runtime_scenario_invalid_resize_makes_report_not_all_valid() {
    let mut scenario = SmithayRuntimeScenario::new_probe_only();

    scenario.resize_output(0, 900);

    let validation_text = scenario.request_validation_text();

    assert!(!scenario.report().all_valid());
    assert!(validation_text.contains("InvalidOutputSize"));
}

/// 验证场景报告文本包含稳定标题和已执行步骤名称。
#[test]
fn smithay_runtime_scenario_report_pretty_print_contains_steps() {
    let mut scenario = SmithayRuntimeScenario::new_probe_only();

    let client = scenario.connect_allocated_client(Some("app".to_string()));
    scenario.create_allocated_surface(Some(client), SurfaceRole::XdgToplevel);

    let text = scenario.report().pretty_print();

    assert!(text.contains("Smithay Runtime Scenario Report"));
    assert!(text.contains("connect_allocated_client"));
    assert!(text.contains("create_allocated_surface"));
    assert!(!scenario.report().is_empty());
}

/// On a fresh scenario, allocated clients are 1, 2, ...; each connection is
/// one handled step named after it and leaves the client alive.
#[test]
fn scenario_connects_allocated_clients_in_order() {
    let mut scenario = SmithayRuntimeScenario::new_probe_only();

    let first = scenario.connect_allocated_client(Some("one".to_string()));
    let second = scenario.connect_allocated_client(None);

    assert_eq!((first, second), (1, 2));
    assert_eq!(scenario.report().len(), 2);
    assert_eq!(scenario.report().steps[1].name, "connect_allocated_client");
    assert!(scenario.report().steps[1].report.handled_event());
    assert!(scenario.state().clients.is_alive(first));
    assert!(scenario.state().clients.is_alive(second));
}

/// With a validation request already queued, a debug request's step handles
/// that older request and returns its text.
#[test]
fn scenario_text_request_returns_text_of_oldest_queued_request() {
    let mut runtime = SmithayRuntimeProbe::new_probe_only();
    runtime.push_validate_requested();
    let mut scenario = SmithayRuntimeScenario::from_parts(runtime, State::new());

    let text = scenario.request_debug_text();

    assert_eq!(text, State::new().validation_text());
    assert_eq!(scenario.report().len(), 1);
}
