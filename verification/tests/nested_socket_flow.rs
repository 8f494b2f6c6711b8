use sky_mirror::core_model::runtime_bridge::NestedClientSessionBridgeOutcome;
use sky_mirror::core_model::state::State;
use sky_mirror::core_model::types::{BackendEvent, ClientKind, CommandResult, CoreCommand};
use sky_mirror::smithay_backend::client_session::{
    NestedClientSessionEventKind, NestedClientSessionId,
};
use sky_mirror::smithay_backend::linux_adapter::SmithayLinuxAdapterCapabilities;
use sky_mirror::smithay_backend::nested_socket_flow::{
    NestedSocketProbeBridgeFlow, NestedSocketProbeBridgeFlowReport,
};

/// 验证 Linux-only flow 初始没有 session mapping。
#[test]
fn flow_can_be_constructed_without_active_mapping() {
    let flow = NestedSocketProbeBridgeFlow::new("wayland-phase-51g");
    let session = NestedClientSessionId::new(1).expect("非零 session ID 必须有效");

    assert_eq!(flow.active_session_count(), 0);
    assert_eq!(flow.lookup_client(session), None);
}

/// 验证 flow 从 Phase 51F probe 取得 connected event record。
#[test]
fn flow_obtains_connected_record_from_socket_probe() {
    let mut flow = NestedSocketProbeBridgeFlow::new("wayland-phase-51g");
    let mut state = State::new();
    let session = NestedClientSessionId::new(2).expect("非零 session ID 必须有效");

    let report = flow.observe_connected_session(
        &mut state,
        session,
        Some("nested-terminal".to_string()),
        Some("phase 51g flow proof".to_string()),
    );

    assert!(report.probe_report.produced_session_event);
    assert_eq!(
        report.probe_report.event.kind,
        NestedClientSessionEventKind::Connected
    );
    assert_eq!(report.probe_report.event.session, Some(session));
    assert_eq!(
        report.probe_report.event.label.as_deref(),
        Some("nested-terminal")
    );
}

/// 验证 flow 把 probe record 交给既有 Phase 51E bridge。
#[test]
fn flow_submits_probe_record_to_core_bridge() {
    let mut flow = NestedSocketProbeBridgeFlow::new("wayland-phase-51g");
    let mut state = State::new();
    let session = NestedClientSessionId::new(3).expect("非零 session ID 必须有效");

    let report = flow.observe_connected_session(&mut state, session, None, None);

    assert!(report.bridge_received_event);
    assert!(!report.probe_report.core_bridge_invoked);
    assert!(matches!(
        report.bridge_outcome,
        NestedClientSessionBridgeOutcome::Connected { session: actual, .. }
            if actual == session
    ));
}

/// 验证 connected event 通过 event/command/state seam 注册核心 client。
#[test]
fn connected_flow_registers_core_client_through_existing_seam() {
    let mut flow = NestedSocketProbeBridgeFlow::new("wayland-phase-51g");
    let mut state = State::new();
    let session = NestedClientSessionId::new(4).expect("非零 session ID 必须有效");

    let report = flow.observe_connected_session(
        &mut state,
        session,
        Some("nested-editor".to_string()),
        None,
    );

    let NestedClientSessionBridgeOutcome::Connected {
        client, runtime, ..
    } = &report.bridge_outcome
    else {
        panic!("首次 connected flow 必须注册核心 client");
    };
    let client_record = state
        .clients
        .get(*client)
        .expect("注册后必须存在 client record");

    assert!(report.core_client_registered);
    assert!(runtime.validation.is_clean());
    assert_eq!(
        runtime.event,
        BackendEvent::ClientConnected {
            client: None,
            kind: ClientKind::WaylandPlaceholder,
            name: Some("nested-editor".to_string()),
        }
    );
    assert_eq!(
        runtime.command,
        CoreCommand::RegisterClient {
            client: None,
            kind: ClientKind::WaylandPlaceholder,
            name: Some("nested-editor".to_string()),
        }
    );
    assert_eq!(
        runtime.result,
        CommandResult::ClientRegistered {
            client: *client,
            registered: true,
        }
    );
    assert!(client_record.alive);
    assert_eq!(client_record.kind, ClientKind::WaylandPlaceholder);
}

/// 验证 flow 和 report 都能查询 session 到核心 client 的 active mapping。
#[test]
fn connected_flow_exposes_session_to_client_mapping() {
    let mut flow = NestedSocketProbeBridgeFlow::new("wayland-phase-51g");
    let mut state = State::new();
    let session = NestedClientSessionId::new(5).expect("非零 session ID 必须有效");

    let report = flow.observe_connected_session(&mut state, session, None, None);

    assert!(report.mapping_stored);
    assert_eq!(flow.lookup_client(session), report.mapped_client);
    assert!(report.mapped_client.is_some());
    assert_eq!(flow.active_session_count(), 1);
}

/// 验证 duplicate connected 被 bridge 截断，不产生第二个核心 client。
#[test]
fn duplicate_connected_flow_does_not_register_second_client() {
    let mut flow = NestedSocketProbeBridgeFlow::new("wayland-phase-51g");
    let mut state = State::new();
    let session = NestedClientSessionId::new(6).expect("非零 session ID 必须有效");

    let first = flow.observe_connected_session(&mut state, session, None, None);
    let client_count = state.clients.records().len();
    let duplicate = flow.observe_connected_session(&mut state, session, None, None);

    assert!(first.core_client_registered);
    assert!(!duplicate.core_client_registered);
    assert!(duplicate.duplicate_connected_suppressed);
    assert_eq!(state.clients.records().len(), client_count);
    assert_eq!(flow.active_session_count(), 1);
    assert_eq!(duplicate.mapped_client, first.mapped_client);
    assert!(matches!(
        duplicate.bridge_outcome,
        NestedClientSessionBridgeOutcome::DuplicateConnected { session: actual, .. }
            if actual == session
    ));
}

/// 验证 flow report 明确关闭所有超出 Phase 51G 的 runtime 能力。
#[test]
fn flow_report_keeps_surface_shell_render_and_runtime_disabled() {
    let mut flow = NestedSocketProbeBridgeFlow::new("wayland-phase-51g");
    let mut state = State::new();
    let session = NestedClientSessionId::new(7).expect("非零 session ID 必须有效");

    let report = flow.observe_connected_session(&mut state, session, None, None);

    assert!(!report.surface_support);
    assert!(!report.shell_role_support);
    assert!(!report.render_support);
    assert!(!report.runtime_accept_loop_started);
    assert!(!report.runtime_dispatch_started);
    assert!(!report.accepts_clients_capability);
}

/// 验证 flow proof 不提升 Linux adapter 的真实 client capability。
#[test]
fn flow_does_not_change_linux_adapter_client_capability() {
    let capabilities = SmithayLinuxAdapterCapabilities::skeleton_only();

    assert!(!capabilities.accepts_clients);
}

/// 验证 flow report 是可克隆、可比较的纯数据诊断值。
#[test]
fn flow_report_supports_clone_compare_and_debug() {
    let mut flow = NestedSocketProbeBridgeFlow::new("wayland-phase-51g");
    let mut state = State::new();
    let session = NestedClientSessionId::new(8).expect("非零 session ID 必须有效");

    let report: NestedSocketProbeBridgeFlowReport =
        flow.observe_connected_session(&mut state, session, None, None);

    assert_eq!(report.clone(), report);
    assert!(format!("{report:?}").contains("NestedSocketProbeBridgeFlowReport"));
}
