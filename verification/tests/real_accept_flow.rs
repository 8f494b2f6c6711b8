use sky_mirror::core_model::runtime_bridge::{
    NestedClientSessionBridgeOutcome, NestedClientSessionCoreBridge,
};
use sky_mirror::core_model::state::State;
use sky_mirror::smithay_backend::client_session::{
    NestedClientSessionEvent, NestedClientSessionEventLog, NestedClientSessionId,
};
use sky_mirror::smithay_backend::protocol_bootstrap::{
    LinuxWlCompositorGlobalInitError, LinuxXdgShellGlobalInitError, ProductionProtocolBootstrapError,
    ProductionProtocolBootstrapReport, ProductionProtocolGlobals, bootstrap_production_protocol_globals,
};
use sky_mirror::smithay_backend::real_accept_flow::{
    NestedRealAcceptConnectedBridgeBlocker, bridge_connected_events,
    nested_real_accept_connected_bridge_readiness_report,
};

fn session(value: u64) -> NestedClientSessionId {
    NestedClientSessionId::new(value).expect("测试 session ID 必须非零")
}

/// 验证 B 路线报告保留全部真实 runtime blockers 和 capability false。
#[test]
fn real_accept_boundary_keeps_accepts_clients_false_until_runtime_proof() {
    let report = nested_real_accept_connected_bridge_readiness_report();

    assert_eq!(
        report.blockers,
        vec![
            NestedRealAcceptConnectedBridgeBlocker::MissingRealAcceptLoop,
            NestedRealAcceptConnectedBridgeBlocker::MissingAcceptedStreamOwnership,
            NestedRealAcceptConnectedBridgeBlocker::MissingDisplayHandleInsertClientRuntimeProof,
            NestedRealAcceptConnectedBridgeBlocker::MissingRealClientSessionMapping,
            NestedRealAcceptConnectedBridgeBlocker::MissingConnectedEventBridgeFromRealInsert,
            NestedRealAcceptConnectedBridgeBlocker::MissingDisconnectCallbackSource,
            NestedRealAcceptConnectedBridgeBlocker::MissingLinuxRuntimeProof,
        ]
    );
    assert!(report.listening_socket_callback_available);
    assert!(report.calloop_version_boundary_clear);
    assert!(report.client_data_owner_defined);
    assert!(!report.accepted_stream_available);
    assert!(!report.real_accept_loop_available);
    assert!(!report.display_handle_insert_client_runtime_available);
    assert!(!report.inserted_client_mapping_available);
    assert!(!report.connected_event_bridged_to_core);
    assert!(!report.validation_report_available);
    assert!(!report.accepts_clients);
    assert!(!report.surface_support);
    assert!(!report.shell_role_support);
    assert!(!report.render_support);
    assert!(!report.protocol_dispatch_started);
    assert!(!report.is_runtime_ready());
}

/// 验证 duplicate connected 仍复用 session core bridge，不重复注册核心 client。
#[test]
fn accepted_client_duplicate_connect_does_not_register_twice() {
    // Arrange
    let session = session(72);
    let events = vec![
        NestedClientSessionEvent::Connected { session },
        NestedClientSessionEvent::Connected { session },
    ];
    let mut log = NestedClientSessionEventLog::new();
    let mut bridge = NestedClientSessionCoreBridge::new();
    let mut state = State::new();

    // Act
    let (_, outcomes) = bridge_connected_events(
        events,
        "controlled-duplicate",
        &mut log,
        &mut bridge,
        &mut state,
    );

    // Assert
    assert!(matches!(
        outcomes[0],
        NestedClientSessionBridgeOutcome::Connected { session: actual, .. } if actual == session
    ));
    assert!(matches!(
        outcomes[1],
        NestedClientSessionBridgeOutcome::DuplicateConnected { session: actual, .. }
            if actual == session
    ));
    assert_eq!(bridge.active_session_count(), 1);
}

/// 验证 insertion 未发布 Connected 时，flow 不会凭空注册核心 client。
#[test]
fn insert_failure_without_connected_event_does_not_register_core_client() {
    // Arrange：client_insert 模块已单独证明 Err 不会发布 Connected；这里封板消费侧。
    let mut log = NestedClientSessionEventLog::new();
    let mut bridge = NestedClientSessionCoreBridge::new();
    let mut state = State::new();

    // Act：没有 Connected 输入时，flow 不得猜测 session 或直接写 ClientRegistry。
    let (records, outcomes) = bridge_connected_events(
        Vec::new(),
        "controlled-insert-failure",
        &mut log,
        &mut bridge,
        &mut state,
    );

    // Assert
    assert!(records.is_empty());
    assert!(outcomes.is_empty());
    assert_eq!(bridge.active_session_count(), 0);
    assert!(state.clients.records().is_empty());
}


/// compositor 是 production bootstrap 的第一阶段；其失败必须短路 xdg。
#[test]
fn production_protocol_bootstrap_compositor_error_is_structured_and_short_circuits_xdg() {
    let mut display = ProductionProtocolGlobals::new();
    display
        .initialize_wl_compositor_global()
        .expect("预置 compositor global 必须成功");

    let error = bootstrap_production_protocol_globals(&mut display)
        .expect_err("重复 compositor 初始化必须返回结构化错误");

    assert_eq!(
        error,
        ProductionProtocolBootstrapError::WlCompositor {
            source: LinuxWlCompositorGlobalInitError::AlreadyInitialized,
        }
    );
    assert!(!display.is_xdg_shell_global_initialized());
}

/// xdg 是 production bootstrap 的第二阶段；其失败前 compositor 必须已成功初始化。
#[test]
fn production_protocol_bootstrap_xdg_error_occurs_after_compositor_initialization() {
    let mut display = ProductionProtocolGlobals::new();
    display
        .initialize_xdg_shell_global()
        .expect("预置 xdg_wm_base global 必须成功");

    let error = bootstrap_production_protocol_globals(&mut display)
        .expect_err("重复 xdg 初始化必须返回结构化错误");

    assert_eq!(
        error,
        ProductionProtocolBootstrapError::XdgWmBase {
            source: LinuxXdgShellGlobalInitError::AlreadyInitialized,
        }
    );
    assert!(display.is_wl_compositor_global_initialized());
}

/// A fresh display bootstraps once; a second bootstrap fails at the first stage.
#[test]
fn production_protocol_bootstrap_is_exactly_once_and_constructor_reports_server_state() {
    let mut display = ProductionProtocolGlobals::new();

    let report = bootstrap_production_protocol_globals(&mut display)
        .expect("fresh Display 的 production globals 必须初始化成功");
    let expected = ProductionProtocolBootstrapReport {
        bootstrap_attempted: true,
        wl_compositor_initialized: true,
        xdg_wm_base_initialized: true,
        socket_bound_after_bootstrap: false,
        external_registry_discovered_both_globals: false,
        external_client_bound_both_globals: false,
        buffer_import_attempted: false,
        buffer_imported: false,
        texture_created: false,
        renderer_called: false,
        damage_submitted: false,
        frame_callback_done_sent: false,
        input_support: false,
        core_mutation_invoked: false,
    };
    assert_eq!(report, expected);
    assert_eq!(
        bootstrap_production_protocol_globals(&mut display),
        Err(ProductionProtocolBootstrapError::WlCompositor {
            source: LinuxWlCompositorGlobalInitError::AlreadyInitialized,
        })
    );
    assert_eq!(
        report.with_socket_bound(),
        ProductionProtocolBootstrapReport { socket_bound_after_bootstrap: true, ..expected }
    );
}
