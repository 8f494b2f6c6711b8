use sky_mirror::core_model::runtime_bridge::{
    NestedClientSessionBridgeOutcome, NestedClientSessionCoreBridge,
};
use sky_mirror::core_model::state::State;
use sky_mirror::core_model::types::{BackendEvent, CoreCommand};
use sky_mirror::smithay_backend::accepted_client_mapping::NestedAcceptedClientMapping;
use sky_mirror::smithay_backend::client_session::{
    NestedClientSessionEvent, NestedClientSessionEventLog, NestedClientSessionId,
};
use sky_mirror::smithay_backend::real_disconnect_flow::bridge_disconnected_events;

fn session(value: u64) -> NestedClientSessionId {
    NestedClientSessionId::new(value).expect("测试 session ID 必须非零")
}

fn connect_session(
    session: NestedClientSessionId,
    log: &mut NestedClientSessionEventLog,
    bridge: &mut NestedClientSessionCoreBridge,
    state: &mut State,
) {
    let connected = log.record(NestedClientSessionEvent::Connected { session }, None, None);
    let outcome = bridge.handle_record(state, &connected);
    assert!(matches!(outcome, NestedClientSessionBridgeOutcome::Connected { .. }));
}

/// 验证 controlled disconnected event 只经既有 session/core bridge 关闭 known client。
#[test]
fn known_disconnected_session_closes_core_client() {
    let session = session(81);
    let mut log = NestedClientSessionEventLog::new();
    let mut bridge = NestedClientSessionCoreBridge::new();
    let mut mapping: NestedAcceptedClientMapping<u64> = NestedAcceptedClientMapping::new();
    let mut state = State::new();
    connect_session(session, &mut log, &mut bridge, &mut state);
    let client = bridge.lookup_client(session).expect("连接后必须有 core mapping");

    let report = bridge_disconnected_events(
        vec![NestedClientSessionEvent::Disconnected { session }],
        "controlled-known-disconnect",
        &mut log,
        &mut bridge,
        &mut mapping,
        &mut state,
    );

    assert_eq!(report.disconnected_count(), 1);
    assert_eq!(report.closed_core_clients(), vec![client]);
    let NestedClientSessionBridgeOutcome::Disconnected { runtime, .. } = &report.bridge_outcomes[0]
    else {
        panic!("known session 必须生成 Disconnected outcome");
    };
    assert_eq!(runtime.event, BackendEvent::ClientDisconnected { client });
    assert_eq!(runtime.command, CoreCommand::CloseClient(client));
    assert_eq!(report.all_observed_validations_clean, Some(true));
    assert!(!state.clients.is_alive(client));
    assert!(state.validate().is_clean());
}

/// 验证 duplicate disconnect 在首次 close 后退化为 unknown，不重复修改 core。
#[test]
fn duplicate_disconnect_does_not_close_twice() {
    let session = session(82);
    let mut log = NestedClientSessionEventLog::new();
    let mut bridge = NestedClientSessionCoreBridge::new();
    let mut mapping: NestedAcceptedClientMapping<u64> = NestedAcceptedClientMapping::new();
    let mut state = State::new();
    connect_session(session, &mut log, &mut bridge, &mut state);

    let report = bridge_disconnected_events(
        vec![
            NestedClientSessionEvent::Disconnected { session },
            NestedClientSessionEvent::Disconnected { session },
        ],
        "controlled-duplicate-disconnect",
        &mut log,
        &mut bridge,
        &mut mapping,
        &mut state,
    );

    assert_eq!(report.closed_core_clients().len(), 1);
    assert!(matches!(
        report.bridge_outcomes[1],
        NestedClientSessionBridgeOutcome::UnknownDisconnected { session: actual }
            if actual == session
    ));
    assert!(state.validate().is_clean());
}

/// 验证未注册或 unknown session 不 panic、不伪造 core close。
#[test]
fn unknown_disconnect_is_safe() {
    let session = session(83);
    let mut log = NestedClientSessionEventLog::new();
    let mut bridge = NestedClientSessionCoreBridge::new();
    let mut mapping: NestedAcceptedClientMapping<u64> = NestedAcceptedClientMapping::new();
    let mut state = State::new();

    let report = bridge_disconnected_events(
        vec![NestedClientSessionEvent::Disconnected { session }],
        "controlled-unknown-disconnect",
        &mut log,
        &mut bridge,
        &mut mapping,
        &mut state,
    );

    assert_eq!(
        report.bridge_outcomes,
        vec![NestedClientSessionBridgeOutcome::UnknownDisconnected { session }]
    );
    assert!(report.closed_core_clients().is_empty());
    assert_eq!(report.all_observed_validations_clean, None);
    assert!(state.clients.records().is_empty());
    assert!(state.validate().is_clean());
}

/// 验证 controlled bridge 不能提升真实 callback 或真实 core close capability。
#[test]
fn real_disconnect_callback_boundary_keeps_runtime_capability_false() {
    let mut log = NestedClientSessionEventLog::new();
    let mut bridge = NestedClientSessionCoreBridge::new();
    let mut mapping: NestedAcceptedClientMapping<u64> = NestedAcceptedClientMapping::new();
    let mut state = State::new();

    let report = bridge_disconnected_events(
        Vec::new(),
        "controlled-empty-disconnect",
        &mut log,
        &mut bridge,
        &mut mapping,
        &mut state,
    );

    assert!(!report.readiness.accepts_clients);
    assert!(!report.readiness.real_disconnect_callback_observed);
    assert!(!report.readiness.core_close_invoked_from_real_callback);
    assert!(!report.readiness.is_ready());
}

/// A known disconnect also drops the backend mapping of its session; the
/// backend client identity is written as a plain integer key here.
#[test]
fn known_disconnect_removes_backend_client_mapping() {
    let session = session(84);
    let backend_client: u64 = 8_400;
    let mut mapping: NestedAcceptedClientMapping<u64> = NestedAcceptedClientMapping::new();
    assert_eq!(mapping.insert(backend_client, session), None);

    let mut log = NestedClientSessionEventLog::new();
    let mut bridge = NestedClientSessionCoreBridge::new();
    let mut state = State::new();
    connect_session(session, &mut log, &mut bridge, &mut state);

    let report = bridge_disconnected_events(
        vec![NestedClientSessionEvent::Disconnected { session }],
        "controlled-mapping-removal",
        &mut log,
        &mut bridge,
        &mut mapping,
        &mut state,
    );

    assert_eq!(report.removed_backend_mapping_count, 1);
    assert!(mapping.is_empty());
    assert_eq!(report.all_observed_validations_clean, Some(true));
}
