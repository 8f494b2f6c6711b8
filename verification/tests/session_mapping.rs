use sky_mirror::core_model::runtime_bridge::{
    NestedClientSessionBridgeOutcome, NestedClientSessionCoreBridge,
};
use sky_mirror::core_model::state::State;
use sky_mirror::smithay_backend::accepted_client_mapping::NestedAcceptedClientMapping;
use sky_mirror::smithay_backend::client_session::{
    NestedClientSessionEvent, NestedClientSessionEventLog, NestedClientSessionId,
};
use sky_mirror::smithay_backend::real_disconnect_flow::bridge_disconnected_events;
use sky_mirror::smithay_backend::real_accept_flow::{
    NestedAcceptedClientAttempt, NestedAcceptedClientFailureReason, NestedRealAcceptCallbackState,
    NestedRealAcceptPumpReport, NestedSessionAllocator, bridge_connected_events,
};

fn session(value: u64) -> NestedClientSessionId {
    NestedClientSessionId::new(value).expect("session values are non-zero")
}

/// Session zero does not exist.
#[test]
fn session_id_zero_is_refused() {
    assert!(NestedClientSessionId::new(0).is_none());
    assert_eq!(session(9).value(), 9);
}

/// What is inserted is found again until it is removed.
#[test]
fn mapping_insert_lookup_remove_round_trip() {
    let mut mapping: NestedAcceptedClientMapping<u64> = NestedAcceptedClientMapping::new();
    assert!(mapping.is_empty());

    assert_eq!(mapping.insert(10, session(1)), None);
    assert_eq!(mapping.insert(20, session(2)), None);
    assert_eq!(mapping.lookup(&10), Some(session(1)));
    assert_eq!(mapping.lookup(&20), Some(session(2)));
    assert_eq!(mapping.len(), 2);

    assert_eq!(mapping.insert(10, session(3)), Some(session(1)));
    assert_eq!(mapping.lookup(&10), Some(session(3)));
    assert_eq!(mapping.len(), 2);

    assert_eq!(mapping.remove(&10), Some(session(3)));
    assert_eq!(mapping.lookup(&10), None);
    assert_eq!(mapping.remove(&10), None);
    assert_eq!(mapping.remove_session(session(2)), Some(20));
    assert_eq!(mapping.remove_session(session(2)), None);
    assert!(mapping.is_empty());
}

/// Sessions are handed out from 1 upwards and none after exhaustion.
#[test]
fn session_allocator_counts_up_and_exhausts() {
    let mut allocator = NestedSessionAllocator::new();
    assert_eq!(allocator.allocate_session(), Some(session(1)));
    assert_eq!(allocator.allocate_session(), Some(session(2)));

    let mut exhausted = NestedSessionAllocator::exhausted();
    assert_eq!(exhausted.allocate_session(), None);
    assert_eq!(exhausted.allocate_session(), None);
}

/// An exhausted allocator records an exhausted attempt and inserts nothing.
#[test]
fn accept_callback_with_exhausted_allocator_records_failure() {
    let mut callback: NestedRealAcceptCallbackState<u64> =
        NestedRealAcceptCallbackState::new(NestedSessionAllocator::exhausted());

    assert_eq!(callback.begin_accept(), None);
    assert!(callback.mapping().is_empty());
    assert_eq!(
        callback.take_attempts(),
        vec![NestedAcceptedClientAttempt {
            accepted_stream_observed: true,
            session: None,
            insert_succeeded: false,
            mapping_saved: false,
            failure_reason: Some(NestedAcceptedClientFailureReason::SessionIdExhausted),
        }]
    );
    assert!(callback.take_attempts().is_empty());
}

/// A successful insertion maps the client; a failed one keeps the message.
#[test]
fn accept_callback_records_insert_outcomes() {
    let mut callback: NestedRealAcceptCallbackState<u64> =
        NestedRealAcceptCallbackState::new(NestedSessionAllocator::new());

    let first = callback.begin_accept().expect("a session is left");
    assert_eq!(
        callback.finish_accept(first, Ok(77)),
        Some(NestedClientSessionEvent::Connected { session: session(1) })
    );
    let second = callback.begin_accept().expect("a session is left");
    assert_eq!(callback.finish_accept(second, Err("insert refused".to_string())), None);

    assert_eq!(callback.mapping().lookup(&77), Some(session(1)));
    assert_eq!(callback.mapping().len(), 1);
    assert_eq!(
        callback.take_attempts(),
        vec![
            NestedAcceptedClientAttempt {
                accepted_stream_observed: true,
                session: Some(session(1)),
                insert_succeeded: true,
                mapping_saved: true,
                failure_reason: None,
            },
            NestedAcceptedClientAttempt {
                accepted_stream_observed: true,
                session: Some(session(2)),
                insert_succeeded: false,
                mapping_saved: false,
                failure_reason: Some(NestedAcceptedClientFailureReason::InsertClientFailed {
                    message: "insert refused".to_string(),
                }),
            },
        ]
    );
}

/// One pump's report counts streams and insertions and registers each
/// connected session once.
#[test]
fn accept_pump_report_counts_and_registers() {
    let attempts = vec![
        NestedAcceptedClientAttempt {
            accepted_stream_observed: true,
            session: Some(session(1)),
            insert_succeeded: true,
            mapping_saved: true,
            failure_reason: None,
        },
        NestedAcceptedClientAttempt {
            accepted_stream_observed: true,
            session: Some(session(2)),
            insert_succeeded: false,
            mapping_saved: false,
            failure_reason: Some(NestedAcceptedClientFailureReason::InsertClientFailed {
                message: "refused".to_string(),
            }),
        },
    ];
    let mut log = NestedClientSessionEventLog::new();
    let mut bridge = NestedClientSessionCoreBridge::new();
    let mut state = State::new();

    let report = NestedRealAcceptPumpReport::from_callbacks(
        attempts,
        vec![NestedClientSessionEvent::Connected { session: session(1) }],
        "wayland-pump",
        &mut log,
        &mut bridge,
        &mut state,
    );

    assert_eq!(report.accepted_stream_count(), 2);
    assert_eq!(report.inserted_client_count(), 1);
    assert_eq!(report.registered_core_clients().len(), 1);
    assert_eq!(report.connected_records.len(), 1);
    assert_eq!(report.all_observed_validations_clean, Some(true));
    assert_eq!(bridge.active_session_count(), 1);
    let client = report.registered_core_clients()[0];
    assert_eq!(bridge.lookup_client(session(1)), Some(client));
    assert!(state.clients.is_alive(client));
    assert!(matches!(
        report.bridge_outcomes[0],
        NestedClientSessionBridgeOutcome::Connected { .. }
    ));
}

/// The mapping hands back the session of an inserted backend client (written
/// here as a plain integer identity) and forgets it on removal.
#[test]
fn inserted_client_mapping_round_trips_session_identity() {
    let session = session(71);
    let client_id: u64 = 7_100;
    let mut mapping: NestedAcceptedClientMapping<u64> = NestedAcceptedClientMapping::new();

    assert_eq!(mapping.insert(client_id, session), None);
    assert_eq!(mapping.lookup(&client_id), Some(session));
    assert_eq!(mapping.len(), 1);
    assert_eq!(mapping.remove(&client_id), Some(session));
    assert!(mapping.is_empty());
}

/// Knowing only the session is enough to drop its backend mapping.
#[test]
fn disconnected_session_removes_inserted_client_mapping() {
    let session = session(73);
    let client_id: u64 = 7_300;
    let mut mapping: NestedAcceptedClientMapping<u64> = NestedAcceptedClientMapping::new();
    assert_eq!(mapping.insert(client_id, session), None);

    assert_eq!(mapping.remove_session(session), Some(client_id));
    assert!(mapping.is_empty());
}

/// With no session identity left, an accepted stream is not inserted and
/// nothing reaches the core.
#[test]
fn accepted_stream_session_failure_does_not_register_core_client() {
    let mut callback: NestedRealAcceptCallbackState<u64> =
        NestedRealAcceptCallbackState::new(NestedSessionAllocator::exhausted());
    let mut log = NestedClientSessionEventLog::new();
    let mut bridge = NestedClientSessionCoreBridge::new();
    let mut state = State::new();

    assert_eq!(callback.begin_accept(), None);
    let attempts = callback.take_attempts();
    let (_, outcomes) = bridge_connected_events(
        Vec::new(),
        "controlled-session-exhaustion",
        &mut log,
        &mut bridge,
        &mut state,
    );

    assert_eq!(attempts.len(), 1);
    assert_eq!(
        attempts[0].failure_reason,
        Some(NestedAcceptedClientFailureReason::SessionIdExhausted)
    );
    assert!(outcomes.is_empty());
    assert_eq!(bridge.active_session_count(), 0);
    assert!(state.clients.records().is_empty());
}

/// One stream accepted, inserted and connected, then disconnected: the core
/// client is registered once, closed once, and the backend mapping is gone.
#[test]
fn accepted_then_disconnected_client_closes_core_client() {
    let mut callback: NestedRealAcceptCallbackState<u64> =
        NestedRealAcceptCallbackState::new(NestedSessionAllocator::new());
    let mut log = NestedClientSessionEventLog::new();
    let mut bridge = NestedClientSessionCoreBridge::new();
    let mut state = State::new();

    let session = callback.begin_accept().expect("a session is left");
    let connected = callback.finish_accept(session, Ok(4_242)).expect("insertion connects");
    let attempts = callback.take_attempts();
    let accepted = NestedRealAcceptPumpReport::from_callbacks(
        attempts,
        vec![connected],
        "wayland-accept-disconnect",
        &mut log,
        &mut bridge,
        &mut state,
    );
    let core_client = accepted.registered_core_clients()[0];
    assert!(state.clients.is_alive(core_client));
    assert_eq!(callback.mapping().len(), 1);

    let disconnected = bridge_disconnected_events(
        vec![NestedClientSessionEvent::Disconnected { session }],
        "wayland-accept-disconnect",
        &mut log,
        &mut bridge,
        callback.mapping_mut(),
        &mut state,
    );

    assert_eq!(disconnected.disconnected_count(), 1);
    assert_eq!(disconnected.disconnected_records[0].session, Some(session));
    assert_eq!(disconnected.closed_core_clients(), vec![core_client]);
    assert_eq!(disconnected.removed_backend_mapping_count, 1);
    assert_eq!(disconnected.all_observed_validations_clean, Some(true));
    assert!(callback.mapping().is_empty());
    assert!(!state.clients.is_alive(core_client));
    assert_eq!(bridge.active_session_count(), 0);
    assert_eq!(log.len(), 2);
}
