use sky_mirror::smithay_backend::client_session::{
    NestedClientSessionEventKind, NestedClientSessionId,
};
use sky_mirror::smithay_backend::linux_adapter::SmithayLinuxAdapterCapabilities;
use sky_mirror::smithay_backend::nested_socket_probe::{
    NestedSocketAcceptProbe, NestedSocketAcceptProbeBlocker, NestedSocketAcceptProbeReport,
};

/// 验证 report 明确声明该 producer 只属于 Linux feature 探针。
#[test]
fn report_declares_linux_only_probe_contract() {
    let mut probe = NestedSocketAcceptProbe::new("wayland-phase-51f");
    let session = NestedClientSessionId::new(1).expect("非零 session ID 必须有效");

    let report = probe.observe_connected_session(session, None, None);

    assert!(report.enabled);
    assert!(report.linux_only);
    assert!(report.requires_smithay_linux);
    assert_eq!(report.socket_name, "wayland-phase-51f");
}

/// 验证 socket 边界观察会产出 Phase 51D 的纯数据 event record。
#[test]
fn probe_produces_nested_client_session_event_record() {
    let mut probe = NestedSocketAcceptProbe::new("wayland-phase-51f");
    let session = NestedClientSessionId::new(2).expect("非零 session ID 必须有效");

    let report: NestedSocketAcceptProbeReport = probe.observe_connected_session(
        session,
        Some("nested-terminal".to_string()),
        Some("socket connection observed by probe".to_string()),
    );

    assert!(report.produced_session_event);
    assert_eq!(report.event.sequence, 1);
    assert_eq!(report.event.session, Some(session));
    assert_eq!(report.event.label.as_deref(), Some("nested-terminal"));
    assert_eq!(
        report.event.diagnostic.as_deref(),
        Some("socket connection observed by probe")
    );
}

/// 验证 probe 产出的生命周期类型是 connected，而不是拒绝或断开。
#[test]
fn produced_event_is_connected() {
    let mut probe = NestedSocketAcceptProbe::new("wayland-phase-51f");
    let session = NestedClientSessionId::new(3).expect("非零 session ID 必须有效");

    let report = probe.observe_connected_session(session, None, None);

    assert_eq!(report.event.kind, NestedClientSessionEventKind::Connected);
    assert_eq!(report.event.rejection_reason, None);
}

/// 验证同一 probe 的纯数据记录沿用单调递增顺序。
#[test]
fn probe_preserves_session_event_sequence() {
    let mut probe = NestedSocketAcceptProbe::new("wayland-phase-51f");
    let first = NestedClientSessionId::new(4).expect("非零 session ID 必须有效");
    let second = NestedClientSessionId::new(5).expect("非零 session ID 必须有效");

    let first_report = probe.observe_connected_session(first, None, None);
    let second_report = probe.observe_connected_session(second, None, None);

    assert_eq!(first_report.event.sequence, 1);
    assert_eq!(second_report.event.sequence, 2);
}

/// 验证 Phase 51F report 明确说明事件尚未进入核心生命周期 seam。
#[test]
fn probe_does_not_invoke_core_bridge() {
    let mut probe = NestedSocketAcceptProbe::new("wayland-phase-51f");
    let session = NestedClientSessionId::new(6).expect("非零 session ID 必须有效");

    let report = probe.observe_connected_session(session, None, None);

    assert!(!report.core_bridge_invoked);
}

/// 验证 probe 不创建协议对象、不启动输出链路或 runtime dispatch。
#[test]
fn probe_keeps_protocol_render_and_runtime_capabilities_disabled() {
    let mut probe = NestedSocketAcceptProbe::new("wayland-phase-51f");
    let session = NestedClientSessionId::new(7).expect("非零 session ID 必须有效");

    let report = probe.observe_connected_session(session, None, None);

    assert!(!report.surface_support);
    assert!(!report.shell_role_support);
    assert!(!report.render_support);
    assert!(!report.runtime_dispatch_started);
    assert!(!report.runtime_accept_loop_started);
}

/// 验证新增 probe 不提升 Linux adapter 的真实 client capability。
#[test]
fn probe_does_not_change_real_client_capability() {
    let capabilities = SmithayLinuxAdapterCapabilities::skeleton_only();

    assert!(!capabilities.accepts_clients);
}

/// 验证 report 对未启动真实 runtime loop 给出结构化 blocker。
#[test]
fn report_exposes_runtime_accept_loop_blocker() {
    let mut probe = NestedSocketAcceptProbe::new("wayland-phase-51f");
    let session = NestedClientSessionId::new(8).expect("非零 session ID 必须有效");

    let report = probe.observe_connected_session(session, None, None);

    assert_eq!(
        report.blocker,
        NestedSocketAcceptProbeBlocker::RuntimeAcceptLoopNotStarted
    );
}

/// 验证 report 是可克隆、可比较并适合 diagnostics 的纯数据值。
#[test]
fn report_supports_clone_compare_and_debug() {
    let mut probe = NestedSocketAcceptProbe::new("wayland-phase-51f");
    let session = NestedClientSessionId::new(9).expect("非零 session ID 必须有效");

    let report = probe.observe_connected_session(session, None, None);

    assert_eq!(report.clone(), report);
    assert!(format!("{report:?}").contains("NestedSocketAcceptProbeReport"));
}
