use std::path::PathBuf;

use sky_mirror::smithay_backend::linux_adapter::SmithayLinuxAdapterCapabilities;
use sky_mirror::smithay_backend::runtime::SmithayRuntimeProbe;
use sky_mirror::smithay_backend::runtime_facade::{
    BackendBootstrapMode, BackendHostPlatform, BackendRuntimeCapabilities, BackendRuntimeDiagnostic,
    BackendRuntimeReport, invalid_runtime_dir_text, linux_resource_report, runtime_dir_diagnostics,
};

/// Linux, built without the Linux backend.
fn linux_host() -> BackendHostPlatform {
    BackendHostPlatform { is_linux: true, name: "linux", linux_backend_enabled: false }
}

/// Linux, built with the Linux backend.
fn linux_backend_host() -> BackendHostPlatform {
    BackendHostPlatform { is_linux: true, name: "linux", linux_backend_enabled: true }
}

/// 验证纯数据 runtime 可以生成后端中立报告。
#[test]
fn smithay_probe_builds_runtime_facade_report() {
    let runtime = SmithayRuntimeProbe::new_probe_only();
    let report = BackendRuntimeReport::from_runtime(&runtime, linux_host(), None, false);

    assert_eq!(report.backend_name, "smithay-probe");
    assert_eq!(report.bootstrap_mode, BackendBootstrapMode::ProbeOnly);
    assert_eq!(report.socket_name, None);
    assert_eq!(report.runtime_dir, None);
    assert_eq!(report.capabilities, BackendRuntimeCapabilities::smithay_probe());
    assert!(report.has_diagnostic(|diagnostic| matches!(
        diagnostic,
        BackendRuntimeDiagnostic::ProbeFallback { .. }
    )));
}

/// 验证纯 probe 不会宣称尚未实现的系统能力。
#[test]
fn smithay_probe_capabilities_are_conservative() {
    let runtime = SmithayRuntimeProbe::new_probe_only();
    let capabilities = BackendRuntimeReport::from_runtime(&runtime, linux_host(), None, false).capabilities;

    assert!(!capabilities.can_create_display);
    assert!(!capabilities.can_create_socket);
    assert!(!capabilities.supports_linux_runtime_dir);
    assert!(capabilities.supports_mock_runtime);
    assert!(capabilities.supports_surface_lifecycle_boundary);
    assert!(capabilities.supports_surface_trace_harness);
    assert!(capabilities.supports_surface_window_intent_planning);
    assert!(capabilities.supports_window_admission_preview);
    assert!(capabilities.supports_surface_admission_pipeline_preview);
    assert!(!capabilities.supports_real_wayland_surfaces);
    assert!(!capabilities.supports_gpu_rendering);
}

/// 验证不可用 Linux 后端会形成结构化诊断，而不是触发 panic。
#[test]
fn unavailable_linux_runtime_becomes_structured_diagnostics() {
    let runtime = SmithayRuntimeProbe::new_probe_only();
    let report = BackendRuntimeReport::from_runtime(&runtime, linux_host(), None, false);

    assert!(report.has_diagnostic(|diagnostic| matches!(
        diagnostic,
        BackendRuntimeDiagnostic::FeatureDisabled { feature: "smithay-linux" }
    )));

    let other = BackendRuntimeReport::from_runtime(
        &runtime,
        BackendHostPlatform { is_linux: false, name: "macos", linux_backend_enabled: false },
        None,
        false,
    );
    assert!(other.has_diagnostic(|diagnostic| matches!(
        diagnostic,
        BackendRuntimeDiagnostic::LinuxOnly { feature: "smithay-linux" }
    )));
    assert!(other.has_diagnostic(|diagnostic| matches!(
        diagnostic,
        BackendRuntimeDiagnostic::UnsupportedPlatform { .. }
    )));
    assert!(!report.has_diagnostic(|diagnostic| matches!(
        diagnostic,
        BackendRuntimeDiagnostic::UnsupportedPlatform { .. }
    )));
}

/// 验证缺失 runtime dir 会返回明确诊断。
#[test]
fn missing_runtime_dir_becomes_diagnostic() {
    let (runtime_dir, diagnostics) = runtime_dir_diagnostics(None, false);

    assert_eq!(runtime_dir, None);
    assert_eq!(
        diagnostics,
        vec![BackendRuntimeDiagnostic::MissingRuntimeDir { variable: "XDG_RUNTIME_DIR" }]
    );
}

/// 验证无效 runtime dir 会返回路径诊断。
#[test]
fn invalid_runtime_dir_becomes_diagnostic() {
    let invalid_path = PathBuf::from("/tmp/sky-mirror-not-a-directory/Cargo.toml");
    let (runtime_dir, diagnostics) = runtime_dir_diagnostics(Some(invalid_path.clone()), false);

    assert_eq!(runtime_dir, None);
    assert_eq!(diagnostics, vec![BackendRuntimeDiagnostic::InvalidRuntimeDir { path: invalid_path }]);
}

/// 验证结构化诊断可以安全转换为日志文本。
#[test]
fn runtime_diagnostic_display_preserves_context() {
    let diagnostic =
        BackendRuntimeDiagnostic::SocketNameSelected { socket_name: "wayland-test".to_string() };

    assert_eq!(diagnostic.text(), "已选择 Wayland socket: wayland-test");
}

/// 验证旧 runtime Linux API 配置的 socket 会进入门面报告。
#[test]
fn legacy_smithay_runtime_builds_linux_facade_report() {
    let socket_name = "wayland-facade-legacy".to_string();
    let runtime = SmithayRuntimeProbe::with_socket_name(Ok(socket_name.clone()))
        .expect("旧 runtime API 必须真实构造指定 socket");
    let report =
        BackendRuntimeReport::from_runtime(&runtime, linux_backend_host(), Some(PathBuf::from("/tmp")), true);

    assert_eq!(report.backend_name, "smithay-linux-compat");
    assert_eq!(report.bootstrap_mode, BackendBootstrapMode::ProbeOnly);
    assert_eq!(report.socket_name.as_deref(), Some(socket_name.as_str()));
    assert!(report.runtime_dir.is_some());
    assert!(report.capabilities.can_create_display);
    assert!(report.capabilities.can_create_socket);
    assert!(report.capabilities.supports_surface_lifecycle_boundary);
    assert!(report.capabilities.supports_surface_trace_harness);
    assert!(report.capabilities.supports_surface_window_intent_planning);
    assert!(report.capabilities.supports_window_admission_preview);
    assert!(report.capabilities.supports_surface_admission_pipeline_preview);
    assert!(!report.capabilities.supports_real_wayland_surfaces);
    assert!(!report.capabilities.supports_gpu_rendering);
    assert!(report.has_diagnostic(|diagnostic| matches!(
        diagnostic,
        BackendRuntimeDiagnostic::SocketNameSelected { socket_name: selected }
            if selected == &socket_name
    )));
}

/// 验证 Linux 资源组合探针可以生成相同语义的门面报告。
#[test]
fn linux_runtime_builds_facade_report() {
    let socket_name = "wayland-facade-linux".to_string();
    let report = linux_resource_report(
        "smithay-linux",
        BackendBootstrapMode::ProbeOnly,
        socket_name.clone(),
        Some(PathBuf::from("/tmp")),
        true,
    );

    assert_eq!(report.backend_name, "smithay-linux");
    assert_eq!(report.bootstrap_mode, BackendBootstrapMode::ProbeOnly);
    assert_eq!(report.socket_name.as_deref(), Some(socket_name.as_str()));
    assert!(report.runtime_dir.is_some());
    assert!(report.capabilities.supports_linux_runtime_dir);
    assert!(report.capabilities.supports_mock_runtime);
    assert!(report.capabilities.supports_surface_lifecycle_boundary);
    assert!(report.capabilities.supports_surface_trace_harness);
    assert!(report.capabilities.supports_surface_window_intent_planning);
    assert!(report.capabilities.supports_window_admission_preview);
    assert!(report.capabilities.supports_surface_admission_pipeline_preview);
    assert!(!report.capabilities.supports_real_wayland_surfaces);
    assert!(!report.capabilities.supports_gpu_rendering);
}

/// A socket bound on a host that is not Linux still yields the probe report.
#[test]
fn socket_runtime_on_other_host_reports_probe() {
    let runtime = SmithayRuntimeProbe::with_socket_name(Ok("wayland-elsewhere".to_string()))
        .expect("a bound socket builds the runtime");
    assert_eq!(runtime.socket_name_string(), "wayland-elsewhere");
    assert_eq!(runtime.bootstrap_mode(), sky_mirror::smithay_backend::runtime::SmithayBootstrapMode::ProbeOnly);
    let report = BackendRuntimeReport::from_runtime(
        &runtime,
        BackendHostPlatform { is_linux: false, name: "macos", linux_backend_enabled: false },
        Some(PathBuf::from("/tmp")),
        true,
    );
    assert_eq!(report.backend_name, "smithay-probe");
    assert_eq!(report.socket_name, None);
    assert_eq!(report.runtime_dir, None);
}

/// A socket runtime whose runtime directory is missing records that first.
#[test]
fn socket_runtime_without_runtime_dir_lists_missing_dir_first() {
    let runtime = SmithayRuntimeProbe::with_socket_name(Ok("wayland-nodir".to_string()))
        .expect("a bound socket builds the runtime");
    let report = BackendRuntimeReport::from_runtime(&runtime, linux_backend_host(), None, false);
    assert_eq!(report.backend_name, "smithay-linux-compat");
    assert_eq!(
        report.diagnostics,
        vec![
            BackendRuntimeDiagnostic::MissingRuntimeDir { variable: "XDG_RUNTIME_DIR" },
            BackendRuntimeDiagnostic::SocketNameSelected { socket_name: "wayland-nodir".to_string() },
        ]
    );
}

/// A binding error is handed back, and a probe runtime names no socket.
#[test]
fn runtime_socket_binding_error_is_returned() {
    let result = SmithayRuntimeProbe::with_socket_name(Err("address in use".to_string()));
    assert_eq!(result.err(), Some("address in use".to_string()));
    assert_eq!(SmithayRuntimeProbe::new_probe_only().socket_name_string(), "");
}

/// The invalid-directory text carries the path itself.
#[test]
fn invalid_runtime_dir_text_shows_path() {
    let diagnostic = BackendRuntimeDiagnostic::InvalidRuntimeDir {
        path: PathBuf::from("/tmp/sky-mirror-missing/dir"),
    };
    assert_eq!(diagnostic.text(), "运行时目录无效: /tmp/sky-mirror-missing/dir");
}

/// Counts and flags render as decimals and `true`/`false`.
#[test]
fn adapter_diagnostic_texts_render_counts_and_flags() {
    let plan = BackendRuntimeDiagnostic::AdapterProtocolGlobalPlan {
        planned_count: 12,
        registered_count: 0,
        skeleton_only: true,
    };
    assert_eq!(plan.text(), "adapter protocol global plan: planned=12, registered=0, skeleton_only=true");

    let ledger = BackendRuntimeDiagnostic::AdapterProtocolGlobalRegistrationSkeleton {
        attempted: true,
        skeleton_registered_count: 105,
        real_registered_count: 0,
        skeleton_only: false,
    };
    assert_eq!(
        ledger.text(),
        "adapter protocol global registration skeleton: attempted=true, skeleton_registered=105, real_registered=0, skeleton_only=false"
    );

    let missing = BackendRuntimeDiagnostic::MissingRuntimeDir { variable: "XDG_RUNTIME_DIR" };
    assert_eq!(missing.text(), "缺少运行时目录环境变量 XDG_RUNTIME_DIR");
}

/// With the Linux backend built in, a runtime holding no socket reports only
/// the probe fallback; without it, also the disabled feature.
#[test]
fn socketless_runtime_with_linux_backend_reports_only_fallback() {
    let runtime = SmithayRuntimeProbe::new_probe_only();
    let report = BackendRuntimeReport::from_runtime(&runtime, linux_backend_host(), None, false);
    assert_eq!(report.backend_name, "smithay-probe");
    assert_eq!(
        report.diagnostics,
        vec![BackendRuntimeDiagnostic::ProbeFallback { backend_name: "smithay-probe" }]
    );

    let without = BackendRuntimeReport::from_runtime(&runtime, linux_host(), None, false);
    assert_eq!(
        without.diagnostics,
        vec![
            BackendRuntimeDiagnostic::ProbeFallback { backend_name: "smithay-probe" },
            BackendRuntimeDiagnostic::FeatureDisabled { feature: "smithay-linux" },
        ]
    );
}

/// A socket runtime on a build without the Linux backend gets the probe report.
#[test]
fn socket_runtime_without_linux_backend_reports_probe() {
    let runtime = SmithayRuntimeProbe::with_socket_name(Ok("wayland-nofeature".to_string()))
        .expect("a bound socket builds the runtime");
    let report = BackendRuntimeReport::from_runtime(&runtime, linux_host(), Some(PathBuf::from("/tmp")), true);
    assert_eq!(report.backend_name, "smithay-probe");
    assert_eq!(report.socket_name, None);
}

/// The adapter skeleton's report appends its pump, plan and ledger facts to
/// the Linux resource report; no registration attempt reads as skeleton only.
#[test]
fn linux_adapter_report_appends_adapter_diagnostics() {
    let report = BackendRuntimeReport::from_linux_adapter(
        "wayland-adapter".to_string(),
        Some(PathBuf::from("/tmp")),
        true,
        SmithayLinuxAdapterCapabilities::skeleton_only(),
        2,
        0,
        true,
        None,
    );
    assert_eq!(report.backend_name, "smithay-linux-adapter-skeleton");
    assert_eq!(report.socket_name.as_deref(), Some("wayland-adapter"));
    assert_eq!(report.runtime_dir, Some(PathBuf::from("/tmp")));
    assert!(report.capabilities.can_create_socket);
    assert_eq!(
        report.diagnostics,
        vec![
            BackendRuntimeDiagnostic::SocketNameSelected { socket_name: "wayland-adapter".to_string() },
            BackendRuntimeDiagnostic::AdapterEventPumpSkeleton {
                has_event_pump_boundary: true,
                pumps_once: true,
                runs_event_loop: false,
                accepts_clients: false,
                dispatches_protocol_events: false,
                registers_protocol_globals: false,
            },
            BackendRuntimeDiagnostic::AdapterProtocolGlobalPlan {
                planned_count: 2,
                registered_count: 0,
                skeleton_only: true,
            },
            BackendRuntimeDiagnostic::AdapterProtocolGlobalRegistrationSkeleton {
                attempted: false,
                skeleton_registered_count: 0,
                real_registered_count: 0,
                skeleton_only: true,
            },
        ]
    );

    let registered = BackendRuntimeReport::from_linux_adapter(
        "wayland-adapter".to_string(),
        None,
        false,
        SmithayLinuxAdapterCapabilities::skeleton_only(),
        2,
        2,
        true,
        Some((2, 0, true)),
    );
    assert_eq!(
        registered.diagnostics[0],
        BackendRuntimeDiagnostic::MissingRuntimeDir { variable: "XDG_RUNTIME_DIR" }
    );
    assert_eq!(
        registered.diagnostics[4],
        BackendRuntimeDiagnostic::AdapterProtocolGlobalRegistrationSkeleton {
            attempted: true,
            skeleton_registered_count: 2,
            real_registered_count: 0,
            skeleton_only: true,
        }
    );
}

/// The invalid-directory line is the prefix followed by exactly the shown path.
#[test]
fn invalid_runtime_dir_line_is_prefix_and_path() {
    assert_eq!(invalid_runtime_dir_text("/run/user/1000"), "运行时目录无效: /run/user/1000");
    assert_eq!(invalid_runtime_dir_text(""), "运行时目录无效: ");
}

/// The diagnostic text carries the displayed path after the prefix.
#[test]
fn invalid_runtime_dir_diagnostic_text_ends_with_path() {
    let diagnostic = BackendRuntimeDiagnostic::InvalidRuntimeDir { path: PathBuf::from("/var/empty/x") };
    assert_eq!(diagnostic.text(), "运行时目录无效: /var/empty/x");
}
