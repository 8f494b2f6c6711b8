//! Backend-neutral, read-only runtime facade: what a runtime can do, and
//! structured startup diagnostics. It holds no core state and submits no event.

use std::path::PathBuf;

use vstd::prelude::*;
use vstd::string::*;

use crate::smithay_backend::linux_adapter::SmithayLinuxAdapterCapabilities;
use crate::smithay_backend::runtime::SmithayRuntimeProbe;
use crate::text::{decimal, push_decimal};

verus! {

/// A filesystem path of std, carried through opaquely.
#[verifier::external_type_specification]
#[verifier::external_body]
pub struct ExPathBuf(std::path::PathBuf);

/// `Clone::clone` of std's `PathBuf`: a copy of the same path. The derived
/// `Clone` of the diagnostics that carry a path calls it.
pub assume_specification[ <std::path::PathBuf as std::clone::Clone>::clone ](path: &std::path::PathBuf) -> (r:
    std::path::PathBuf)
    ensures
        r == *path,
;

/// The text std's `Path::display` shows for `path`. It depends on the path's
/// contents alone (on the platform the binary is built for); its form, a
/// lossy conversion of non-UTF-8 parts, is not stated.
pub uninterp spec fn path_text(path: PathBuf) -> Seq<char>;

/// `Path::display` of std, formatted into a `String`: the text shown for
/// `path`, named by `path_text`.
#[verifier::external_body]
fn path_display_text(path: &PathBuf) -> (r: String)
    ensures
        r@ == path_text(*path),
{
    format!("{}", path.display())
}

/// The log line of an invalid runtime directory whose path displays as `shown`:
/// the fixed prefix followed by exactly that text.
pub fn invalid_runtime_dir_text(shown: &str) -> (r: String)
    ensures
        r@ == "运行时目录无效: "@ + shown@,
{
    let mut out = String::from_str("运行时目录无效: ");
    out.append(shown);
    out
}

/// How the backend started; only the probe mode exists.
#[derive(Debug, Clone, Copy, PartialEq, Eq, Structural)]
pub enum BackendBootstrapMode {
    /// Runtime and resource boundaries only; no real compositor.
    ProbeOnly,
}

/// What a backend runtime can do.
#[derive(Debug, Clone, Copy, PartialEq, Eq, Structural)]
pub struct BackendRuntimeCapabilities {
    /// A Wayland display can be created.
    pub can_create_display: bool,
    /// A listening socket can be created.
    pub can_create_socket: bool,
    /// The Linux runtime directory is used.
    pub supports_linux_runtime_dir: bool,
    /// The pure-data runtime probe is supported.
    pub supports_mock_runtime: bool,
    /// The pure-data surface lifecycle boundary is supported.
    pub supports_surface_lifecycle_boundary: bool,
    /// The surface lifecycle trace harness is supported.
    pub supports_surface_trace_harness: bool,
    /// Planning of window intents from surfaces is supported.
    pub supports_surface_window_intent_planning: bool,
    /// Window admission preview is supported.
    pub supports_window_admission_preview: bool,
    /// The surface admission pipeline preview is supported.
    pub supports_surface_admission_pipeline_preview: bool,
    /// Real Wayland surfaces are supported.
    pub supports_real_wayland_surfaces: bool,
    /// GPU rendering is supported.
    pub supports_gpu_rendering: bool,
}

/// The pure-data part every probe supports: the mock runtime and the surface
/// pipeline; no real surface, no GPU.
pub open spec fn pure_data_capabilities(c: BackendRuntimeCapabilities) -> bool {
    &&& c.supports_mock_runtime
    &&& c.supports_surface_lifecycle_boundary
    &&& c.supports_surface_trace_harness
    &&& c.supports_surface_window_intent_planning
    &&& c.supports_window_admission_preview
    &&& c.supports_surface_admission_pipeline_preview
    &&& !c.supports_real_wayland_surfaces
    &&& !c.supports_gpu_rendering
}

impl BackendRuntimeCapabilities {
    /// The pure-data probe: no display, socket or runtime directory.
    pub fn smithay_probe() -> (r: Self)
        ensures
            pure_data_capabilities(r),
            !r.can_create_display,
            !r.can_create_socket,
            !r.supports_linux_runtime_dir,
    {
        Self {
            can_create_display: false,
            can_create_socket: false,
            supports_linux_runtime_dir: false,
            supports_mock_runtime: true,
            supports_surface_lifecycle_boundary: true,
            supports_surface_trace_harness: true,
            supports_surface_window_intent_planning: true,
            supports_window_admission_preview: true,
            supports_surface_admission_pipeline_preview: true,
            supports_real_wayland_surfaces: false,
            supports_gpu_rendering: false,
        }
    }

    /// The Linux resource probe: display, socket and runtime directory too.
    pub fn smithay_linux_probe() -> (r: Self)
        ensures
            pure_data_capabilities(r),
            r.can_create_display,
            r.can_create_socket,
            r.supports_linux_runtime_dir,
    {
        Self {
            can_create_display: true,
            can_create_socket: true,
            supports_linux_runtime_dir: true,
            supports_mock_runtime: true,
            supports_surface_lifecycle_boundary: true,
            supports_surface_trace_harness: true,
            supports_surface_window_intent_planning: true,
            supports_window_admission_preview: true,
            supports_surface_admission_pipeline_preview: true,
            supports_real_wayland_surfaces: false,
            supports_gpu_rendering: false,
        }
    }
}

/// A structured startup diagnostic.
#[derive(Debug, Clone, PartialEq, Eq)]
pub enum BackendRuntimeDiagnostic {
    /// The runtime directory variable is not set.
    MissingRuntimeDir { variable: &'static str },
    /// The runtime directory is set but is not a directory.
    InvalidRuntimeDir { path: PathBuf },
    /// The backend chose this Wayland socket.
    SocketNameSelected { socket_name: String },
    /// An optional feature is not enabled in this build.
    FeatureDisabled { feature: &'static str },
    /// A feature is available on Linux only.
    LinuxOnly { feature: &'static str },
    /// The backend fell back to the pure-data probe.
    ProbeFallback { backend_name: &'static str },
    /// The host platform cannot run the Linux backend.
    UnsupportedPlatform { platform: &'static str },
    /// The adapter offers only an event pump skeleton.
    AdapterEventPumpSkeleton {
        has_event_pump_boundary: bool,
        pumps_once: bool,
        runs_event_loop: bool,
        accepts_clients: bool,
        dispatches_protocol_events: bool,
        registers_protocol_globals: bool,
    },
    /// The adapter only plans protocol globals.
    AdapterProtocolGlobalPlan { planned_count: usize, registered_count: usize, skeleton_only: bool },
    /// The adapter keeps only a skeleton ledger of global registration.
    AdapterProtocolGlobalRegistrationSkeleton {
        attempted: bool,
        skeleton_registered_count: usize,
        real_registered_count: usize,
        skeleton_only: bool,
    },
}

/// "true" or "false".
pub open spec fn flag_text(b: bool) -> Seq<char> {
    if b {
        "true"@
    } else {
        "false"@
    }
}

fn flag_word(b: bool) -> (r: &'static str)
    ensures
        r@ == flag_text(b),
{
    if b {
        "true"
    } else {
        "false"
    }
}

/// The log text of a diagnostic without a path.
pub open spec fn diagnostic_text(d: BackendRuntimeDiagnostic) -> Seq<char> {
    match d {
        BackendRuntimeDiagnostic::MissingRuntimeDir { variable } => "缺少运行时目录环境变量 "@ + variable@,
        BackendRuntimeDiagnostic::InvalidRuntimeDir { .. } => "运行时目录无效: "@,
        BackendRuntimeDiagnostic::SocketNameSelected { socket_name } => "已选择 Wayland socket: "@
            + socket_name@,
        BackendRuntimeDiagnostic::FeatureDisabled { feature } => "Cargo feature 未启用: "@ + feature@,
        BackendRuntimeDiagnostic::LinuxOnly { feature } => "Cargo feature 仅支持 Linux: "@ + feature@,
        BackendRuntimeDiagnostic::ProbeFallback { backend_name } => "使用纯数据运行时探针: "@
            + backend_name@,
        BackendRuntimeDiagnostic::UnsupportedPlatform { platform } => "当前平台不支持 Linux 后端: "@
            + platform@,
        BackendRuntimeDiagnostic::AdapterEventPumpSkeleton {
            has_event_pump_boundary,
            pumps_once,
            runs_event_loop,
            accepts_clients,
            dispatches_protocol_events,
            registers_protocol_globals,
        } => "adapter event pump skeleton: boundary="@ + flag_text(has_event_pump_boundary)
            + ", pumps_once="@ + flag_text(pumps_once) + ", event_loop="@ + flag_text(runs_event_loop)
            + ", clients="@ + flag_text(accepts_clients) + ", protocol_events="@ + flag_text(
            dispatches_protocol_events,
        ) + ", globals="@ + flag_text(registers_protocol_globals),
        BackendRuntimeDiagnostic::AdapterProtocolGlobalPlan {
            planned_count,
            registered_count,
            skeleton_only,
        } => "adapter protocol global plan: planned="@ + decimal(planned_count as nat)
            + ", registered="@ + decimal(registered_count as nat) + ", skeleton_only="@ + flag_text(
            skeleton_only,
        ),
        BackendRuntimeDiagnostic::AdapterProtocolGlobalRegistrationSkeleton {
            attempted,
            skeleton_registered_count,
            real_registered_count,
            skeleton_only,
        } => "adapter protocol global registration skeleton: attempted="@ + flag_text(attempted)
            + ", skeleton_registered="@ + decimal(skeleton_registered_count as nat)
            + ", real_registered="@ + decimal(real_registered_count as nat) + ", skeleton_only="@
            + flag_text(skeleton_only),
    }
}

impl BackendRuntimeDiagnostic {
    /// The log text of the diagnostic. For an invalid runtime directory the
    /// displayed path follows the fixed prefix.
    pub fn text(&self) -> (r: String)
        ensures
            !(self is InvalidRuntimeDir) ==> r@ == diagnostic_text(*self),
            self matches BackendRuntimeDiagnostic::InvalidRuntimeDir { path } ==> r@ == diagnostic_text(
                *self,
            ) + path_text(*path),
    {
        match self {
            BackendRuntimeDiagnostic::MissingRuntimeDir { variable } => {
                let mut out = String::from_str("缺少运行时目录环境变量 ");
                out.append(variable);
                out
            },
            BackendRuntimeDiagnostic::InvalidRuntimeDir { path } => {
                let shown = path_display_text(path);
                invalid_runtime_dir_text(shown.as_str())
            },
            BackendRuntimeDiagnostic::SocketNameSelected { socket_name } => {
                let mut out = String::from_str("已选择 Wayland socket: ");
                out.append(socket_name.as_str());
                out
            },
            BackendRuntimeDiagnostic::FeatureDisabled { feature } => {
                let mut out = String::from_str("Cargo feature 未启用: ");
                out.append(feature);
                out
            },
            BackendRuntimeDiagnostic::LinuxOnly { feature } => {
                let mut out = String::from_str("Cargo feature 仅支持 Linux: ");
                out.append(feature);
                out
            },
            BackendRuntimeDiagnostic::ProbeFallback { backend_name } => {
                let mut out = String::from_str("使用纯数据运行时探针: ");
                out.append(backend_name);
                out
            },
            BackendRuntimeDiagnostic::UnsupportedPlatform { platform } => {
                let mut out = String::from_str("当前平台不支持 Linux 后端: ");
                out.append(platform);
                out
            },
            BackendRuntimeDiagnostic::AdapterEventPumpSkeleton {
                has_event_pump_boundary,
                pumps_once,
                runs_event_loop,
                accepts_clients,
                dispatches_protocol_events,
                registers_protocol_globals,
            } => {
                let mut out = String::from_str("adapter event pump skeleton: boundary=");
                out.append(flag_word(*has_event_pump_boundary));
                out.append(", pumps_once=");
                out.append(flag_word(*pumps_once));
                out.append(", event_loop=");
                out.append(flag_word(*runs_event_loop));
                out.append(", clients=");
                out.append(flag_word(*accepts_clients));
                out.append(", protocol_events=");
                out.append(flag_word(*dispatches_protocol_events));
                out.append(", globals=");
                out.append(flag_word(*registers_protocol_globals));
                out
            },
            BackendRuntimeDiagnostic::AdapterProtocolGlobalPlan {
                planned_count,
                registered_count,
                skeleton_only,
            } => {
                let mut out = String::from_str("adapter protocol global plan: planned=");
                push_decimal(&mut out, *planned_count);
                out.append(", registered=");
                push_decimal(&mut out, *registered_count);
                out.append(", skeleton_only=");
                out.append(flag_word(*skeleton_only));
                out
            },
            BackendRuntimeDiagnostic::AdapterProtocolGlobalRegistrationSkeleton {
                attempted,
                skeleton_registered_count,
                real_registered_count,
                skeleton_only,
            } => {
                let mut out = String::from_str(
                    "adapter protocol global registration skeleton: attempted=",
                );
                out.append(flag_word(*attempted));
                out.append(", skeleton_registered=");
                push_decimal(&mut out, *skeleton_registered_count);
                out.append(", real_registered=");
                push_decimal(&mut out, *real_registered_count);
                out.append(", skeleton_only=");
                out.append(flag_word(*skeleton_only));
                out
            },
        }
    }
}

/// The host the backend runs on, and how the backend was built for it.
#[derive(Debug, Clone, Copy, PartialEq, Eq)]
pub struct BackendHostPlatform {
    /// The host is Linux.
    pub is_linux: bool,
    /// The host operating system's name.
    pub name: &'static str,
    /// The build includes the Linux Smithay backend (`smithay-linux`).
    pub linux_backend_enabled: bool,
}

/// Backend-neutral report of a runtime's resources and capabilities.
#[derive(Debug, Clone, PartialEq, Eq)]
pub struct BackendRuntimeReport {
    /// Name of the backend.
    pub backend_name: &'static str,
    /// How the backend started.
    pub bootstrap_mode: BackendBootstrapMode,
    /// The chosen Wayland socket; `None` for the pure probe.
    pub socket_name: Option<String>,
    /// The valid Linux runtime directory, if any.
    pub runtime_dir: Option<PathBuf>,
    /// The capabilities of this runtime.
    pub capabilities: BackendRuntimeCapabilities,
    /// Structured startup diagnostics.
    pub diagnostics: Vec<BackendRuntimeDiagnostic>,
}

/// The diagnostics of the pure probe on `host`: the probe fallback, the
/// disabled Linux feature when the build lacks it, and on a non-Linux host the
/// platform refusal.
pub open spec fn probe_diagnostics(host: BackendHostPlatform) -> Seq<BackendRuntimeDiagnostic> {
    let fallback = seq![BackendRuntimeDiagnostic::ProbeFallback { backend_name: "smithay-probe" }];
    let base = if host.linux_backend_enabled {
        fallback
    } else {
        fallback.push(BackendRuntimeDiagnostic::FeatureDisabled { feature: "smithay-linux" })
    };
    if host.is_linux {
        base
    } else {
        base + seq![
            BackendRuntimeDiagnostic::LinuxOnly { feature: "smithay-linux" },
            BackendRuntimeDiagnostic::UnsupportedPlatform { platform: host.name },
        ]
    }
}

/// The pure probe report on `host`.
pub fn smithay_probe_report(host: BackendHostPlatform) -> (r: BackendRuntimeReport)
    ensures
        r.backend_name@ == "smithay-probe"@,
        r.bootstrap_mode == BackendBootstrapMode::ProbeOnly,
        r.socket_name is None,
        r.runtime_dir is None,
        pure_data_capabilities(r.capabilities),
        !r.capabilities.can_create_display,
        !r.capabilities.can_create_socket,
        !r.capabilities.supports_linux_runtime_dir,
        r.diagnostics@ == probe_diagnostics(host),
{
    let mut diagnostics: Vec<BackendRuntimeDiagnostic> = Vec::new();
    diagnostics.push(BackendRuntimeDiagnostic::ProbeFallback { backend_name: "smithay-probe" });
    if !host.linux_backend_enabled {
        diagnostics.push(BackendRuntimeDiagnostic::FeatureDisabled { feature: "smithay-linux" });
    }
    if !host.is_linux {
        diagnostics.push(BackendRuntimeDiagnostic::LinuxOnly { feature: "smithay-linux" });
        diagnostics.push(BackendRuntimeDiagnostic::UnsupportedPlatform { platform: host.name });
    }
    assert(diagnostics@ =~= probe_diagnostics(host));
    BackendRuntimeReport {
        backend_name: "smithay-probe",
        bootstrap_mode: BackendBootstrapMode::ProbeOnly,
        socket_name: None,
        runtime_dir: None,
        capabilities: BackendRuntimeCapabilities::smithay_probe(),
        diagnostics,
    }
}

/// What the runtime directory gives: the directory itself when it is one,
/// otherwise a diagnostic saying it is missing or invalid.
pub fn runtime_dir_diagnostics(runtime_dir: Option<PathBuf>, is_directory: bool) -> (r: (
    Option<PathBuf>,
    Vec<BackendRuntimeDiagnostic>,
))
    ensures
        match runtime_dir {
            None => r.0 is None && r.1@ == seq![
                BackendRuntimeDiagnostic::MissingRuntimeDir { variable: "XDG_RUNTIME_DIR" },
            ],
            Some(path) => if is_directory {
                r.0 == Some(path) && r.1@.len() == 0
            } else {
                r.0 is None && r.1@ == seq![BackendRuntimeDiagnostic::InvalidRuntimeDir { path }]
            },
        },
{
    match runtime_dir {
        None => {
            let diagnostics = vec![
                BackendRuntimeDiagnostic::MissingRuntimeDir { variable: "XDG_RUNTIME_DIR" },
            ];
            (None, diagnostics)
        },
        Some(path) => {
            if is_directory {
                (Some(path), Vec::new())
            } else {
                let diagnostics = vec![BackendRuntimeDiagnostic::InvalidRuntimeDir { path }];
                (None, diagnostics)
            }
        },
    }
}

/// On `host`, a runtime built around the socket `socket` reports Linux
/// resources: the host is Linux, the build has the Linux backend, and the
/// socket has a non-empty name.
pub open spec fn reports_linux_socket(host: BackendHostPlatform, socket: Seq<char>) -> bool {
    host.is_linux && host.linux_backend_enabled && socket.len() > 0
}

/// The report of a runtime that holds a Linux display and the socket
/// `socket_name`, given what the runtime directory is.
pub fn linux_resource_report(
    backend_name: &'static str,
    bootstrap_mode: BackendBootstrapMode,
    socket_name: String,
    runtime_dir: Option<PathBuf>,
    is_directory: bool,
) -> (r: BackendRuntimeReport)
    ensures
        r.backend_name == backend_name,
        r.bootstrap_mode == bootstrap_mode,
        r.socket_name matches Some(s) && s@ == socket_name@,
        r.runtime_dir == (if is_directory { runtime_dir } else { None }),
        pure_data_capabilities(r.capabilities),
        r.capabilities.can_create_display,
        r.capabilities.can_create_socket,
        r.capabilities.supports_linux_runtime_dir,
        r.diagnostics@.len() >= 1,
        r.diagnostics@.last() matches BackendRuntimeDiagnostic::SocketNameSelected { socket_name: s }
            && s@ == socket_name@,
        r.diagnostics@.drop_last() == match runtime_dir {
            None => seq![BackendRuntimeDiagnostic::MissingRuntimeDir { variable: "XDG_RUNTIME_DIR" }],
            Some(path) => if is_directory {
                Seq::<BackendRuntimeDiagnostic>::empty()
            } else {
                seq![BackendRuntimeDiagnostic::InvalidRuntimeDir { path }]
            },
        },
{
    let (dir, mut diagnostics) = runtime_dir_diagnostics(runtime_dir, is_directory);
    let ghost before = diagnostics@;
    diagnostics.push(BackendRuntimeDiagnostic::SocketNameSelected { socket_name: socket_name.clone() });
    assert(diagnostics@.drop_last() =~= before);
    BackendRuntimeReport {
        backend_name,
        bootstrap_mode,
        socket_name: Some(socket_name),
        runtime_dir: dir,
        capabilities: BackendRuntimeCapabilities::smithay_linux_probe(),
        diagnostics,
    }
}

impl BackendRuntimeReport {
    /// The report of a runtime probe on `host`. A runtime built around a named
    /// socket, on Linux with the Linux backend built in, reports its Linux
    /// resources, given what the runtime
    /// directory is; any other runtime holds no system resource and gets the
    /// pure probe report.
    pub fn from_runtime(
        runtime: &SmithayRuntimeProbe,
        host: BackendHostPlatform,
        runtime_dir: Option<PathBuf>,
        is_directory: bool,
    ) -> (r: Self)
        ensures
            ({
                let linux_socket = reports_linux_socket(host, runtime.socket_view());
                &&& linux_socket ==> {
                    &&& r.backend_name@ == "smithay-linux-compat"@
                    &&& r.bootstrap_mode == BackendBootstrapMode::ProbeOnly
                    &&& r.socket_name matches Some(s) && s@ == runtime.socket_view()
                    &&& r.runtime_dir == (if is_directory { runtime_dir } else { None })
                    &&& pure_data_capabilities(r.capabilities)
                    &&& r.capabilities.can_create_display
                    &&& r.capabilities.can_create_socket
                    &&& r.capabilities.supports_linux_runtime_dir
                    &&& r.diagnostics@.len() >= 1
                    &&& r.diagnostics@.last() matches BackendRuntimeDiagnostic::SocketNameSelected {
                        socket_name: s,
                    } && s@ == runtime.socket_view()
                    &&& r.diagnostics@.drop_last() == match runtime_dir {
                        None => seq![
                            BackendRuntimeDiagnostic::MissingRuntimeDir { variable: "XDG_RUNTIME_DIR" },
                        ],
                        Some(path) => if is_directory {
                            Seq::<BackendRuntimeDiagnostic>::empty()
                        } else {
                            seq![BackendRuntimeDiagnostic::InvalidRuntimeDir { path }]
                        },
                    }
                }
                &&& !linux_socket ==> {
                    &&& r.backend_name@ == "smithay-probe"@
                    &&& r.bootstrap_mode == BackendBootstrapMode::ProbeOnly
                    &&& r.socket_name is None
                    &&& r.runtime_dir is None
                    &&& pure_data_capabilities(r.capabilities)
                    &&& !r.capabilities.can_create_display
                    &&& !r.capabilities.can_create_socket
                    &&& !r.capabilities.supports_linux_runtime_dir
                    &&& r.diagnostics@ == probe_diagnostics(host)
                }
            }),
    {
        if host.is_linux && host.linux_backend_enabled {
            let socket_name = runtime.socket_name_string();
            if !socket_name.as_str().is_empty() {
                return linux_resource_report(
                    "smithay-linux-compat",
                    BackendBootstrapMode::ProbeOnly,
                    socket_name,
                    runtime_dir,
                    is_directory,
                );
            }
        }
        smithay_probe_report(host)
    }

    /// The report of the Linux adapter skeleton that bound `socket_name`: the
    /// Linux resource report, followed by the adapter's event pump
    /// capabilities, its protocol global plan (`planned_count`,
    /// `registered_count`, `plan_skeleton_only`), and its global registration
    /// ledger, given as (skeleton registered, real registered, skeleton only)
    /// when a registration was attempted.
    pub fn from_linux_adapter(
        socket_name: String,
        runtime_dir: Option<PathBuf>,
        is_directory: bool,
        capabilities: SmithayLinuxAdapterCapabilities,
        planned_count: usize,
        registered_count: usize,
        plan_skeleton_only: bool,
        registration: Option<(usize, usize, bool)>,
    ) -> (r: Self)
        ensures
            r.backend_name@ == "smithay-linux-adapter-skeleton"@,
            r.bootstrap_mode == BackendBootstrapMode::ProbeOnly,
            r.socket_name matches Some(s) && s@ == socket_name@,
            r.runtime_dir == (if is_directory { runtime_dir } else { None }),
            pure_data_capabilities(r.capabilities),
            r.capabilities.can_create_display,
            r.capabilities.can_create_socket,
            r.capabilities.supports_linux_runtime_dir,
            r.diagnostics@.len() >= 4,
            ({
                let n = r.diagnostics@.len() as int;
                &&& r.diagnostics@[n - 4] matches BackendRuntimeDiagnostic::SocketNameSelected {
                    socket_name: s,
                } && s@ == socket_name@
                &&& r.diagnostics@.take(n - 4) == match runtime_dir {
                    None => seq![
                        BackendRuntimeDiagnostic::MissingRuntimeDir { variable: "XDG_RUNTIME_DIR" },
                    ],
                    Some(path) => if is_directory {
                        Seq::<BackendRuntimeDiagnostic>::empty()
                    } else {
                        seq![BackendRuntimeDiagnostic::InvalidRuntimeDir { path }]
                    },
                }
                &&& r.diagnostics@[n - 3] == BackendRuntimeDiagnostic::AdapterEventPumpSkeleton {
                    has_event_pump_boundary: capabilities.has_event_pump_boundary,
                    pumps_once: capabilities.pumps_once,
                    runs_event_loop: capabilities.runs_event_loop,
                    accepts_clients: capabilities.accepts_clients,
                    dispatches_protocol_events: capabilities.dispatches_protocol_events,
                    registers_protocol_globals: capabilities.registers_protocol_globals,
                }
                &&& r.diagnostics@[n - 2] == BackendRuntimeDiagnostic::AdapterProtocolGlobalPlan {
                    planned_count,
                    registered_count,
                    skeleton_only: plan_skeleton_only,
                }
                &&& r.diagnostics@[n - 1] == match registration {
                    Some((skeleton_registered_count, real_registered_count, skeleton_only)) =>
                        BackendRuntimeDiagnostic::AdapterProtocolGlobalRegistrationSkeleton {
                        attempted: true,
                        skeleton_registered_count,
                        real_registered_count,
                        skeleton_only,
                    },
                    None => BackendRuntimeDiagnostic::AdapterProtocolGlobalRegistrationSkeleton {
                        attempted: false,
                        skeleton_registered_count: 0,
                        real_registered_count: 0,
                        skeleton_only: true,
                    },
                }
            }),
    {
        let mut report = linux_resource_report(
            "smithay-linux-adapter-skeleton",
            BackendBootstrapMode::ProbeOnly,
            socket_name,
            runtime_dir,
            is_directory,
        );
        let ghost base = report.diagnostics@;
        report.diagnostics.push(
            BackendRuntimeDiagnostic::AdapterEventPumpSkeleton {
                has_event_pump_boundary: capabilities.has_event_pump_boundary,
                pumps_once: capabilities.pumps_once,
                runs_event_loop: capabilities.runs_event_loop,
                accepts_clients: capabilities.accepts_clients,
                dispatches_protocol_events: capabilities.dispatches_protocol_events,
                registers_protocol_globals: capabilities.registers_protocol_globals,
            },
        );
        report.diagnostics.push(
            BackendRuntimeDiagnostic::AdapterProtocolGlobalPlan {
                planned_count,
                registered_count,
                skeleton_only: plan_skeleton_only,
            },
        );
        let ledger = match registration {
            Some((skeleton_registered_count, real_registered_count, skeleton_only)) =>
                BackendRuntimeDiagnostic::AdapterProtocolGlobalRegistrationSkeleton {
                attempted: true,
                skeleton_registered_count,
                real_registered_count,
                skeleton_only,
            },
            None => BackendRuntimeDiagnostic::AdapterProtocolGlobalRegistrationSkeleton {
                attempted: false,
                skeleton_registered_count: 0,
                real_registered_count: 0,
                skeleton_only: true,
            },
        };
        report.diagnostics.push(ledger);
        proof {
            let n = report.diagnostics@.len() as int;
            assert(report.diagnostics@.take(n - 3) =~= base);
            assert(report.diagnostics@.take(n - 4) =~= base.drop_last());
            assert(report.diagnostics@[n - 4] == base.last());
        }
        report
    }

    /// Whether some diagnostic satisfies `predicate`.
    pub fn has_diagnostic<F: Fn(&BackendRuntimeDiagnostic) -> bool>(&self, predicate: F) -> (r: bool)
        requires
            forall|d: &BackendRuntimeDiagnostic| predicate.requires((d,)),
        ensures
            r ==> exists|k: int|
                0 <= k < self.diagnostics@.len() && predicate.ensures((&self.diagnostics@[k],), true),
            !r ==> forall|k: int|
                0 <= k < self.diagnostics@.len() ==> predicate.ensures((&self.diagnostics@[k],), false),
    {
        let mut i: usize = 0;
        while i < self.diagnostics.len()
            invariant
                i <= self.diagnostics@.len(),
                forall|d: &BackendRuntimeDiagnostic| predicate.requires((d,)),
                forall|k: int| 0 <= k < i ==> predicate.ensures((&self.diagnostics@[k],), false),
            decreases self.diagnostics@.len() - i,
        {
            if predicate(&self.diagnostics[i]) {
                return true;
            }
            i = i + 1;
        }
        false
    }
}

} // verus!
