use sky_mirror::core_model::types::{BackendEvent, SurfaceRole};
use sky_mirror::smithay_backend::surface_event::{
    SmithaySurfaceCreationDescriptor, SmithaySurfaceEventMode, SmithaySurfaceEventProbe,
};

/// 验证 surface 描述构造方法会正确保留 ID、client 归属和协议角色。
#[test]
fn surface_creation_descriptor_builders_work() {
    let generic = SmithaySurfaceCreationDescriptor::new(1, Some(7), SurfaceRole::XdgToplevel);
    let owned = SmithaySurfaceCreationDescriptor::for_client(2, 8, SurfaceRole::LayerShell);
    let unowned = SmithaySurfaceCreationDescriptor::without_client(3, SurfaceRole::Unknown);

    assert_eq!(generic.surface, 1);
    assert_eq!(generic.client, Some(7));
    assert_eq!(generic.role, SurfaceRole::XdgToplevel);
    assert_eq!(owned.client, Some(8));
    assert_eq!(owned.role, SurfaceRole::LayerShell);
    assert_eq!(unowned.client, None);
    assert_eq!(unowned.role, SurfaceRole::Unknown);
}

/// 验证 surface 事件探针会生成完整的纯数据 SurfaceCreated 事件。
#[test]
fn surface_event_probe_creates_surface_created_event() {
    let event = SmithaySurfaceEventProbe::surface_created_event(
        SmithaySurfaceCreationDescriptor::for_client(42, 7, SurfaceRole::XdgToplevel),
    );

    assert_eq!(
        event,
        BackendEvent::SurfaceCreated {
            surface: 42,
            client: Some(7),
            role: SurfaceRole::XdgToplevel,
        }
    );
}

/// 验证 Smithay 探针层只生成 SurfaceClosed 纯数据事件，不直接关闭核心记录。
#[test]
fn surface_event_probe_creates_surface_closed_event() {
    let event = SmithaySurfaceEventProbe::surface_closed_event(42);

    assert_eq!(event, BackendEvent::SurfaceClosed { surface: 42 });
}

/// 验证 surface 事件适配器固定保持纯探针模式。
#[test]
fn surface_event_probe_reports_probe_mode() {
    assert!(SmithaySurfaceEventProbe::is_probe_only());
    assert_eq!(
        SmithaySurfaceEventProbe::mode(),
        SmithaySurfaceEventMode::ProbeOnly
    );
    assert_eq!(
        SmithaySurfaceEventProbe::mode_description(),
        "smithay-surface-event-probe-only"
    );
}
