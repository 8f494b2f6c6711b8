use sky_mirror::smithay_backend::surface_id::{
    SmithaySurfaceIdAllocatorMode, SmithaySurfaceIdAllocatorProbe,
};

/// 验证默认分配器从核心约定的 surface ID 1 开始。
#[test]
fn smithay_surface_id_allocator_starts_at_one() {
    let allocator = SmithaySurfaceIdAllocatorProbe::new();

    assert_eq!(allocator.peek_next_surface_id(), 1);
    assert!(allocator.is_probe_only());
    assert_eq!(allocator.mode(), SmithaySurfaceIdAllocatorMode::ProbeOnly);
    assert_eq!(
        allocator.mode_description(),
        "smithay-surface-id-allocator-probe-only"
    );
}

/// 验证分配器会按顺序产生递增且稳定的核心 surface ID。
#[test]
fn smithay_surface_id_allocator_allocates_incrementing_ids() {
    let mut allocator = SmithaySurfaceIdAllocatorProbe::new();

    assert_eq!(allocator.next_surface_id(), 1);
    assert_eq!(allocator.next_surface_id(), 2);
    assert_eq!(allocator.peek_next_surface_id(), 3);
}

/// 验证分配器可以从指定 surface ID 起点继续分配。
#[test]
fn smithay_surface_id_allocator_builds_from_custom_start() {
    let mut allocator = SmithaySurfaceIdAllocatorProbe::with_next_surface_id(42);

    assert_eq!(allocator.next_surface_id(), 42);
    assert_eq!(allocator.peek_next_surface_id(), 43);
}
