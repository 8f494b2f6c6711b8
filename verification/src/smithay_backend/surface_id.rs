//! Surface ID allocator probe: hands out core `SurfaceId` values in order.

use vstd::prelude::*;

use crate::core_model::types::SurfaceId;

verus! {

/// Mode of the surface ID allocator; only the probe mode exists.
#[derive(Debug, Clone, Copy, PartialEq, Eq, Structural)]
pub enum SmithaySurfaceIdAllocatorMode {
    /// Pure probe mode: no real `wl_surface` is registered.
    ProbeOnly,
}

/// Monotonic allocator for core surface IDs.
pub struct SmithaySurfaceIdAllocatorProbe {
    next_surface_id: SurfaceId,
    mode: SmithaySurfaceIdAllocatorMode,
}

/// The value that follows `id` when allocating: one more, saturating at the maximum.
pub open spec fn next_id_after(id: u64) -> u64 {
    if id == u64::MAX { id } else { (id + 1) as u64 }
}

impl SmithaySurfaceIdAllocatorProbe {
    /// The next surface ID this allocator will hand out.
    pub closed spec fn spec_next(&self) -> u64 {
        self.next_surface_id
    }

    /// Creates an allocator starting at surface ID 1.
    pub fn new() -> (r: Self)
        ensures
            r.spec_next() == 1,
    {
        Self { next_surface_id: 1, mode: SmithaySurfaceIdAllocatorMode::ProbeOnly }
    }

    /// Creates an allocator whose first allocation is `next_surface_id`.
    pub fn with_next_surface_id(next_surface_id: SurfaceId) -> (r: Self)
        ensures
            r.spec_next() == next_surface_id,
    {
        Self { next_surface_id, mode: SmithaySurfaceIdAllocatorMode::ProbeOnly }
    }

    /// Allocates the next surface ID; the counter advances by one, saturating.
    pub fn next_surface_id(&mut self) -> (r: SurfaceId)
        ensures
            r == old(self).spec_next(),
            final(self).spec_next() == next_id_after(r),
    {
        let surface = self.next_surface_id;
        self.next_surface_id = self.next_surface_id.saturating_add(1);
        surface
    }

    /// Returns the surface ID the next allocation will produce.
    pub fn peek_next_surface_id(&self) -> (r: SurfaceId)
        ensures
            r == self.spec_next(),
    {
        self.next_surface_id
    }

    /// Returns the allocator mode.
    pub fn mode(&self) -> (r: SmithaySurfaceIdAllocatorMode)
        ensures
            r == SmithaySurfaceIdAllocatorMode::ProbeOnly,
    {
        self.mode
    }

    /// Whether the allocator is still probe-only; always true.
    pub fn is_probe_only(&self) -> (r: bool)
        ensures
            r,
    {
        match self.mode {
            SmithaySurfaceIdAllocatorMode::ProbeOnly => true,
        }
    }

    /// Stable description of the allocator stage.
    pub fn mode_description(&self) -> (r: &'static str)
        ensures
            r@ == "smithay-surface-id-allocator-probe-only"@,
    {
        "smithay-surface-id-allocator-probe-only"
    }
}


/// Allocation never hands out an identity twice before the counter saturates:
/// each allocation moves the counter strictly past the identity it returned.
pub proof fn law_allocation_is_increasing(id: u64)
    requires
        id < u64::MAX,
    ensures
        next_id_after(id) > id,
        next_id_after(id) == id + 1,
{
}

} // verus!
