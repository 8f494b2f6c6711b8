//! Client ID allocator probe: hands out core `CoreClientId` values in order and wraps
//! them in connection descriptors.

use vstd::prelude::*;

use crate::core_model::types::{CoreClientId, ClientKind};
use crate::smithay_backend::client_event::SmithayClientConnectionDescriptor;
use crate::smithay_backend::surface_id::next_id_after;

verus! {

/// Mode of the client ID allocator; only the probe mode exists.
#[derive(Debug, Clone, Copy, PartialEq, Eq, Structural)]
pub enum SmithayClientIdAllocatorMode {
    /// Pure probe mode: no real Wayland client is inserted.
    ProbeOnly,
}

/// Monotonic allocator for core client IDs.
pub struct SmithayClientIdAllocatorProbe {
    next_client_id: CoreClientId,
    mode: SmithayClientIdAllocatorMode,
}

impl SmithayClientIdAllocatorProbe {
    /// The next client ID this allocator will hand out.
    pub closed spec fn spec_next(&self) -> u64 {
        self.next_client_id
    }

    /// Creates an allocator starting at client ID 1.
    pub fn new() -> (r: Self)
        ensures
            r.spec_next() == 1,
    {
        Self { next_client_id: 1, mode: SmithayClientIdAllocatorMode::ProbeOnly }
    }

    /// Creates an allocator whose first allocation is `next_client_id`.
    pub fn with_next_client_id(next_client_id: CoreClientId) -> (r: Self)
        ensures
            r.spec_next() == next_client_id,
    {
        Self { next_client_id, mode: SmithayClientIdAllocatorMode::ProbeOnly }
    }

    /// Allocates the next client ID; the counter advances by one, saturating.
    pub fn next_client_id(&mut self) -> (r: CoreClientId)
        ensures
            r == old(self).spec_next(),
            final(self).spec_next() == next_id_after(r),
    {
        let client = self.next_client_id;
        self.next_client_id = self.next_client_id.saturating_add(1);
        client
    }

    /// Allocates the next client ID and describes a placeholder client with it.
    pub fn next_descriptor(&mut self, name: Option<String>) -> (r: SmithayClientConnectionDescriptor)
        ensures
            r.client == Some(old(self).spec_next()),
            r.kind == ClientKind::WaylandPlaceholder,
            r.name == name,
            final(self).spec_next() == next_id_after(old(self).spec_next()),
    {
        let client = self.next_client_id();
        SmithayClientConnectionDescriptor::with_client_id(client).with_optional_name(name)
    }

    /// Returns the client ID the next allocation will produce.
    pub fn peek_next_client_id(&self) -> (r: CoreClientId)
        ensures
            r == self.spec_next(),
    {
        self.next_client_id
    }

    /// Returns the allocator mode.
    pub fn mode(&self) -> (r: SmithayClientIdAllocatorMode)
        ensures
            r == SmithayClientIdAllocatorMode::ProbeOnly,
    {
        self.mode
    }

    /// Whether the allocator is still probe-only; always true.
    pub fn is_probe_only(&self) -> (r: bool)
        ensures
            r,
    {
        match self.mode {
            SmithayClientIdAllocatorMode::ProbeOnly => true,
        }
    }
}

} // verus!
