//! Surface event adapter: turns surface creation and closing into pure-data
//! backend events. Creating a surface does not create a window; closing one
//! surface does not disconnect its client.

use vstd::prelude::*;

use crate::core_model::types::{BackendEvent, CoreClientId, SurfaceId, SurfaceRole};

verus! {

/// Mode of the surface event adapter; only the probe mode exists.
#[derive(Debug, Clone, Copy, PartialEq, Eq, Structural)]
pub enum SmithaySurfaceEventMode {
    /// Pure probe mode: no real `wl_surface` is kept.
    ProbeOnly,
}

/// What is known about a newly created surface.
#[derive(Debug, Clone, Copy, PartialEq, Eq, Structural)]
pub struct SmithaySurfaceCreationDescriptor {
    /// The surface identity.
    pub surface: SurfaceId,
    /// The owning client, when known.
    pub client: Option<CoreClientId>,
    /// The protocol role of the surface.
    pub role: SurfaceRole,
}

impl SmithaySurfaceCreationDescriptor {
    /// Describes `surface` with an optional owner and its role.
    pub fn new(surface: SurfaceId, client: Option<CoreClientId>, role: SurfaceRole) -> (r: Self)
        ensures
            r.surface == surface,
            r.client == client,
            r.role == role,
    {
        Self { surface, client, role }
    }

    /// Describes `surface` owned by `client`.
    pub fn for_client(surface: SurfaceId, client: CoreClientId, role: SurfaceRole) -> (r: Self)
        ensures
            r.surface == surface,
            r.client == Some(client),
            r.role == role,
    {
        Self { surface, client: Some(client), role }
    }

    /// Describes `surface` with no known owner.
    pub fn without_client(surface: SurfaceId, role: SurfaceRole) -> (r: Self)
        ensures
            r.surface == surface,
            r.client is None,
            r.role == role,
    {
        Self { surface, client: None, role }
    }
}

/// Stateless surface event adapter.
pub struct SmithaySurfaceEventProbe;

impl SmithaySurfaceEventProbe {
    /// Returns the adapter mode.
    pub fn mode() -> (r: SmithaySurfaceEventMode)
        ensures
            r == SmithaySurfaceEventMode::ProbeOnly,
    {
        SmithaySurfaceEventMode::ProbeOnly
    }

    /// Whether the adapter is still probe-only; always true.
    pub fn is_probe_only() -> (r: bool)
        ensures
            r,
    {
        true
    }

    /// The `SurfaceCreated` event for `descriptor`.
    pub fn surface_created_event(descriptor: SmithaySurfaceCreationDescriptor) -> (r: BackendEvent)
        ensures
            r == (BackendEvent::SurfaceCreated {
                surface: descriptor.surface,
                client: descriptor.client,
                role: descriptor.role,
            }),
    {
        BackendEvent::SurfaceCreated {
            surface: descriptor.surface,
            client: descriptor.client,
            role: descriptor.role,
        }
    }

    /// The `SurfaceClosed` event for `surface`.
    pub fn surface_closed_event(surface: SurfaceId) -> (r: BackendEvent)
        ensures
            r == (BackendEvent::SurfaceClosed { surface }),
    {
        BackendEvent::SurfaceClosed { surface }
    }

    /// Stable description of the adapter stage.
    pub fn mode_description() -> (r: &'static str)
        ensures
            r@ == "smithay-surface-event-probe-only"@,
    {
        "smithay-surface-event-probe-only"
    }
}

} // verus!
