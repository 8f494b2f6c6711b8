//! Toplevel map descriptors: the metadata of a mapped toplevel, before the core
//! creates a logical window for its surface.

use vstd::prelude::*;

use crate::core_model::types::{BackendEvent, SurfaceId, WindowKind};
use crate::smithay_backend::surface_lifecycle::copy_opt_string;

verus! {

/// What is known about a toplevel when it is mapped.
#[derive(Debug, Clone, PartialEq, Eq)]
pub struct SmithayToplevelMapDescriptor {
    /// The surface that was mapped.
    pub surface: SurfaceId,
    /// The toplevel title.
    pub title: String,
    /// The optional application identity.
    pub app_id: Option<String>,
    /// The kind of window to create.
    pub kind: WindowKind,
}

impl SmithayToplevelMapDescriptor {
    /// Describes a Wayland placeholder toplevel for `surface`.
    pub fn new(surface: SurfaceId, title: &str, app_id: Option<String>) -> (r: Self)
        ensures
            r.surface == surface,
            r.title@ == title@,
            r.app_id == app_id,
            r.kind == WindowKind::WaylandPlaceholder,
    {
        Self { surface, title: title.to_owned(), app_id, kind: WindowKind::WaylandPlaceholder }
    }

    /// The backend event this descriptor becomes.
    pub fn to_event(&self) -> (r: BackendEvent)
        ensures
            r == (BackendEvent::ToplevelMapped {
                surface: self.surface,
                title: self.title,
                app_id: self.app_id,
                kind: self.kind,
            }),
    {
        BackendEvent::ToplevelMapped {
            surface: self.surface,
            title: self.title.clone(),
            app_id: copy_opt_string(&self.app_id),
            kind: self.kind,
        }
    }
}

} // verus!
