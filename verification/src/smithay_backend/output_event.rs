//! Output resize adapter: turns an output size change into a pure-data backend
//! event. Zero sizes are passed through; the core validator reports them.

use vstd::prelude::*;

use crate::core_model::types::BackendEvent;

verus! {

/// Mode of the output event adapter; only the probe mode exists.
#[derive(Debug, Clone, Copy, PartialEq, Eq, Structural)]
pub enum SmithayOutputEventMode {
    /// Pure probe mode: no real DRM, Winit or Output.
    ProbeOnly,
}

/// A new output size in pixels.
#[derive(Debug, Clone, Copy, PartialEq, Eq, Structural)]
pub struct SmithayOutputResizeDescriptor {
    /// New output width.
    pub width: u32,
    /// New output height.
    pub height: u32,
}

impl SmithayOutputResizeDescriptor {
    /// Describes the size `width` x `height`, without checking it.
    pub fn new(width: u32, height: u32) -> (r: Self)
        ensures
            r.width == width,
            r.height == height,
    {
        Self { width, height }
    }

    /// Whether both dimensions are non-zero.
    pub fn is_non_zero(&self) -> (r: bool)
        ensures
            r == (self.width > 0 && self.height > 0),
    {
        self.width > 0 && self.height > 0
    }
}

/// Stateless output event adapter.
pub struct SmithayOutputEventProbe;

impl SmithayOutputEventProbe {
    /// Returns the adapter mode.
    pub fn mode() -> (r: SmithayOutputEventMode)
        ensures
            r == SmithayOutputEventMode::ProbeOnly,
    {
        SmithayOutputEventMode::ProbeOnly
    }

    /// Whether the adapter is still probe-only; always true.
    pub fn is_probe_only() -> (r: bool)
        ensures
            r,
    {
        true
    }

    /// The `OutputResized` event for `descriptor`, size unchanged.
    pub fn output_resized_event(descriptor: SmithayOutputResizeDescriptor) -> (r: BackendEvent)
        ensures
            r == (BackendEvent::OutputResized { width: descriptor.width, height: descriptor.height }),
    {
        BackendEvent::OutputResized { width: descriptor.width, height: descriptor.height }
    }

    /// Stable description of the adapter stage.
    pub fn mode_description() -> (r: &'static str)
        ensures
            r@ == "smithay-output-event-probe-only"@,
    {
        "smithay-output-event-probe-only"
    }
}

} // verus!
