//! Capabilities of the Linux adapter skeleton: an event pump boundary that can
//! run one counting tick, and nothing that serves real clients.

use vstd::prelude::*;

verus! {

/// What the Linux adapter can do.
#[derive(Debug, Clone, Copy, PartialEq, Eq, Structural)]
pub struct SmithayLinuxAdapterCapabilities {
    /// An event pump boundary exists.
    pub has_event_pump_boundary: bool,
    /// One counting skeleton tick can be run.
    pub pumps_once: bool,
    /// A real event loop runs.
    pub runs_event_loop: bool,
    /// Real clients are accepted.
    pub accepts_clients: bool,
    /// Protocol events are dispatched.
    pub dispatches_protocol_events: bool,
    /// Protocol globals are registered.
    pub registers_protocol_globals: bool,
}

impl SmithayLinuxAdapterCapabilities {
    /// The skeleton: a pump boundary that ticks once, nothing else.
    pub fn skeleton_only() -> (r: Self)
        ensures
            r.has_event_pump_boundary,
            r.pumps_once,
            !r.runs_event_loop,
            !r.accepts_clients,
            !r.dispatches_protocol_events,
            !r.registers_protocol_globals,
    {
        Self {
            has_event_pump_boundary: true,
            pumps_once: true,
            runs_event_loop: false,
            accepts_clients: false,
            dispatches_protocol_events: false,
            registers_protocol_globals: false,
        }
    }
}

} // verus!
