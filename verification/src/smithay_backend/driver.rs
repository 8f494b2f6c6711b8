//! The backend driver probe: a FIFO queue of pure-data backend events plus a
//! shutdown flag. Pushing only enqueues; the core sees an event only when the
//! runner polls it.

use std::collections::VecDeque;

use vstd::prelude::*;

use crate::core_model::backend_driver::BackendDriverPoll;
use crate::core_model::types::{BackendEvent, CoreClientId, SurfaceId};
use crate::smithay_backend::action_event::SmithayActionRequestDescriptor;
use crate::smithay_backend::client_event::SmithayClientConnectionDescriptor;
use crate::smithay_backend::diagnostic_event::{SmithayDiagnosticRequestDescriptor, diagnostic_event};
use crate::smithay_backend::output_event::SmithayOutputResizeDescriptor;
use crate::smithay_backend::surface_event::SmithaySurfaceCreationDescriptor;
use crate::smithay_backend::toplevel_event::SmithayToplevelMapDescriptor;

verus! {

/// Mode of the driver; only the probe mode exists.
#[derive(Debug, Clone, Copy, PartialEq, Eq, Structural)]
pub enum SmithayBackendDriverMode {
    /// Pure probe mode: events come from the queue only.
    ProbeOnly,
}

/// Queue-backed backend driver.
pub struct SmithayBackendDriverProbe {
    events: VecDeque<BackendEvent>,
    shutdown_requested: bool,
    mode: SmithayBackendDriverMode,
}

impl SmithayBackendDriverProbe {
    /// The pending events, oldest first.
    pub closed spec fn queue(&self) -> Seq<BackendEvent> {
        self.events@
    }

    /// Whether shutdown was requested.
    pub closed spec fn shutdown_requested(&self) -> bool {
        self.shutdown_requested
    }

    /// An empty driver with no shutdown request.
    pub fn new_probe_only() -> (r: Self)
        ensures
            r.queue() == Seq::<BackendEvent>::empty(),
            !r.shutdown_requested(),
    {
        Self {
            events: VecDeque::new(),
            shutdown_requested: false,
            mode: SmithayBackendDriverMode::ProbeOnly,
        }
    }

    /// Appends `event` to the queue.
    pub fn push_event(&mut self, event: BackendEvent)
        ensures
            final(self).queue() == old(self).queue().push(event),
            final(self).shutdown_requested() == old(self).shutdown_requested(),
    {
        self.events.push_back(event);
    }

    /// Enqueues the action request.
    pub fn push_action_requested(&mut self, descriptor: SmithayActionRequestDescriptor)
        ensures
            final(self).queue() == old(self).queue().push(
                BackendEvent::ActionRequested { action: descriptor.action },
            ),
            final(self).shutdown_requested() == old(self).shutdown_requested(),
    {
        let event = descriptor.to_event();
        self.push_event(event);
    }

    /// Enqueues the diagnostic request.
    pub fn push_diagnostic_requested(&mut self, descriptor: SmithayDiagnosticRequestDescriptor)
        ensures
            final(self).queue() == old(self).queue().push(diagnostic_event(descriptor.kind)),
            final(self).shutdown_requested() == old(self).shutdown_requested(),
    {
        let event = descriptor.to_event();
        self.push_event(event);
    }

    /// Enqueues a debug text request.
    pub fn push_debug_requested(&mut self)
        ensures
            final(self).queue() == old(self).queue().push(BackendEvent::DebugRequested),
            final(self).shutdown_requested() == old(self).shutdown_requested(),
    {
        self.push_event(BackendEvent::DebugRequested);
    }

    /// Enqueues a validation text request.
    pub fn push_validate_requested(&mut self)
        ensures
            final(self).queue() == old(self).queue().push(BackendEvent::ValidateRequested),
            final(self).shutdown_requested() == old(self).shutdown_requested(),
    {
        self.push_event(BackendEvent::ValidateRequested);
    }

    /// Enqueues the output resize, zero sizes included.
    pub fn push_output_resized(&mut self, descriptor: SmithayOutputResizeDescriptor)
        ensures
            final(self).queue() == old(self).queue().push(
                BackendEvent::OutputResized { width: descriptor.width, height: descriptor.height },
            ),
            final(self).shutdown_requested() == old(self).shutdown_requested(),
    {
        self.push_event(
            BackendEvent::OutputResized { width: descriptor.width, height: descriptor.height },
        );
    }

    /// Enqueues the client connection.
    pub fn push_client_connected(&mut self, descriptor: SmithayClientConnectionDescriptor)
        ensures
            final(self).queue() == old(self).queue().push(
                BackendEvent::ClientConnected {
                    client: descriptor.client,
                    kind: descriptor.kind,
                    name: descriptor.name,
                },
            ),
            final(self).shutdown_requested() == old(self).shutdown_requested(),
    {
        let event = descriptor.to_event();
        self.push_event(event);
    }

    /// Enqueues the client disconnection.
    pub fn push_client_disconnected(&mut self, client: CoreClientId)
        ensures
            final(self).queue() == old(self).queue().push(BackendEvent::ClientDisconnected { client }),
            final(self).shutdown_requested() == old(self).shutdown_requested(),
    {
        self.push_event(BackendEvent::ClientDisconnected { client });
    }

    /// Enqueues the surface creation.
    pub fn push_surface_created(&mut self, descriptor: SmithaySurfaceCreationDescriptor)
        ensures
            final(self).queue() == old(self).queue().push(
                BackendEvent::SurfaceCreated {
                    surface: descriptor.surface,
                    client: descriptor.client,
                    role: descriptor.role,
                },
            ),
            final(self).shutdown_requested() == old(self).shutdown_requested(),
    {
        self.push_event(
            BackendEvent::SurfaceCreated {
                surface: descriptor.surface,
                client: descriptor.client,
                role: descriptor.role,
            },
        );
    }

    /// Enqueues the surface closing.
    pub fn push_surface_closed(&mut self, surface: SurfaceId)
        ensures
            final(self).queue() == old(self).queue().push(BackendEvent::SurfaceClosed { surface }),
            final(self).shutdown_requested() == old(self).shutdown_requested(),
    {
        self.push_event(BackendEvent::SurfaceClosed { surface });
    }

    /// Enqueues the toplevel map.
    pub fn push_toplevel_mapped(&mut self, descriptor: SmithayToplevelMapDescriptor)
        ensures
            final(self).queue() == old(self).queue().push(
                BackendEvent::ToplevelMapped {
                    surface: descriptor.surface,
                    title: descriptor.title,
                    app_id: descriptor.app_id,
                    kind: descriptor.kind,
                },
            ),
            final(self).shutdown_requested() == old(self).shutdown_requested(),
    {
        let event = descriptor.to_event();
        self.push_event(event);
    }

    /// Asks the driver to shut down once its queue is empty.
    pub fn request_shutdown(&mut self)
        ensures
            final(self).queue() == old(self).queue(),
            final(self).shutdown_requested(),
    {
        self.shutdown_requested = true;
    }

    /// Takes the oldest pending event; with none pending, reports shutdown or idle.
    pub fn poll_event(&mut self) -> (r: BackendDriverPoll)
        ensures
            final(self).shutdown_requested() == old(self).shutdown_requested(),
            old(self).queue().len() > 0 ==> r == BackendDriverPoll::Event(old(self).queue()[0])
                && final(self).queue() == old(self).queue().drop_first(),
            old(self).queue().len() == 0 ==> final(self).queue() == old(self).queue() && r == (
            if old(self).shutdown_requested() {
                BackendDriverPoll::ShutdownRequested
            } else {
                BackendDriverPoll::Idle
            }),
    {
        match self.events.pop_front() {
            Some(event) => BackendDriverPoll::Event(event),
            None => {
                if self.shutdown_requested {
                    BackendDriverPoll::ShutdownRequested
                } else {
                    BackendDriverPoll::Idle
                }
            },
        }
    }

    /// Number of pending events.
    pub fn pending_event_count(&self) -> (r: usize)
        ensures
            r == self.queue().len(),
    {
        self.events.len()
    }

    /// Returns the driver mode.
    pub fn mode(&self) -> (r: SmithayBackendDriverMode)
        ensures
            r == SmithayBackendDriverMode::ProbeOnly,
    {
        self.mode
    }

    /// Whether the driver is still probe-only; always true.
    pub fn is_probe_only(&self) -> (r: bool)
        ensures
            r,
    {
        match self.mode {
            SmithayBackendDriverMode::ProbeOnly => true,
        }
    }
}

} // verus!
