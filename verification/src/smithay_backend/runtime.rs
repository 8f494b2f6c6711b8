//! The runtime probe: a backend driver plus client and surface ID allocators.
//! Every helper only enqueues a backend event; the core state changes only when
//! `run_once` hands the oldest event to the driver runner.

use vstd::prelude::*;

use crate::core_model::backend_driver::{BackendDriverRunReport, BackendDriverRunner, BackendDriverPoll};
use crate::core_model::state::{State, handled, validation_issues};
use crate::core_model::types::{
    Action, BackendEvent, CoreClientId, ClientKind, SurfaceId, SurfaceRole, WindowKind, command_for,
};
use crate::smithay_backend::action_event::SmithayActionRequestDescriptor;
use crate::smithay_backend::client_event::SmithayClientConnectionDescriptor;
use crate::smithay_backend::client_id::{SmithayClientIdAllocatorMode, SmithayClientIdAllocatorProbe};
use crate::smithay_backend::diagnostic_event::{SmithayDiagnosticRequestDescriptor, diagnostic_event};
use crate::smithay_backend::driver::{SmithayBackendDriverMode, SmithayBackendDriverProbe};
use crate::smithay_backend::output_event::SmithayOutputResizeDescriptor;
use crate::smithay_backend::surface_event::SmithaySurfaceCreationDescriptor;
use crate::smithay_backend::surface_id::{
    SmithaySurfaceIdAllocatorMode, SmithaySurfaceIdAllocatorProbe, next_id_after,
};
use crate::smithay_backend::toplevel_event::SmithayToplevelMapDescriptor;

verus! {

/// Mode of the runtime; only the probe mode exists.
#[derive(Debug, Clone, Copy, PartialEq, Eq, Structural)]
pub enum SmithayRuntimeMode {
    /// Pure probe mode: no event loop, no real client.
    ProbeOnly,
}

/// Mode of the bootstrap a runtime was built with; only the probe mode exists.
#[derive(Debug, Clone, Copy, PartialEq, Eq, Structural)]
pub enum SmithayBootstrapMode {
    /// Socket and display resources only; no real compositor.
    ProbeOnly,
}

/// The runtime probe.
pub struct SmithayRuntimeProbe {
    driver: SmithayBackendDriverProbe,
    client_id_allocator: SmithayClientIdAllocatorProbe,
    surface_id_allocator: SmithaySurfaceIdAllocatorProbe,
    mode: SmithayRuntimeMode,
    socket_name: Option<String>,
}

impl SmithayRuntimeProbe {
    /// The events waiting for `run_once`, oldest first.
    pub closed spec fn queue(&self) -> Seq<BackendEvent> {
        self.driver.queue()
    }

    /// Whether shutdown was requested.
    pub closed spec fn shutdown_requested(&self) -> bool {
        self.driver.shutdown_requested()
    }

    /// The client ID the next allocation hands out.
    pub closed spec fn next_client(&self) -> u64 {
        self.client_id_allocator.spec_next()
    }

    /// The surface ID the next allocation hands out.
    pub closed spec fn next_surface(&self) -> u64 {
        self.surface_id_allocator.spec_next()
    }

    /// The Wayland socket the runtime was built around, if any.
    pub closed spec fn bound_socket(&self) -> Option<String> {
        self.socket_name
    }

    /// The name of the bound socket; empty when there is none.
    pub open spec fn socket_view(&self) -> Seq<char> {
        match self.bound_socket() {
            Some(name) => name@,
            None => Seq::<char>::empty(),
        }
    }

    /// `self` equals `other` except that `event` was appended to the queue.
    pub open spec fn enqueued(&self, other: &Self, event: BackendEvent) -> bool {
        &&& self.queue() == other.queue().push(event)
        &&& self.shutdown_requested() == other.shutdown_requested()
        &&& self.next_client() == other.next_client()
        &&& self.next_surface() == other.next_surface()
        &&& self.bound_socket() == other.bound_socket()
    }

    /// A runtime with an empty queue and both allocators at 1.
    pub fn new_probe_only() -> (r: Self)
        ensures
            r.queue() == Seq::<BackendEvent>::empty(),
            !r.shutdown_requested(),
            r.next_client() == 1,
            r.next_surface() == 1,
            r.bound_socket() is None,
    {
        Self {
            driver: SmithayBackendDriverProbe::new_probe_only(),
            client_id_allocator: SmithayClientIdAllocatorProbe::new(),
            surface_id_allocator: SmithaySurfaceIdAllocatorProbe::new(),
            mode: SmithayRuntimeMode::ProbeOnly,
            socket_name: None,
        }
    }

    /// The probe build holds no system resource and nothing can fail, so this
    /// always yields a fresh probe runtime.
    pub fn new_auto() -> (r: Result<Self, String>)
        ensures
            r matches Ok(rt) && rt.queue() == Seq::<BackendEvent>::empty()
                && !rt.shutdown_requested() && rt.next_client() == 1 && rt.next_surface() == 1
                && rt.bound_socket() is None,
    {
        Ok(Self::new_probe_only())
    }

    /// A runtime around an existing driver, with fresh allocators.
    pub fn from_parts(driver: SmithayBackendDriverProbe) -> (r: Self)
        ensures
            r.queue() == driver.queue(),
            r.shutdown_requested() == driver.shutdown_requested(),
            r.next_client() == 1,
            r.next_surface() == 1,
            r.bound_socket() is None,
    {
        Self {
            driver,
            client_id_allocator: SmithayClientIdAllocatorProbe::new(),
            surface_id_allocator: SmithaySurfaceIdAllocatorProbe::new(),
            mode: SmithayRuntimeMode::ProbeOnly,
            socket_name: None,
        }
    }

    /// A probe runtime around the Wayland socket that the caller bound: its
    /// name when binding succeeded; a binding error is handed back unchanged.
    pub fn with_socket_name(bound: Result<String, String>) -> (r: Result<Self, String>)
        ensures
            match bound {
                Ok(name) => r matches Ok(rt) && rt.queue() == Seq::<BackendEvent>::empty()
                    && !rt.shutdown_requested() && rt.next_client() == 1 && rt.next_surface() == 1
                    && rt.bound_socket() == Some(name),
                Err(error) => r matches Err(e) && e == error,
            },
    {
        match bound {
            Ok(name) => {
                let mut runtime = Self::new_probe_only();
                runtime.socket_name = Some(name);
                Ok(runtime)
            },
            Err(error) => Err(error),
        }
    }

    /// The bootstrap mode: probe-only, whether or not a socket was bound.
    pub fn bootstrap_mode(&self) -> (r: SmithayBootstrapMode)
        ensures
            r == SmithayBootstrapMode::ProbeOnly,
    {
        SmithayBootstrapMode::ProbeOnly
    }

    /// The name of the socket the runtime was built around; empty for a
    /// runtime that holds none.
    pub fn socket_name_string(&self) -> (r: String)
        ensures
            r@ == self.socket_view(),
    {
        match &self.socket_name {
            Some(name) => name.clone(),
            None => String::new(),
        }
    }

    /// Enqueues `event`.
    pub fn push_event(&mut self, event: BackendEvent)
        ensures
            final(self).enqueued(old(self), event),
    {
        self.driver.push_event(event);
    }

    /// Enqueues the action request.
    pub fn push_action_requested(&mut self, descriptor: SmithayActionRequestDescriptor)
        ensures
            final(self).enqueued(old(self), BackendEvent::ActionRequested { action: descriptor.action }),
    {
        self.driver.push_action_requested(descriptor);
    }

    /// Enqueues a request for `action`.
    pub fn push_action(&mut self, action: Action)
        ensures
            final(self).enqueued(old(self), BackendEvent::ActionRequested { action }),
    {
        self.push_action_requested(SmithayActionRequestDescriptor::new(action));
    }

    /// Enqueues the diagnostic request.
    pub fn push_diagnostic_requested(&mut self, descriptor: SmithayDiagnosticRequestDescriptor)
        ensures
            final(self).enqueued(old(self), diagnostic_event(descriptor.kind)),
    {
        self.driver.push_diagnostic_requested(descriptor);
    }

    /// Enqueues a debug text request.
    pub fn push_debug_requested(&mut self)
        ensures
            final(self).enqueued(old(self), BackendEvent::DebugRequested),
    {
        self.driver.push_debug_requested();
    }

    /// Enqueues a validation text request.
    pub fn push_validate_requested(&mut self)
        ensures
            final(self).enqueued(old(self), BackendEvent::ValidateRequested),
    {
        self.driver.push_validate_requested();
    }

    /// Enqueues the output resize.
    pub fn push_output_resized(&mut self, descriptor: SmithayOutputResizeDescriptor)
        ensures
            final(self).enqueued(
                old(self),
                BackendEvent::OutputResized { width: descriptor.width, height: descriptor.height },
            ),
    {
        self.driver.push_output_resized(descriptor);
    }

    /// Enqueues a resize to `width` x `height`.
    pub fn push_output_resized_size(&mut self, width: u32, height: u32)
        ensures
            final(self).enqueued(old(self), BackendEvent::OutputResized { width, height }),
    {
        self.push_output_resized(SmithayOutputResizeDescriptor::new(width, height));
    }

    /// Enqueues the client connection.
    pub fn push_client_connected(&mut self, descriptor: SmithayClientConnectionDescriptor)
        ensures
            final(self).enqueued(
                old(self),
                BackendEvent::ClientConnected {
                    client: descriptor.client,
                    kind: descriptor.kind,
                    name: descriptor.name,
                },
            ),
    {
        self.driver.push_client_connected(descriptor);
    }

    /// Enqueues the client disconnection.
    pub fn push_client_disconnected(&mut self, client: CoreClientId)
        ensures
            final(self).enqueued(old(self), BackendEvent::ClientDisconnected { client }),
    {
        self.driver.push_client_disconnected(client);
    }

    /// Allocates a client ID and enqueues a placeholder client connection for it.
    pub fn push_allocated_client_connected(&mut self, name: Option<String>) -> (r: CoreClientId)
        ensures
            r == old(self).next_client(),
            final(self).next_client() == next_id_after(r),
            final(self).next_surface() == old(self).next_surface(),
            final(self).shutdown_requested() == old(self).shutdown_requested(),
            final(self).queue() == old(self).queue().push(
                BackendEvent::ClientConnected {
                    client: Some(r),
                    kind: ClientKind::WaylandPlaceholder,
                    name,
                },
            ),
    {
        let descriptor = self.client_id_allocator.next_descriptor(name);
        let client = match descriptor.client {
            Some(client) => client,
            None => self.client_id_allocator.peek_next_client_id(),
        };
        self.push_client_connected(descriptor);
        client
    }

    /// Returns the client ID the next allocation hands out.
    pub fn peek_next_client_id(&self) -> (r: CoreClientId)
        ensures
            r == self.next_client(),
    {
        self.client_id_allocator.peek_next_client_id()
    }

    /// Returns the client ID allocator mode.
    pub fn client_id_allocator_mode(&self) -> (r: SmithayClientIdAllocatorMode)
        ensures
            r == SmithayClientIdAllocatorMode::ProbeOnly,
    {
        self.client_id_allocator.mode()
    }

    /// Enqueues the surface creation.
    pub fn push_surface_created(&mut self, descriptor: SmithaySurfaceCreationDescriptor)
        ensures
            final(self).enqueued(
                old(self),
                BackendEvent::SurfaceCreated {
                    surface: descriptor.surface,
                    client: descriptor.client,
                    role: descriptor.role,
                },
            ),
    {
        self.driver.push_surface_created(descriptor);
    }

    /// Enqueues the surface closing.
    pub fn push_surface_closed(&mut self, surface: SurfaceId)
        ensures
            final(self).enqueued(old(self), BackendEvent::SurfaceClosed { surface }),
    {
        self.driver.push_surface_closed(surface);
    }

    /// Allocates a surface ID and enqueues its creation.
    pub fn push_allocated_surface_created(&mut self, client: Option<CoreClientId>, role: SurfaceRole) -> (r:
        SurfaceId)
        ensures
            r == old(self).next_surface(),
            final(self).next_surface() == next_id_after(r),
            final(self).next_client() == old(self).next_client(),
            final(self).shutdown_requested() == old(self).shutdown_requested(),
            final(self).queue() == old(self).queue().push(
                BackendEvent::SurfaceCreated { surface: r, client, role },
            ),
    {
        let surface = self.surface_id_allocator.next_surface_id();
        self.push_surface_created(SmithaySurfaceCreationDescriptor::new(surface, client, role));
        surface
    }

    /// Returns the surface ID the next allocation hands out.
    pub fn peek_next_surface_id(&self) -> (r: SurfaceId)
        ensures
            r == self.next_surface(),
    {
        self.surface_id_allocator.peek_next_surface_id()
    }

    /// Returns the surface ID allocator mode.
    pub fn surface_id_allocator_mode(&self) -> (r: SmithaySurfaceIdAllocatorMode)
        ensures
            r == SmithaySurfaceIdAllocatorMode::ProbeOnly,
    {
        self.surface_id_allocator.mode()
    }

    /// Enqueues the toplevel map.
    pub fn push_toplevel_mapped(&mut self, descriptor: SmithayToplevelMapDescriptor)
        ensures
            final(self).enqueued(
                old(self),
                BackendEvent::ToplevelMapped {
                    surface: descriptor.surface,
                    title: descriptor.title,
                    app_id: descriptor.app_id,
                    kind: descriptor.kind,
                },
            ),
    {
        self.driver.push_toplevel_mapped(descriptor);
    }

    /// Enqueues a Wayland placeholder toplevel map for `surface`.
    pub fn push_wayland_toplevel_mapped(
        &mut self,
        surface: SurfaceId,
        title: &str,
        app_id: Option<String>,
    )
        ensures
            final(self).next_client() == old(self).next_client(),
            final(self).next_surface() == old(self).next_surface(),
            final(self).shutdown_requested() == old(self).shutdown_requested(),
            final(self).queue().len() == old(self).queue().len() + 1,
            final(self).queue().drop_last() == old(self).queue(),
            final(self).queue().last() matches BackendEvent::ToplevelMapped {
                surface: s,
                title: t,
                app_id: a,
                kind: k,
            } && s == surface && t@ == title@ && a == app_id && k == WindowKind::WaylandPlaceholder,
    {
        self.push_toplevel_mapped(SmithayToplevelMapDescriptor::new(surface, title, app_id));
    }

    /// Asks the driver to report shutdown once its queue is empty.
    pub fn request_shutdown(&mut self)
        ensures
            final(self).queue() == old(self).queue(),
            final(self).shutdown_requested(),
            final(self).next_client() == old(self).next_client(),
            final(self).next_surface() == old(self).next_surface(),
            final(self).bound_socket() == old(self).bound_socket(),
    {
        self.driver.request_shutdown();
    }

    /// Runs one step: the oldest queued event goes through the core; with none
    /// queued the state is untouched and the poll reports idle or shutdown.
    pub fn run_once(&mut self, state: &mut State) -> (r: BackendDriverRunReport)
        requires
            old(state).wf(),
        ensures
            final(state).wf(),
            final(self).shutdown_requested() == old(self).shutdown_requested(),
            final(self).next_client() == old(self).next_client(),
            final(self).next_surface() == old(self).next_surface(),
            final(self).bound_socket() == old(self).bound_socket(),
            r.validation.issues@ == validation_issues(final(state).view()),
            old(self).queue().len() > 0 ==> {
                let event = old(self).queue()[0];
                &&& final(self).queue() == old(self).queue().drop_first()
                &&& r.poll == BackendDriverPoll::Event(event)
                &&& r.runtime_result matches Some(rr) && rr.event == event && rr.command
                    == command_for(event) && handled(
                    old(state).view(),
                    command_for(event),
                    final(state).view(),
                    rr.result,
                ) && rr.validation.issues@ == r.validation.issues@
            },
            old(self).queue().len() == 0 ==> {
                &&& final(self).queue() == old(self).queue()
                &&& final(state).view() == old(state).view()
                &&& r.runtime_result is None
                &&& r.poll == (if old(self).shutdown_requested() {
                    BackendDriverPoll::ShutdownRequested
                } else {
                    BackendDriverPoll::Idle
                })
            },
    {
        BackendDriverRunner::run_once(state, &mut self.driver)
    }

    /// Returns the runtime mode.
    pub fn mode(&self) -> (r: SmithayRuntimeMode)
        ensures
            r == SmithayRuntimeMode::ProbeOnly,
    {
        self.mode
    }

    /// Whether the runtime and its driver are probe-only; always true.
    pub fn is_probe_only(&self) -> (r: bool)
        ensures
            r,
    {
        let runtime_probe = match self.mode {
            SmithayRuntimeMode::ProbeOnly => true,
        };
        runtime_probe && self.driver.is_probe_only()
    }

    /// Returns the driver mode.
    pub fn driver_mode(&self) -> (r: SmithayBackendDriverMode)
        ensures
            r == SmithayBackendDriverMode::ProbeOnly,
    {
        self.driver.mode()
    }

    /// Number of events waiting for `run_once`.
    pub fn pending_event_count(&self) -> (r: usize)
        ensures
            r == self.queue().len(),
    {
        self.driver.pending_event_count()
    }

    /// Stable description of the runtime stage.
    pub fn mode_description(&self) -> (r: &'static str)
        ensures
            r@ == "smithay-runtime-probe-only"@,
    {
        "smithay-runtime-probe-only"
    }
}


/// The run queue is first in, first out: pushing an event (what every `push_*`
/// helper does) never changes which queued event `run_once` handles next, and
/// once that one has run, the pushed event is still the last to come.
pub proof fn law_queue_is_fifo(before: SmithayRuntimeProbe, event: BackendEvent, after: SmithayRuntimeProbe)
    requires
        after.enqueued(&before, event),
    ensures
        before.queue().len() > 0 ==> after.queue()[0] == before.queue()[0],
        before.queue().len() == 0 ==> after.queue()[0] == event,
        after.queue().drop_first() == if before.queue().len() == 0 {
            Seq::<BackendEvent>::empty()
        } else {
            before.queue().drop_first().push(event)
        },
{
    assert(after.queue().drop_first() =~= if before.queue().len() == 0 {
        Seq::<BackendEvent>::empty()
    } else {
        before.queue().drop_first().push(event)
    });
}

} // verus!
