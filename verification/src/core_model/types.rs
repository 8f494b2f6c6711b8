//! Plain-data vocabulary shared by the core model and the backend adapters:
//! identities, roles and kinds, actions, backend events, core commands and
//! command results.

use vstd::prelude::*;

use crate::smithay_backend::surface_lifecycle::copy_opt_string;

verus! {

/// Identity of a client in the core registry.
pub type CoreClientId = u64;

/// Identity of a surface in the core registry.
pub type SurfaceId = u64;

/// Identity of a logical window in the core registry.
pub type WindowId = u64;

/// Protocol role of a surface. Not every role becomes a window.
#[derive(Debug, Clone, Copy, PartialEq, Eq, Structural)]
pub enum SurfaceRole {
    /// `xdg_toplevel` surface.
    XdgToplevel,
    /// Layer-shell surface.
    LayerShell,
    /// Role not known yet.
    Unknown,
}

/// Where a client comes from.
#[derive(Debug, Clone, Copy, PartialEq, Eq, Structural)]
pub enum ClientKind {
    /// Internal client of the compositor itself.
    Internal,
    /// Placeholder for a Wayland client.
    WaylandPlaceholder,
}

/// Where a window comes from.
#[derive(Debug, Clone, Copy, PartialEq, Eq, Structural)]
pub enum WindowKind {
    /// Window created by a compositor action.
    Internal,
    /// Placeholder for a mapped Wayland toplevel.
    WaylandPlaceholder,
}

/// A compositor action requested by input or by a backend.
#[derive(Debug, Clone, Copy, PartialEq, Eq, Structural)]
pub enum Action {
    /// Switch to the next workspace (wrapping).
    NextWorkspace,
    /// Create an internal window on the current workspace and focus it.
    SpawnWindow,
    /// Close the focused window.
    CloseFocusedWindow,
}

/// A pure-data event produced by a backend for the core.
#[derive(Debug, Clone, PartialEq, Eq)]
pub enum BackendEvent {
    /// Run a compositor action.
    ActionRequested { action: Action },
    /// Produce the full debug text.
    DebugRequested,
    /// Produce the validation report text.
    ValidateRequested,
    /// The output changed size.
    OutputResized { width: u32, height: u32 },
    /// A client connected; `None` lets the core allocate its identity.
    ClientConnected { client: Option<CoreClientId>, kind: ClientKind, name: Option<String> },
    /// A client disconnected; its surfaces and windows close with it.
    ClientDisconnected { client: CoreClientId },
    /// A surface appeared; this does not create a window.
    SurfaceCreated { surface: SurfaceId, client: Option<CoreClientId>, role: SurfaceRole },
    /// A surface closed; only that surface and its window close.
    SurfaceClosed { surface: SurfaceId },
    /// A toplevel was mapped; a window is created for the surface.
    ToplevelMapped { surface: SurfaceId, title: String, app_id: Option<String>, kind: WindowKind },
}

/// A core command derived one-to-one from a backend event.
#[derive(Debug, Clone, PartialEq, Eq)]
pub enum CoreCommand {
    /// Dispatch an action.
    Dispatch(Action),
    /// Produce the debug text.
    DebugText,
    /// Produce the validation text.
    ValidateText,
    /// Resize the output.
    ResizeOutput { width: u32, height: u32 },
    /// Register a client.
    RegisterClient { client: Option<CoreClientId>, kind: ClientKind, name: Option<String> },
    /// Close a client and everything it owns.
    CloseClient(CoreClientId),
    /// Register a surface.
    RegisterSurface { surface: SurfaceId, client: Option<CoreClientId>, role: SurfaceRole },
    /// Close one surface and its window.
    CloseSurface(SurfaceId),
    /// Create a window for a surface.
    RegisterWindowForSurface {
        surface: SurfaceId,
        title: String,
        app_id: Option<String>,
        kind: WindowKind,
    },
}

/// The outcome of one core command.
#[derive(Debug, Clone, PartialEq, Eq)]
pub enum CommandResult {
    /// An action ran; `changed` tells whether it changed the state.
    ActionDispatched { action: Action, changed: bool },
    /// A text result (debug or validation report).
    Text(String),
    /// The output now has this size.
    OutputResized { width: u32, height: u32 },
    /// Client registration; `registered` is false when the identity was taken.
    ClientRegistered { client: CoreClientId, registered: bool },
    /// Client close; `closed` is false when the client was not alive.
    ClientClosed { client: CoreClientId, closed: bool },
    /// Surface registration; `registered` is false when the identity was taken.
    SurfaceRegistered { surface: SurfaceId, registered: bool },
    /// Surface close; `closed` is false when the surface was not alive.
    SurfaceClosed { surface: SurfaceId, closed: bool },
    /// A window was created; `bound` tells whether the surface got bound to it.
    WindowRegisteredForSurface { surface: SurfaceId, window: WindowId, bound: bool },
}

/// The command a backend event translates to.
pub open spec fn command_for(event: BackendEvent) -> CoreCommand {
    match event {
        BackendEvent::ActionRequested { action } => CoreCommand::Dispatch(action),
        BackendEvent::DebugRequested => CoreCommand::DebugText,
        BackendEvent::ValidateRequested => CoreCommand::ValidateText,
        BackendEvent::OutputResized { width, height } => CoreCommand::ResizeOutput { width, height },
        BackendEvent::ClientConnected { client, kind, name } => CoreCommand::RegisterClient {
            client,
            kind,
            name,
        },
        BackendEvent::ClientDisconnected { client } => CoreCommand::CloseClient(client),
        BackendEvent::SurfaceCreated { surface, client, role } => CoreCommand::RegisterSurface {
            surface,
            client,
            role,
        },
        BackendEvent::SurfaceClosed { surface } => CoreCommand::CloseSurface(surface),
        BackendEvent::ToplevelMapped { surface, title, app_id, kind } => {
            CoreCommand::RegisterWindowForSurface { surface, title, app_id, kind }
        },
    }
}

impl BackendEvent {
    /// Copies the event; the copy is equal to it.
    pub fn copy(&self) -> (r: Self)
        ensures
            r == *self,
    {
        match self {
            BackendEvent::ActionRequested { action } => BackendEvent::ActionRequested {
                action: *action,
            },
            BackendEvent::DebugRequested => BackendEvent::DebugRequested,
            BackendEvent::ValidateRequested => BackendEvent::ValidateRequested,
            BackendEvent::OutputResized { width, height } => BackendEvent::OutputResized {
                width: *width,
                height: *height,
            },
            BackendEvent::ClientConnected { client, kind, name } => BackendEvent::ClientConnected {
                client: *client,
                kind: *kind,
                name: copy_opt_string(name),
            },
            BackendEvent::ClientDisconnected { client } => BackendEvent::ClientDisconnected {
                client: *client,
            },
            BackendEvent::SurfaceCreated { surface, client, role } => BackendEvent::SurfaceCreated {
                surface: *surface,
                client: *client,
                role: *role,
            },
            BackendEvent::SurfaceClosed { surface } => BackendEvent::SurfaceClosed {
                surface: *surface,
            },
            BackendEvent::ToplevelMapped { surface, title, app_id, kind } => {
                BackendEvent::ToplevelMapped {
                    surface: *surface,
                    title: title.clone(),
                    app_id: copy_opt_string(app_id),
                    kind: *kind,
                }
            },
        }
    }

    /// Translates the event into its core command.
    pub fn to_command(&self) -> (r: CoreCommand)
        ensures
            r == command_for(*self),
    {
        match self {
            BackendEvent::ActionRequested { action } => CoreCommand::Dispatch(*action),
            BackendEvent::DebugRequested => CoreCommand::DebugText,
            BackendEvent::ValidateRequested => CoreCommand::ValidateText,
            BackendEvent::OutputResized { width, height } => CoreCommand::ResizeOutput {
                width: *width,
                height: *height,
            },
            BackendEvent::ClientConnected { client, kind, name } => CoreCommand::RegisterClient {
                client: *client,
                kind: *kind,
                name: copy_opt_string(name),
            },
            BackendEvent::ClientDisconnected { client } => CoreCommand::CloseClient(*client),
            BackendEvent::SurfaceCreated { surface, client, role } => CoreCommand::RegisterSurface {
                surface: *surface,
                client: *client,
                role: *role,
            },
            BackendEvent::SurfaceClosed { surface } => CoreCommand::CloseSurface(*surface),
            BackendEvent::ToplevelMapped { surface, title, app_id, kind } => {
                CoreCommand::RegisterWindowForSurface {
                    surface: *surface,
                    title: title.clone(),
                    app_id: copy_opt_string(app_id),
                    kind: *kind,
                }
            },
        }
    }
}

} // verus!
