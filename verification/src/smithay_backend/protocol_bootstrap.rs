//! The production protocol bootstrap, as decisions: a display registers its
//! `wl_compositor` global before its `xdg_wm_base` global, each at most once,
//! and stops at the first failure, before any socket is bound. The ledger
//! below records which globals the display owner registered; the owner
//! creates a global exactly when the ledger accepts its registration.

use vstd::prelude::*;

verus! {

/// Why registering the `wl_compositor` global was refused.
#[derive(Debug, Clone, Copy, PartialEq, Eq, Structural)]
pub enum LinuxWlCompositorGlobalInitError {
    /// The display already has it.
    AlreadyInitialized,
}

/// Why registering the `xdg_wm_base` global was refused.
#[derive(Debug, Clone, Copy, PartialEq, Eq, Structural)]
pub enum LinuxXdgShellGlobalInitError {
    /// The display already has it.
    AlreadyInitialized,
}

/// The stage at which the production bootstrap stopped, and why.
#[derive(Debug, Clone, Copy, PartialEq, Eq, Structural)]
pub enum ProductionProtocolBootstrapError {
    /// The first stage, `wl_compositor`, failed; `xdg_wm_base` was not tried.
    WlCompositor { source: LinuxWlCompositorGlobalInitError },
    /// The second stage, `xdg_wm_base`, failed after `wl_compositor` succeeded.
    XdgWmBase { source: LinuxXdgShellGlobalInitError },
}

/// What the production bootstrap established on the server side. Everything
/// past the two globals and the socket order stays false: no client has been
/// seen binding them, and nothing was imported, rendered or sent.
#[derive(Debug, Clone, Copy, PartialEq, Eq, Structural)]
pub struct ProductionProtocolBootstrapReport {
    /// The bootstrap ran.
    pub bootstrap_attempted: bool,
    /// `wl_compositor` was registered.
    pub wl_compositor_initialized: bool,
    /// `xdg_wm_base` was registered after it.
    pub xdg_wm_base_initialized: bool,
    /// The socket was bound only after both registrations.
    pub socket_bound_after_bootstrap: bool,
    /// A client registry roundtrip saw both globals.
    pub external_registry_discovered_both_globals: bool,
    /// A client bound both globals.
    pub external_client_bound_both_globals: bool,
    /// A client buffer import was tried.
    pub buffer_import_attempted: bool,
    /// A client buffer was imported.
    pub buffer_imported: bool,
    /// A texture was created.
    pub texture_created: bool,
    /// The renderer was called.
    pub renderer_called: bool,
    /// Damage was submitted.
    pub damage_submitted: bool,
    /// A frame callback `done` was sent.
    pub frame_callback_done_sent: bool,
    /// Input is supported.
    pub input_support: bool,
    /// The core state was changed.
    pub core_mutation_invoked: bool,
}

impl ProductionProtocolBootstrapReport {
    /// The same report, recording that the socket was bound after the bootstrap.
    pub fn with_socket_bound(self) -> (r: Self)
        ensures
            r == (Self { socket_bound_after_bootstrap: true, ..self }),
    {
        Self { socket_bound_after_bootstrap: true, ..self }
    }
}

/// The report of a bootstrap that registered both globals, before any socket.
pub open spec fn bootstrapped_report() -> ProductionProtocolBootstrapReport {
    ProductionProtocolBootstrapReport {
        bootstrap_attempted: true,
        wl_compositor_initialized: true,
        xdg_wm_base_initialized: true,
        socket_bound_after_bootstrap: false,
        external_registry_discovered_both_globals: false,
        external_client_bound_both_globals: false,
        buffer_import_attempted: false,
        buffer_imported: false,
        texture_created: false,
        renderer_called: false,
        damage_submitted: false,
        frame_callback_done_sent: false,
        input_support: false,
        core_mutation_invoked: false,
    }
}

/// Which production globals a display has registered.
#[derive(Debug, Clone, Copy, PartialEq, Eq, Structural)]
pub struct ProductionProtocolGlobals {
    wl_compositor: bool,
    xdg_wm_base: bool,
}

impl ProductionProtocolGlobals {
    /// `wl_compositor` is registered.
    pub closed spec fn spec_wl_compositor(self) -> bool {
        self.wl_compositor
    }

    /// `xdg_wm_base` is registered.
    pub closed spec fn spec_xdg_wm_base(self) -> bool {
        self.xdg_wm_base
    }

    /// A fresh display: no global registered.
    pub fn new() -> (r: Self)
        ensures
            !r.spec_wl_compositor(),
            !r.spec_xdg_wm_base(),
    {
        Self { wl_compositor: false, xdg_wm_base: false }
    }

    /// Whether `wl_compositor` is registered.
    pub fn is_wl_compositor_global_initialized(&self) -> (r: bool)
        ensures
            r == self.spec_wl_compositor(),
    {
        self.wl_compositor
    }

    /// Whether `xdg_wm_base` is registered.
    pub fn is_xdg_shell_global_initialized(&self) -> (r: bool)
        ensures
            r == self.spec_xdg_wm_base(),
    {
        self.xdg_wm_base
    }

    /// Registers `wl_compositor`; refused when it already is.
    pub fn initialize_wl_compositor_global(&mut self) -> (r: Result<(), LinuxWlCompositorGlobalInitError>)
        ensures
            r is Ok <==> !old(self).spec_wl_compositor(),
            r is Err ==> r == Err::<(), LinuxWlCompositorGlobalInitError>(
                LinuxWlCompositorGlobalInitError::AlreadyInitialized,
            ),
            final(self).spec_wl_compositor(),
            final(self).spec_xdg_wm_base() == old(self).spec_xdg_wm_base(),
    {
        if self.wl_compositor {
            Err(LinuxWlCompositorGlobalInitError::AlreadyInitialized)
        } else {
            self.wl_compositor = true;
            Ok(())
        }
    }

    /// Registers `xdg_wm_base`; refused when it already is.
    pub fn initialize_xdg_shell_global(&mut self) -> (r: Result<(), LinuxXdgShellGlobalInitError>)
        ensures
            r is Ok <==> !old(self).spec_xdg_wm_base(),
            r is Err ==> r == Err::<(), LinuxXdgShellGlobalInitError>(
                LinuxXdgShellGlobalInitError::AlreadyInitialized,
            ),
            final(self).spec_xdg_wm_base(),
            final(self).spec_wl_compositor() == old(self).spec_wl_compositor(),
    {
        if self.xdg_wm_base {
            Err(LinuxXdgShellGlobalInitError::AlreadyInitialized)
        } else {
            self.xdg_wm_base = true;
            Ok(())
        }
    }
}

/// Registers the production globals in order, `wl_compositor` then
/// `xdg_wm_base`, stopping at the first refusal: a display that already has
/// `wl_compositor` fails at the first stage and `xdg_wm_base` is not touched.
pub fn bootstrap_production_protocol_globals(display: &mut ProductionProtocolGlobals) -> (r: Result<
    ProductionProtocolBootstrapReport,
    ProductionProtocolBootstrapError,
>)
    ensures
        old(display).spec_wl_compositor() ==> {
            &&& r == Err::<ProductionProtocolBootstrapReport, ProductionProtocolBootstrapError>(
                ProductionProtocolBootstrapError::WlCompositor {
                    source: LinuxWlCompositorGlobalInitError::AlreadyInitialized,
                },
            )
            &&& *final(display) == *old(display)
        },
        !old(display).spec_wl_compositor() && old(display).spec_xdg_wm_base() ==> {
            &&& r == Err::<ProductionProtocolBootstrapReport, ProductionProtocolBootstrapError>(
                ProductionProtocolBootstrapError::XdgWmBase {
                    source: LinuxXdgShellGlobalInitError::AlreadyInitialized,
                },
            )
            &&& final(display).spec_wl_compositor()
            &&& final(display).spec_xdg_wm_base()
        },
        !old(display).spec_wl_compositor() && !old(display).spec_xdg_wm_base() ==> {
            &&& r == Ok::<ProductionProtocolBootstrapReport, ProductionProtocolBootstrapError>(
                bootstrapped_report(),
            )
            &&& final(display).spec_wl_compositor()
            &&& final(display).spec_xdg_wm_base()
        },
{
    match display.initialize_wl_compositor_global() {
        Ok(()) => {},
        Err(source) => {
            return Err(ProductionProtocolBootstrapError::WlCompositor { source });
        },
    }
    match display.initialize_xdg_shell_global() {
        Ok(()) => {},
        Err(source) => {
            return Err(ProductionProtocolBootstrapError::XdgWmBase { source });
        },
    }
    Ok(
        ProductionProtocolBootstrapReport {
            bootstrap_attempted: true,
            wl_compositor_initialized: true,
            xdg_wm_base_initialized: true,
            socket_bound_after_bootstrap: false,
            external_registry_discovered_both_globals: false,
            external_client_bound_both_globals: false,
            buffer_import_attempted: false,
            buffer_imported: false,
            texture_created: false,
            renderer_called: false,
            damage_submitted: false,
            frame_callback_done_sent: false,
            input_support: false,
            core_mutation_invoked: false,
        },
    )
}

} // verus!
