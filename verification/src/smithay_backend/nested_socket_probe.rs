//! The nested socket probe: observes a connection at a named socket and records
//! a connected session event. It never touches the core, creates no protocol
//! object and starts no loop.

use vstd::prelude::*;

use crate::smithay_backend::client_session::{
    NestedClientSessionEvent, NestedClientSessionEventLog, NestedClientSessionEventRecord,
    NestedClientSessionId, record_for,
};

verus! {

/// Why the probe is not a client runtime.
#[derive(Debug, Clone, Copy, PartialEq, Eq, Structural)]
pub enum NestedSocketAcceptProbeBlocker {
    /// No socket accept loop runs; connections are observed explicitly.
    RuntimeAcceptLoopNotStarted,
}

/// One observed connection, with every runtime capability reported off.
#[derive(Debug, Clone, PartialEq, Eq)]
pub struct NestedSocketAcceptProbeReport {
    /// The probe is available in this build.
    pub enabled: bool,
    /// The probe belongs to the Linux backend.
    pub linux_only: bool,
    /// The probe belongs to the Linux Smithay backend.
    pub requires_smithay_linux: bool,
    /// Name of the observed socket.
    pub socket_name: String,
    /// A session event was produced.
    pub produced_session_event: bool,
    /// The produced record.
    pub event: NestedClientSessionEventRecord,
    /// The core bridge was called; always false.
    pub core_bridge_invoked: bool,
    /// Real surfaces are supported; always false.
    pub surface_support: bool,
    /// Shell roles are supported; always false.
    pub shell_role_support: bool,
    /// Rendering is supported; always false.
    pub render_support: bool,
    /// Protocol dispatch started; always false.
    pub runtime_dispatch_started: bool,
    /// A socket accept loop started; always false.
    pub runtime_accept_loop_started: bool,
    /// Why this is not a runtime.
    pub blocker: NestedSocketAcceptProbeBlocker,
}

/// The report of the probe on `socket_name` that produced `event`.
pub open spec fn probe_report(socket_name: Seq<char>, event: NestedClientSessionEventRecord, r:
    NestedSocketAcceptProbeReport) -> bool {
    &&& r.enabled
    &&& r.linux_only
    &&& r.requires_smithay_linux
    &&& r.socket_name@ == socket_name
    &&& r.produced_session_event
    &&& r.event == event
    &&& !r.core_bridge_invoked
    &&& !r.surface_support
    &&& !r.shell_role_support
    &&& !r.render_support
    &&& !r.runtime_dispatch_started
    &&& !r.runtime_accept_loop_started
    &&& r.blocker == NestedSocketAcceptProbeBlocker::RuntimeAcceptLoopNotStarted
}

/// The probe: a socket name and its session log.
#[derive(Debug, Clone)]
pub struct NestedSocketAcceptProbe {
    socket_name: String,
    events: NestedClientSessionEventLog,
}

impl NestedSocketAcceptProbe {
    /// The socket name.
    pub closed spec fn spec_socket_name(&self) -> Seq<char> {
        self.socket_name@
    }

    /// The session log.
    pub closed spec fn spec_log(&self) -> NestedClientSessionEventLog {
        self.events
    }

    /// A probe for `socket_name` with an empty log; no socket is opened.
    pub fn new(socket_name: &str) -> (r: Self)
        ensures
            r.spec_socket_name() == socket_name@,
            r.spec_log().spec_records() == Seq::<NestedClientSessionEventRecord>::empty(),
            r.spec_log().spec_next_sequence() == 1,
    {
        Self { socket_name: socket_name.to_owned(), events: NestedClientSessionEventLog::new() }
    }

    /// Records a connected event for `session` and reports it.
    pub fn observe_connected_session(
        &mut self,
        session: NestedClientSessionId,
        label: Option<String>,
        diagnostic: Option<String>,
    ) -> (r: NestedSocketAcceptProbeReport)
        ensures
            final(self).spec_socket_name() == old(self).spec_socket_name(),
            probe_report(
                old(self).spec_socket_name(),
                record_for(
                    old(self).spec_log().spec_next_sequence(),
                    NestedClientSessionEvent::Connected { session },
                    label,
                    diagnostic,
                ),
                r,
            ),
            final(self).spec_log().spec_records() == old(self).spec_log().spec_records().push(r.event),
            final(self).spec_log().spec_next_sequence() == if old(self).spec_log().spec_next_sequence()
                == u64::MAX {
                u64::MAX
            } else {
                (old(self).spec_log().spec_next_sequence() + 1) as u64
            },
    {
        let event = self.events.record(
            NestedClientSessionEvent::Connected { session },
            label,
            diagnostic,
        );
        NestedSocketAcceptProbeReport {
            enabled: true,
            linux_only: true,
            requires_smithay_linux: true,
            socket_name: self.socket_name.clone(),
            produced_session_event: true,
            event,
            core_bridge_invoked: false,
            surface_support: false,
            shell_role_support: false,
            render_support: false,
            runtime_dispatch_started: false,
            runtime_accept_loop_started: false,
            blocker: NestedSocketAcceptProbeBlocker::RuntimeAcceptLoopNotStarted,
        }
    }
}

} // verus!
