//! The probe-to-bridge flow: the socket probe produces a connected record, then
//! the session bridge applies it to the core. Every runtime capability stays off.

use vstd::prelude::*;

use crate::core_model::runtime_bridge::{
    NestedClientSessionBridgeOutcome, NestedClientSessionCoreBridge, NestedSessionBinding,
    bound_client,
};
use crate::core_model::state::State;
use crate::core_model::types::CoreClientId;
use crate::smithay_backend::client_session::{
    NestedClientSessionEvent, NestedClientSessionEventRecord, NestedClientSessionId, record_for,
};
use crate::smithay_backend::nested_socket_probe::{
    NestedSocketAcceptProbe, NestedSocketAcceptProbeReport, probe_report,
};

verus! {

/// The outcome of one observed connection through the flow.
#[derive(Debug, Clone, PartialEq, Eq)]
pub struct NestedSocketProbeBridgeFlowReport {
    /// The probe's report and record.
    pub probe_report: NestedSocketAcceptProbeReport,
    /// What the bridge did with the record.
    pub bridge_outcome: NestedClientSessionBridgeOutcome,
    /// The record was handed to the bridge; always true.
    pub bridge_received_event: bool,
    /// A new core client was registered.
    pub core_client_registered: bool,
    /// The session is bound after the call.
    pub mapping_stored: bool,
    /// The core client the session is bound to after the call.
    pub mapped_client: Option<CoreClientId>,
    /// The connect was a duplicate and registered nothing.
    pub duplicate_connected_suppressed: bool,
    /// Real surfaces are supported; always false.
    pub surface_support: bool,
    /// Shell roles are supported; always false.
    pub shell_role_support: bool,
    /// Rendering is supported; always false.
    pub render_support: bool,
    /// A socket accept loop started; always false.
    pub runtime_accept_loop_started: bool,
    /// Protocol dispatch started; always false.
    pub runtime_dispatch_started: bool,
    /// The adapter accepts real clients; always false.
    pub accepts_clients_capability: bool,
}

/// The flow: a probe and a bridge.
#[derive(Debug, Clone)]
pub struct NestedSocketProbeBridgeFlow {
    probe: NestedSocketAcceptProbe,
    bridge: NestedClientSessionCoreBridge,
}

impl NestedSocketProbeBridgeFlow {
    /// The probe.
    pub closed spec fn spec_probe(&self) -> NestedSocketAcceptProbe {
        self.probe
    }

    /// The session bindings of the bridge.
    pub closed spec fn spec_bindings(&self) -> Seq<NestedSessionBinding> {
        self.bridge.spec_bindings()
    }

    /// The bridge is well formed.
    pub closed spec fn wf(&self) -> bool {
        self.bridge.wf()
    }

    /// A flow for `socket_name` with an empty log and no binding.
    pub fn new(socket_name: &str) -> (r: Self)
        ensures
            r.wf(),
            r.spec_probe().spec_socket_name() == socket_name@,
            r.spec_probe().spec_log().spec_records() == Seq::<NestedClientSessionEventRecord>::empty(),
            r.spec_probe().spec_log().spec_next_sequence() == 1,
            r.spec_bindings() == Seq::<NestedSessionBinding>::empty(),
    {
        Self { probe: NestedSocketAcceptProbe::new(socket_name), bridge: NestedClientSessionCoreBridge::new() }
    }

    /// The probe records a connected event for `session`; the bridge applies it.
    pub fn observe_connected_session(
        &mut self,
        state: &mut State,
        session: NestedClientSessionId,
        label: Option<String>,
        diagnostic: Option<String>,
    ) -> (r: NestedSocketProbeBridgeFlowReport)
        requires
            old(self).wf(),
            old(state).wf(),
        ensures
            final(self).wf(),
            final(state).wf(),
            probe_report(
                old(self).spec_probe().spec_socket_name(),
                record_for(
                    old(self).spec_probe().spec_log().spec_next_sequence(),
                    NestedClientSessionEvent::Connected { session },
                    label,
                    diagnostic,
                ),
                r.probe_report,
            ),
            r.bridge_received_event,
            r.core_client_registered == r.bridge_outcome is Connected,
            r.duplicate_connected_suppressed == r.bridge_outcome is DuplicateConnected,
            r.mapped_client == bound_client(final(self).spec_bindings(), session),
            r.mapping_stored == r.mapped_client is Some,
            !r.surface_support,
            !r.shell_role_support,
            !r.render_support,
            !r.runtime_accept_loop_started,
            !r.runtime_dispatch_started,
            !r.accepts_clients_capability,
            match bound_client(old(self).spec_bindings(), session) {
                Some(c) => {
                    &&& r.bridge_outcome == NestedClientSessionBridgeOutcome::DuplicateConnected {
                        session,
                        client: c,
                    }
                    &&& final(state).view() == old(state).view()
                    &&& final(self).spec_bindings() == old(self).spec_bindings()
                },
                None => if old(state).view().next_client != u64::MAX {
                    &&& r.bridge_outcome matches NestedClientSessionBridgeOutcome::Connected {
                        session: s,
                        client,
                        runtime,
                    } && s == session && client == old(state).view().next_client
                    &&& final(self).spec_bindings() == old(self).spec_bindings().push(
                        NestedSessionBinding { session, client: old(state).view().next_client },
                    )
                } else {
                    &&& r.bridge_outcome is RegistrationFailed
                    &&& final(self).spec_bindings() == old(self).spec_bindings()
                },
            },
    {
        let probe_report = self.probe.observe_connected_session(session, label, diagnostic);
        let bridge_outcome = self.bridge.handle_record(state, &probe_report.event);
        let mapped_client = self.bridge.lookup_client(session);
        let core_client_registered = match &bridge_outcome {
            NestedClientSessionBridgeOutcome::Connected { .. } => true,
            _ => false,
        };
        let duplicate_connected_suppressed = match &bridge_outcome {
            NestedClientSessionBridgeOutcome::DuplicateConnected { .. } => true,
            _ => false,
        };
        NestedSocketProbeBridgeFlowReport {
            surface_support: probe_report.surface_support,
            shell_role_support: probe_report.shell_role_support,
            render_support: probe_report.render_support,
            runtime_accept_loop_started: probe_report.runtime_accept_loop_started,
            runtime_dispatch_started: probe_report.runtime_dispatch_started,
            probe_report,
            bridge_outcome,
            bridge_received_event: true,
            core_client_registered,
            mapping_stored: mapped_client.is_some(),
            mapped_client,
            duplicate_connected_suppressed,
            accepts_clients_capability: false,
        }
    }

    /// The core client `session` is bound to.
    pub fn lookup_client(&self, session: NestedClientSessionId) -> (r: Option<CoreClientId>)
        requires
            self.wf(),
        ensures
            r == bound_client(self.spec_bindings(), session),
    {
        self.bridge.lookup_client(session)
    }

    /// Number of bound sessions.
    pub fn active_session_count(&self) -> (r: usize)
        ensures
            r == self.spec_bindings().len(),
    {
        self.bridge.active_session_count()
    }
}

} // verus!
