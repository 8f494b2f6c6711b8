//! Bridging recorded disconnect events to the core: each disconnected session
//! event is logged and handed to the session bridge; when the bridge closes a
//! core client, one backend mapping entry of that session is dropped.

use vstd::prelude::*;

use crate::core_model::runtime_bridge::{
    NestedClientSessionBridgeOutcome, NestedClientSessionCoreBridge, bridged_all,
    lemma_bridged_all_push, lemma_bridged_none,
};
use crate::core_model::state::State;
use crate::core_model::types::CoreClientId;
use crate::smithay_backend::accepted_client_mapping::NestedAcceptedClientMapping;
use crate::smithay_backend::client_disconnect::{
    NestedClientDisconnectCallbackReadinessReport, is_disconnect_readiness,
    nested_client_disconnect_callback_readiness_report,
};
use crate::smithay_backend::client_session::{
    NestedClientSessionEvent, NestedClientSessionEventLog, NestedClientSessionEventRecord,
    NestedClientSessionId,
};
use crate::smithay_backend::real_accept_flow::{
    advanced, logged_as, observed_validations_clean, validations_summary,
};

verus! {

/// The result of bridging one batch of disconnect events.
#[derive(Debug, Clone, PartialEq, Eq)]
pub struct NestedRealDisconnectCallbackReport {
    /// The records of the disconnected events.
    pub disconnected_records: Vec<NestedClientSessionEventRecord>,
    /// What the bridge did with each record.
    pub bridge_outcomes: Vec<NestedClientSessionBridgeOutcome>,
    /// Number of backend mapping entries dropped.
    pub removed_backend_mapping_count: usize,
    /// Whether every outcome that ran the core left a valid state; `None` if none did.
    pub all_observed_validations_clean: Option<bool>,
    /// The conservative readiness of the disconnect path.
    pub readiness: NestedClientDisconnectCallbackReadinessReport,
}

/// The core clients closed by `Disconnected` outcomes, in order.
pub open spec fn disconnected_clients(outs: Seq<NestedClientSessionBridgeOutcome>) -> Seq<CoreClientId>
    decreases outs.len(),
{
    if outs.len() == 0 {
        Seq::empty()
    } else {
        let rest = disconnected_clients(outs.drop_last());
        match outs.last() {
            NestedClientSessionBridgeOutcome::Disconnected { client, .. } => rest.push(client),
            _ => rest,
        }
    }
}

impl NestedRealDisconnectCallbackReport {
    /// Number of disconnected records.
    pub fn disconnected_count(&self) -> (r: usize)
        ensures
            r == self.disconnected_records@.len(),
    {
        self.disconnected_records.len()
    }

    /// The core clients closed in this batch, in order.
    pub fn closed_core_clients(&self) -> (r: Vec<CoreClientId>)
        ensures
            r@ == disconnected_clients(self.bridge_outcomes@),
    {
        let mut clients: Vec<CoreClientId> = Vec::new();
        let mut i: usize = 0;
        while i < self.bridge_outcomes.len()
            invariant
                i <= self.bridge_outcomes@.len(),
                clients@ == disconnected_clients(self.bridge_outcomes@.take(i as int)),
            decreases self.bridge_outcomes@.len() - i,
        {
            assert(self.bridge_outcomes@.take(i + 1).drop_last() =~= self.bridge_outcomes@.take(
                i as int,
            ));
            match &self.bridge_outcomes[i] {
                NestedClientSessionBridgeOutcome::Disconnected { client, .. } => clients.push(*client),
                _ => {},
            }
            i = i + 1;
        }
        assert(self.bridge_outcomes@.take(self.bridge_outcomes@.len() as int) =~= self.bridge_outcomes@);
        clients
    }
}

/// The sessions of the disconnected events among `events`, in order.
pub open spec fn disconnect_sessions(events: Seq<NestedClientSessionEvent>) -> Seq<NestedClientSessionId>
    decreases events.len(),
{
    if events.len() == 0 {
        Seq::empty()
    } else {
        let rest = disconnect_sessions(events.drop_last());
        match events.last() {
            NestedClientSessionEvent::Disconnected { session } => rest.push(session),
            _ => rest,
        }
    }
}

/// The diagnostic attached to disconnect records.
pub open spec fn disconnect_diagnostic() -> Seq<char> {
    "disconnect callback queue event; real runtime callback proof pending"@
}

/// Some backend client is mapped to `s` in `m`.
pub open spec fn session_mapped<K>(m: Map<K, NestedClientSessionId>, s: NestedClientSessionId) -> bool {
    exists|c: K| #[trigger] m.dom().contains(c) && m[c] == s
}

/// The mapping step after outcome `out` for session `s`: when the bridge closed
/// a client and `s` is mapped, one entry of `s` is dropped (`removed`);
/// otherwise nothing changes.
pub open spec fn mapping_step<K>(
    m1: Map<K, NestedClientSessionId>,
    out: NestedClientSessionBridgeOutcome,
    s: NestedClientSessionId,
    m2: Map<K, NestedClientSessionId>,
    removed: bool,
) -> bool {
    if out is Disconnected && session_mapped(m1, s) {
        &&& removed
        &&& exists|c: K| #[trigger] m1.dom().contains(c) && m1[c] == s && m2 == m1.remove(c)
    } else {
        &&& !removed
        &&& m2 == m1
    }
}

/// Number of `true` entries.
pub open spec fn count_true(flags: Seq<bool>) -> nat
    decreases flags.len(),
{
    if flags.len() == 0 {
        0
    } else {
        count_true(flags.drop_last()) + if flags.last() {
            1nat
        } else {
            0nat
        }
    }
}

/// The maps `ms` and flags trace the mapping steps for `outs` and `sessions`.
pub open spec fn mapping_trace<K>(
    ms: Seq<Map<K, NestedClientSessionId>>,
    flags: Seq<bool>,
    outs: Seq<NestedClientSessionBridgeOutcome>,
    sessions: Seq<NestedClientSessionId>,
) -> bool {
    &&& ms.len() == outs.len() + 1
    &&& flags.len() == outs.len()
    &&& sessions.len() == outs.len()
    &&& forall|k: int|
        0 <= k < outs.len() ==> #[trigger] mapping_step(ms[k], outs[k], sessions[k], ms[k + 1], flags[k])
}

/// Logs each disconnected event with the socket name as label, hands each
/// record to the session bridge in order, and drops one backend mapping entry
/// of each session whose core client was closed. Other events are skipped.
pub fn bridge_disconnected_events<K: PartialEq>(
    events: Vec<NestedClientSessionEvent>,
    socket_name: &str,
    event_log: &mut NestedClientSessionEventLog,
    core_bridge: &mut NestedClientSessionCoreBridge,
    accepted_mapping: &mut NestedAcceptedClientMapping<K>,
    state: &mut State,
) -> (r: NestedRealDisconnectCallbackReport)
    requires
        old(core_bridge).wf(),
        old(state).wf(),
        old(accepted_mapping).wf(),
        old(event_log).spec_next_sequence() >= 1,
    ensures
        final(core_bridge).wf(),
        final(state).wf(),
        final(accepted_mapping).wf(),
        r.disconnected_records@.len() == disconnect_sessions(events@).len(),
        forall|k: int|
            0 <= k < r.disconnected_records@.len() ==> logged_as(
                #[trigger] r.disconnected_records@[k],
                advanced(old(event_log).spec_next_sequence(), k),
                NestedClientSessionEvent::Disconnected { session: disconnect_sessions(events@)[k] },
                socket_name@,
                disconnect_diagnostic(),
            ),
        final(event_log).spec_records() == old(event_log).spec_records() + r.disconnected_records@,
        bridged_all(
            old(core_bridge).spec_bindings(),
            old(state).view(),
            r.disconnected_records@,
            final(core_bridge).spec_bindings(),
            final(state).view(),
            r.bridge_outcomes@,
        ),
        exists|ms: Seq<Map<K, NestedClientSessionId>>, flags: Seq<bool>|
            #[trigger] mapping_trace(ms, flags, r.bridge_outcomes@, disconnect_sessions(events@))
                && ms[0] == old(accepted_mapping).spec_map() && ms.last()
                == final(accepted_mapping).spec_map() && r.removed_backend_mapping_count
                == count_true(flags),
        r.all_observed_validations_clean == validations_summary(r.bridge_outcomes@),
        is_disconnect_readiness(r.readiness),
{
    let mut disconnected_records: Vec<NestedClientSessionEventRecord> = Vec::new();
    let mut bridge_outcomes: Vec<NestedClientSessionBridgeOutcome> = Vec::new();
    let mut removed_backend_mapping_count: usize = 0;
    let ghost mut ms: Seq<Map<K, NestedClientSessionId>> = seq![accepted_mapping.spec_map()];
    let ghost mut flags: Seq<bool> = Seq::empty();
    let mut i: usize = 0;
    proof {
        lemma_bridged_none(core_bridge.spec_bindings(), state.view());
        assert(event_log.spec_records() =~= old(event_log).spec_records() + disconnected_records@);
    }
    while i < events.len()
        invariant
            i <= events@.len(),
            disconnected_records@.len() == disconnect_sessions(events@.take(i as int)).len(),
            core_bridge.wf(),
            state.wf(),
            accepted_mapping.wf(),
            forall|k: int|
                0 <= k < disconnected_records@.len() ==> logged_as(
                    #[trigger] disconnected_records@[k],
                    advanced(old(event_log).spec_next_sequence(), k),
                    NestedClientSessionEvent::Disconnected {
                        session: disconnect_sessions(events@.take(i as int))[k],
                    },
                    socket_name@,
                    disconnect_diagnostic(),
                ),
            event_log.spec_records() == old(event_log).spec_records() + disconnected_records@,
            event_log.spec_next_sequence() == advanced(
                old(event_log).spec_next_sequence(),
                disconnected_records@.len() as int,
            ),
            old(event_log).spec_next_sequence() >= 1,
            bridged_all(
                old(core_bridge).spec_bindings(),
                old(state).view(),
                disconnected_records@,
                core_bridge.spec_bindings(),
                state.view(),
                bridge_outcomes@,
            ),
            mapping_trace(ms, flags, bridge_outcomes@, disconnect_sessions(events@.take(i as int))),
            ms[0] == old(accepted_mapping).spec_map(),
            ms.last() == accepted_mapping.spec_map(),
            removed_backend_mapping_count == count_true(flags),
            removed_backend_mapping_count <= i,
        decreases events@.len() - i,
    {
        let event = events[i];
        assert(events@.take(i + 1).drop_last() =~= events@.take(i as int));
        match event {
            NestedClientSessionEvent::Disconnected { session } => {
                let ghost mid_b = core_bridge.spec_bindings();
                let ghost mid_v = state.view();
                let ghost pre_records = disconnected_records@;
                let ghost pre_outs = bridge_outcomes@;
                let ghost pre_sessions = disconnect_sessions(events@.take(i as int));
                let ghost m1 = accepted_mapping.spec_map();
                let record = event_log.record(
                    NestedClientSessionEvent::Disconnected { session },
                    Some(socket_name.to_owned()),
                    Some("disconnect callback queue event; real runtime callback proof pending".to_owned()),
                );
                proof {
                    reveal_strlit("disconnect callback queue event; real runtime callback proof pending");
                }
                let outcome = core_bridge.handle_record(state, &record);
                proof {
                    lemma_bridged_all_push(
                        old(core_bridge).spec_bindings(),
                        old(state).view(),
                        pre_records,
                        mid_b,
                        mid_v,
                        pre_outs,
                        record,
                        core_bridge.spec_bindings(),
                        state.view(),
                        outcome,
                    );
                }
                let closed = match &outcome {
                    NestedClientSessionBridgeOutcome::Disconnected { .. } => true,
                    _ => false,
                };
                let mut removed = false;
                if closed {
                    match accepted_mapping.remove_session(session) {
                        Some(_) => {
                            removed = true;
                        },
                        None => {},
                    }
                }
                proof {
                    let m2 = accepted_mapping.spec_map();
                    assert(mapping_step(m1, outcome, session, m2, removed));
                    let ms2 = ms.push(m2);
                    let flags2 = flags.push(removed);
                    let outs2 = pre_outs.push(outcome);
                    let sessions2 = pre_sessions.push(session);
                    assert forall|k: int| 0 <= k < outs2.len() implies #[trigger] mapping_step(
                        ms2[k],
                        outs2[k],
                        sessions2[k],
                        ms2[k + 1],
                        flags2[k],
                    ) by {
                        if k < pre_outs.len() {
                            assert(mapping_step(ms[k], pre_outs[k], pre_sessions[k], ms[k + 1], flags[k]));
                        }
                    }
                    assert(flags2.drop_last() =~= flags);
                    ms = ms2;
                    flags = flags2;
                }
                if removed {
                    removed_backend_mapping_count = removed_backend_mapping_count + 1;
                }
                disconnected_records.push(record);
                bridge_outcomes.push(outcome);
                proof {
                    assert(event_log.spec_records() =~= old(event_log).spec_records()
                        + disconnected_records@);
                    assert(disconnect_sessions(events@.take(i + 1)) == pre_sessions.push(session));
                }
            },
            _ => {},
        }
        i = i + 1;
    }
    assert(events@.take(events@.len() as int) =~= events@);
    let all_observed_validations_clean = observed_validations_clean(bridge_outcomes.as_slice());
    NestedRealDisconnectCallbackReport {
        all_observed_validations_clean,
        disconnected_records,
        bridge_outcomes,
        removed_backend_mapping_count,
        readiness: nested_client_disconnect_callback_readiness_report(),
    }
}

/// The core clients a disconnect batch reports as closed are one per
/// `Disconnected` outcome, in outcome order: as many as there are
/// `Disconnected` outcomes, the k-th being the client of the k-th one.
pub proof fn law_closed_clients_one_per_disconnected(outs: Seq<NestedClientSessionBridgeOutcome>)
    ensures
        disconnected_clients(outs).len() == outs.filter(
            |o: NestedClientSessionBridgeOutcome| o is Disconnected,
        ).len(),
        forall|k: int|
            0 <= k < disconnected_clients(outs).len() ==> disconnected_clients(outs)[k] == outs.filter(
                |o: NestedClientSessionBridgeOutcome| o is Disconnected,
            )[k]->Disconnected_client,
    decreases outs.len(),
{
    reveal_with_fuel(Seq::filter, 1);
    if outs.len() > 0 {
        law_closed_clients_one_per_disconnected(outs.drop_last());
    }
}

} // verus!
