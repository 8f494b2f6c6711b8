//! Accepting real clients, as pure data: the conservative readiness of the
//! accept path, the per-stream insertion attempts, the session allocator, and
//! the step that hands connected session events to the session bridge. The
//! socket, the event loop and the client insertion stay with the caller.

use std::collections::VecDeque;

use vstd::prelude::*;

use crate::core_model::runtime_bridge::{
    NestedClientSessionBridgeOutcome, NestedClientSessionCoreBridge, bridged_all,
    lemma_bridged_all_push, lemma_bridged_none,
};
use crate::core_model::state::State;
use crate::core_model::types::CoreClientId;
use crate::smithay_backend::accepted_client_mapping::{
    NestedAcceptedClientMapping, key_eq_is_equality, mapped_session,
};
use crate::smithay_backend::client_session::{
    NestedClientSessionEvent, NestedClientSessionEventLog, NestedClientSessionEventRecord,
    NestedClientSessionId, event_kind, event_rejection, event_session,
};

verus! {

/// A missing precondition of a real accept-to-core runtime.
#[derive(Debug, Clone, Copy, PartialEq, Eq, Structural)]
pub enum NestedRealAcceptConnectedBridgeBlocker {
    /// No proof that the socket callback receives streams.
    MissingRealAcceptLoop,
    /// No proof that accepted streams reach insertion.
    MissingAcceptedStreamOwnership,
    /// No proof that `insert_client` succeeds at run time.
    MissingDisplayHandleInsertClientRuntimeProof,
    /// No proof of the backend-client to session mapping at run time.
    MissingRealClientSessionMapping,
    /// No proof that real insertions reach the core bridge.
    MissingConnectedEventBridgeFromRealInsert,
    /// No real disconnect callback source.
    MissingDisconnectCallbackSource,
    /// No complete Linux runtime check.
    MissingLinuxRuntimeProof,
}

/// Conservative readiness of the real accept path.
#[derive(Debug, Clone, PartialEq, Eq)]
pub struct NestedRealAcceptConnectedBridgeReadinessReport {
    /// Remaining blockers.
    pub blockers: Vec<NestedRealAcceptConnectedBridgeBlocker>,
    /// The listening-socket callback boundary exists.
    pub listening_socket_callback_available: bool,
    /// Source and event loop use the same calloop version.
    pub calloop_version_boundary_clear: bool,
    /// An accepted stream was observed at run time.
    pub accepted_stream_available: bool,
    /// The real accept loop was observed.
    pub real_accept_loop_available: bool,
    /// `insert_client` succeeded at run time.
    pub display_handle_insert_client_runtime_available: bool,
    /// A client data owner that holds the session is defined.
    pub client_data_owner_defined: bool,
    /// The backend-client to session mapping was observed at run time.
    pub inserted_client_mapping_available: bool,
    /// A real insertion reached the core bridge.
    pub connected_event_bridged_to_core: bool,
    /// A clean validation followed a real insertion.
    pub validation_report_available: bool,
    /// Real clients are accepted.
    pub accepts_clients: bool,
    /// Real surfaces are supported; always false.
    pub surface_support: bool,
    /// Shell roles are supported; always false.
    pub shell_role_support: bool,
    /// Rendering is supported; always false.
    pub render_support: bool,
    /// Protocol dispatch started; always false.
    pub protocol_dispatch_started: bool,
}

impl NestedRealAcceptConnectedBridgeReadinessReport {
    /// Whether every runtime proof holds and nothing blocks.
    pub fn is_runtime_ready(&self) -> (r: bool)
        ensures
            r == (self.blockers@.len() == 0 && self.listening_socket_callback_available
                && self.calloop_version_boundary_clear && self.accepted_stream_available
                && self.real_accept_loop_available
                && self.display_handle_insert_client_runtime_available
                && self.client_data_owner_defined && self.inserted_client_mapping_available
                && self.connected_event_bridged_to_core && self.validation_report_available
                && self.accepts_clients),
    {
        self.blockers.len() == 0 && self.listening_socket_callback_available
            && self.calloop_version_boundary_clear && self.accepted_stream_available
            && self.real_accept_loop_available && self.display_handle_insert_client_runtime_available
            && self.client_data_owner_defined && self.inserted_client_mapping_available
            && self.connected_event_bridged_to_core && self.validation_report_available
            && self.accepts_clients
    }
}

/// The blockers of the real accept path, in order.
pub open spec fn accept_blockers() -> Seq<NestedRealAcceptConnectedBridgeBlocker> {
    seq![
        NestedRealAcceptConnectedBridgeBlocker::MissingRealAcceptLoop,
        NestedRealAcceptConnectedBridgeBlocker::MissingAcceptedStreamOwnership,
        NestedRealAcceptConnectedBridgeBlocker::MissingDisplayHandleInsertClientRuntimeProof,
        NestedRealAcceptConnectedBridgeBlocker::MissingRealClientSessionMapping,
        NestedRealAcceptConnectedBridgeBlocker::MissingConnectedEventBridgeFromRealInsert,
        NestedRealAcceptConnectedBridgeBlocker::MissingDisconnectCallbackSource,
        NestedRealAcceptConnectedBridgeBlocker::MissingLinuxRuntimeProof,
    ]
}

/// `r` is the accept path readiness report: every runtime blocker kept, the
/// callback boundary capabilities on, every real-runtime capability off.
pub open spec fn is_accept_readiness(r: NestedRealAcceptConnectedBridgeReadinessReport) -> bool {
    &&& r.blockers@ == accept_blockers()
    &&& r.listening_socket_callback_available
    &&& r.calloop_version_boundary_clear
    &&& !r.accepted_stream_available
    &&& !r.real_accept_loop_available
    &&& !r.display_handle_insert_client_runtime_available
    &&& r.client_data_owner_defined
    &&& !r.inserted_client_mapping_available
    &&& !r.connected_event_bridged_to_core
    &&& !r.validation_report_available
    &&& !r.accepts_clients
    &&& !r.surface_support
    &&& !r.shell_role_support
    &&& !r.render_support
    &&& !r.protocol_dispatch_started
}

/// The readiness of the real accept path: the callback boundary, the calloop
/// version and the client data owner exist; every runtime proof is missing.
pub fn nested_real_accept_connected_bridge_readiness_report() -> (r:
    NestedRealAcceptConnectedBridgeReadinessReport)
    ensures
        is_accept_readiness(r),
{
    let blockers = vec![
        NestedRealAcceptConnectedBridgeBlocker::MissingRealAcceptLoop,
        NestedRealAcceptConnectedBridgeBlocker::MissingAcceptedStreamOwnership,
        NestedRealAcceptConnectedBridgeBlocker::MissingDisplayHandleInsertClientRuntimeProof,
        NestedRealAcceptConnectedBridgeBlocker::MissingRealClientSessionMapping,
        NestedRealAcceptConnectedBridgeBlocker::MissingConnectedEventBridgeFromRealInsert,
        NestedRealAcceptConnectedBridgeBlocker::MissingDisconnectCallbackSource,
        NestedRealAcceptConnectedBridgeBlocker::MissingLinuxRuntimeProof,
    ];
    assert(blockers@ =~= accept_blockers());
    NestedRealAcceptConnectedBridgeReadinessReport {
        blockers,
        listening_socket_callback_available: true,
        calloop_version_boundary_clear: true,
        accepted_stream_available: false,
        real_accept_loop_available: false,
        display_handle_insert_client_runtime_available: false,
        client_data_owner_defined: true,
        inserted_client_mapping_available: false,
        connected_event_bridged_to_core: false,
        validation_report_available: false,
        accepts_clients: false,
        surface_support: false,
        shell_role_support: false,
        render_support: false,
        protocol_dispatch_started: false,
    }
}

/// Why an accepted stream did not become a client.
#[derive(Debug, Clone, PartialEq, Eq)]
pub enum NestedAcceptedClientFailureReason {
    /// No session identity was left; insertion was not tried.
    SessionIdExhausted,
    /// The backend refused the insertion; the text is diagnostic only.
    InsertClientFailed { message: String },
}

/// The outcome of one accepted stream.
#[derive(Debug, Clone, PartialEq, Eq)]
pub struct NestedAcceptedClientAttempt {
    /// An accepted stream was observed.
    pub accepted_stream_observed: bool,
    /// The allocated session, unless identities were exhausted.
    pub session: Option<NestedClientSessionId>,
    /// The insertion succeeded.
    pub insert_succeeded: bool,
    /// The backend client was newly mapped to the session.
    pub mapping_saved: bool,
    /// Why it failed, if it did.
    pub failure_reason: Option<NestedAcceptedClientFailureReason>,
}

/// Hands out session identities 1, 2, ... and stops, without wrapping, after
/// the largest one.
#[derive(Debug, Clone, Copy, PartialEq, Eq, Structural)]
pub struct NestedSessionAllocator {
    next_session_value: Option<u64>,
}

impl NestedSessionAllocator {
    /// The value the next allocation hands out; `None` once exhausted.
    pub closed spec fn spec_next(self) -> Option<u64> {
        self.next_session_value
    }

    /// An allocator whose first session is 1.
    pub fn new() -> (r: Self)
        ensures
            r.spec_next() == Some(1u64),
    {
        Self { next_session_value: Some(1) }
    }

    /// An allocator that has no identity left.
    pub fn exhausted() -> (r: Self)
        ensures
            r.spec_next() is None,
    {
        Self { next_session_value: None }
    }

    /// Allocates the next session identity, or `None` when none is left.
    pub fn allocate_session(&mut self) -> (r: Option<NestedClientSessionId>)
        ensures
            match old(self).spec_next() {
                None => r is None && final(self).spec_next() is None,
                Some(v) => if v == 0 {
                    r is None && final(self).spec_next() == old(self).spec_next()
                } else {
                    &&& r matches Some(s) && s.spec_value() == v
                    &&& final(self).spec_next() == if v == u64::MAX {
                        None::<u64>
                    } else {
                        Some((v + 1) as u64)
                    }
                },
            },
    {
        let value = match self.next_session_value {
            Some(value) => value,
            None => return None,
        };
        let session = match NestedClientSessionId::new(value) {
            Some(session) => session,
            None => return None,
        };
        self.next_session_value = value.checked_add(1);
        Some(session)
    }
}

/// What the accept callback keeps between pumps: the allocator, the backend
/// mapping and the attempts of the current pump.
#[derive(Debug)]
pub struct NestedRealAcceptCallbackState<K> {
    allocator: NestedSessionAllocator,
    mapping: NestedAcceptedClientMapping<K>,
    attempts: VecDeque<NestedAcceptedClientAttempt>,
}

impl<K: PartialEq> NestedRealAcceptCallbackState<K> {
    /// The session allocator.
    pub closed spec fn spec_allocator(&self) -> NestedSessionAllocator {
        self.allocator
    }

    /// The backend mapping.
    pub closed spec fn spec_mapping(&self) -> NestedAcceptedClientMapping<K> {
        self.mapping
    }

    /// The attempts of the current pump.
    pub closed spec fn spec_attempts(&self) -> Seq<NestedAcceptedClientAttempt> {
        self.attempts@
    }

    /// The mapping is well formed.
    pub closed spec fn wf(&self) -> bool {
        self.mapping.wf()
    }

    /// Fresh callback state around `allocator`.
    pub fn new(allocator: NestedSessionAllocator) -> (r: Self)
        ensures
            r.wf(),
            r.spec_allocator() == allocator,
            r.spec_mapping().spec_map() == Map::<K, NestedClientSessionId>::empty(),
            r.spec_attempts() == Seq::<NestedAcceptedClientAttempt>::empty(),
    {
        Self { allocator, mapping: NestedAcceptedClientMapping::new(), attempts: VecDeque::new() }
    }

    /// Starts handling one accepted stream: allocates its session. With none
    /// left, records an exhausted attempt and returns `None`; the stream must
    /// then not be inserted.
    pub fn begin_accept(&mut self) -> (r: Option<NestedClientSessionId>)
        ensures
            final(self).wf() == old(self).wf(),
            final(self).spec_mapping() == old(self).spec_mapping(),
            match old(self).spec_allocator().spec_next() {
                Some(v) => if v != 0 {
                    r matches Some(s) && s.spec_value() == v
                } else {
                    r is None
                },
                None => r is None,
            },
            r is Some ==> final(self).spec_attempts() == old(self).spec_attempts(),
            r is None ==> final(self).spec_attempts() == old(self).spec_attempts().push(
                NestedAcceptedClientAttempt {
                    accepted_stream_observed: true,
                    session: None,
                    insert_succeeded: false,
                    mapping_saved: false,
                    failure_reason: Some(NestedAcceptedClientFailureReason::SessionIdExhausted),
                },
            ),
            r is None ==> final(self).spec_allocator() == old(self).spec_allocator(),
            r is Some ==> final(self).spec_allocator().spec_next() == if old(
                self,
            ).spec_allocator().spec_next() == Some(u64::MAX) {
                None::<u64>
            } else {
                Some((old(self).spec_allocator().spec_next()->0 + 1) as u64)
            },
    {
        match self.allocator.allocate_session() {
            Some(session) => Some(session),
            None => {
                self.attempts.push_back(
                    NestedAcceptedClientAttempt {
                        accepted_stream_observed: true,
                        session: None,
                        insert_succeeded: false,
                        mapping_saved: false,
                        failure_reason: Some(NestedAcceptedClientFailureReason::SessionIdExhausted),
                    },
                );
                None
            },
        }
    }

    /// Finishes handling the stream of `session` with the insertion's result:
    /// the backend client on success, the error text on failure. A successful
    /// insertion yields the session's connected event, for the session bridge.
    pub fn finish_accept(&mut self, session: NestedClientSessionId, inserted: Result<K, String>) -> (r:
        Option<NestedClientSessionEvent>)
        requires
            old(self).wf(),
            key_eq_is_equality::<K>(),
        ensures
            final(self).wf(),
            r == match inserted {
                Ok(_) => Some(NestedClientSessionEvent::Connected { session }),
                Err(_) => None::<NestedClientSessionEvent>,
            },
            final(self).spec_allocator() == old(self).spec_allocator(),
            match inserted {
                Ok(client) => {
                    &&& final(self).spec_mapping().spec_map() == old(self).spec_mapping().spec_map().insert(
                        client,
                        session,
                    )
                    &&& final(self).spec_attempts() == old(self).spec_attempts().push(
                        NestedAcceptedClientAttempt {
                            accepted_stream_observed: true,
                            session: Some(session),
                            insert_succeeded: true,
                            mapping_saved: mapped_session(
                                old(self).spec_mapping().spec_map(),
                                client,
                            ) is None,
                            failure_reason: None,
                        },
                    )
                },
                Err(message) => {
                    &&& final(self).spec_mapping() == old(self).spec_mapping()
                    &&& final(self).spec_attempts() == old(self).spec_attempts().push(
                        NestedAcceptedClientAttempt {
                            accepted_stream_observed: true,
                            session: Some(session),
                            insert_succeeded: false,
                            mapping_saved: false,
                            failure_reason: Some(
                                NestedAcceptedClientFailureReason::InsertClientFailed { message },
                            ),
                        },
                    )
                },
            },
    {
        match inserted {
            Ok(client) => {
                let previous = self.mapping.insert(client, session);
                self.attempts.push_back(
                    NestedAcceptedClientAttempt {
                        accepted_stream_observed: true,
                        session: Some(session),
                        insert_succeeded: true,
                        mapping_saved: previous.is_none(),
                        failure_reason: None,
                    },
                );
                Some(NestedClientSessionEvent::Connected { session })
            },
            Err(message) => {
                self.attempts.push_back(
                    NestedAcceptedClientAttempt {
                        accepted_stream_observed: true,
                        session: Some(session),
                        insert_succeeded: false,
                        mapping_saved: false,
                        failure_reason: Some(
                            NestedAcceptedClientFailureReason::InsertClientFailed { message },
                        ),
                    },
                );
                None
            },
        }
    }

    /// Takes the attempts of the current pump, leaving none.
    pub fn take_attempts(&mut self) -> (r: Vec<NestedAcceptedClientAttempt>)
        ensures
            r@ == old(self).spec_attempts(),
            final(self).spec_attempts() == Seq::<NestedAcceptedClientAttempt>::empty(),
            final(self).spec_allocator() == old(self).spec_allocator(),
            final(self).spec_mapping() == old(self).spec_mapping(),
            final(self).wf() == old(self).wf(),
    {
        let ghost pending = self.attempts@;
        let mut taken: Vec<NestedAcceptedClientAttempt> = Vec::new();
        while self.attempts.len() > 0
            invariant
                pending == old(self).attempts@,
                self.allocator == old(self).allocator,
                self.mapping == old(self).mapping,
                pending == taken@ + self.attempts@,
            decreases self.attempts@.len(),
        {
            match self.attempts.pop_front() {
                Some(attempt) => {
                    taken.push(attempt);
                },
                None => {},
            }
            assert(pending =~= taken@ + self.attempts@);
        }
        assert(taken@ =~= pending);
        taken
    }

    /// Read access to the backend mapping.
    pub fn mapping(&self) -> (r: &NestedAcceptedClientMapping<K>)
        ensures
            *r == self.spec_mapping(),
    {
        &self.mapping
    }

    /// Mutable access to the backend mapping, for disconnect handling.
    pub fn mapping_mut(&mut self) -> (r: &mut NestedAcceptedClientMapping<K>)
        ensures
            *r == old(self).spec_mapping(),
            final(self).spec_mapping() == *final(r),
            final(self).spec_allocator() == old(self).spec_allocator(),
            final(self).spec_attempts() == old(self).spec_attempts(),
    {
        &mut self.mapping
    }
}

/// Number of attempts in `a` that observed an accepted stream.
pub open spec fn accepted_count(a: Seq<NestedAcceptedClientAttempt>) -> nat
    decreases a.len(),
{
    if a.len() == 0 {
        0
    } else {
        accepted_count(a.drop_last()) + if a.last().accepted_stream_observed {
            1nat
        } else {
            0nat
        }
    }
}

/// Number of attempts in `a` whose insertion succeeded.
pub open spec fn inserted_count(a: Seq<NestedAcceptedClientAttempt>) -> nat
    decreases a.len(),
{
    if a.len() == 0 {
        0
    } else {
        inserted_count(a.drop_last()) + if a.last().insert_succeeded {
            1nat
        } else {
            0nat
        }
    }
}

/// The core clients registered by `Connected` outcomes, in order.
pub open spec fn connected_clients(outs: Seq<NestedClientSessionBridgeOutcome>) -> Seq<CoreClientId>
    decreases outs.len(),
{
    if outs.len() == 0 {
        Seq::empty()
    } else {
        let rest = connected_clients(outs.drop_last());
        match outs.last() {
            NestedClientSessionBridgeOutcome::Connected { client, .. } => rest.push(client),
            _ => rest,
        }
    }
}

/// Whether the core state was valid after the outcome, when it ran the core.
pub open spec fn outcome_validation(o: NestedClientSessionBridgeOutcome) -> Option<bool> {
    match o {
        NestedClientSessionBridgeOutcome::Connected { runtime, .. } => Some(
            runtime.validation.issues@.len() == 0,
        ),
        NestedClientSessionBridgeOutcome::Disconnected { runtime, .. } => Some(
            runtime.validation.issues@.len() == 0,
        ),
        NestedClientSessionBridgeOutcome::RegistrationFailed { runtime, .. } => Some(
            runtime.validation.issues@.len() == 0,
        ),
        _ => None,
    }
}

/// Over the outcomes that ran the core: `None` if there is none, else whether
/// every one left a valid state.
pub open spec fn validations_summary(outs: Seq<NestedClientSessionBridgeOutcome>) -> Option<bool> {
    if exists|k: int| 0 <= k < outs.len() && (#[trigger] outcome_validation(outs[k])) is Some {
        Some(
            forall|k: int|
                0 <= k < outs.len() ==> (#[trigger] outcome_validation(outs[k]) != Some(false)),
        )
    } else {
        None
    }
}

/// Summarizes the validations of the outcomes that ran the core.
pub fn observed_validations_clean(outcomes: &[NestedClientSessionBridgeOutcome]) -> (r: Option<bool>)
    ensures
        r == validations_summary(outcomes@),
{
    let mut observed = false;
    let mut all_clean = true;
    let mut i: usize = 0;
    while i < outcomes.len()
        invariant
            i <= outcomes@.len(),
            observed == exists|k: int| 0 <= k < i && (#[trigger] outcome_validation(outcomes@[k])) is Some,
            all_clean == forall|k: int|
                0 <= k < i ==> (#[trigger] outcome_validation(outcomes@[k]) != Some(false)),
        decreases outcomes@.len() - i,
    {
        let clean = match &outcomes[i] {
            NestedClientSessionBridgeOutcome::Connected { runtime, .. } => Some(runtime.validation.is_clean()),
            NestedClientSessionBridgeOutcome::Disconnected { runtime, .. } => Some(
                runtime.validation.is_clean(),
            ),
            NestedClientSessionBridgeOutcome::RegistrationFailed { runtime, .. } => Some(
                runtime.validation.is_clean(),
            ),
            _ => None,
        };
        assert(clean == outcome_validation(outcomes@[i as int]));
        match clean {
            Some(c) => {
                observed = true;
                all_clean = all_clean && c;
            },
            None => {},
        }
        i = i + 1;
    }
    if observed {
        Some(all_clean)
    } else {
        None
    }
}

/// The diagnostic attached to records of inserted clients.
pub open spec fn inserted_diagnostic() -> Seq<char> {
    "accepted stream inserted by Linux-only callback boundary"@
}

/// `rec` is `event` logged at `sequence` with label `label` and diagnostic `diagnostic`.
pub open spec fn logged_as(
    rec: NestedClientSessionEventRecord,
    sequence: u64,
    event: NestedClientSessionEvent,
    label: Seq<char>,
    diagnostic: Seq<char>,
) -> bool {
    &&& rec.sequence == sequence
    &&& rec.kind == event_kind(event)
    &&& rec.session == event_session(event)
    &&& rec.rejection_reason == event_rejection(event)
    &&& rec.label matches Some(l) && l@ == label
    &&& rec.diagnostic matches Some(d) && d@ == diagnostic
}

/// The sequence number `n` advances to after `k` records, stopping at the maximum.
pub open spec fn advanced(n: u64, k: int) -> u64 {
    if n + k >= u64::MAX {
        u64::MAX
    } else {
        (n + k) as u64
    }
}

/// Logs each connected event with the socket name as label, hands each record
/// to the session bridge in order, and returns the records and the outcomes.
pub fn bridge_connected_events(
    events: Vec<NestedClientSessionEvent>,
    socket_name: &str,
    event_log: &mut NestedClientSessionEventLog,
    core_bridge: &mut NestedClientSessionCoreBridge,
    state: &mut State,
) -> (r: (Vec<NestedClientSessionEventRecord>, Vec<NestedClientSessionBridgeOutcome>))
    requires
        old(core_bridge).wf(),
        old(state).wf(),
        old(event_log).spec_next_sequence() >= 1,
    ensures
        final(core_bridge).wf(),
        final(state).wf(),
        r.0@.len() == events@.len(),
        forall|k: int|
            0 <= k < events@.len() ==> logged_as(
                #[trigger] r.0@[k],
                advanced(old(event_log).spec_next_sequence(), k),
                events@[k],
                socket_name@,
                inserted_diagnostic(),
            ),
        final(event_log).spec_records() == old(event_log).spec_records() + r.0@,
        final(event_log).spec_next_sequence() == advanced(
            old(event_log).spec_next_sequence(),
            events@.len() as int,
        ),
        bridged_all(
            old(core_bridge).spec_bindings(),
            old(state).view(),
            r.0@,
            final(core_bridge).spec_bindings(),
            final(state).view(),
            r.1@,
        ),
{
    let mut records: Vec<NestedClientSessionEventRecord> = Vec::new();
    let mut outcomes: Vec<NestedClientSessionBridgeOutcome> = Vec::new();
    let mut i: usize = 0;
    proof {
        lemma_bridged_none(core_bridge.spec_bindings(), state.view());
        assert(event_log.spec_records() =~= old(event_log).spec_records() + records@);
    }
    while i < events.len()
        invariant
            i <= events@.len(),
            records@.len() == i,
            core_bridge.wf(),
            state.wf(),
            forall|k: int|
                0 <= k < i ==> logged_as(
                    #[trigger] records@[k],
                    advanced(old(event_log).spec_next_sequence(), k),
                    events@[k],
                    socket_name@,
                    inserted_diagnostic(),
                ),
            event_log.spec_records() == old(event_log).spec_records() + records@,
            event_log.spec_next_sequence() == advanced(old(event_log).spec_next_sequence(), i as int),
            old(event_log).spec_next_sequence() >= 1,
            bridged_all(
                old(core_bridge).spec_bindings(),
                old(state).view(),
                records@,
                core_bridge.spec_bindings(),
                state.view(),
                outcomes@,
            ),
        decreases events@.len() - i,
    {
        let event = events[i];
        let ghost mid_b = core_bridge.spec_bindings();
        let ghost mid_v = state.view();
        let ghost pre_records = records@;
        let ghost pre_outs = outcomes@;
        let record = event_log.record(
            event,
            Some(socket_name.to_owned()),
            Some("accepted stream inserted by Linux-only callback boundary".to_owned()),
        );
        proof {
            reveal_strlit("accepted stream inserted by Linux-only callback boundary");
        }
        let outcome = core_bridge.handle_record(state, &record);
        proof {
            lemma_bridged_all_push(
                old(core_bridge).spec_bindings(),
                old(state).view(),
                pre_records,
                mid_b,
                mid_v,
                pre_outs,
                record,
                core_bridge.spec_bindings(),
                state.view(),
                outcome,
            );
        }
        records.push(record);
        outcomes.push(outcome);
        proof {
            assert(event_log.spec_records() =~= old(event_log).spec_records() + records@);
        }
        i = i + 1;
    }
    (records, outcomes)
}

/// The result of one accept pump.
#[derive(Debug, Clone, PartialEq, Eq)]
pub struct NestedRealAcceptPumpReport {
    /// The insertion attempts of this pump.
    pub attempts: Vec<NestedAcceptedClientAttempt>,
    /// The records of the connected events of this pump.
    pub connected_records: Vec<NestedClientSessionEventRecord>,
    /// What the bridge did with each record.
    pub bridge_outcomes: Vec<NestedClientSessionBridgeOutcome>,
    /// Whether every outcome that ran the core left a valid state; `None` if none did.
    pub all_observed_validations_clean: Option<bool>,
    /// The conservative readiness of the accept path.
    pub readiness: NestedRealAcceptConnectedBridgeReadinessReport,
}

impl NestedRealAcceptPumpReport {
    /// Number of attempts that observed an accepted stream.
    pub fn accepted_stream_count(&self) -> (r: usize)
        ensures
            r == accepted_count(self.attempts@),
    {
        let mut count: usize = 0;
        let mut i: usize = 0;
        while i < self.attempts.len()
            invariant
                i <= self.attempts@.len(),
                count == accepted_count(self.attempts@.take(i as int)),
                count <= i,
            decreases self.attempts@.len() - i,
        {
            assert(self.attempts@.take(i + 1).drop_last() =~= self.attempts@.take(i as int));
            if self.attempts[i].accepted_stream_observed {
                count = count + 1;
            }
            i = i + 1;
        }
        assert(self.attempts@.take(self.attempts@.len() as int) =~= self.attempts@);
        count
    }

    /// Number of attempts whose insertion succeeded.
    pub fn inserted_client_count(&self) -> (r: usize)
        ensures
            r == inserted_count(self.attempts@),
    {
        let mut count: usize = 0;
        let mut i: usize = 0;
        while i < self.attempts.len()
            invariant
                i <= self.attempts@.len(),
                count == inserted_count(self.attempts@.take(i as int)),
                count <= i,
            decreases self.attempts@.len() - i,
        {
            assert(self.attempts@.take(i + 1).drop_last() =~= self.attempts@.take(i as int));
            if self.attempts[i].insert_succeeded {
                count = count + 1;
            }
            i = i + 1;
        }
        assert(self.attempts@.take(self.attempts@.len() as int) =~= self.attempts@);
        count
    }

    /// The core clients registered in this pump, in order.
    pub fn registered_core_clients(&self) -> (r: Vec<CoreClientId>)
        ensures
            r@ == connected_clients(self.bridge_outcomes@),
    {
        let mut clients: Vec<CoreClientId> = Vec::new();
        let mut i: usize = 0;
        while i < self.bridge_outcomes.len()
            invariant
                i <= self.bridge_outcomes@.len(),
                clients@ == connected_clients(self.bridge_outcomes@.take(i as int)),
            decreases self.bridge_outcomes@.len() - i,
        {
            assert(self.bridge_outcomes@.take(i + 1).drop_last() =~= self.bridge_outcomes@.take(
                i as int,
            ));
            match &self.bridge_outcomes[i] {
                NestedClientSessionBridgeOutcome::Connected { client, .. } => clients.push(*client),
                _ => {},
            }
            i = i + 1;
        }
        assert(self.bridge_outcomes@.take(self.bridge_outcomes@.len() as int) =~= self.bridge_outcomes@);
        clients
    }

    /// Assembles the report of one pump from the attempts the callback recorded
    /// and the connected events the insertions produced, handing the events to
    /// the session bridge.
    pub fn from_callbacks(
        attempts: Vec<NestedAcceptedClientAttempt>,
        connected_events: Vec<NestedClientSessionEvent>,
        socket_name: &str,
        event_log: &mut NestedClientSessionEventLog,
        core_bridge: &mut NestedClientSessionCoreBridge,
        state: &mut State,
    ) -> (r: Self)
        requires
            old(core_bridge).wf(),
            old(state).wf(),
            old(event_log).spec_next_sequence() >= 1,
        ensures
            final(core_bridge).wf(),
            final(state).wf(),
            r.attempts@ == attempts@,
            r.connected_records@.len() == connected_events@.len(),
            forall|k: int|
                0 <= k < connected_events@.len() ==> logged_as(
                    #[trigger] r.connected_records@[k],
                    advanced(old(event_log).spec_next_sequence(), k),
                    connected_events@[k],
                    socket_name@,
                    inserted_diagnostic(),
                ),
            final(event_log).spec_records() == old(event_log).spec_records() + r.connected_records@,
            bridged_all(
                old(core_bridge).spec_bindings(),
                old(state).view(),
                r.connected_records@,
                final(core_bridge).spec_bindings(),
                final(state).view(),
                r.bridge_outcomes@,
            ),
            r.all_observed_validations_clean == validations_summary(r.bridge_outcomes@),
            is_accept_readiness(r.readiness),
    {
        let (connected_records, bridge_outcomes) = bridge_connected_events(
            connected_events,
            socket_name,
            event_log,
            core_bridge,
            state,
        );
        let all_observed_validations_clean = observed_validations_clean(bridge_outcomes.as_slice());
        NestedRealAcceptPumpReport {
            attempts,
            connected_records,
            bridge_outcomes,
            all_observed_validations_clean,
            readiness: nested_real_accept_connected_bridge_readiness_report(),
        }
    }
}

/// The core clients a pump reports as registered are one per `Connected`
/// outcome, in outcome order: as many as there are `Connected` outcomes, the
/// k-th being the client of the k-th `Connected` outcome.
pub proof fn law_registered_clients_one_per_connected(outs: Seq<NestedClientSessionBridgeOutcome>)
    ensures
        connected_clients(outs).len() == outs.filter(
            |o: NestedClientSessionBridgeOutcome| o is Connected,
        ).len(),
        forall|k: int|
            0 <= k < connected_clients(outs).len() ==> connected_clients(outs)[k] == outs.filter(
                |o: NestedClientSessionBridgeOutcome| o is Connected,
            )[k]->Connected_client,
    decreases outs.len(),
{
    reveal_with_fuel(Seq::filter, 1);
    if outs.len() > 0 {
        law_registered_clients_one_per_connected(outs.drop_last());
    }
}

} // verus!
