//! The session bridge: turns nested client session records into core client
//! lifecycle events. A connected session registers one core client and keeps
//! the binding; a duplicate connect registers nothing; a disconnect of a bound
//! session closes its client and drops the binding; anything else is ignored.

use vstd::prelude::*;

use crate::core_model::runtime::{RuntimeEventResult, handle_backend_event};
use crate::core_model::state::{CoreView, State, client_alive, client_index, handled, has_client, view_wf};
use crate::core_model::types::{BackendEvent, CoreClientId, ClientKind, CommandResult, command_for};
use crate::smithay_backend::client_session::{
    NestedClientSessionEventKind, NestedClientSessionEventRecord, NestedClientSessionId,
};
use crate::smithay_backend::surface_lifecycle::copy_opt_string;

verus! {

/// A session bound to the core client it registered.
#[derive(Debug, Clone, Copy, PartialEq, Eq, Structural)]
pub struct NestedSessionBinding {
    /// The adapter session.
    pub session: NestedClientSessionId,
    /// The core client registered for it.
    pub client: CoreClientId,
}

/// What the bridge did with one record.
#[derive(Debug, Clone, PartialEq, Eq)]
pub enum NestedClientSessionBridgeOutcome {
    /// A new session registered core client `client`.
    Connected { session: NestedClientSessionId, client: CoreClientId, runtime: RuntimeEventResult },
    /// The session was already bound to `client`; nothing was registered.
    DuplicateConnected { session: NestedClientSessionId, client: CoreClientId },
    /// The core refused to register a client for the session.
    RegistrationFailed { session: NestedClientSessionId, runtime: RuntimeEventResult },
    /// The bound session disconnected and its client `client` was closed.
    Disconnected { session: NestedClientSessionId, client: CoreClientId, runtime: RuntimeEventResult },
    /// A session that is not bound disconnected; nothing changed.
    UnknownDisconnected { session: NestedClientSessionId },
    /// The record carries no connect or disconnect of a session.
    Ignored { sequence: u64 },
}

/// Session `s` is bound in `b`.
pub open spec fn has_session(b: Seq<NestedSessionBinding>, s: NestedClientSessionId) -> bool {
    exists|i: int| 0 <= i < b.len() && b[i].session == s
}

/// Position of session `s` in `b`.
pub open spec fn session_pos(b: Seq<NestedSessionBinding>, s: NestedClientSessionId) -> int {
    choose|i: int| 0 <= i < b.len() && b[i].session == s
}

/// The core client session `s` is bound to in `b`.
pub open spec fn bound_client(b: Seq<NestedSessionBinding>, s: NestedClientSessionId) -> Option<
    CoreClientId,
> {
    if has_session(b, s) {
        Some(b[session_pos(b, s)].client)
    } else {
        None
    }
}

/// No session is bound twice.
pub open spec fn bindings_unique(b: Seq<NestedSessionBinding>) -> bool {
    forall|i: int, j: int| 0 <= i < j < b.len() ==> b[i].session != b[j].session
}

/// The core event a connected session becomes: a placeholder client, named by
/// the record's label, whose identity the core allocates.
pub open spec fn connect_event(label: Option<String>) -> BackendEvent {
    BackendEvent::ClientConnected { client: None, kind: ClientKind::WaylandPlaceholder, name: label }
}

/// `runtime` is the core's handling of `event` from `pre` to `post`.
pub open spec fn ran(pre: CoreView, event: BackendEvent, post: CoreView, runtime: RuntimeEventResult) -> bool {
    &&& runtime.event == event
    &&& runtime.command == command_for(event)
    &&& handled(pre, command_for(event), post, runtime.result)
}

/// `r`, `post_b` and `post_v` are what applying `record` to bindings `pre_b` and
/// core state `pre_v` gives:
/// - Connected, session not bound: the core registers a placeholder client
///   named by the label; when it succeeds the session is bound to it.
/// - Connected, session bound: nothing changes.
/// - Disconnected, session bound: the core closes the bound client and the
///   binding is dropped.
/// - Disconnected, session not bound: nothing changes.
/// - Any other record: nothing changes.
pub open spec fn bridge_applied(
    pre_b: Seq<NestedSessionBinding>,
    pre_v: CoreView,
    record: NestedClientSessionEventRecord,
    post_b: Seq<NestedSessionBinding>,
    post_v: CoreView,
    r: NestedClientSessionBridgeOutcome,
) -> bool {
    match (record.kind, record.session) {
        (NestedClientSessionEventKind::Connected, Some(s)) => match bound_client(pre_b, s) {
            Some(c) => {
                &&& r == NestedClientSessionBridgeOutcome::DuplicateConnected {
                    session: s,
                    client: c,
                }
                &&& post_v == pre_v
                &&& post_b == pre_b
            },
            None => {
                if pre_v.next_client != u64::MAX {
                    &&& r matches NestedClientSessionBridgeOutcome::Connected {
                        session,
                        client,
                        runtime,
                    } && session == s && client == pre_v.next_client && ran(
                        pre_v,
                        connect_event(record.label),
                        post_v,
                        runtime,
                    )
                    &&& post_b == pre_b.push(
                        NestedSessionBinding { session: s, client: pre_v.next_client },
                    )
                } else {
                    &&& r matches NestedClientSessionBridgeOutcome::RegistrationFailed {
                        session,
                        runtime,
                    } && session == s && ran(
                        pre_v,
                        connect_event(record.label),
                        post_v,
                        runtime,
                    )
                    &&& post_b == pre_b
                }
            },
        },
        (NestedClientSessionEventKind::Disconnected, Some(s)) => match bound_client(pre_b, s) {
            Some(c) => {
                &&& r matches NestedClientSessionBridgeOutcome::Disconnected {
                    session,
                    client,
                    runtime,
                } && session == s && client == c && ran(
                    pre_v,
                    BackendEvent::ClientDisconnected { client: c },
                    post_v,
                    runtime,
                )
                &&& post_b == pre_b.remove(session_pos(pre_b, s))
            },
            None => {
                &&& r == NestedClientSessionBridgeOutcome::UnknownDisconnected { session: s }
                &&& post_v == pre_v
                &&& post_b == pre_b
            },
        },
        _ => {
            &&& r == NestedClientSessionBridgeOutcome::Ignored { sequence: record.sequence }
            &&& post_v == pre_v
            &&& post_b == pre_b
        },
    }
}

/// The states `bs`, `vs` trace applying `records` one after another: entry `k`
/// is the state before record `k`, and `outs[k]` its outcome.
pub open spec fn bridge_trace(
    bs: Seq<Seq<NestedSessionBinding>>,
    vs: Seq<CoreView>,
    records: Seq<NestedClientSessionEventRecord>,
    outs: Seq<NestedClientSessionBridgeOutcome>,
) -> bool {
    &&& bs.len() == records.len() + 1
    &&& vs.len() == records.len() + 1
    &&& outs.len() == records.len()
    &&& forall|k: int|
        0 <= k < records.len() ==> #[trigger] bridge_applied(
            bs[k],
            vs[k],
            records[k],
            bs[k + 1],
            vs[k + 1],
            outs[k],
        )
}

/// Applying `records` one after another to `pre_b` and `pre_v` gives `post_b`,
/// `post_v` and the outcomes `outs`, one per record.
pub open spec fn bridged_all(
    pre_b: Seq<NestedSessionBinding>,
    pre_v: CoreView,
    records: Seq<NestedClientSessionEventRecord>,
    post_b: Seq<NestedSessionBinding>,
    post_v: CoreView,
    outs: Seq<NestedClientSessionBridgeOutcome>,
) -> bool {
    exists|bs: Seq<Seq<NestedSessionBinding>>, vs: Seq<CoreView>|
        #[trigger] bridge_trace(bs, vs, records, outs) && bs[0] == pre_b && vs[0] == pre_v
            && bs.last() == post_b && vs.last() == post_v
}

/// Nothing applied leaves everything as it was.
pub proof fn lemma_bridged_none(pre_b: Seq<NestedSessionBinding>, pre_v: CoreView)
    ensures
        bridged_all(
            pre_b,
            pre_v,
            Seq::<NestedClientSessionEventRecord>::empty(),
            pre_b,
            pre_v,
            Seq::<NestedClientSessionBridgeOutcome>::empty(),
        ),
{
    let bs = seq![pre_b];
    let vs = seq![pre_v];
    assert(bridge_trace(
        bs,
        vs,
        Seq::<NestedClientSessionEventRecord>::empty(),
        Seq::<NestedClientSessionBridgeOutcome>::empty(),
    ));
}

/// Extends [`bridged_all`] by one more applied record.
pub proof fn lemma_bridged_all_push(
    pre_b: Seq<NestedSessionBinding>,
    pre_v: CoreView,
    records: Seq<NestedClientSessionEventRecord>,
    mid_b: Seq<NestedSessionBinding>,
    mid_v: CoreView,
    outs: Seq<NestedClientSessionBridgeOutcome>,
    record: NestedClientSessionEventRecord,
    post_b: Seq<NestedSessionBinding>,
    post_v: CoreView,
    out: NestedClientSessionBridgeOutcome,
)
    requires
        bridged_all(pre_b, pre_v, records, mid_b, mid_v, outs),
        bridge_applied(mid_b, mid_v, record, post_b, post_v, out),
    ensures
        bridged_all(pre_b, pre_v, records.push(record), post_b, post_v, outs.push(out)),
{
    let (bs, vs) = choose|bs: Seq<Seq<NestedSessionBinding>>, vs: Seq<CoreView>|
        #[trigger] bridge_trace(bs, vs, records, outs) && bs[0] == pre_b && vs[0] == pre_v
            && bs.last() == mid_b && vs.last() == mid_v;
    let bs2 = bs.push(post_b);
    let vs2 = vs.push(post_v);
    let rs = records.push(record);
    let os = outs.push(out);
    assert forall|k: int| 0 <= k < rs.len() implies #[trigger] bridge_applied(
        bs2[k],
        vs2[k],
        rs[k],
        bs2[k + 1],
        vs2[k + 1],
        os[k],
    ) by {
        if k < records.len() {
            assert(bridge_applied(bs[k], vs[k], records[k], bs[k + 1], vs[k + 1], outs[k]));
        }
    }
    assert(bridge_trace(bs2, vs2, rs, os));
}

/// The bridge between session records and the core client registry.
#[derive(Debug, Clone)]
pub struct NestedClientSessionCoreBridge {
    bindings: Vec<NestedSessionBinding>,
}

impl NestedClientSessionCoreBridge {
    /// The current bindings, in binding order.
    pub closed spec fn spec_bindings(&self) -> Seq<NestedSessionBinding> {
        self.bindings@
    }

    /// No session is bound twice.
    pub open spec fn wf(&self) -> bool {
        bindings_unique(self.spec_bindings())
    }

    /// A bridge with no binding.
    pub fn new() -> (r: Self)
        ensures
            r.wf(),
            r.spec_bindings() == Seq::<NestedSessionBinding>::empty(),
    {
        Self { bindings: Vec::new() }
    }

    fn find(&self, session: NestedClientSessionId) -> (r: Option<usize>)
        requires
            self.wf(),
        ensures
            r is Some <==> has_session(self.spec_bindings(), session),
            r matches Some(i) ==> i < self.spec_bindings().len() && session_pos(
                self.spec_bindings(),
                session,
            ) == i && self.spec_bindings()[i as int].session == session,
    {
        let mut i: usize = 0;
        while i < self.bindings.len()
            invariant
                self.wf(),
                i <= self.bindings@.len(),
                forall|k: int| 0 <= k < i ==> self.bindings@[k].session != session,
            decreases self.bindings@.len() - i,
        {
            if self.bindings[i].session == session {
                let ghost j = session_pos(self.bindings@, session);
                assert(j == i) by {
                    if j != i {
                        if j < i {
                        } else {
                            assert(self.bindings@[i as int].session != self.bindings@[j].session);
                        }
                    }
                }
                return Some(i);
            }
            i = i + 1;
        }
        None
    }

    /// The core client `session` is bound to.
    pub fn lookup_client(&self, session: NestedClientSessionId) -> (r: Option<CoreClientId>)
        requires
            self.wf(),
        ensures
            r == bound_client(self.spec_bindings(), session),
    {
        match self.find(session) {
            Some(i) => Some(self.bindings[i].client),
            None => None,
        }
    }

    /// Number of bound sessions.
    pub fn active_session_count(&self) -> (r: usize)
        ensures
            r == self.spec_bindings().len(),
    {
        self.bindings.len()
    }

    /// Applies one session record; see [`bridge_applied`].
    pub fn handle_record(&mut self, state: &mut State, record: &NestedClientSessionEventRecord) -> (r:
        NestedClientSessionBridgeOutcome)
        requires
            old(self).wf(),
            old(state).wf(),
        ensures
            final(self).wf(),
            final(state).wf(),
            bridge_applied(
                old(self).spec_bindings(),
                old(state).view(),
                *record,
                final(self).spec_bindings(),
                final(state).view(),
                r,
            ),
    {
        match (record.kind, record.session) {
            (NestedClientSessionEventKind::Connected, Some(session)) => {
                match self.find(session) {
                    Some(i) => NestedClientSessionBridgeOutcome::DuplicateConnected {
                        session,
                        client: self.bindings[i].client,
                    },
                    None => {
                        let event = BackendEvent::ClientConnected {
                            client: None,
                            kind: ClientKind::WaylandPlaceholder,
                            name: copy_opt_string(&record.label),
                        };
                        let runtime = handle_backend_event(state, event);
                        match runtime.result {
                            CommandResult::ClientRegistered { client, registered: true } => {
                                self.bindings.push(NestedSessionBinding { session, client });
                                assert(bindings_unique(self.bindings@)) by {
                                    assert forall|a: int, b: int|
                                        0 <= a < b < self.bindings@.len() implies self.bindings@[a].session
                                        != self.bindings@[b].session by {
                                        if b == self.bindings@.len() - 1 {
                                            assert(old(self).bindings@[a].session != session);
                                        }
                                    }
                                }
                                NestedClientSessionBridgeOutcome::Connected { session, client, runtime }
                            },
                            _ => NestedClientSessionBridgeOutcome::RegistrationFailed { session, runtime },
                        }
                    },
                }
            },
            (NestedClientSessionEventKind::Disconnected, Some(session)) => {
                match self.find(session) {
                    Some(i) => {
                        let binding = self.bindings.remove(i);
                        let client = binding.client;
                        let runtime = handle_backend_event(
                            state,
                            BackendEvent::ClientDisconnected { client },
                        );
                        assert(bindings_unique(self.bindings@)) by {
                            assert forall|a: int, b: int|
                                0 <= a < b < self.bindings@.len() implies self.bindings@[a].session
                                != self.bindings@[b].session by {
                                let oa = if a < i { a } else { a + 1 };
                                let ob = if b < i { b } else { b + 1 };
                                assert(self.bindings@[a] == old(self).bindings@[oa]);
                                assert(self.bindings@[b] == old(self).bindings@[ob]);
                            }
                        }
                        NestedClientSessionBridgeOutcome::Disconnected { session, client, runtime }
                    },
                    None => NestedClientSessionBridgeOutcome::UnknownDisconnected { session },
                }
            },
            _ => NestedClientSessionBridgeOutcome::Ignored { sequence: record.sequence },
        }
    }
}

/// A connect for a session that is already bound registers nothing and
/// changes nothing: the outcome names the client it is bound to.
pub proof fn law_duplicate_connect_registers_nothing(
    pre_b: Seq<NestedSessionBinding>,
    pre_v: CoreView,
    record: NestedClientSessionEventRecord,
    post_b: Seq<NestedSessionBinding>,
    post_v: CoreView,
    r: NestedClientSessionBridgeOutcome,
)
    requires
        bridge_applied(pre_b, pre_v, record, post_b, post_v, r),
        record.kind == NestedClientSessionEventKind::Connected,
        record.session matches Some(s) && bound_client(pre_b, s) is Some,
    ensures
        post_v == pre_v,
        post_b == pre_b,
        r == (NestedClientSessionBridgeOutcome::DuplicateConnected {
            session: record.session->0,
            client: bound_client(pre_b, record.session->0)->0,
        }),
{
}

/// A disconnect for a session bound to no client (never connected, or
/// already disconnected) closes nothing and changes nothing.
pub proof fn law_unbound_disconnect_changes_nothing(
    pre_b: Seq<NestedSessionBinding>,
    pre_v: CoreView,
    record: NestedClientSessionEventRecord,
    post_b: Seq<NestedSessionBinding>,
    post_v: CoreView,
    r: NestedClientSessionBridgeOutcome,
)
    requires
        bridge_applied(pre_b, pre_v, record, post_b, post_v, r),
        record.kind == NestedClientSessionEventKind::Disconnected,
        record.session matches Some(s) && bound_client(pre_b, s) is None,
    ensures
        post_v == pre_v,
        post_b == pre_b,
        r == (NestedClientSessionBridgeOutcome::UnknownDisconnected { session: record.session->0 }),
{
}

proof fn lemma_binding_pos_is(b: Seq<NestedSessionBinding>, s: NestedClientSessionId, i: int)
    requires
        bindings_unique(b),
        0 <= i < b.len(),
        b[i].session == s,
    ensures
        has_session(b, s),
        session_pos(b, s) == i,
{
    let k = session_pos(b, s);
    if k != i {
        if k < i {
            assert(b[k].session != b[i].session);
        } else {
            assert(b[i].session != b[k].session);
        }
    }
}

/// Connecting a new session and then disconnecting it closes exactly the core
/// client the connect registered, and leaves the session unbound.
pub proof fn law_connect_then_disconnect_closes_client(
    b0: Seq<NestedSessionBinding>,
    v0: CoreView,
    connect: NestedClientSessionEventRecord,
    b1: Seq<NestedSessionBinding>,
    v1: CoreView,
    r1: NestedClientSessionBridgeOutcome,
    disconnect: NestedClientSessionEventRecord,
    b2: Seq<NestedSessionBinding>,
    v2: CoreView,
    r2: NestedClientSessionBridgeOutcome,
    s: NestedClientSessionId,
)
    requires
        view_wf(v0),
        bindings_unique(b0),
        bound_client(b0, s) is None,
        v0.next_client != u64::MAX,
        connect.kind == NestedClientSessionEventKind::Connected,
        connect.session == Some(s),
        disconnect.kind == NestedClientSessionEventKind::Disconnected,
        disconnect.session == Some(s),
        bridge_applied(b0, v0, connect, b1, v1, r1),
        bridge_applied(b1, v1, disconnect, b2, v2, r2),
    ensures
        r1 matches NestedClientSessionBridgeOutcome::Connected { client, .. } && client == v0.next_client,
        r2 matches NestedClientSessionBridgeOutcome::Disconnected { client, .. } && client
            == v0.next_client,
        client_alive(v1, v0.next_client),
        has_client(v2.clients, v0.next_client) && !client_alive(v2, v0.next_client),
        bound_client(b2, s) is None,
        b2 == b0,
{
    let c = v0.next_client;
    let n = b0.len();
    // The connect bound `s` last.
    assert(b1 == b0.push(NestedSessionBinding { session: s, client: c }));
    assert(bindings_unique(b1)) by {
        assert forall|a: int, b: int| 0 <= a < b < b1.len() implies b1[a].session != b1[b].session by {
            if b == n {
                assert(b1[a] == b0[a]);
                if b0[a].session == s {
                    assert(has_session(b0, s));
                }
            } else {
                assert(b1[a] == b0[a]);
                assert(b1[b] == b0[b]);
            }
        }
    }
    lemma_binding_pos_is(b1, s, n as int);
    assert(bound_client(b1, s) == Some(c));
    // The connect registered client `c` last, with a fresh identity.
    let k = v0.clients.len() as int;
    assert(v1.clients[k].id == c && v1.clients[k].alive);
    assert(forall|a: int, b: int|
        0 <= a < b < v1.clients.len() ==> v1.clients[a].id != v1.clients[b].id) by {
        assert forall|a: int, b: int| 0 <= a < b < v1.clients.len() implies v1.clients[a].id
            != v1.clients[b].id by {
            if b == k {
                assert(v1.clients[a] == v0.clients[a]);
                assert(v0.clients[a].id < v0.next_client);
            } else {
                assert(v1.clients[a] == v0.clients[a]);
                assert(v1.clients[b] == v0.clients[b]);
            }
        }
    }
    let kk = client_index(v1.clients, c);
    assert(has_client(v1.clients, c));
    if kk != k {
        if kk < k {
            assert(v1.clients[kk].id != v1.clients[k].id);
        } else {
            assert(v1.clients[k].id != v1.clients[kk].id);
        }
    }
    assert(client_alive(v1, c));
    // The disconnect closed `c`.
    assert(v2.clients[k].id == c && !v2.clients[k].alive);
    let k2 = client_index(v2.clients, c);
    if k2 != k {
        if k2 < k {
            assert(v2.clients[k2] == v1.clients[k2]);
            assert(v1.clients[k2].id != v1.clients[k].id);
        } else {
            assert(v2.clients[k2] == v1.clients[k2]);
            assert(v1.clients[k].id != v1.clients[k2].id);
        }
    }
    assert(b2 =~= b0);
}

} // verus!
