//! Nested client sessions: adapter-side identities of connected clients, and an
//! append-only log that numbers each session event in arrival order.

use vstd::prelude::*;

use crate::smithay_backend::surface_lifecycle::copy_opt_string;

verus! {

/// Adapter identity of one nested client connection; never zero.
#[derive(Debug, Clone, Copy, PartialEq, Eq, Hash, Structural)]
pub struct NestedClientSessionId {
    value: u64,
}

impl NestedClientSessionId {
    /// The raw identity value.
    pub closed spec fn spec_value(self) -> u64 {
        self.value
    }

    /// A session identity for `value`; zero is not an identity.
    pub fn new(value: u64) -> (r: Option<Self>)
        ensures
            r is Some <==> value != 0,
            r matches Some(id) ==> id.spec_value() == value,
    {
        if value == 0 {
            None
        } else {
            Some(Self { value })
        }
    }

    /// The raw identity value.
    pub fn value(self) -> (r: u64)
        ensures
            r == self.spec_value(),
    {
        self.value
    }

    /// Two identities are equal exactly when their values are.
    pub proof fn lemma_value_injective(a: Self, b: Self)
        ensures
            (a == b) <==> (a.spec_value() == b.spec_value()),
    {
    }
}

/// Why a connection attempt was rejected before it became a session.
#[derive(Debug, Clone, Copy, PartialEq, Eq, Structural)]
pub enum NestedClientSessionRejectionReason {
    /// No session identity was left to allocate.
    SessionIdExhausted,
    /// The backend refused to insert the client.
    InsertClientFailed,
}

/// A pure-data lifecycle event of a nested client session.
#[derive(Debug, Clone, Copy, PartialEq, Eq, Structural)]
pub enum NestedClientSessionEvent {
    /// The session connected.
    Connected { session: NestedClientSessionId },
    /// The session disconnected.
    Disconnected { session: NestedClientSessionId },
    /// A connection was rejected before it got a session.
    Rejected { reason: NestedClientSessionRejectionReason },
}

/// The kind of a session event.
#[derive(Debug, Clone, Copy, PartialEq, Eq, Structural)]
pub enum NestedClientSessionEventKind {
    /// See [`NestedClientSessionEvent::Connected`].
    Connected,
    /// See [`NestedClientSessionEvent::Disconnected`].
    Disconnected,
    /// See [`NestedClientSessionEvent::Rejected`].
    Rejected,
}

/// The kind of `event`.
pub open spec fn event_kind(event: NestedClientSessionEvent) -> NestedClientSessionEventKind {
    match event {
        NestedClientSessionEvent::Connected { .. } => NestedClientSessionEventKind::Connected,
        NestedClientSessionEvent::Disconnected { .. } => NestedClientSessionEventKind::Disconnected,
        NestedClientSessionEvent::Rejected { .. } => NestedClientSessionEventKind::Rejected,
    }
}

/// The session `event` is about, if any.
pub open spec fn event_session(event: NestedClientSessionEvent) -> Option<NestedClientSessionId> {
    match event {
        NestedClientSessionEvent::Connected { session } => Some(session),
        NestedClientSessionEvent::Disconnected { session } => Some(session),
        NestedClientSessionEvent::Rejected { .. } => None,
    }
}

/// The rejection reason `event` carries, if any.
pub open spec fn event_rejection(event: NestedClientSessionEvent) -> Option<
    NestedClientSessionRejectionReason,
> {
    match event {
        NestedClientSessionEvent::Rejected { reason } => Some(reason),
        _ => None,
    }
}

/// One numbered entry of the session log.
#[derive(Debug, Clone, PartialEq, Eq)]
pub struct NestedClientSessionEventRecord {
    /// Position in the log, starting at 1.
    pub sequence: u64,
    /// The kind of the event.
    pub kind: NestedClientSessionEventKind,
    /// The session, for connect and disconnect events.
    pub session: Option<NestedClientSessionId>,
    /// Optional label of the client.
    pub label: Option<String>,
    /// Optional free-form diagnostic.
    pub diagnostic: Option<String>,
    /// The rejection reason, for rejections.
    pub rejection_reason: Option<NestedClientSessionRejectionReason>,
}

/// The record `event` becomes at position `sequence`.
pub open spec fn record_for(
    sequence: u64,
    event: NestedClientSessionEvent,
    label: Option<String>,
    diagnostic: Option<String>,
) -> NestedClientSessionEventRecord {
    NestedClientSessionEventRecord {
        sequence,
        kind: event_kind(event),
        session: event_session(event),
        label,
        diagnostic,
        rejection_reason: event_rejection(event),
    }
}

impl NestedClientSessionEventRecord {
    /// Copies the record; the copy is equal to it.
    pub fn copy(&self) -> (r: Self)
        ensures
            r == *self,
    {
        NestedClientSessionEventRecord {
            sequence: self.sequence,
            kind: self.kind,
            session: self.session,
            label: copy_opt_string(&self.label),
            diagnostic: copy_opt_string(&self.diagnostic),
            rejection_reason: self.rejection_reason,
        }
    }
}

/// Append-only log of session events.
#[derive(Debug, Clone)]
pub struct NestedClientSessionEventLog {
    records: Vec<NestedClientSessionEventRecord>,
    next_sequence: u64,
}

impl NestedClientSessionEventLog {
    /// The records so far, oldest first.
    pub closed spec fn spec_records(&self) -> Seq<NestedClientSessionEventRecord> {
        self.records@
    }

    /// The sequence number the next record gets.
    pub closed spec fn spec_next_sequence(&self) -> u64 {
        self.next_sequence
    }

    /// An empty log whose first record is number 1.
    pub fn new() -> (r: Self)
        ensures
            r.spec_records() == Seq::<NestedClientSessionEventRecord>::empty(),
            r.spec_next_sequence() == 1,
    {
        Self { records: Vec::new(), next_sequence: 1 }
    }

    /// Appends `event` as the next numbered record and returns that record. The
    /// counter stops at its maximum.
    pub fn record(
        &mut self,
        event: NestedClientSessionEvent,
        label: Option<String>,
        diagnostic: Option<String>,
    ) -> (r: NestedClientSessionEventRecord)
        ensures
            r == record_for(old(self).spec_next_sequence(), event, label, diagnostic),
            final(self).spec_records() == old(self).spec_records().push(r),
            final(self).spec_next_sequence() == if old(self).spec_next_sequence() == u64::MAX {
                u64::MAX
            } else {
                (old(self).spec_next_sequence() + 1) as u64
            },
    {
        let (kind, session, rejection_reason) = match event {
            NestedClientSessionEvent::Connected { session } => (
                NestedClientSessionEventKind::Connected,
                Some(session),
                None,
            ),
            NestedClientSessionEvent::Disconnected { session } => (
                NestedClientSessionEventKind::Disconnected,
                Some(session),
                None,
            ),
            NestedClientSessionEvent::Rejected { reason } => (
                NestedClientSessionEventKind::Rejected,
                None,
                Some(reason),
            ),
        };
        let record = NestedClientSessionEventRecord {
            sequence: self.next_sequence,
            kind,
            session,
            label,
            diagnostic,
            rejection_reason,
        };
        self.next_sequence = self.next_sequence.saturating_add(1);
        self.records.push(record.copy());
        record
    }

    /// The records so far, oldest first.
    pub fn records(&self) -> (r: &[NestedClientSessionEventRecord])
        ensures
            r@ == self.spec_records(),
    {
        self.records.as_slice()
    }

    /// Number of records.
    pub fn len(&self) -> (r: usize)
        ensures
            r == self.spec_records().len(),
    {
        self.records.len()
    }
}

} // verus!
