//! Backend-neutral surface lifecycle: a registry of surface records driven by
//! pure-data lifecycle events (create, configure, map, unmap, destroy).
//!
//! Destroyed surfaces stay in the registry as tombstones so that late events for
//! them are rejected instead of silently resurrecting the surface.

use vstd::prelude::*;

verus! {

/// Identity of a backend surface in the lifecycle registry.
#[derive(Debug, Clone, Copy, PartialEq, Eq, Structural)]
pub struct BackendSurfaceId {
    pub value: u64,
}

impl BackendSurfaceId {
    /// Wraps a raw surface identity value.
    pub fn new(value: u64) -> (r: Self)
        ensures
            r.value == value,
    {
        Self { value }
    }

    /// Returns the raw identity value.
    pub fn value(self) -> (r: u64)
        ensures
            r == self.value,
    {
        self.value
    }
}

/// A non-zero surface size in pixels.
#[derive(Debug, Clone, Copy, PartialEq, Eq, Structural)]
pub struct BackendSurfaceSize {
    pub width: u32,
    pub height: u32,
}

impl BackendSurfaceSize {
    /// Builds a size; both dimensions must be non-zero.
    pub fn new(width: u32, height: u32) -> (r: Option<Self>)
        ensures
            r is Some <==> (width > 0 && height > 0),
            r matches Some(size) ==> size.width == width && size.height == height,
    {
        if width > 0 && height > 0 {
            Some(Self { width, height })
        } else {
            None
        }
    }
}

/// A pure-data lifecycle event for one surface.
#[derive(Debug, Clone, PartialEq, Eq)]
pub enum BackendSurfaceLifecycleEvent {
    /// The surface appeared.
    Created { id: BackendSurfaceId },
    /// The surface received a configured size.
    Configured { id: BackendSurfaceId, size: BackendSurfaceSize },
    /// The surface was mapped with optional metadata.
    Mapped { id: BackendSurfaceId, title: Option<String>, app_id: Option<String> },
    /// The surface was unmapped (hidden) but still exists.
    Unmapped { id: BackendSurfaceId },
    /// The surface was destroyed; its record becomes a tombstone.
    Destroyed { id: BackendSurfaceId },
}

/// Why a lifecycle event could not be applied.
#[derive(Debug, Clone, Copy, PartialEq, Eq, Structural)]
pub enum BackendSurfaceLifecycleError {
    /// A live surface with this identity already exists.
    AlreadyExists { id: BackendSurfaceId },
    /// No surface with this identity was ever created.
    UnknownSurface { id: BackendSurfaceId },
    /// The surface was destroyed earlier; the event is rejected.
    AlreadyDestroyed { id: BackendSurfaceId },
    /// Unmap was requested for a surface that is not mapped.
    NotMapped { id: BackendSurfaceId },
}

/// Lifecycle state of one surface record.
#[derive(Debug, Clone, Copy, PartialEq, Eq, Structural)]
pub enum BackendSurfaceState {
    /// Created, never mapped.
    Created,
    /// Currently mapped.
    Mapped,
    /// Mapped before, currently unmapped.
    Unmapped,
    /// Destroyed tombstone.
    Destroyed,
}

/// One surface record in the registry.
#[derive(Debug, Clone, PartialEq, Eq)]
pub struct BackendSurfaceRecord {
    pub id: BackendSurfaceId,
    pub state: BackendSurfaceState,
    pub size: Option<BackendSurfaceSize>,
    pub title: Option<String>,
    pub app_id: Option<String>,
}

/// Copies an optional string; the copy is equal to it.
pub fn copy_opt_string(value: &Option<String>) -> (r: Option<String>)
    ensures
        r == *value,
{
    match value {
        Some(text) => Some(text.clone()),
        None => None,
    }
}

impl BackendSurfaceRecord {
    /// Copies the record; the copy is equal to it.
    pub fn copy(&self) -> (r: Self)
        ensures
            r == *self,
    {
        BackendSurfaceRecord {
            id: self.id,
            state: self.state,
            size: self.size,
            title: copy_opt_string(&self.title),
            app_id: copy_opt_string(&self.app_id),
        }
    }
}

impl BackendSurfaceLifecycleEvent {
    /// The surface identity the event refers to.
    pub open spec fn spec_id(self) -> BackendSurfaceId {
        match self {
            BackendSurfaceLifecycleEvent::Created { id } => id,
            BackendSurfaceLifecycleEvent::Configured { id, .. } => id,
            BackendSurfaceLifecycleEvent::Mapped { id, .. } => id,
            BackendSurfaceLifecycleEvent::Unmapped { id } => id,
            BackendSurfaceLifecycleEvent::Destroyed { id } => id,
        }
    }

    /// Copies the event; the copy is equal to it.
    pub fn copy(&self) -> (r: Self)
        ensures
            r == *self,
    {
        match self {
            BackendSurfaceLifecycleEvent::Created { id } => BackendSurfaceLifecycleEvent::Created {
                id: *id,
            },
            BackendSurfaceLifecycleEvent::Configured { id, size } => {
                BackendSurfaceLifecycleEvent::Configured { id: *id, size: *size }
            },
            BackendSurfaceLifecycleEvent::Mapped { id, title, app_id } => {
                BackendSurfaceLifecycleEvent::Mapped {
                    id: *id,
                    title: copy_opt_string(title),
                    app_id: copy_opt_string(app_id),
                }
            },
            BackendSurfaceLifecycleEvent::Unmapped { id } => BackendSurfaceLifecycleEvent::Unmapped {
                id: *id,
            },
            BackendSurfaceLifecycleEvent::Destroyed { id } => {
                BackendSurfaceLifecycleEvent::Destroyed { id: *id }
            },
        }
    }
}

/// Records are kept sorted by strictly increasing surface identity.
pub open spec fn records_sorted(s: Seq<BackendSurfaceRecord>) -> bool {
    forall|i: int, j: int| 0 <= i < j < s.len() ==> s[i].id.value < s[j].id.value
}

/// Whether a record for `id` exists.
pub open spec fn has_record(s: Seq<BackendSurfaceRecord>, id: u64) -> bool {
    exists|i: int| 0 <= i < s.len() && s[i].id.value == id
}

/// The position of the record for `id` (meaningful when `has_record`).
pub open spec fn record_index(s: Seq<BackendSurfaceRecord>, id: u64) -> int {
    choose|i: int| 0 <= i < s.len() && s[i].id.value == id
}

/// Inserts `r` at the position that keeps `s` sorted by identity.
pub open spec fn insert_sorted(s: Seq<BackendSurfaceRecord>, r: BackendSurfaceRecord) -> Seq<
    BackendSurfaceRecord,
>
    decreases s.len(),
{
    if s.len() == 0 {
        seq![r]
    } else if r.id.value < s[0].id.value {
        seq![r] + s
    } else {
        seq![s[0]] + insert_sorted(s.drop_first(), r)
    }
}

/// A freshly created record.
pub open spec fn created_record(id: BackendSurfaceId) -> BackendSurfaceRecord {
    BackendSurfaceRecord {
        id,
        state: BackendSurfaceState::Created,
        size: None,
        title: None,
        app_id: None,
    }
}

/// Applies one lifecycle event to the sorted record sequence.
pub open spec fn spec_apply(s: Seq<BackendSurfaceRecord>, e: BackendSurfaceLifecycleEvent) -> Result<
    Seq<BackendSurfaceRecord>,
    BackendSurfaceLifecycleError,
> {
    let id = e.spec_id();
    if !has_record(s, id.value) {
        match e {
            BackendSurfaceLifecycleEvent::Created { id } => Ok(insert_sorted(s, created_record(id))),
            _ => Err(BackendSurfaceLifecycleError::UnknownSurface { id }),
        }
    } else {
        let i = record_index(s, id.value);
        let r = s[i];
        if r.state == BackendSurfaceState::Destroyed {
            Err(BackendSurfaceLifecycleError::AlreadyDestroyed { id })
        } else {
            match e {
                BackendSurfaceLifecycleEvent::Created { .. } => Err(
                    BackendSurfaceLifecycleError::AlreadyExists { id },
                ),
                BackendSurfaceLifecycleEvent::Configured { size, .. } => Ok(
                    s.update(i, BackendSurfaceRecord { size: Some(size), ..r }),
                ),
                BackendSurfaceLifecycleEvent::Mapped { title, app_id, .. } => Ok(
                    s.update(
                        i,
                        BackendSurfaceRecord {
                            state: BackendSurfaceState::Mapped,
                            title,
                            app_id,
                            ..r
                        },
                    ),
                ),
                BackendSurfaceLifecycleEvent::Unmapped { .. } => if r.state
                    == BackendSurfaceState::Mapped {
                    Ok(s.update(i, BackendSurfaceRecord { state: BackendSurfaceState::Unmapped, ..r }))
                } else {
                    Err(BackendSurfaceLifecycleError::NotMapped { id })
                },
                BackendSurfaceLifecycleEvent::Destroyed { .. } => Ok(
                    s.update(i, BackendSurfaceRecord { state: BackendSurfaceState::Destroyed, ..r }),
                ),
            }
        }
    }
}

/// Inserting into a sorted sequence at the split position agrees with `insert_sorted`.
proof fn lemma_insert_sorted_at(s: Seq<BackendSurfaceRecord>, r: BackendSurfaceRecord, pos: int)
    requires
        0 <= pos <= s.len(),
        forall|k: int| 0 <= k < pos ==> s[k].id.value < r.id.value,
        pos < s.len() ==> r.id.value < s[pos].id.value,
    ensures
        insert_sorted(s, r) == s.insert(pos, r),
    decreases s.len(),
{
    if s.len() == 0 {
        assert(s.insert(pos, r) =~= seq![r]);
    } else if pos == 0 {
        assert(s.insert(pos, r) =~= seq![r] + s);
    } else {
        let t = s.drop_first();
        assert forall|k: int| 0 <= k < pos - 1 implies t[k].id.value < r.id.value by {
            assert(t[k] == s[k + 1]);
        }
        lemma_insert_sorted_at(t, r, pos - 1);
        assert(s.insert(pos, r) =~= seq![s[0]] + t.insert(pos - 1, r));
    }
}

/// Pure-data surface lifecycle registry with tombstones.
#[derive(Debug, Clone)]
pub struct BackendSurfaceRegistry {
    records: Vec<BackendSurfaceRecord>,
}

impl BackendSurfaceRegistry {
    /// The records of the registry, in identity order.
    pub closed spec fn spec_records(&self) -> Seq<BackendSurfaceRecord> {
        self.records@
    }

    /// Registry well-formedness: records sorted by identity.
    pub closed spec fn wf(&self) -> bool {
        records_sorted(self.records@)
    }

    /// Creates an empty registry.
    pub fn new() -> (r: Self)
        ensures
            r.wf(),
            r.spec_records() == Seq::<BackendSurfaceRecord>::empty(),
    {
        Self { records: Vec::new() }
    }

    /// Finds the position of the record for `id`.
    fn find(&self, id: BackendSurfaceId) -> (r: Option<usize>)
        requires
            self.wf(),
        ensures
            r is Some <==> has_record(self.records@, id.value),
            r matches Some(i) ==> i < self.records@.len() && record_index(self.records@, id.value)
                == i && self.records@[i as int].id == id,
    {
        let mut i: usize = 0;
        while i < self.records.len()
            invariant
                self.wf(),
                i <= self.records@.len(),
                forall|k: int| 0 <= k < i ==> self.records@[k].id.value != id.value,
            decreases self.records@.len() - i,
        {
            if self.records[i].id.value == id.value {
                let ghost j = record_index(self.records@, id.value);
                assert(self.records@[j].id.value == id.value);
                assert(j == i) by {
                    if j < i {
                    } else if j > i {
                        assert(self.records@[i as int].id.value < self.records@[j].id.value);
                    }
                }
                return Some(i);
            }
            i = i + 1;
        }
        None
    }

    /// Returns the record for `id`, tombstones included.
    pub fn get_surface(&self, id: BackendSurfaceId) -> (r: Option<&BackendSurfaceRecord>)
        requires
            self.wf(),
        ensures
            r is Some <==> has_record(self.spec_records(), id.value),
            r matches Some(rec) ==> *rec == self.spec_records()[record_index(
                self.spec_records(),
                id.value,
            )] && rec.id == id,
    {
        match self.find(id) {
            Some(i) => Some(&self.records[i]),
            None => None,
        }
    }

    /// Returns a copy of all records in identity order.
    pub fn records(&self) -> (r: Vec<BackendSurfaceRecord>)
        ensures
            r@ == self.spec_records(),
    {
        let mut out: Vec<BackendSurfaceRecord> = Vec::new();
        let mut i: usize = 0;
        while i < self.records.len()
            invariant
                i <= self.records@.len(),
                out@ == self.records@.take(i as int),
            decreases self.records@.len() - i,
        {
            out.push(self.records[i].copy());
            i = i + 1;
            assert(out@ =~= self.records@.take(i as int));
        }
        assert(self.records@.take(i as int) =~= self.records@);
        out
    }

    /// Inserts a new `Created` record at its sorted position.
    fn insert_created(&mut self, id: BackendSurfaceId)
        requires
            old(self).wf(),
            !has_record(old(self).records@, id.value),
        ensures
            final(self).wf(),
            final(self).records@ == insert_sorted(old(self).records@, created_record(id)),
    {
        let mut pos: usize = 0;
        while pos < self.records.len() && self.records[pos].id.value < id.value
            invariant
                pos <= self.records@.len(),
                forall|k: int| 0 <= k < pos ==> self.records@[k].id.value < id.value,
            decreases self.records@.len() - pos,
        {
            pos = pos + 1;
        }
        let ghost before = self.records@;
        let rec = BackendSurfaceRecord {
            id,
            state: BackendSurfaceState::Created,
            size: None,
            title: None,
            app_id: None,
        };
        if pos < self.records.len() {
            assert(before[pos as int].id.value != id.value);
        }
        self.records.insert(pos, rec);
        proof {
            lemma_insert_sorted_at(before, created_record(id), pos as int);
            assert forall|i: int, j: int|
                0 <= i < j < self.records@.len() implies self.records@[i].id.value
                < self.records@[j].id.value by {
                if j < pos {
                } else if j == pos {
                } else if i < pos {
                    assert(self.records@[j] == before[j - 1]);
                } else if i == pos {
                    assert(self.records@[j] == before[j - 1]);
                    assert(before[pos as int].id.value <= before[j - 1].id.value);
                } else {
                    assert(self.records@[j] == before[j - 1]);
                    assert(self.records@[i] == before[i - 1]);
                }
            }
        }
    }

    /// Creates a surface with the given identity.
    pub fn create_surface_with_id(&mut self, id: BackendSurfaceId) -> (r: Result<
        (),
        BackendSurfaceLifecycleError,
    >)
        requires
            old(self).wf(),
        ensures
            final(self).wf(),
            match spec_apply(old(self).spec_records(), BackendSurfaceLifecycleEvent::Created { id }) {
                Ok(s) => r is Ok && final(self).spec_records() == s,
                Err(e) => r == Err::<(), BackendSurfaceLifecycleError>(e) && final(self).spec_records()
                    == old(self).spec_records(),
            },
    {
        self.apply(&BackendSurfaceLifecycleEvent::Created { id })
    }

    /// Applies one lifecycle event; on error the registry is unchanged.
    pub fn apply(&mut self, event: &BackendSurfaceLifecycleEvent) -> (r: Result<
        (),
        BackendSurfaceLifecycleError,
    >)
        requires
            old(self).wf(),
        ensures
            final(self).wf(),
            match spec_apply(old(self).spec_records(), *event) {
                Ok(s) => r is Ok && final(self).spec_records() == s,
                Err(e) => r == Err::<(), BackendSurfaceLifecycleError>(e) && final(self).spec_records()
                    == old(self).spec_records(),
            },
    {
        let id = match event {
            BackendSurfaceLifecycleEvent::Created { id } => *id,
            BackendSurfaceLifecycleEvent::Configured { id, .. } => *id,
            BackendSurfaceLifecycleEvent::Mapped { id, .. } => *id,
            BackendSurfaceLifecycleEvent::Unmapped { id } => *id,
            BackendSurfaceLifecycleEvent::Destroyed { id } => *id,
        };
        let found = self.find(id);
        match found {
            None => {
                match event {
                    BackendSurfaceLifecycleEvent::Created { .. } => {
                        self.insert_created(id);
                        Ok(())
                    },
                    _ => Err(BackendSurfaceLifecycleError::UnknownSurface { id }),
                }
            },
            Some(i) => {
                let ghost before = self.records@;
                let state = self.records[i].state;
                if let BackendSurfaceState::Destroyed = state {
                    return Err(BackendSurfaceLifecycleError::AlreadyDestroyed { id });
                }
                let mut rec = self.records[i].copy();
                match event {
                    BackendSurfaceLifecycleEvent::Created { .. } => {
                        return Err(BackendSurfaceLifecycleError::AlreadyExists { id });
                    },
                    BackendSurfaceLifecycleEvent::Configured { size, .. } => {
                        rec.size = Some(*size);
                    },
                    BackendSurfaceLifecycleEvent::Mapped { title, app_id, .. } => {
                        rec.state = BackendSurfaceState::Mapped;
                        rec.title = copy_opt_string(title);
                        rec.app_id = copy_opt_string(app_id);
                    },
                    BackendSurfaceLifecycleEvent::Unmapped { .. } => {
                        if let BackendSurfaceState::Mapped = state {
                            rec.state = BackendSurfaceState::Unmapped;
                        } else {
                            return Err(BackendSurfaceLifecycleError::NotMapped { id });
                        }
                    },
                    BackendSurfaceLifecycleEvent::Destroyed { .. } => {
                        rec.state = BackendSurfaceState::Destroyed;
                    },
                }
                self.records.set(i, rec);
                proof {
                    assert forall|a: int, b: int|
                        0 <= a < b < self.records@.len() implies self.records@[a].id.value
                        < self.records@[b].id.value by {
                        assert(self.records@[a].id == before[a].id);
                        assert(self.records@[b].id == before[b].id);
                    }
                }
                Ok(())
            },
        }
    }
}

/// Once a surface is destroyed, no event removes or revives its tombstone:
/// every later event either fails or leaves the record destroyed.
pub proof fn law_destroyed_surface_stays_destroyed(
    s: Seq<BackendSurfaceRecord>,
    e: BackendSurfaceLifecycleEvent,
    id: u64,
)
    requires
        records_sorted(s),
        has_record(s, id),
        s[record_index(s, id)].state == BackendSurfaceState::Destroyed,
    ensures
        spec_apply(s, e) matches Ok(t) ==> has_record(t, id) && t[record_index(t, id)].state
            == BackendSurfaceState::Destroyed,
        e.spec_id().value == id ==> spec_apply(s, e) == Err::<
            Seq<BackendSurfaceRecord>,
            BackendSurfaceLifecycleError,
        >(BackendSurfaceLifecycleError::AlreadyDestroyed { id: e.spec_id() }),
{
    let i = record_index(s, id);
    let eid = e.spec_id().value;
    if let Ok(t) = spec_apply(s, e) {
        if has_record(s, eid) {
            let j = record_index(s, eid);
            assert(i != j);
            assert(t[i] == s[i]);
            assert(has_record(t, id));
            let k = record_index(t, id);
            assert(t[k].id.value == id);
            assert(k == i) by {
                if k != i {
                    assert(t[k].id.value == s[k].id.value);
                    if k < i {
                        assert(s[k].id.value < s[i].id.value);
                    } else {
                        assert(s[i].id.value < s[k].id.value);
                    }
                }
            }
        } else {
            let c = created_record(e.spec_id());
            lemma_insert_sorted_contains(s, c, i);
            lemma_insert_sorted_unique(s, c);
            let k = choose|k: int| 0 <= k < t.len() && t[k] == s[i];
            assert(t[k].id.value == id);
            let k2 = record_index(t, id);
            assert(k2 == k) by {
                if k2 < k {
                    assert(t[k2].id.value < t[k].id.value);
                } else if k2 > k {
                    assert(t[k].id.value < t[k2].id.value);
                }
            }
        }
    }
}

/// An element of `s` keeps its value somewhere in `insert_sorted(s, r)`.
proof fn lemma_insert_sorted_contains(s: Seq<BackendSurfaceRecord>, r: BackendSurfaceRecord, i: int)
    requires
        0 <= i < s.len(),
    ensures
        exists|k: int| 0 <= k < insert_sorted(s, r).len() && insert_sorted(s, r)[k] == s[i],
        insert_sorted(s, r).len() == s.len() + 1,
    decreases s.len(),
{
    if r.id.value < s[0].id.value {
        assert(insert_sorted(s, r)[i + 1] == s[i]);
    } else if i == 0 {
        lemma_insert_sorted_len(s.drop_first(), r);
        assert(insert_sorted(s, r)[0] == s[0]);
    } else {
        lemma_insert_sorted_contains(s.drop_first(), r, i - 1);
        let t = insert_sorted(s.drop_first(), r);
        let k = choose|k: int| 0 <= k < t.len() && t[k] == s.drop_first()[i - 1];
        assert(insert_sorted(s, r)[k + 1] == s[i]);
    }
}

/// `insert_sorted` adds exactly one element.
proof fn lemma_insert_sorted_len(s: Seq<BackendSurfaceRecord>, r: BackendSurfaceRecord)
    ensures
        insert_sorted(s, r).len() == s.len() + 1,
    decreases s.len(),
{
    if s.len() > 0 && r.id.value >= s[0].id.value {
        lemma_insert_sorted_len(s.drop_first(), r);
    }
}

/// Inserting a new identity into a sorted sequence keeps it sorted.
pub proof fn lemma_insert_sorted_unique(s: Seq<BackendSurfaceRecord>, r: BackendSurfaceRecord)
    requires
        records_sorted(s),
        !has_record(s, r.id.value),
    ensures
        records_sorted(insert_sorted(s, r)),
    decreases s.len(),
{
    if s.len() == 0 {
    } else if r.id.value < s[0].id.value {
        let t = seq![r] + s;
        assert forall|i: int, j: int| 0 <= i < j < t.len() implies t[i].id.value
            < t[j].id.value by {
            if i > 0 {
                assert(t[i] == s[i - 1]);
            }
            assert(t[j] == s[j - 1]);
            assert(s[0].id.value <= s[j - 1].id.value);
        }
    } else {
        let d = s.drop_first();
        assert(s[0].id.value != r.id.value);
        assert(!has_record(d, r.id.value)) by {
            if has_record(d, r.id.value) {
                let k = choose|k: int| 0 <= k < d.len() && d[k].id.value == r.id.value;
                assert(s[k + 1].id.value == r.id.value);
            }
        }
        lemma_insert_sorted_unique(d, r);
        lemma_insert_sorted_len(d, r);
        let u = insert_sorted(d, r);
        let t = seq![s[0]] + u;
        assert forall|k: int| 0 <= k < u.len() implies s[0].id.value < u[k].id.value by {
            lemma_insert_sorted_members(d, r, k);
        }
        assert forall|i: int, j: int| 0 <= i < j < t.len() implies t[i].id.value
            < t[j].id.value by {
            if i == 0 {
                assert(t[j] == u[j - 1]);
            } else {
                assert(t[i] == u[i - 1]);
                assert(t[j] == u[j - 1]);
            }
        }
    }
}

/// Every element of `insert_sorted(s, r)` is `r` or an element of `s`.
proof fn lemma_insert_sorted_members(s: Seq<BackendSurfaceRecord>, r: BackendSurfaceRecord, k: int)
    requires
        0 <= k < insert_sorted(s, r).len(),
    ensures
        insert_sorted(s, r)[k] == r || exists|i: int|
            0 <= i < s.len() && insert_sorted(s, r)[k] == s[i],
    decreases s.len(),
{
    if s.len() == 0 {
    } else if r.id.value < s[0].id.value {
        if k > 0 {
            assert(insert_sorted(s, r)[k] == s[k - 1]);
        }
    } else if k == 0 {
        assert(insert_sorted(s, r)[0] == s[0]);
    } else {
        lemma_insert_sorted_members(s.drop_first(), r, k - 1);
        if insert_sorted(s, r)[k] != r {
            let i = choose|i: int|
                0 <= i < s.drop_first().len() && insert_sorted(s.drop_first(), r)[k - 1]
                    == s.drop_first()[i];
            assert(insert_sorted(s, r)[k] == s[i + 1]);
        }
    }
}

} // verus!
