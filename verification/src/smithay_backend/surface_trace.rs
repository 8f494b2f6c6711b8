//! Replayable surface lifecycle traces, a mock adapter that builds them, and
//! the named trace scenarios used as regression fixtures.
//!
//! Replaying a trace applies its events in order and stops at the first event
//! the registry rejects; the report keeps the records as they were just before
//! that event.

use vstd::prelude::*;
use vstd::string::*;

use crate::smithay_backend::surface_lifecycle::{
    BackendSurfaceId, BackendSurfaceLifecycleError, BackendSurfaceLifecycleEvent,
    BackendSurfaceRecord, BackendSurfaceRegistry, BackendSurfaceSize, spec_apply,
};

verus! {

/// Outcome of replaying events from position `i` on: final records, and the
/// position and error of the first rejected event, if any.
pub open spec fn run_from(
    s: Seq<BackendSurfaceRecord>,
    events: Seq<BackendSurfaceLifecycleEvent>,
    i: int,
) -> (Seq<BackendSurfaceRecord>, Option<(int, BackendSurfaceLifecycleError)>)
    decreases events.len() - i,
{
    if i < 0 || i >= events.len() {
        (s, None)
    } else {
        match spec_apply(s, events[i]) {
            Ok(t) => run_from(t, events, i + 1),
            Err(e) => (s, Some((i, e))),
        }
    }
}

/// An ordered list of lifecycle events.
#[derive(Debug, Clone, PartialEq, Eq)]
pub struct BackendSurfaceTrace {
    events: Vec<BackendSurfaceLifecycleEvent>,
}

/// Result of replaying a trace against a registry.
#[derive(Debug, Clone, PartialEq, Eq)]
pub struct BackendSurfaceTraceReport {
    /// Number of events applied successfully.
    pub applied_events: usize,
    /// Index of the first rejected event.
    pub failed_at: Option<usize>,
    /// Error of the first rejected event.
    pub error: Option<BackendSurfaceLifecycleError>,
    /// Registry records when the replay stopped, in identity order.
    pub final_records: Vec<BackendSurfaceRecord>,
}

impl BackendSurfaceTraceReport {
    /// The replay applied every event.
    pub fn is_success(&self) -> (r: bool)
        ensures
            r == (self.failed_at is None && self.error is None),
    {
        self.failed_at.is_none() && self.error.is_none()
    }
}

impl BackendSurfaceTrace {
    /// The events of the trace.
    pub closed spec fn spec_events(&self) -> Seq<BackendSurfaceLifecycleEvent> {
        self.events@
    }

    /// Creates an empty trace.
    pub fn new() -> (r: Self)
        ensures
            r.spec_events() == Seq::<BackendSurfaceLifecycleEvent>::empty(),
    {
        Self { events: Vec::new() }
    }

    /// Creates a trace holding exactly `events`, in order.
    pub fn from_events(events: Vec<BackendSurfaceLifecycleEvent>) -> (r: Self)
        ensures
            r.spec_events() == events@,
    {
        Self { events }
    }

    /// Appends one event.
    pub fn push(&mut self, event: BackendSurfaceLifecycleEvent)
        ensures
            final(self).spec_events() == old(self).spec_events().push(event),
    {
        self.events.push(event);
    }

    /// The events of the trace, in order.
    pub fn events(&self) -> (r: &[BackendSurfaceLifecycleEvent])
        ensures
            r@ == self.spec_events(),
    {
        self.events.as_slice()
    }

    /// Replays the trace against `registry`, stopping at the first rejected event.
    pub fn run(&self, registry: &mut BackendSurfaceRegistry) -> (r: BackendSurfaceTraceReport)
        requires
            old(registry).wf(),
        ensures
            final(registry).wf(),
            ({
                let out = run_from(old(registry).spec_records(), self.spec_events(), 0);
                &&& final(registry).spec_records() == out.0
                &&& r.final_records@ == out.0
                &&& match out.1 {
                    Some((k, e)) => r.failed_at matches Some(f) && f == k && r.error == Some(e)
                        && r.applied_events == k,
                    None => r.failed_at is None && r.error is None && r.applied_events
                        == self.spec_events().len(),
                }
            }),
    {
        let ghost start = registry.spec_records();
        let mut i: usize = 0;
        while i < self.events.len()
            invariant
                registry.wf(),
                i <= self.events@.len(),
                start == old(registry).spec_records(),
                run_from(registry.spec_records(), self.events@, i as int) == run_from(
                    start,
                    self.events@,
                    0,
                ),
            decreases self.events@.len() - i,
        {
            let ghost cur = registry.spec_records();
            let result = registry.apply(&self.events[i]);
            match result {
                Ok(()) => {},
                Err(error) => {
                    assert(run_from(cur, self.events@, i as int) == (cur, Some((i as int, error))));
                    return BackendSurfaceTraceReport {
                        applied_events: i,
                        failed_at: Some(i),
                        error: Some(error),
                        final_records: registry.records(),
                    };
                },
            }
            i = i + 1;
        }
        BackendSurfaceTraceReport {
            applied_events: i,
            failed_at: None,
            error: None,
            final_records: registry.records(),
        }
    }
}

/// Title used by the mock adapter for mapped surfaces.
pub open spec fn mock_title() -> Seq<char> {
    "Mock Surface"@
}

/// Title used by the mock adapter when a surface is mapped again.
pub open spec fn mock_remap_title() -> Seq<char> {
    "Remapped Mock Surface"@
}

/// Application identity used by the mock adapter.
pub open spec fn mock_app_id() -> Seq<char> {
    "sky-mirror.mock"@
}

/// `e` maps surface `id` with the given title and application identity.
pub open spec fn is_mapped_with(
    e: BackendSurfaceLifecycleEvent,
    id: BackendSurfaceId,
    title: Seq<char>,
    app_id: Seq<char>,
) -> bool {
    &&& e matches BackendSurfaceLifecycleEvent::Mapped { id: i, title: Some(t), app_id: Some(a) }
    &&& i == id
    &&& t@ == title
    &&& a@ == app_id
}

/// `e` configures surface `id` to the mock size 1280x720.
pub open spec fn is_mock_configure(e: BackendSurfaceLifecycleEvent, id: BackendSurfaceId) -> bool {
    e == BackendSurfaceLifecycleEvent::Configured {
        id,
        size: BackendSurfaceSize { width: 1280, height: 720 },
    }
}

/// The exact event sequence of each scenario when identities start at `start`.
pub open spec fn scenario_events(
    scenario: BackendSurfaceTraceScenario,
    start: u64,
    ev: Seq<BackendSurfaceLifecycleEvent>,
) -> bool {
    let id = BackendSurfaceId { value: start };
    match scenario {
        BackendSurfaceTraceScenario::SingleMap => {
            &&& ev.len() == 2
            &&& ev[0] == BackendSurfaceLifecycleEvent::Created { id }
            &&& is_mapped_with(ev[1], id, mock_title(), mock_app_id())
        },
        BackendSurfaceTraceScenario::ConfigureThenMap => {
            &&& ev.len() == 3
            &&& ev[0] == BackendSurfaceLifecycleEvent::Created { id }
            &&& is_mock_configure(ev[1], id)
            &&& is_mapped_with(ev[2], id, mock_title(), mock_app_id())
        },
        BackendSurfaceTraceScenario::MapUnmapRemap => {
            &&& ev.len() == 4
            &&& ev[0] == BackendSurfaceLifecycleEvent::Created { id }
            &&& is_mapped_with(ev[1], id, mock_title(), mock_app_id())
            &&& ev[2] == BackendSurfaceLifecycleEvent::Unmapped { id }
            &&& is_mapped_with(ev[3], id, mock_remap_title(), mock_app_id())
        },
        BackendSurfaceTraceScenario::Destroy => {
            &&& ev.len() == 2
            &&& ev[0] == BackendSurfaceLifecycleEvent::Created { id }
            &&& ev[1] == BackendSurfaceLifecycleEvent::Destroyed { id }
        },
        BackendSurfaceTraceScenario::InvalidDestroyedRemap => {
            &&& ev.len() == 3
            &&& ev[0] == BackendSurfaceLifecycleEvent::Created { id }
            &&& ev[1] == BackendSurfaceLifecycleEvent::Destroyed { id }
            &&& is_mapped_with(ev[2], id, mock_title(), mock_app_id())
        },
        BackendSurfaceTraceScenario::MultiSurface => {
            let a = id;
            let b = BackendSurfaceId { value: next_value(start) };
            let c = BackendSurfaceId { value: next_value(next_value(start)) };
            &&& ev.len() == 8
            &&& ev[0] == BackendSurfaceLifecycleEvent::Created { id: a }
            &&& is_mock_configure(ev[1], a)
            &&& is_mapped_with(ev[2], a, mock_title(), mock_app_id())
            &&& ev[3] == BackendSurfaceLifecycleEvent::Created { id: b }
            &&& is_mapped_with(ev[4], b, mock_title(), mock_app_id())
            &&& ev[5] == BackendSurfaceLifecycleEvent::Unmapped { id: b }
            &&& ev[6] == BackendSurfaceLifecycleEvent::Created { id: c }
            &&& ev[7] == BackendSurfaceLifecycleEvent::Destroyed { id: c }
        },
    }
}

/// Allocates surface identities and builds well-formed lifecycle traces.
#[derive(Debug, Clone)]
pub struct BackendSurfaceMockAdapter {
    next_id: u64,
}

impl BackendSurfaceMockAdapter {
    /// The next identity the adapter will allocate.
    pub closed spec fn spec_next(&self) -> u64 {
        self.next_id
    }

    /// Creates an adapter allocating from identity 1.
    pub fn new() -> (r: Self)
        ensures
            r.spec_next() == 1,
    {
        Self { next_id: 1 }
    }

    /// Allocates the next surface identity (saturating at the maximum).
    pub fn allocate_id(&mut self) -> (r: BackendSurfaceId)
        ensures
            r.value == old(self).spec_next(),
            final(self).spec_next() == if r.value == u64::MAX {
                r.value
            } else {
                (r.value + 1) as u64
            },
    {
        let id = BackendSurfaceId::new(self.next_id);
        self.next_id = self.next_id.saturating_add(1);
        id
    }

    fn mapped(id: BackendSurfaceId, title: &str) -> (r: BackendSurfaceLifecycleEvent)
        ensures
            is_mapped_with(r, id, title@, mock_app_id()),
    {
        BackendSurfaceLifecycleEvent::Mapped {
            id,
            title: Some(String::from_str(title)),
            app_id: Some(String::from_str("sky-mirror.mock")),
        }
    }

    fn configured(id: BackendSurfaceId) -> (r: BackendSurfaceLifecycleEvent)
        ensures
            is_mock_configure(r, id),
    {
        BackendSurfaceLifecycleEvent::Configured {
            id,
            size: BackendSurfaceSize { width: 1280, height: 720 },
        }
    }

    /// One surface created and mapped without a configured size.
    pub fn single_surface_map_trace(&mut self) -> (r: BackendSurfaceTrace)
        ensures
            scenario_events(BackendSurfaceTraceScenario::SingleMap, old(self).spec_next(), r.spec_events()),
    {
        let id = self.allocate_id();
        let mut trace = BackendSurfaceTrace::new();
        trace.push(BackendSurfaceLifecycleEvent::Created { id });
        trace.push(Self::mapped(id, "Mock Surface"));
        trace
    }

    /// One surface created, configured to 1280x720, then mapped.
    pub fn single_surface_configure_then_map_trace(&mut self) -> (r: BackendSurfaceTrace)
        ensures
            scenario_events(BackendSurfaceTraceScenario::ConfigureThenMap, old(self).spec_next(), r.spec_events()),
    {
        let id = self.allocate_id();
        let mut trace = BackendSurfaceTrace::new();
        trace.push(BackendSurfaceLifecycleEvent::Created { id });
        trace.push(Self::configured(id));
        trace.push(Self::mapped(id, "Mock Surface"));
        trace
    }

    /// One surface mapped, unmapped, then mapped again under a new title.
    pub fn single_surface_map_unmap_remap_trace(&mut self) -> (r: BackendSurfaceTrace)
        ensures
            scenario_events(BackendSurfaceTraceScenario::MapUnmapRemap, old(self).spec_next(), r.spec_events()),
    {
        let id = self.allocate_id();
        let mut trace = BackendSurfaceTrace::new();
        trace.push(BackendSurfaceLifecycleEvent::Created { id });
        trace.push(Self::mapped(id, "Mock Surface"));
        trace.push(BackendSurfaceLifecycleEvent::Unmapped { id });
        trace.push(Self::mapped(id, "Remapped Mock Surface"));
        trace
    }

    /// One surface created then destroyed.
    pub fn single_surface_destroy_trace(&mut self) -> (r: BackendSurfaceTrace)
        ensures
            scenario_events(BackendSurfaceTraceScenario::Destroy, old(self).spec_next(), r.spec_events()),
    {
        let id = self.allocate_id();
        let mut trace = BackendSurfaceTrace::new();
        trace.push(BackendSurfaceLifecycleEvent::Created { id });
        trace.push(BackendSurfaceLifecycleEvent::Destroyed { id });
        trace
    }

    /// One surface destroyed and then mapped again, which the registry rejects.
    pub fn invalid_destroyed_remap_trace(&mut self) -> (r: BackendSurfaceTrace)
        ensures
            scenario_events(BackendSurfaceTraceScenario::InvalidDestroyedRemap, old(self).spec_next(), r.spec_events()),
    {
        let id = self.allocate_id();
        let mut trace = BackendSurfaceTrace::new();
        trace.push(BackendSurfaceLifecycleEvent::Created { id });
        trace.push(BackendSurfaceLifecycleEvent::Destroyed { id });
        trace.push(Self::mapped(id, "Mock Surface"));
        trace
    }

    /// Three surfaces ending mapped (configured), unmapped and destroyed.
    pub fn multi_surface_trace(&mut self) -> (r: BackendSurfaceTrace)
        ensures
            scenario_events(BackendSurfaceTraceScenario::MultiSurface, old(self).spec_next(), r.spec_events()),
    {
        let a = self.allocate_id();
        let b = self.allocate_id();
        let c = self.allocate_id();
        let mut trace = BackendSurfaceTrace::new();
        trace.push(BackendSurfaceLifecycleEvent::Created { id: a });
        trace.push(Self::configured(a));
        trace.push(Self::mapped(a, "Mock Surface"));
        trace.push(BackendSurfaceLifecycleEvent::Created { id: b });
        trace.push(Self::mapped(b, "Mock Surface"));
        trace.push(BackendSurfaceLifecycleEvent::Unmapped { id: b });
        trace.push(BackendSurfaceLifecycleEvent::Created { id: c });
        trace.push(BackendSurfaceLifecycleEvent::Destroyed { id: c });
        trace
    }
}

/// The identity the adapter allocates after `v`.
pub open spec fn next_value(v: u64) -> u64 {
    if v == u64::MAX { v } else { (v + 1) as u64 }
}

/// Named lifecycle scenarios built by the mock adapter.
#[derive(Debug, Clone, Copy, PartialEq, Eq, Structural)]
pub enum BackendSurfaceTraceScenario {
    /// Create then map.
    SingleMap,
    /// Create, configure, map.
    ConfigureThenMap,
    /// Map, unmap, map again.
    MapUnmapRemap,
    /// Create then destroy.
    Destroy,
    /// Destroy then try to map again.
    InvalidDestroyedRemap,
    /// Three surfaces with mixed final states.
    MultiSurface,
}

impl BackendSurfaceTraceScenario {
    /// Builds the scenario's trace with identities from `adapter`; the trace
    /// equals the one the matching adapter method builds.
    pub fn build(self, adapter: &mut BackendSurfaceMockAdapter) -> (r: BackendSurfaceTrace)
        ensures
            scenario_events(self, old(adapter).spec_next(), r.spec_events()),
    {
        match self {
            BackendSurfaceTraceScenario::SingleMap => adapter.single_surface_map_trace(),
            BackendSurfaceTraceScenario::ConfigureThenMap => {
                adapter.single_surface_configure_then_map_trace()
            },
            BackendSurfaceTraceScenario::MapUnmapRemap => {
                adapter.single_surface_map_unmap_remap_trace()
            },
            BackendSurfaceTraceScenario::Destroy => adapter.single_surface_destroy_trace(),
            BackendSurfaceTraceScenario::InvalidDestroyedRemap => {
                adapter.invalid_destroyed_remap_trace()
            },
            BackendSurfaceTraceScenario::MultiSurface => adapter.multi_surface_trace(),
        }
    }
}

} // verus!
