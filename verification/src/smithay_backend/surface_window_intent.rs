//! Plans window candidate intents from the final surface records of a trace:
//! mapped surfaces become `Create`, unmapped ones `Hide`, destroyed ones
//! `Close`; surfaces that were never mapped produce no intent.

use vstd::prelude::*;

use crate::smithay_backend::surface_lifecycle::{
    BackendSurfaceId, BackendSurfaceLifecycleError, BackendSurfaceRecord, BackendSurfaceSize,
    BackendSurfaceState, copy_opt_string,
};
use crate::smithay_backend::surface_trace::BackendSurfaceTraceReport;

verus! {

/// Identity of a window candidate; derived from its surface identity.
#[derive(Debug, Clone, Copy, PartialEq, Eq, Structural)]
pub struct BackendWindowCandidateId {
    pub value: u64,
}

impl BackendWindowCandidateId {
    /// The candidate identity of a surface.
    pub fn for_surface(surface: BackendSurfaceId) -> (r: Self)
        ensures
            r.value == surface.value,
    {
        Self { value: surface.value }
    }
}

/// What should happen to the window candidate of one surface.
#[derive(Debug, Clone, PartialEq, Eq)]
pub enum BackendWindowCandidateIntent {
    /// A mapped surface should get a window.
    Create {
        candidate_id: BackendWindowCandidateId,
        surface_id: BackendSurfaceId,
        title: Option<String>,
        app_id: Option<String>,
        size: Option<BackendSurfaceSize>,
    },
    /// An unmapped surface's window should be hidden.
    Hide { candidate_id: BackendWindowCandidateId, surface_id: BackendSurfaceId },
    /// A destroyed surface's window should be closed.
    Close { candidate_id: BackendWindowCandidateId, surface_id: BackendSurfaceId },
}

/// The intent planned for one record, if any.
pub open spec fn intent_for(r: BackendSurfaceRecord) -> Option<BackendWindowCandidateIntent> {
    let candidate_id = BackendWindowCandidateId { value: r.id.value };
    match r.state {
        BackendSurfaceState::Created => None,
        BackendSurfaceState::Mapped => Some(
            BackendWindowCandidateIntent::Create {
                candidate_id,
                surface_id: r.id,
                title: r.title,
                app_id: r.app_id,
                size: r.size,
            },
        ),
        BackendSurfaceState::Unmapped => Some(
            BackendWindowCandidateIntent::Hide { candidate_id, surface_id: r.id },
        ),
        BackendSurfaceState::Destroyed => Some(
            BackendWindowCandidateIntent::Close { candidate_id, surface_id: r.id },
        ),
    }
}

/// The intents planned for a record sequence, in record order.
pub open spec fn intents_for(s: Seq<BackendSurfaceRecord>) -> Seq<BackendWindowCandidateIntent>
    decreases s.len(),
{
    if s.len() == 0 {
        Seq::empty()
    } else {
        match intent_for(s.last()) {
            Some(i) => intents_for(s.drop_last()).push(i),
            None => intents_for(s.drop_last()),
        }
    }
}

/// Intents planned from one trace report.
#[derive(Debug, Clone, PartialEq, Eq)]
pub struct BackendWindowCandidateIntentReport {
    /// Planned intents in surface identity order.
    pub intents: Vec<BackendWindowCandidateIntent>,
    /// Index of the source trace's first rejected event.
    pub source_failed_at: Option<usize>,
    /// Error of the source trace's first rejected event.
    pub source_error: Option<BackendSurfaceLifecycleError>,
}

impl BackendWindowCandidateIntentReport {
    /// The source trace applied every event.
    pub fn source_succeeded(&self) -> (r: bool)
        ensures
            r == (self.source_failed_at is None && self.source_error is None),
    {
        self.source_failed_at.is_none() && self.source_error.is_none()
    }
}

/// Stateless planner from surface records to window candidate intents.
#[derive(Debug, Clone, Copy, Default)]
pub struct SurfaceWindowIntentPlanner;

impl SurfaceWindowIntentPlanner {
    /// Creates the planner.
    pub fn new() -> Self {
        SurfaceWindowIntentPlanner
    }

    /// Plans the intent for one record.
    pub fn intent_for_record(&self, record: &BackendSurfaceRecord) -> (r: Option<
        BackendWindowCandidateIntent,
    >)
        ensures
            r == intent_for(*record),
    {
        let candidate_id = BackendWindowCandidateId::for_surface(record.id);
        match record.state {
            BackendSurfaceState::Created => None,
            BackendSurfaceState::Mapped => Some(
                BackendWindowCandidateIntent::Create {
                    candidate_id,
                    surface_id: record.id,
                    title: copy_opt_string(&record.title),
                    app_id: copy_opt_string(&record.app_id),
                    size: record.size,
                },
            ),
            BackendSurfaceState::Unmapped => Some(
                BackendWindowCandidateIntent::Hide { candidate_id, surface_id: record.id },
            ),
            BackendSurfaceState::Destroyed => Some(
                BackendWindowCandidateIntent::Close { candidate_id, surface_id: record.id },
            ),
        }
    }

    /// Plans intents for records in order.
    pub fn intents_for_records(&self, records: &[BackendSurfaceRecord]) -> (r: Vec<
        BackendWindowCandidateIntent,
    >)
        ensures
            r@ == intents_for(records@),
    {
        let mut out: Vec<BackendWindowCandidateIntent> = Vec::new();
        let mut i: usize = 0;
        while i < records.len()
            invariant
                i <= records@.len(),
                out@ == intents_for(records@.take(i as int)),
            decreases records@.len() - i,
        {
            let planned = self.intent_for_record(&records[i]);
            assert(records@.take(i + 1).drop_last() =~= records@.take(i as int));
            match planned {
                Some(intent) => out.push(intent),
                None => {},
            }
            i = i + 1;
        }
        assert(records@.take(i as int) =~= records@);
        out
    }

    /// Plans intents from a trace report's final records, carrying its source status.
    pub fn intents_for_trace_report(&self, report: &BackendSurfaceTraceReport) -> (r:
        BackendWindowCandidateIntentReport)
        ensures
            r.intents@ == intents_for(report.final_records@),
            r.source_failed_at == report.failed_at,
            r.source_error == report.error,
    {
        BackendWindowCandidateIntentReport {
            intents: self.intents_for_records(report.final_records.as_slice()),
            source_failed_at: report.failed_at,
            source_error: report.error,
        }
    }
}

} // verus!
