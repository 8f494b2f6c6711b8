//! Pure-data pipeline from surface lifecycle traces to window admission
//! previews: `trace -> intent -> preview`, each stage keeping its own report.
//!
//! When the source trace fails, the later stages still run on the records kept
//! before the failure, and the overall status says `SourceTraceFailed`.

use vstd::prelude::*;

use crate::smithay_backend::surface_lifecycle::{
    BackendSurfaceLifecycleEvent, BackendSurfaceRecord, BackendSurfaceRegistry,
};
use crate::smithay_backend::surface_trace::{
    BackendSurfaceMockAdapter, BackendSurfaceTrace, BackendSurfaceTraceReport,
    BackendSurfaceTraceScenario, run_from, scenario_events,
};
use crate::smithay_backend::surface_window_intent::{
    BackendWindowCandidateIntent, BackendWindowCandidateIntentReport, SurfaceWindowIntentPlanner,
    intents_for,
};
use crate::smithay_backend::window_admission_preview::{
    BackendWindowAdmissionPreviewReport, WindowAdmissionPreviewPlanner, action_for,
    intents_warnings, source_warnings,
};

verus! {

/// Overall status of a pipeline run; preview warnings never change it.
#[derive(Debug, Clone, Copy, PartialEq, Eq, Structural)]
pub enum BackendSurfaceAdmissionPipelineStatus {
    /// The source trace applied every event.
    Complete,
    /// The source trace stopped at a rejected event.
    SourceTraceFailed,
}

/// The three stage reports of one pipeline run.
#[derive(Debug, Clone, PartialEq, Eq)]
pub struct BackendSurfaceAdmissionPipelineReport {
    /// Overall status.
    pub status: BackendSurfaceAdmissionPipelineStatus,
    /// Lifecycle trace replay report.
    pub trace_report: BackendSurfaceTraceReport,
    /// Intents planned from the final records.
    pub intent_report: BackendWindowCandidateIntentReport,
    /// Admission preview of the intents.
    pub preview_report: BackendWindowAdmissionPreviewReport,
}

/// Counts and failure position of a pipeline report.
#[derive(Debug, Clone, Copy, PartialEq, Eq, Structural)]
pub struct BackendSurfaceAdmissionPipelineSummary {
    pub status: BackendSurfaceAdmissionPipelineStatus,
    pub surface_count: usize,
    pub intent_count: usize,
    pub action_count: usize,
    pub warning_count: usize,
    pub source_failed_at: Option<usize>,
}

/// `report` is what the pipeline produces for `events` replayed on `before`.
pub open spec fn pipeline_result(
    report: BackendSurfaceAdmissionPipelineReport,
    before: Seq<BackendSurfaceRecord>,
    events: Seq<BackendSurfaceLifecycleEvent>,
) -> bool {
    let out = run_from(before, events, 0);
    let t = report.trace_report;
    let records = t.final_records@;
    &&& records == out.0
    &&& match out.1 {
        Some((k, e)) => t.failed_at matches Some(f) && f == k && t.error == Some(e)
            && t.applied_events == k,
        None => t.failed_at is None && t.error is None && t.applied_events == events.len(),
    }
    &&& (report.status == BackendSurfaceAdmissionPipelineStatus::Complete) == (out.1 is None)
    &&& report.intent_report.intents@ == intents_for(records)
    &&& report.intent_report.source_failed_at == t.failed_at
    &&& report.intent_report.source_error == t.error
    &&& report.preview_report.actions@ == report.intent_report.intents@.map_values(
        |i: BackendWindowCandidateIntent| action_for(i),
    )
    &&& report.preview_report.warnings@ == source_warnings(t.failed_at, t.error) + intents_warnings(
        report.intent_report.intents@,
    )
    &&& report.preview_report.source_failed_at == t.failed_at
    &&& report.preview_report.source_error == t.error
}

/// Two reports carry the same status, counts, records, intents, actions and warnings.
pub open spec fn reports_agree(
    a: BackendSurfaceAdmissionPipelineReport,
    b: BackendSurfaceAdmissionPipelineReport,
) -> bool {
    &&& a.status == b.status
    &&& a.trace_report.applied_events == b.trace_report.applied_events
    &&& a.trace_report.failed_at == b.trace_report.failed_at
    &&& a.trace_report.error == b.trace_report.error
    &&& a.trace_report.final_records@ == b.trace_report.final_records@
    &&& a.intent_report.intents@ == b.intent_report.intents@
    &&& a.intent_report.source_failed_at == b.intent_report.source_failed_at
    &&& a.intent_report.source_error == b.intent_report.source_error
    &&& a.preview_report.actions@ == b.preview_report.actions@
    &&& a.preview_report.warnings@ == b.preview_report.warnings@
    &&& a.preview_report.source_failed_at == b.preview_report.source_failed_at
    &&& a.preview_report.source_error == b.preview_report.source_error
}

/// The pipeline is a function of the starting records and the events: two
/// runs on the same input produce reports that agree in every stage.
pub proof fn law_pipeline_is_deterministic(
    a: BackendSurfaceAdmissionPipelineReport,
    b: BackendSurfaceAdmissionPipelineReport,
    before: Seq<BackendSurfaceRecord>,
    events: Seq<BackendSurfaceLifecycleEvent>,
)
    requires
        pipeline_result(a, before, events),
        pipeline_result(b, before, events),
    ensures
        reports_agree(a, b),
{
}

impl BackendSurfaceAdmissionPipelineSummary {
    /// Extracts the counts of a pipeline report.
    pub fn from_report(report: &BackendSurfaceAdmissionPipelineReport) -> (r: Self)
        ensures
            r.status == report.status,
            r.surface_count == report.trace_report.final_records@.len(),
            r.intent_count == report.intent_report.intents@.len(),
            r.action_count == report.preview_report.actions@.len(),
            r.warning_count == report.preview_report.warnings@.len(),
            r.source_failed_at == report.trace_report.failed_at,
    {
        Self {
            status: report.status,
            surface_count: report.trace_report.final_records.len(),
            intent_count: report.intent_report.intents.len(),
            action_count: report.preview_report.actions.len(),
            warning_count: report.preview_report.warnings.len(),
            source_failed_at: report.trace_report.failed_at,
        }
    }
}

impl BackendSurfaceAdmissionPipelineReport {
    /// The counts of this report.
    pub fn summary(&self) -> (r: BackendSurfaceAdmissionPipelineSummary)
        ensures
            r.status == self.status,
            r.surface_count == self.trace_report.final_records@.len(),
            r.intent_count == self.intent_report.intents@.len(),
            r.action_count == self.preview_report.actions@.len(),
            r.warning_count == self.preview_report.warnings@.len(),
            r.source_failed_at == self.trace_report.failed_at,
    {
        BackendSurfaceAdmissionPipelineSummary::from_report(self)
    }

    /// Every stage reports a fully applied source trace.
    pub fn source_succeeded(&self) -> (r: bool)
        ensures
            r == (self.status == BackendSurfaceAdmissionPipelineStatus::Complete
                && self.trace_report.failed_at is None && self.trace_report.error is None
                && self.intent_report.source_failed_at is None
                && self.intent_report.source_error is None
                && self.preview_report.source_failed_at is None
                && self.preview_report.source_error is None),
    {
        let complete = match self.status {
            BackendSurfaceAdmissionPipelineStatus::Complete => true,
            BackendSurfaceAdmissionPipelineStatus::SourceTraceFailed => false,
        };
        complete && self.trace_report.is_success() && self.intent_report.source_succeeded()
            && self.preview_report.source_succeeded()
    }
}

/// Stateless runner composing the trace replay, intent planner and previewer.
#[derive(Debug, Clone, Copy, Default)]
pub struct SurfaceAdmissionPipelineRunner {
    intent_planner: SurfaceWindowIntentPlanner,
    preview_planner: WindowAdmissionPreviewPlanner,
}

impl SurfaceAdmissionPipelineRunner {
    /// Creates a runner with the default planners.
    pub fn new() -> Self {
        Self {
            intent_planner: SurfaceWindowIntentPlanner::new(),
            preview_planner: WindowAdmissionPreviewPlanner::new(),
        }
    }

    /// Runs a trace on a fresh, empty registry.
    pub fn run_trace(&self, trace: &BackendSurfaceTrace) -> (r: BackendSurfaceAdmissionPipelineReport)
        ensures
            pipeline_result(r, Seq::empty(), trace.spec_events()),
    {
        let mut registry = BackendSurfaceRegistry::new();
        self.run_trace_with_registry(trace, &mut registry)
    }

    /// Runs the pipeline on the trace made of `events`.
    pub fn run_events(&self, events: Vec<BackendSurfaceLifecycleEvent>) -> (r:
        BackendSurfaceAdmissionPipelineReport)
        ensures
            pipeline_result(r, Seq::empty(), events@),
    {
        let trace = BackendSurfaceTrace::from_events(events);
        self.run_trace(&trace)
    }

    /// Builds a scenario with a fresh mock adapter and runs it.
    pub fn run_scenario(&self, scenario: BackendSurfaceTraceScenario) -> (r:
        BackendSurfaceAdmissionPipelineReport)
        ensures
            exists|events: Seq<BackendSurfaceLifecycleEvent>|
                scenario_events(scenario, 1, events) && pipeline_result(r, Seq::empty(), events),
    {
        let mut adapter = BackendSurfaceMockAdapter::new();
        let trace = scenario.build(&mut adapter);
        let r = self.run_trace(&trace);
        assert(scenario_events(scenario, 1, trace.spec_events()));
        r
    }

    /// Runs a trace against a caller-provided registry, which keeps the result.
    pub fn run_trace_with_registry(
        &self,
        trace: &BackendSurfaceTrace,
        registry: &mut BackendSurfaceRegistry,
    ) -> (r: BackendSurfaceAdmissionPipelineReport)
        requires
            old(registry).wf(),
        ensures
            final(registry).wf(),
            final(registry).spec_records() == r.trace_report.final_records@,
            pipeline_result(r, old(registry).spec_records(), trace.spec_events()),
    {
        let trace_report = trace.run(registry);
        let status = if trace_report.is_success() {
            BackendSurfaceAdmissionPipelineStatus::Complete
        } else {
            BackendSurfaceAdmissionPipelineStatus::SourceTraceFailed
        };
        let intent_report = self.intent_planner.intents_for_trace_report(&trace_report);
        let preview_report = self.preview_planner.preview_intent_report(&intent_report);
        BackendSurfaceAdmissionPipelineReport { status, trace_report, intent_report, preview_report }
    }
}

} // verus!
