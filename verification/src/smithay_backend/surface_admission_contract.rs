//! Stable contract snapshots of the surface admission pipeline: each named
//! scenario is run and condensed to its status and stage counts, for
//! regression comparison and a readable summary text.

use vstd::prelude::*;
use vstd::string::*;

use crate::smithay_backend::surface_admission_pipeline::{
    BackendSurfaceAdmissionPipelineReport, BackendSurfaceAdmissionPipelineStatus,
    SurfaceAdmissionPipelineRunner, pipeline_result,
};
use crate::smithay_backend::surface_lifecycle::BackendSurfaceLifecycleEvent;
use crate::smithay_backend::surface_trace::{
    BackendSurfaceTrace, BackendSurfaceTraceScenario, scenario_events,
};
use crate::text::{decimal, push_decimal};

verus! {

/// Condensed view of one scenario's pipeline report.
#[derive(Debug, Clone, PartialEq, Eq)]
pub struct BackendSurfaceAdmissionContractSnapshot {
    pub scenario_name: &'static str,
    pub status: BackendSurfaceAdmissionPipelineStatus,
    pub surface_count: usize,
    pub intent_count: usize,
    pub action_count: usize,
    pub warning_count: usize,
    pub source_failed_at: Option<usize>,
}

/// `snap` condenses `report` under the name `name`.
pub open spec fn snapshot_of(
    snap: BackendSurfaceAdmissionContractSnapshot,
    name: Seq<char>,
    report: BackendSurfaceAdmissionPipelineReport,
) -> bool {
    &&& snap.scenario_name@ == name
    &&& snap.status == report.status
    &&& snap.surface_count == report.trace_report.final_records@.len()
    &&& snap.intent_count == report.intent_report.intents@.len()
    &&& snap.action_count == report.preview_report.actions@.len()
    &&& snap.warning_count == report.preview_report.warnings@.len()
    &&& snap.source_failed_at == report.trace_report.failed_at
}

impl BackendSurfaceAdmissionContractSnapshot {
    /// Condenses a pipeline report under a scenario name.
    pub fn from_report(scenario_name: &'static str, report: &BackendSurfaceAdmissionPipelineReport) -> (r:
        Self)
        ensures
            snapshot_of(r, scenario_name@, *report),
            r.scenario_name == scenario_name,
    {
        let summary = report.summary();
        Self {
            scenario_name,
            status: summary.status,
            surface_count: summary.surface_count,
            intent_count: summary.intent_count,
            action_count: summary.action_count,
            warning_count: summary.warning_count,
            source_failed_at: summary.source_failed_at,
        }
    }
}

/// The scenarios whose snapshots form the contract.
#[derive(Debug, Clone, Copy, PartialEq, Eq, Structural)]
pub enum BackendSurfaceAdmissionContractScenario {
    /// Empty trace.
    Empty,
    /// Create then map.
    SingleMap,
    /// Configure then map.
    ConfigureThenMap,
    /// Map, unmap, map again.
    MapUnmapRemap,
    /// Create then destroy.
    Destroy,
    /// Map after destroy, rejected.
    InvalidDestroyedRemap,
    /// Three surfaces with mixed final states.
    MultiSurface,
}

/// Stable name of a contract scenario.
pub open spec fn scenario_name(s: BackendSurfaceAdmissionContractScenario) -> Seq<char> {
    match s {
        BackendSurfaceAdmissionContractScenario::Empty => "Empty"@,
        BackendSurfaceAdmissionContractScenario::SingleMap => "SingleMap"@,
        BackendSurfaceAdmissionContractScenario::ConfigureThenMap => "ConfigureThenMap"@,
        BackendSurfaceAdmissionContractScenario::MapUnmapRemap => "MapUnmapRemap"@,
        BackendSurfaceAdmissionContractScenario::Destroy => "Destroy"@,
        BackendSurfaceAdmissionContractScenario::InvalidDestroyedRemap => "InvalidDestroyedRemap"@,
        BackendSurfaceAdmissionContractScenario::MultiSurface => "MultiSurface"@,
    }
}

/// The contract scenarios in contract order.
pub open spec fn all_scenarios() -> Seq<BackendSurfaceAdmissionContractScenario> {
    seq![
        BackendSurfaceAdmissionContractScenario::Empty,
        BackendSurfaceAdmissionContractScenario::SingleMap,
        BackendSurfaceAdmissionContractScenario::ConfigureThenMap,
        BackendSurfaceAdmissionContractScenario::MapUnmapRemap,
        BackendSurfaceAdmissionContractScenario::Destroy,
        BackendSurfaceAdmissionContractScenario::InvalidDestroyedRemap,
        BackendSurfaceAdmissionContractScenario::MultiSurface,
    ]
}

/// The trace scenario behind a contract scenario (`Empty` has none).
pub open spec fn trace_scenario(s: BackendSurfaceAdmissionContractScenario) -> Option<
    BackendSurfaceTraceScenario,
> {
    match s {
        BackendSurfaceAdmissionContractScenario::Empty => None,
        BackendSurfaceAdmissionContractScenario::SingleMap => Some(
            BackendSurfaceTraceScenario::SingleMap,
        ),
        BackendSurfaceAdmissionContractScenario::ConfigureThenMap => Some(
            BackendSurfaceTraceScenario::ConfigureThenMap,
        ),
        BackendSurfaceAdmissionContractScenario::MapUnmapRemap => Some(
            BackendSurfaceTraceScenario::MapUnmapRemap,
        ),
        BackendSurfaceAdmissionContractScenario::Destroy => Some(BackendSurfaceTraceScenario::Destroy),
        BackendSurfaceAdmissionContractScenario::InvalidDestroyedRemap => Some(
            BackendSurfaceTraceScenario::InvalidDestroyedRemap,
        ),
        BackendSurfaceAdmissionContractScenario::MultiSurface => Some(
            BackendSurfaceTraceScenario::MultiSurface,
        ),
    }
}

/// `report` is the pipeline result of contract scenario `s`.
pub open spec fn scenario_report(
    s: BackendSurfaceAdmissionContractScenario,
    report: BackendSurfaceAdmissionPipelineReport,
) -> bool {
    match trace_scenario(s) {
        None => pipeline_result(report, Seq::empty(), Seq::empty()),
        Some(t) => exists|events: Seq<BackendSurfaceLifecycleEvent>|
            scenario_events(t, 1, events) && pipeline_result(report, Seq::empty(), events),
    }
}

/// `snap` is the snapshot of some pipeline result of contract scenario `s`.
pub open spec fn is_contract_snapshot(
    s: BackendSurfaceAdmissionContractScenario,
    snap: BackendSurfaceAdmissionContractSnapshot,
) -> bool {
    exists|report: BackendSurfaceAdmissionPipelineReport|
        scenario_report(s, report) && snapshot_of(snap, scenario_name(s), report)
}

/// `snaps` holds one contract snapshot per scenario, in contract order.
pub open spec fn is_contract_snapshot_list(snaps: Seq<BackendSurfaceAdmissionContractSnapshot>) -> bool {
    &&& snaps.len() == 7
    &&& forall|i: int| 0 <= i < 7 ==> is_contract_snapshot(all_scenarios()[i], #[trigger] snaps[i])
}

impl BackendSurfaceAdmissionContractScenario {
    /// All contract scenarios in contract order.
    pub const ALL: [Self; 7] = [
        Self::Empty,
        Self::SingleMap,
        Self::ConfigureThenMap,
        Self::MapUnmapRemap,
        Self::Destroy,
        Self::InvalidDestroyedRemap,
        Self::MultiSurface,
    ];

    /// Stable name for logs and regression output.
    pub fn name(self) -> (r: &'static str)
        ensures
            r@ == scenario_name(self),
    {
        match self {
            Self::Empty => "Empty",
            Self::SingleMap => "SingleMap",
            Self::ConfigureThenMap => "ConfigureThenMap",
            Self::MapUnmapRemap => "MapUnmapRemap",
            Self::Destroy => "Destroy",
            Self::InvalidDestroyedRemap => "InvalidDestroyedRemap",
            Self::MultiSurface => "MultiSurface",
        }
    }
}

/// Stable name of a pipeline status.
pub open spec fn status_text(status: BackendSurfaceAdmissionPipelineStatus) -> Seq<char> {
    match status {
        BackendSurfaceAdmissionPipelineStatus::Complete => "Complete"@,
        BackendSurfaceAdmissionPipelineStatus::SourceTraceFailed => "SourceTraceFailed"@,
    }
}

fn status_name(status: BackendSurfaceAdmissionPipelineStatus) -> (r: &'static str)
    ensures
        r@ == status_text(status),
{
    match status {
        BackendSurfaceAdmissionPipelineStatus::Complete => "Complete",
        BackendSurfaceAdmissionPipelineStatus::SourceTraceFailed => "SourceTraceFailed",
    }
}

/// One summary line of a snapshot.
pub open spec fn snapshot_line(snap: BackendSurfaceAdmissionContractSnapshot) -> Seq<char> {
    "* "@ + snap.scenario_name@ + ": "@ + status_text(snap.status) + ", surfaces="@ + decimal(
        snap.surface_count as nat,
    ) + ", intents="@ + decimal(snap.intent_count as nat) + ", actions="@ + decimal(
        snap.action_count as nat,
    ) + ", warnings="@ + decimal(snap.warning_count as nat) + match snap.source_failed_at {
        Some(f) => ", source_failed_at="@ + decimal(f as nat),
        None => Seq::empty(),
    } + "\n"@
}

/// The summary lines of a snapshot sequence, in order.
pub open spec fn snapshot_lines(s: Seq<BackendSurfaceAdmissionContractSnapshot>) -> Seq<char>
    decreases s.len(),
{
    if s.len() == 0 {
        Seq::empty()
    } else {
        snapshot_lines(s.drop_last()) + snapshot_line(s.last())
    }
}

/// Builds the summary line of one snapshot.
fn snapshot_line_text(snapshot: &BackendSurfaceAdmissionContractSnapshot) -> (r: String)
    ensures
        r@ == snapshot_line(*snapshot),
{
    let mut line = String::from_str("* ");
    line.append(snapshot.scenario_name);
    line.append(": ");
    line.append(status_name(snapshot.status));
    line.append(", surfaces=");
    push_decimal(&mut line, snapshot.surface_count);
    line.append(", intents=");
    push_decimal(&mut line, snapshot.intent_count);
    line.append(", actions=");
    push_decimal(&mut line, snapshot.action_count);
    line.append(", warnings=");
    push_decimal(&mut line, snapshot.warning_count);
    let ghost counts = line@;
    match snapshot.source_failed_at {
        Some(failed_at) => {
            line.append(", source_failed_at=");
            push_decimal(&mut line, failed_at);
            assert(line@ =~= counts + (", source_failed_at="@ + decimal(failed_at as nat)));
        },
        None => {
            assert(line@ =~= counts + Seq::<char>::empty());
        },
    }
    line.append("\n");
    line
}

/// Stateless runner of the contract scenarios.
#[derive(Debug, Clone, Copy, Default)]
pub struct SurfaceAdmissionContractRunner {
    pipeline_runner: SurfaceAdmissionPipelineRunner,
}

impl SurfaceAdmissionContractRunner {
    /// Creates a contract runner with the default pipeline.
    pub fn new() -> Self {
        Self { pipeline_runner: SurfaceAdmissionPipelineRunner::new() }
    }

    /// Runs one contract scenario and returns its full pipeline report.
    pub fn report_for_scenario(&self, scenario: BackendSurfaceAdmissionContractScenario) -> (r:
        BackendSurfaceAdmissionPipelineReport)
        ensures
            scenario_report(scenario, r),
    {
        match scenario {
            BackendSurfaceAdmissionContractScenario::Empty => {
                self.pipeline_runner.run_trace(&BackendSurfaceTrace::new())
            },
            BackendSurfaceAdmissionContractScenario::SingleMap => {
                self.pipeline_runner.run_scenario(BackendSurfaceTraceScenario::SingleMap)
            },
            BackendSurfaceAdmissionContractScenario::ConfigureThenMap => {
                self.pipeline_runner.run_scenario(BackendSurfaceTraceScenario::ConfigureThenMap)
            },
            BackendSurfaceAdmissionContractScenario::MapUnmapRemap => {
                self.pipeline_runner.run_scenario(BackendSurfaceTraceScenario::MapUnmapRemap)
            },
            BackendSurfaceAdmissionContractScenario::Destroy => {
                self.pipeline_runner.run_scenario(BackendSurfaceTraceScenario::Destroy)
            },
            BackendSurfaceAdmissionContractScenario::InvalidDestroyedRemap => {
                self.pipeline_runner.run_scenario(BackendSurfaceTraceScenario::InvalidDestroyedRemap)
            },
            BackendSurfaceAdmissionContractScenario::MultiSurface => {
                self.pipeline_runner.run_scenario(BackendSurfaceTraceScenario::MultiSurface)
            },
        }
    }

    /// Runs one contract scenario and condenses it to a snapshot.
    pub fn snapshot_for_scenario(&self, scenario: BackendSurfaceAdmissionContractScenario) -> (r:
        BackendSurfaceAdmissionContractSnapshot)
        ensures
            is_contract_snapshot(scenario, r),
    {
        let report = self.report_for_scenario(scenario);
        BackendSurfaceAdmissionContractSnapshot::from_report(scenario.name(), &report)
    }

    /// Snapshots of every contract scenario, in contract order.
    pub fn snapshots_for_all_scenarios(&self) -> (r: Vec<BackendSurfaceAdmissionContractSnapshot>)
        ensures
            is_contract_snapshot_list(r@),
    {
        let all = BackendSurfaceAdmissionContractScenario::ALL;
        let mut out: Vec<BackendSurfaceAdmissionContractSnapshot> = Vec::new();
        let mut i: usize = 0;
        while i < 7
            invariant
                i <= 7,
                all@ == all_scenarios(),
                out@.len() == i,
                forall|k: int| 0 <= k < i ==> is_contract_snapshot(all_scenarios()[k], #[trigger] out@[k]),
            decreases 7 - i,
        {
            let snap = self.snapshot_for_scenario(all[i]);
            assert(all[i as int] == all_scenarios()[i as int]);
            out.push(snap);
            i = i + 1;
        }
        out
    }

    /// Readable contract summary: a header, then one line per scenario.
    pub fn contract_summary_text(&self) -> (r: String)
        ensures
            exists|snaps: Seq<BackendSurfaceAdmissionContractSnapshot>|
                is_contract_snapshot_list(snaps) && r@ == "Surface Admission Contract:\n"@
                    + snapshot_lines(snaps),
    {
        let snapshots = self.snapshots_for_all_scenarios();
        let mut text = String::from_str("Surface Admission Contract:\n");
        let ghost header = text@;
        let mut i: usize = 0;
        while i < snapshots.len()
            invariant
                i <= snapshots@.len(),
                header == "Surface Admission Contract:\n"@,
                text@ == header + snapshot_lines(snapshots@.take(i as int)),
            decreases snapshots@.len() - i,
        {
            let snapshot = &snapshots[i];
            let line = snapshot_line_text(snapshot);
            text.append(line.as_str());
            assert(snapshots@.take(i + 1).drop_last() =~= snapshots@.take(i as int));
            i = i + 1;
        }
        assert(snapshots@.take(i as int) =~= snapshots@);
        text
    }
}

} // verus!
