//! Previews the admission actions a window manager would take for planned
//! window candidate intents, with warnings for missing metadata and for a
//! failed source trace. Nothing is committed anywhere.

use vstd::prelude::*;

use crate::smithay_backend::surface_lifecycle::{
    BackendSurfaceId, BackendSurfaceLifecycleError, BackendSurfaceSize, copy_opt_string,
};
use crate::smithay_backend::surface_window_intent::{
    BackendWindowCandidateId, BackendWindowCandidateIntent, BackendWindowCandidateIntentReport,
};

verus! {

/// A previewed admission action for one window candidate.
#[derive(Debug, Clone, PartialEq, Eq)]
pub enum BackendWindowAdmissionPreviewAction {
    /// A window would be created.
    WouldCreateWindow {
        candidate_id: BackendWindowCandidateId,
        surface_id: BackendSurfaceId,
        title: Option<String>,
        app_id: Option<String>,
        size: Option<BackendSurfaceSize>,
    },
    /// The candidate's window would be hidden.
    WouldHideWindow { candidate_id: BackendWindowCandidateId, surface_id: BackendSurfaceId },
    /// The candidate's window would be closed.
    WouldCloseWindow { candidate_id: BackendWindowCandidateId, surface_id: BackendSurfaceId },
}

impl BackendWindowAdmissionPreviewAction {
    /// The candidate identity of the action.
    pub open spec fn spec_candidate_id(self) -> BackendWindowCandidateId {
        match self {
            BackendWindowAdmissionPreviewAction::WouldCreateWindow { candidate_id, .. } => candidate_id,
            BackendWindowAdmissionPreviewAction::WouldHideWindow { candidate_id, .. } => candidate_id,
            BackendWindowAdmissionPreviewAction::WouldCloseWindow { candidate_id, .. } => candidate_id,
        }
    }

    /// The surface identity of the action.
    pub open spec fn spec_surface_id(self) -> BackendSurfaceId {
        match self {
            BackendWindowAdmissionPreviewAction::WouldCreateWindow { surface_id, .. } => surface_id,
            BackendWindowAdmissionPreviewAction::WouldHideWindow { surface_id, .. } => surface_id,
            BackendWindowAdmissionPreviewAction::WouldCloseWindow { surface_id, .. } => surface_id,
        }
    }

    /// Returns the candidate identity of the action.
    pub fn candidate_id(&self) -> (r: BackendWindowCandidateId)
        ensures
            r == self.spec_candidate_id(),
    {
        match self {
            BackendWindowAdmissionPreviewAction::WouldCreateWindow { candidate_id, .. } => *candidate_id,
            BackendWindowAdmissionPreviewAction::WouldHideWindow { candidate_id, .. } => *candidate_id,
            BackendWindowAdmissionPreviewAction::WouldCloseWindow { candidate_id, .. } => *candidate_id,
        }
    }

    /// Returns the surface identity of the action.
    pub fn surface_id(&self) -> (r: BackendSurfaceId)
        ensures
            r == self.spec_surface_id(),
    {
        match self {
            BackendWindowAdmissionPreviewAction::WouldCreateWindow { surface_id, .. } => *surface_id,
            BackendWindowAdmissionPreviewAction::WouldHideWindow { surface_id, .. } => *surface_id,
            BackendWindowAdmissionPreviewAction::WouldCloseWindow { surface_id, .. } => *surface_id,
        }
    }
}

/// A non-fatal observation made while previewing.
#[derive(Debug, Clone, Copy, PartialEq, Eq, Structural)]
pub enum BackendWindowAdmissionPreviewWarning {
    /// The source trace stopped at this event index.
    SourceTraceFailed { failed_at: usize },
    /// The source trace stopped with this error.
    SourceTraceError { error: BackendSurfaceLifecycleError },
    /// A window would be created without a title.
    MissingTitle { candidate_id: BackendWindowCandidateId },
    /// A window would be created without an application identity.
    MissingAppId { candidate_id: BackendWindowCandidateId },
    /// A window would be created without a configured size.
    MissingSize { candidate_id: BackendWindowCandidateId },
}

/// The action previewed for one intent.
pub open spec fn action_for(i: BackendWindowCandidateIntent) -> BackendWindowAdmissionPreviewAction {
    match i {
        BackendWindowCandidateIntent::Create { candidate_id, surface_id, title, app_id, size } => {
            BackendWindowAdmissionPreviewAction::WouldCreateWindow {
                candidate_id,
                surface_id,
                title,
                app_id,
                size,
            }
        },
        BackendWindowCandidateIntent::Hide { candidate_id, surface_id } => {
            BackendWindowAdmissionPreviewAction::WouldHideWindow { candidate_id, surface_id }
        },
        BackendWindowCandidateIntent::Close { candidate_id, surface_id } => {
            BackendWindowAdmissionPreviewAction::WouldCloseWindow { candidate_id, surface_id }
        },
    }
}

/// Missing-metadata warnings of one intent, in title, app identity, size order.
pub open spec fn intent_warnings(i: BackendWindowCandidateIntent) -> Seq<
    BackendWindowAdmissionPreviewWarning,
> {
    match i {
        BackendWindowCandidateIntent::Create { candidate_id, title, app_id, size, .. } => {
            (if title is None {
                seq![BackendWindowAdmissionPreviewWarning::MissingTitle { candidate_id }]
            } else {
                Seq::empty()
            }) + (if app_id is None {
                seq![BackendWindowAdmissionPreviewWarning::MissingAppId { candidate_id }]
            } else {
                Seq::empty()
            }) + (if size is None {
                seq![BackendWindowAdmissionPreviewWarning::MissingSize { candidate_id }]
            } else {
                Seq::empty()
            })
        },
        _ => Seq::empty(),
    }
}

/// Missing-metadata warnings of an intent sequence, in intent order.
pub open spec fn intents_warnings(s: Seq<BackendWindowCandidateIntent>) -> Seq<
    BackendWindowAdmissionPreviewWarning,
>
    decreases s.len(),
{
    if s.len() == 0 {
        Seq::empty()
    } else {
        intents_warnings(s.drop_last()) + intent_warnings(s.last())
    }
}

/// Warnings describing a failed source trace: failure index first, then error.
pub open spec fn source_warnings(
    failed_at: Option<usize>,
    error: Option<BackendSurfaceLifecycleError>,
) -> Seq<BackendWindowAdmissionPreviewWarning> {
    (match failed_at {
        Some(i) => seq![BackendWindowAdmissionPreviewWarning::SourceTraceFailed { failed_at: i }],
        None => Seq::empty(),
    }) + (match error {
        Some(e) => seq![BackendWindowAdmissionPreviewWarning::SourceTraceError { error: e }],
        None => Seq::empty(),
    })
}

/// The preview of an intent report.
#[derive(Debug, Clone, PartialEq, Eq)]
pub struct BackendWindowAdmissionPreviewReport {
    /// One action per intent, in intent order.
    pub actions: Vec<BackendWindowAdmissionPreviewAction>,
    /// Source warnings, then missing-metadata warnings in intent order.
    pub warnings: Vec<BackendWindowAdmissionPreviewWarning>,
    /// Index of the source trace's first rejected event.
    pub source_failed_at: Option<usize>,
    /// Error of the source trace's first rejected event.
    pub source_error: Option<BackendSurfaceLifecycleError>,
}

impl BackendWindowAdmissionPreviewReport {
    /// The source trace applied every event.
    pub fn source_succeeded(&self) -> (r: bool)
        ensures
            r == (self.source_failed_at is None && self.source_error is None),
    {
        self.source_failed_at.is_none() && self.source_error.is_none()
    }
}

/// Stateless previewer from intents to admission actions.
#[derive(Debug, Clone, Copy, Default)]
pub struct WindowAdmissionPreviewPlanner;

impl WindowAdmissionPreviewPlanner {
    /// Creates the previewer.
    pub fn new() -> Self {
        WindowAdmissionPreviewPlanner
    }

    /// Previews the action of one intent.
    pub fn preview_intent(&self, intent: &BackendWindowCandidateIntent) -> (r:
        BackendWindowAdmissionPreviewAction)
        ensures
            r == action_for(*intent),
    {
        match intent {
            BackendWindowCandidateIntent::Create { candidate_id, surface_id, title, app_id, size } => {
                BackendWindowAdmissionPreviewAction::WouldCreateWindow {
                    candidate_id: *candidate_id,
                    surface_id: *surface_id,
                    title: copy_opt_string(title),
                    app_id: copy_opt_string(app_id),
                    size: *size,
                }
            },
            BackendWindowCandidateIntent::Hide { candidate_id, surface_id } => {
                BackendWindowAdmissionPreviewAction::WouldHideWindow {
                    candidate_id: *candidate_id,
                    surface_id: *surface_id,
                }
            },
            BackendWindowCandidateIntent::Close { candidate_id, surface_id } => {
                BackendWindowAdmissionPreviewAction::WouldCloseWindow {
                    candidate_id: *candidate_id,
                    surface_id: *surface_id,
                }
            },
        }
    }

    /// Appends the missing-metadata warnings of one intent.
    fn push_intent_warnings(
        &self,
        intent: &BackendWindowCandidateIntent,
        warnings: &mut Vec<BackendWindowAdmissionPreviewWarning>,
    )
        ensures
            final(warnings)@ == old(warnings)@ + intent_warnings(*intent),
    {
        let ghost start = warnings@;
        match intent {
            BackendWindowCandidateIntent::Create { candidate_id, title, app_id, size, .. } => {
                if title.is_none() {
                    warnings.push(
                        BackendWindowAdmissionPreviewWarning::MissingTitle {
                            candidate_id: *candidate_id,
                        },
                    );
                }
                if app_id.is_none() {
                    warnings.push(
                        BackendWindowAdmissionPreviewWarning::MissingAppId {
                            candidate_id: *candidate_id,
                        },
                    );
                }
                if size.is_none() {
                    warnings.push(
                        BackendWindowAdmissionPreviewWarning::MissingSize {
                            candidate_id: *candidate_id,
                        },
                    );
                }
                assert(warnings@ =~= start + intent_warnings(*intent));
            },
            _ => {
                assert(warnings@ =~= start + intent_warnings(*intent));
            },
        }
    }

    /// Previews an intent report: one action per intent, source warnings first.
    pub fn preview_intent_report(&self, report: &BackendWindowCandidateIntentReport) -> (r:
        BackendWindowAdmissionPreviewReport)
        ensures
            r.actions@ == report.intents@.map_values(|i: BackendWindowCandidateIntent| action_for(i)),
            r.warnings@ == source_warnings(report.source_failed_at, report.source_error)
                + intents_warnings(report.intents@),
            r.source_failed_at == report.source_failed_at,
            r.source_error == report.source_error,
    {
        let mut warnings: Vec<BackendWindowAdmissionPreviewWarning> = Vec::new();
        match report.source_failed_at {
            Some(failed_at) => warnings.push(
                BackendWindowAdmissionPreviewWarning::SourceTraceFailed { failed_at },
            ),
            None => {},
        }
        match report.source_error {
            Some(error) => warnings.push(
                BackendWindowAdmissionPreviewWarning::SourceTraceError { error },
            ),
            None => {},
        }
        let ghost source = warnings@;
        assert(source =~= source_warnings(report.source_failed_at, report.source_error));
        let mut actions: Vec<BackendWindowAdmissionPreviewAction> = Vec::new();
        let mut i: usize = 0;
        while i < report.intents.len()
            invariant
                i <= report.intents@.len(),
                actions@ == report.intents@.take(i as int).map_values(
                    |x: BackendWindowCandidateIntent| action_for(x),
                ),
                warnings@ == source + intents_warnings(report.intents@.take(i as int)),
            decreases report.intents@.len() - i,
        {
            let intent = &report.intents[i];
            actions.push(self.preview_intent(intent));
            self.push_intent_warnings(intent, &mut warnings);
            assert(report.intents@.take(i + 1).drop_last() =~= report.intents@.take(i as int));
            i = i + 1;
            assert(actions@ =~= report.intents@.take(i as int).map_values(
                |x: BackendWindowCandidateIntent| action_for(x),
            ));
            assert(warnings@ =~= source + intents_warnings(report.intents@.take(i as int)));
        }
        assert(report.intents@.take(i as int) =~= report.intents@);
        BackendWindowAdmissionPreviewReport {
            actions,
            warnings,
            source_failed_at: report.source_failed_at,
            source_error: report.source_error,
        }
    }
}

/// Previewing never alters a candidate's metadata: the action of a `Create`
/// intent is a `WouldCreateWindow` carrying the intent's candidate, surface,
/// title, app id and size unchanged, and a `Hide` or `Close` intent keeps its
/// candidate and surface. A missing piece of metadata stays missing, and only
/// the warnings report it.
pub proof fn law_preview_keeps_intent_metadata(intent: BackendWindowCandidateIntent)
    ensures
        intent matches BackendWindowCandidateIntent::Create {
            candidate_id,
            surface_id,
            title,
            app_id,
            size,
        } ==> action_for(intent) matches BackendWindowAdmissionPreviewAction::WouldCreateWindow {
            candidate_id: c,
            surface_id: s,
            title: t,
            app_id: a,
            size: z,
        } && c == candidate_id && s == surface_id && t == title && a == app_id && z == size,
        intent matches BackendWindowCandidateIntent::Hide { candidate_id, surface_id } ==> action_for(
            intent,
        ) == (BackendWindowAdmissionPreviewAction::WouldHideWindow { candidate_id, surface_id }),
        intent matches BackendWindowCandidateIntent::Close { candidate_id, surface_id } ==> action_for(
            intent,
        ) == (BackendWindowAdmissionPreviewAction::WouldCloseWindow { candidate_id, surface_id }),
{
}

} // verus!
