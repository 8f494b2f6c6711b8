//! Diagnostic request descriptors: a backend asks the core for its debug text or
//! its validation report.

use vstd::prelude::*;

use crate::core_model::types::BackendEvent;

verus! {

/// Which diagnostic text is requested.
#[derive(Debug, Clone, Copy, PartialEq, Eq, Structural)]
pub enum SmithayDiagnosticRequestKind {
    /// The full debug snapshot followed by the validation report.
    DebugText,
    /// The validation report alone.
    ValidationText,
}

/// A request for a diagnostic text.
#[derive(Debug, Clone, Copy, PartialEq, Eq, Structural)]
pub struct SmithayDiagnosticRequestDescriptor {
    /// The requested text.
    pub kind: SmithayDiagnosticRequestKind,
}

/// The backend event a diagnostic request of `kind` becomes.
pub open spec fn diagnostic_event(kind: SmithayDiagnosticRequestKind) -> BackendEvent {
    match kind {
        SmithayDiagnosticRequestKind::DebugText => BackendEvent::DebugRequested,
        SmithayDiagnosticRequestKind::ValidationText => BackendEvent::ValidateRequested,
    }
}

impl SmithayDiagnosticRequestDescriptor {
    /// Describes a request for the full debug text.
    pub fn debug_text() -> (r: Self)
        ensures
            r.kind == SmithayDiagnosticRequestKind::DebugText,
    {
        Self { kind: SmithayDiagnosticRequestKind::DebugText }
    }

    /// Describes a request for the validation report.
    pub fn validation_text() -> (r: Self)
        ensures
            r.kind == SmithayDiagnosticRequestKind::ValidationText,
    {
        Self { kind: SmithayDiagnosticRequestKind::ValidationText }
    }

    /// The backend event this request becomes.
    pub fn to_event(&self) -> (r: BackendEvent)
        ensures
            r == diagnostic_event(self.kind),
    {
        match self.kind {
            SmithayDiagnosticRequestKind::DebugText => BackendEvent::DebugRequested,
            SmithayDiagnosticRequestKind::ValidationText => BackendEvent::ValidateRequested,
        }
    }
}

} // verus!
