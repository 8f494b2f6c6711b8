//! Conservative readiness of the disconnect callback path: the callback records
//! session events, but no real callback has been observed closing a core client.

use vstd::prelude::*;

verus! {

/// A missing precondition of a real disconnect-to-core runtime.
#[derive(Debug, Clone, Copy, PartialEq, Eq, Structural)]
pub enum NestedClientDisconnectCallbackBlocker {
    /// No real disconnect callback was observed at run time.
    MissingRealDisconnectCallbackProof,
}

/// Conservative readiness of the disconnect callback path.
#[derive(Debug, Clone, PartialEq, Eq)]
pub struct NestedClientDisconnectCallbackReadinessReport {
    /// Remaining blockers.
    pub blockers: Vec<NestedClientDisconnectCallbackBlocker>,
    /// The callback boundary that records disconnect events exists.
    pub disconnect_callback_boundary_defined: bool,
    /// A real disconnect callback was observed.
    pub real_disconnect_callback_observed: bool,
    /// A real callback led to a core close.
    pub core_close_invoked_from_real_callback: bool,
    /// Real clients are accepted.
    pub accepts_clients: bool,
}

impl NestedClientDisconnectCallbackReadinessReport {
    /// Whether a real callback was observed closing a core client and nothing blocks.
    pub fn is_ready(&self) -> (r: bool)
        ensures
            r == (self.blockers@.len() == 0 && self.real_disconnect_callback_observed
                && self.core_close_invoked_from_real_callback),
    {
        self.blockers.len() == 0 && self.real_disconnect_callback_observed
            && self.core_close_invoked_from_real_callback
    }
}

/// `r` is the disconnect callback readiness report: the missing-proof blocker,
/// the boundary defined, no real callback observed and no client accepted.
pub open spec fn is_disconnect_readiness(r: NestedClientDisconnectCallbackReadinessReport) -> bool {
    &&& r.blockers@ == seq![NestedClientDisconnectCallbackBlocker::MissingRealDisconnectCallbackProof]
    &&& r.disconnect_callback_boundary_defined
    &&& !r.real_disconnect_callback_observed
    &&& !r.core_close_invoked_from_real_callback
    &&& !r.accepts_clients
}

/// The readiness of the disconnect path: the boundary exists, no real callback
/// was observed.
pub fn nested_client_disconnect_callback_readiness_report() -> (r:
    NestedClientDisconnectCallbackReadinessReport)
    ensures
        is_disconnect_readiness(r),
{
    let blockers = vec![NestedClientDisconnectCallbackBlocker::MissingRealDisconnectCallbackProof];
    assert(blockers@ =~= seq![NestedClientDisconnectCallbackBlocker::MissingRealDisconnectCallbackProof]);
    NestedClientDisconnectCallbackReadinessReport {
        blockers,
        disconnect_callback_boundary_defined: true,
        real_disconnect_callback_observed: false,
        core_close_invoked_from_real_callback: false,
        accepts_clients: false,
    }
}

} // verus!
