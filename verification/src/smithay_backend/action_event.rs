//! Action request descriptors: the pure data a backend collects before asking the
//! core to run a compositor action.

use vstd::prelude::*;

use crate::core_model::types::{Action, BackendEvent};

verus! {

/// A request to run one compositor action.
#[derive(Debug, Clone, Copy, PartialEq, Eq, Structural)]
pub struct SmithayActionRequestDescriptor {
    /// The requested action.
    pub action: Action,
}

impl SmithayActionRequestDescriptor {
    /// Describes a request for `action`.
    pub fn new(action: Action) -> (r: Self)
        ensures
            r.action == action,
    {
        Self { action }
    }

    /// Describes a request to switch to the next workspace.
    pub fn next_workspace() -> (r: Self)
        ensures
            r.action == Action::NextWorkspace,
    {
        Self { action: Action::NextWorkspace }
    }

    /// Describes a request to spawn an internal window.
    pub fn spawn_window() -> (r: Self)
        ensures
            r.action == Action::SpawnWindow,
    {
        Self { action: Action::SpawnWindow }
    }

    /// Describes a request to close the focused window.
    pub fn close_focused_window() -> (r: Self)
        ensures
            r.action == Action::CloseFocusedWindow,
    {
        Self { action: Action::CloseFocusedWindow }
    }

    /// The backend event this request becomes.
    pub fn to_event(&self) -> (r: BackendEvent)
        ensures
            r == (BackendEvent::ActionRequested { action: self.action }),
    {
        BackendEvent::ActionRequested { action: self.action }
    }
}

} // verus!
