//! One backend event through the core: event, derived command, result and the
//! validation of the state afterwards.

use vstd::prelude::*;

use crate::core_model::state::{State, ValidationReport, handled, validation_issues};
use crate::core_model::types::{BackendEvent, CommandResult, CoreCommand, command_for};

verus! {

/// Record of one event handled by the core.
#[derive(Debug, Clone, PartialEq, Eq)]
pub struct RuntimeEventResult {
    /// The backend event.
    pub event: BackendEvent,
    /// The core command it translated to.
    pub command: CoreCommand,
    /// The result of the command.
    pub result: CommandResult,
    /// Validation of the state after the command.
    pub validation: ValidationReport,
}

/// Translates `event` into its command, applies it, and validates the result.
pub fn handle_backend_event(state: &mut State, event: BackendEvent) -> (r: RuntimeEventResult)
    requires
        old(state).wf(),
    ensures
        final(state).wf(),
        r.event == event,
        r.command == command_for(event),
        handled(old(state).view(), command_for(event), final(state).view(), r.result),
        r.validation.issues@ == validation_issues(final(state).view()),
{
    let command = event.to_command();
    let result = state.handle_command(command);
    let validation = state.validate();
    RuntimeEventResult { command: event.to_command(), event, result, validation }
}

} // verus!
