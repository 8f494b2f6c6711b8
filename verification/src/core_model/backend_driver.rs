//! The driver boundary: a backend driver yields one poll result at a time and the
//! runner feeds each event through the core, reporting the validation of the
//! state afterwards.

use vstd::prelude::*;

use crate::core_model::runtime::{RuntimeEventResult, handle_backend_event};
use crate::core_model::state::{State, ValidationReport, handled, validation_issues};
use crate::core_model::types::{BackendEvent, command_for};
use crate::smithay_backend::driver::SmithayBackendDriverProbe;

verus! {

/// What one poll of a backend driver produced.
#[derive(Debug, Clone, PartialEq, Eq)]
pub enum BackendDriverPoll {
    /// The driver handed out this event.
    Event(BackendEvent),
    /// Nothing was pending.
    Idle,
    /// Nothing was pending and the driver was asked to shut down.
    ShutdownRequested,
}

/// The outcome of one runner step.
#[derive(Debug, Clone, PartialEq, Eq)]
pub struct BackendDriverRunReport {
    /// What the driver produced.
    pub poll: BackendDriverPoll,
    /// The core's handling of the event, when there was one.
    pub runtime_result: Option<RuntimeEventResult>,
    /// Validation of the state after the step.
    pub validation: ValidationReport,
}

impl BackendDriverRunReport {
    /// Whether an event was handled by the core in this step.
    pub fn handled_event(&self) -> (r: bool)
        ensures
            r == self.runtime_result is Some,
    {
        self.runtime_result.is_some()
    }

    /// Whether the state was valid after this step.
    pub fn is_valid(&self) -> (r: bool)
        ensures
            r == (self.validation.issues@.len() == 0),
    {
        self.validation.is_clean()
    }
}

/// Feeds driver events into the core, one per step.
pub struct BackendDriverRunner;

impl BackendDriverRunner {
    /// Polls `driver` once. A pending event leaves the front of the queue and is
    /// handled by the core; otherwise the state is untouched and the poll says
    /// whether shutdown was requested.
    pub fn run_once(state: &mut State, driver: &mut SmithayBackendDriverProbe) -> (r:
        BackendDriverRunReport)
        requires
            old(state).wf(),
        ensures
            final(state).wf(),
            final(driver).shutdown_requested() == old(driver).shutdown_requested(),
            r.validation.issues@ == validation_issues(final(state).view()),
            old(driver).queue().len() > 0 ==> {
                let event = old(driver).queue()[0];
                &&& final(driver).queue() == old(driver).queue().drop_first()
                &&& r.poll == BackendDriverPoll::Event(event)
                &&& r.runtime_result matches Some(rr) && rr.event == event && rr.command
                    == command_for(event) && handled(
                    old(state).view(),
                    command_for(event),
                    final(state).view(),
                    rr.result,
                ) && rr.validation.issues@ == r.validation.issues@
            },
            old(driver).queue().len() == 0 ==> {
                &&& final(driver).queue() == old(driver).queue()
                &&& final(state).view() == old(state).view()
                &&& r.runtime_result is None
                &&& r.poll == (if old(driver).shutdown_requested() {
                    BackendDriverPoll::ShutdownRequested
                } else {
                    BackendDriverPoll::Idle
                })
            },
    {
        match driver.poll_event() {
            BackendDriverPoll::Event(event) => {
                let polled = event.copy();
                let result = handle_backend_event(state, event);
                let validation = state.validate();
                BackendDriverRunReport {
                    poll: BackendDriverPoll::Event(polled),
                    runtime_result: Some(result),
                    validation,
                }
            },
            BackendDriverPoll::Idle => {
                let validation = state.validate();
                BackendDriverRunReport { poll: BackendDriverPoll::Idle, runtime_result: None, validation }
            },
            BackendDriverPoll::ShutdownRequested => {
                let validation = state.validate();
                BackendDriverRunReport {
                    poll: BackendDriverPoll::ShutdownRequested,
                    runtime_result: None,
                    validation,
                }
            },
        }
    }
}

} // verus!
