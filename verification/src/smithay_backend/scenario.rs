//! Scenario replay over the runtime probe: each step enqueues one event through a
//! runtime helper and immediately runs one `run_once`, recording a step report.
//! The scenario owns the core state and never changes it any other way.

use vstd::prelude::*;
use vstd::string::*;

use crate::core_model::backend_driver::BackendDriverRunReport;
use crate::core_model::state::{
    State, CoreView, SurfaceRecord, client_alive, client_index, debug_text, has_client, is_initial, view_wf,
    handled, has_surface, surface_alive, surface_index,
    validation_issues, validation_text, windows_full,
};
use crate::core_model::types::{
    Action, BackendEvent, CoreClientId, ClientKind, CommandResult, CoreCommand, SurfaceId, SurfaceRole,
    WindowId, WindowKind,
    command_for,
};
use crate::smithay_backend::runtime::SmithayRuntimeProbe;
use crate::smithay_backend::surface_id::next_id_after;
use crate::smithay_backend::toplevel_event::SmithayToplevelMapDescriptor;

verus! {

/// Mode of the scenario; only the probe mode exists.
#[derive(Debug, Clone, Copy, PartialEq, Eq, Structural)]
pub enum SmithayRuntimeScenarioMode {
    /// Pure probe mode.
    ProbeOnly,
}

/// The report of one scenario step: one `run_once`.
#[derive(Debug)]
pub struct SmithayRuntimeScenarioStepReport {
    /// Name of the step.
    pub name: &'static str,
    /// The runner report of the step.
    pub report: BackendDriverRunReport,
}

/// The text result a step report holds, if its command returned text.
pub open spec fn step_text(step: SmithayRuntimeScenarioStepReport) -> Option<Seq<char>> {
    match step.report.runtime_result {
        Some(rr) => match rr.result {
            CommandResult::Text(t) => Some(t@),
            _ => None,
        },
        None => None,
    }
}

/// `e` is a request whose step returns text: a debug or a validation request.
pub open spec fn is_text_request(e: BackendEvent) -> bool {
    e is DebugRequested || e is ValidateRequested
}

/// The text a text request returns on core state `v`.
pub open spec fn requested_text(v: CoreView, e: BackendEvent) -> Seq<char> {
    match e {
        BackendEvent::DebugRequested => debug_text(v),
        BackendEvent::ValidateRequested => validation_text(v),
        _ => Seq::empty(),
    }
}

/// `e` maps a toplevel for `surface` with that title and app id.
pub open spec fn is_map_event(e: BackendEvent, surface: SurfaceId, title: Seq<char>, app_id: Option<String>) -> bool {
    e matches BackendEvent::ToplevelMapped { surface: s, title: t, app_id: a, kind: _ } && s == surface
        && t@ == title && a == app_id
}

/// Running the next step of a scenario whose core state is `v` and whose
/// queue is `queue`, after a map for `surface` was enqueued, leaves `surface`
/// registered and bound: with nothing queued, the map itself binds it when it
/// is registered and already bound, or alive while a new window can still be
/// numbered; otherwise the oldest queued event runs, and it must leave the
/// surface bound.
pub open spec fn map_step_binds(v: CoreView, queue: Seq<BackendEvent>, surface: SurfaceId) -> bool {
    if queue.len() == 0 {
        &&& has_surface(v.surfaces, surface)
        &&& v.surfaces[surface_index(v.surfaces, surface)].window is Some || (!windows_full(v)
            && surface_alive(v, surface))
    } else {
        forall|post: CoreView, r: CommandResult|
            #[trigger] handled(v, command_for(queue[0]), post, r) ==> has_surface(post.surfaces, surface)
                && post.surfaces[surface_index(post.surfaces, surface)].window is Some
    }
}

/// The step handled an event.
pub open spec fn step_handled(step: SmithayRuntimeScenarioStepReport) -> bool {
    step.report.runtime_result is Some
}

/// The state was valid after the step.
pub open spec fn step_valid(step: SmithayRuntimeScenarioStepReport) -> bool {
    step.report.validation.issues@.len() == 0
}

impl SmithayRuntimeScenarioStepReport {
    /// Whether the step handled an event.
    pub fn handled_event(&self) -> (r: bool)
        ensures
            r == step_handled(*self),
    {
        self.report.handled_event()
    }

    /// Whether the state was valid after the step.
    pub fn is_valid(&self) -> (r: bool)
        ensures
            r == step_valid(*self),
    {
        self.report.is_valid()
    }

    /// The text the step's command returned, if any.
    pub fn text_result(&self) -> (r: Option<&str>)
        ensures
            r is Some <==> step_text(*self) is Some,
            r matches Some(s) ==> step_text(*self) == Some(s@),
    {
        match &self.report.runtime_result {
            Some(rr) => match &rr.result {
                CommandResult::Text(text) => Some(text.as_str()),
                _ => None,
            },
            None => None,
        }
    }
}

/// "true" or "false".
pub open spec fn bool_text(b: bool) -> Seq<char> {
    if b {
        "true"@
    } else {
        "false"@
    }
}

/// The report line of one step.
pub open spec fn step_line(step: SmithayRuntimeScenarioStepReport) -> Seq<char> {
    "- "@ + step.name@ + ": handled="@ + bool_text(step_handled(step)) + " valid="@ + bool_text(
        step_valid(step),
    ) + "\n"@
}

/// The report lines of `steps`, in order.
pub open spec fn step_lines(steps: Seq<SmithayRuntimeScenarioStepReport>) -> Seq<char>
    decreases steps.len(),
{
    if steps.len() == 0 {
        Seq::empty()
    } else {
        step_lines(steps.drop_last()) + step_line(steps.last())
    }
}

/// All step reports of a scenario, in order.
#[derive(Debug)]
pub struct SmithayRuntimeScenarioReport {
    /// The step reports.
    pub steps: Vec<SmithayRuntimeScenarioStepReport>,
}

fn bool_word(b: bool) -> (r: &'static str)
    ensures
        r@ == bool_text(b),
{
    if b {
        "true"
    } else {
        "false"
    }
}

impl SmithayRuntimeScenarioReport {
    /// An empty report.
    pub fn new() -> (r: Self)
        ensures
            r.steps@ == Seq::<SmithayRuntimeScenarioStepReport>::empty(),
    {
        Self { steps: Vec::new() }
    }

    /// Appends a step report.
    pub fn push(&mut self, step: SmithayRuntimeScenarioStepReport)
        ensures
            final(self).steps@ == old(self).steps@.push(step),
    {
        self.steps.push(step);
    }

    /// Whether every step handled an event.
    pub fn all_handled(&self) -> (r: bool)
        ensures
            r == forall|i: int| 0 <= i < self.steps@.len() ==> step_handled(#[trigger] self.steps@[i]),
    {
        let mut i: usize = 0;
        while i < self.steps.len()
            invariant
                i <= self.steps@.len(),
                forall|k: int| 0 <= k < i ==> step_handled(#[trigger] self.steps@[k]),
            decreases self.steps@.len() - i,
        {
            if !self.steps[i].handled_event() {
                return false;
            }
            i = i + 1;
        }
        true
    }

    /// Whether the state was valid after every step.
    pub fn all_valid(&self) -> (r: bool)
        ensures
            r == forall|i: int| 0 <= i < self.steps@.len() ==> step_valid(#[trigger] self.steps@[i]),
    {
        let mut i: usize = 0;
        while i < self.steps.len()
            invariant
                i <= self.steps@.len(),
                forall|k: int| 0 <= k < i ==> step_valid(#[trigger] self.steps@[k]),
            decreases self.steps@.len() - i,
        {
            if !self.steps[i].is_valid() {
                return false;
            }
            i = i + 1;
        }
        true
    }

    /// Number of steps.
    pub fn len(&self) -> (r: usize)
        ensures
            r == self.steps@.len(),
    {
        self.steps.len()
    }

    /// Whether no step was recorded.
    pub fn is_empty(&self) -> (r: bool)
        ensures
            r == (self.steps@.len() == 0),
    {
        self.steps.len() == 0
    }

    /// The report as text: a title line, then one line per step.
    pub fn pretty_print(&self) -> (r: String)
        ensures
            r@ == "Smithay Runtime Scenario Report\n"@ + step_lines(self.steps@),
    {
        let mut output = String::from_str("Smithay Runtime Scenario Report\n");
        let mut i: usize = 0;
        while i < self.steps.len()
            invariant
                i <= self.steps@.len(),
                output@ == "Smithay Runtime Scenario Report\n"@ + step_lines(self.steps@.take(i as int)),
            decreases self.steps@.len() - i,
        {
            let step = &self.steps[i];
            let ghost before = output@;
            output.append("- ");
            output.append(step.name);
            output.append(": handled=");
            output.append(bool_word(step.handled_event()));
            output.append(" valid=");
            output.append(bool_word(step.is_valid()));
            output.append("\n");
            assert(self.steps@.take(i + 1).drop_last() =~= self.steps@.take(i as int));
            assert(output@ =~= before + step_line(self.steps@[i as int]));
            i = i + 1;
        }
        assert(self.steps@.take(self.steps@.len() as int) =~= self.steps@);
        output
    }
}

/// One scenario step in the views: `event` was appended to `queue`, the oldest
/// queued event went through the core, and `report` records it.
pub open spec fn scenario_step(
    pre: CoreView,
    queue: Seq<BackendEvent>,
    event: BackendEvent,
    post: CoreView,
    post_queue: Seq<BackendEvent>,
    report: BackendDriverRunReport,
) -> bool {
    let q = queue.push(event);
    &&& post_queue == q.drop_first()
    &&& report.runtime_result matches Some(rr) && rr.event == q[0] && handled(
        pre,
        command_for(q[0]),
        post,
        rr.result,
    )
    &&& report.validation.issues@ == validation_issues(post)
}

/// Mapping a toplevel for a registered surface that is already bound, or alive
/// while a window can still be numbered, leaves the surface bound.
proof fn lemma_map_leaves_surface_bound(
    pre: CoreView,
    post: CoreView,
    surface: SurfaceId,
    title: String,
    app_id: Option<String>,
    kind: WindowKind,
    r: CommandResult,
)
    requires
        view_wf(pre),
        handled(pre, CoreCommand::RegisterWindowForSurface { surface, title, app_id, kind }, post, r),
        has_surface(pre.surfaces, surface),
        pre.surfaces[surface_index(pre.surfaces, surface)].window is Some || (!windows_full(pre)
            && surface_alive(pre, surface)),
    ensures
        has_surface(post.surfaces, surface),
        post.surfaces[surface_index(post.surfaces, surface)].window is Some,
{
    let i = surface_index(pre.surfaces, surface);
    if !windows_full(pre) && surface_alive(pre, surface) && pre.surfaces[i].window is None {
        let id = (pre.windows.len() + 1) as u64;
        let updated = pre.surfaces.update(i, SurfaceRecord { window: Some(id), ..pre.surfaces[i] });
        assert(post.surfaces == updated);
        assert(updated[i].id == surface);
        let j = surface_index(post.surfaces, surface);
        if j != i {
            assert(pre.surfaces[j].id == surface);
            if i < j {
                assert(pre.surfaces[i].id != pre.surfaces[j].id);
            } else {
                assert(pre.surfaces[j].id != pre.surfaces[i].id);
            }
        }
    } else {
        assert(post.surfaces == pre.surfaces);
    }
}

/// The runtime scenario.
pub struct SmithayRuntimeScenario {
    runtime: SmithayRuntimeProbe,
    state: State,
    report: SmithayRuntimeScenarioReport,
    mode: SmithayRuntimeScenarioMode,
}

impl SmithayRuntimeScenario {
    /// The runtime the scenario drives.
    pub closed spec fn spec_runtime(&self) -> SmithayRuntimeProbe {
        self.runtime
    }

    /// The core state the scenario owns.
    pub closed spec fn spec_state(&self) -> State {
        self.state
    }

    /// The step reports so far.
    pub closed spec fn steps(&self) -> Seq<SmithayRuntimeScenarioStepReport> {
        self.report.steps@
    }

    /// The core state is well formed.
    pub closed spec fn wf(&self) -> bool {
        self.state.wf()
    }

    /// `self` is `old` after one step named `name` that enqueued `event`.
    pub open spec fn stepped(&self, old: &Self, event: BackendEvent, name: Seq<char>) -> bool {
        &&& self.wf()
        &&& scenario_step(
            old.spec_state().view(),
            old.spec_runtime().queue(),
            event,
            self.spec_state().view(),
            self.spec_runtime().queue(),
            self.steps().last().report,
        )
        &&& self.steps().len() == old.steps().len() + 1
        &&& self.steps().drop_last() == old.steps()
        &&& self.steps().last().name@ == name
        &&& self.spec_runtime().shutdown_requested() == old.spec_runtime().shutdown_requested()
    }

    /// Neither allocator moved.
    pub open spec fn same_allocators(&self, old: &Self) -> bool {
        &&& self.spec_runtime().next_client() == old.spec_runtime().next_client()
        &&& self.spec_runtime().next_surface() == old.spec_runtime().next_surface()
    }

    /// A fresh runtime and a fresh core state, with no step yet.
    pub fn new_probe_only() -> (r: Self)
        ensures
            r.wf(),
            r.spec_runtime().queue() == Seq::<BackendEvent>::empty(),
            !r.spec_runtime().shutdown_requested(),
            r.spec_runtime().next_client() == 1,
            r.spec_runtime().next_surface() == 1,
            is_initial(r.spec_state().view()),
            r.steps() == Seq::<SmithayRuntimeScenarioStepReport>::empty(),
    {
        let state = State::new();
        Self {
            runtime: SmithayRuntimeProbe::new_probe_only(),
            state,
            report: SmithayRuntimeScenarioReport::new(),
            mode: SmithayRuntimeScenarioMode::ProbeOnly,
        }
    }

    /// The probe build holds no system resource and nothing can fail, so this
    /// always yields a fresh scenario.
    pub fn new_auto() -> (r: Result<Self, String>)
        ensures
            r matches Ok(s) && s.wf() && s.spec_runtime().queue() == Seq::<BackendEvent>::empty()
                && is_initial(s.spec_state().view()) && s.steps() == Seq::<
                SmithayRuntimeScenarioStepReport,
            >::empty(),
    {
        Ok(Self::new_probe_only())
    }

    /// A scenario over an existing runtime and state, with no step yet.
    pub fn from_parts(runtime: SmithayRuntimeProbe, state: State) -> (r: Self)
        ensures
            r.spec_runtime() == runtime,
            r.spec_state() == state,
            r.wf() == state.wf(),
            r.steps() == Seq::<SmithayRuntimeScenarioStepReport>::empty(),
    {
        Self {
            runtime,
            state,
            report: SmithayRuntimeScenarioReport::new(),
            mode: SmithayRuntimeScenarioMode::ProbeOnly,
        }
    }

    /// Whether the scenario and its runtime are probe-only; always true.
    pub fn is_probe_only(&self) -> (r: bool)
        ensures
            r,
    {
        let scenario_probe = match self.mode {
            SmithayRuntimeScenarioMode::ProbeOnly => true,
        };
        scenario_probe && self.runtime.is_probe_only()
    }

    /// Returns the scenario mode.
    pub fn mode(&self) -> (r: SmithayRuntimeScenarioMode)
        ensures
            r == SmithayRuntimeScenarioMode::ProbeOnly,
    {
        self.mode
    }

    /// Read access to the core state.
    pub fn state(&self) -> (r: &State)
        ensures
            *r == self.spec_state(),
            r.wf() == self.wf(),
    {
        &self.state
    }

    /// Read access to the step reports.
    pub fn report(&self) -> (r: &SmithayRuntimeScenarioReport)
        ensures
            r.steps@ == self.steps(),
    {
        &self.report
    }

    /// Consumes the scenario and returns its state.
    pub fn into_state(self) -> (r: State)
        ensures
            r == self.spec_state(),
            r.wf() == self.wf(),
    {
        self.state
    }

    /// Runs one `run_once` and records it under `name`.
    fn run_step(&mut self, name: &'static str)
        requires
            old(self).wf(),
            old(self).spec_runtime().queue().len() > 0,
        ensures
            final(self).wf(),
            final(self).same_allocators(old(self)),
            final(self).spec_runtime().shutdown_requested() == old(self).spec_runtime().shutdown_requested(),
            final(self).spec_runtime().queue() == old(self).spec_runtime().queue().drop_first(),
            final(self).steps().len() == old(self).steps().len() + 1,
            final(self).steps().drop_last() == old(self).steps(),
            final(self).steps().last().name@ == name@,
            final(self).steps().last().report.runtime_result matches Some(rr) && rr.event == old(
                self,
            ).spec_runtime().queue()[0] && handled(
                old(self).spec_state().view(),
                command_for(old(self).spec_runtime().queue()[0]),
                final(self).spec_state().view(),
                rr.result,
            ),
            final(self).steps().last().report.validation.issues@ == validation_issues(
                final(self).spec_state().view(),
            ),
    {
        let report = self.runtime.run_once(&mut self.state);
        self.report.push(SmithayRuntimeScenarioStepReport { name, report });
        assert(self.report.steps@.drop_last() =~= old(self).report.steps@);
    }

    /// Allocates a client, enqueues its connection, and runs one step.
    pub fn connect_allocated_client(&mut self, name: Option<String>) -> (r: CoreClientId)
        requires
            old(self).wf(),
        ensures
            r == old(self).spec_runtime().next_client(),
            final(self).spec_runtime().next_client() == next_id_after(r),
            final(self).spec_runtime().next_surface() == old(self).spec_runtime().next_surface(),
            final(self).stepped(
                old(self),
                BackendEvent::ClientConnected {
                    client: Some(r),
                    kind: ClientKind::WaylandPlaceholder,
                    name,
                },
                "connect_allocated_client"@,
            ),
    {
        let client = self.runtime.push_allocated_client_connected(name);
        self.run_step("connect_allocated_client");
        client
    }

    /// Allocates a surface, enqueues its creation, and runs one step.
    pub fn create_allocated_surface(&mut self, client: Option<CoreClientId>, role: SurfaceRole) -> (r:
        SurfaceId)
        requires
            old(self).wf(),
        ensures
            r == old(self).spec_runtime().next_surface(),
            final(self).spec_runtime().next_surface() == next_id_after(r),
            final(self).spec_runtime().next_client() == old(self).spec_runtime().next_client(),
            final(self).stepped(
                old(self),
                BackendEvent::SurfaceCreated { surface: r, client, role },
                "create_allocated_surface"@,
            ),
    {
        let surface = self.runtime.push_allocated_surface_created(client, role);
        self.run_step("create_allocated_surface");
        surface
    }

    /// Enqueues a toplevel map for `surface`, runs one step, and returns the
    /// window the surface is bound to afterwards. The step handles the oldest
    /// queued event (this map when nothing else was queued); afterwards the
    /// surface must be registered and bound, see [`map_step_binds`].
    pub fn map_toplevel(&mut self, surface: SurfaceId, title: &str, app_id: Option<String>) -> (r:
        WindowId)
        requires
            old(self).wf(),
            map_step_binds(old(self).spec_state().view(), old(self).spec_runtime().queue(), surface),
        ensures
            final(self).same_allocators(old(self)),
            exists|e: BackendEvent|
                #[trigger] is_map_event(e, surface, title@, app_id) && final(self).stepped(
                    old(self),
                    e,
                    "map_toplevel"@,
                ),
            has_surface(final(self).spec_state().view().surfaces, surface),
            final(self).spec_state().view().surfaces[surface_index(
                final(self).spec_state().view().surfaces,
                surface,
            )].window == Some(r),
    {
        let ghost pre = *self;
        let descriptor = SmithayToplevelMapDescriptor::new(surface, title, app_id);
        let ghost e = BackendEvent::ToplevelMapped {
            surface: descriptor.surface,
            title: descriptor.title,
            app_id: descriptor.app_id,
            kind: descriptor.kind,
        };
        self.runtime.push_toplevel_mapped(descriptor);
        self.run_step("map_toplevel");
        proof {
            pre.state.lemma_view_parts();
            self.state.lemma_view_parts();
            let rr = self.steps().last().report.runtime_result->0;
            let q = pre.spec_runtime().queue();
            assert(q.push(e).drop_first() =~= self.spec_runtime().queue());
            if q.len() == 0 {
                assert(q.push(e)[0] == e);
                lemma_map_leaves_surface_bound(
                    pre.spec_state().view(),
                    self.spec_state().view(),
                    surface,
                    descriptor.title,
                    descriptor.app_id,
                    descriptor.kind,
                    rr.result,
                );
            } else {
                assert(q.push(e)[0] == q[0]);
            }
            assert(is_map_event(e, surface, title@, app_id));
        }
        match self.state.surfaces.get(surface) {
            Some(record) => match record.window {
                Some(window) => window,
                None => 0,
            },
            None => 0,
        }
    }

    /// Enqueues the closing of `surface` and runs one step.
    pub fn close_surface(&mut self, surface: SurfaceId)
        requires
            old(self).wf(),
        ensures
            final(self).same_allocators(old(self)),
            final(self).stepped(old(self), BackendEvent::SurfaceClosed { surface }, "close_surface"@),
    {
        self.runtime.push_surface_closed(surface);
        self.run_step("close_surface");
    }

    /// Enqueues the disconnection of `client` and runs one step.
    pub fn disconnect_client(&mut self, client: CoreClientId)
        requires
            old(self).wf(),
        ensures
            final(self).same_allocators(old(self)),
            final(self).stepped(
                old(self),
                BackendEvent::ClientDisconnected { client },
                "disconnect_client"@,
            ),
    {
        self.runtime.push_client_disconnected(client);
        self.run_step("disconnect_client");
    }

    /// Enqueues an output resize and runs one step.
    pub fn resize_output(&mut self, width: u32, height: u32)
        requires
            old(self).wf(),
        ensures
            final(self).same_allocators(old(self)),
            final(self).stepped(
                old(self),
                BackendEvent::OutputResized { width, height },
                "resize_output"@,
            ),
    {
        self.runtime.push_output_resized_size(width, height);
        self.run_step("resize_output");
    }

    /// Enqueues a request for `action` and runs one step.
    pub fn request_action(&mut self, action: Action)
        requires
            old(self).wf(),
        ensures
            final(self).same_allocators(old(self)),
            final(self).stepped(
                old(self),
                BackendEvent::ActionRequested { action },
                "request_action"@,
            ),
    {
        self.runtime.push_action(action);
        self.run_step("request_action");
    }

    /// Enqueues a debug text request, runs one step, and returns the text of
    /// the request that step handled: this one when nothing else was queued.
    /// The oldest queued event must be a text request.
    pub fn request_debug_text(&mut self) -> (r: String)
        requires
            old(self).wf(),
            is_text_request(old(self).spec_runtime().queue().push(BackendEvent::DebugRequested)[0]),
        ensures
            final(self).same_allocators(old(self)),
            final(self).stepped(old(self), BackendEvent::DebugRequested, "request_debug_text"@),
            r@ == requested_text(
                old(self).spec_state().view(),
                old(self).spec_runtime().queue().push(BackendEvent::DebugRequested)[0],
            ),
    {
        self.runtime.push_debug_requested();
        self.run_step("request_debug_text");
        self.last_text()
    }

    /// Enqueues a validation text request, runs one step, and returns the text
    /// of the request that step handled: this one when nothing else was
    /// queued. The oldest queued event must be a text request.
    pub fn request_validation_text(&mut self) -> (r: String)
        requires
            old(self).wf(),
            is_text_request(old(self).spec_runtime().queue().push(BackendEvent::ValidateRequested)[0]),
        ensures
            final(self).same_allocators(old(self)),
            final(self).stepped(
                old(self),
                BackendEvent::ValidateRequested,
                "request_validation_text"@,
            ),
            r@ == requested_text(
                old(self).spec_state().view(),
                old(self).spec_runtime().queue().push(BackendEvent::ValidateRequested)[0],
            ),
    {
        self.runtime.push_validate_requested();
        self.run_step("request_validation_text");
        self.last_text()
    }

    /// The text of the last step, which holds one.
    fn last_text(&self) -> (r: String)
        requires
            self.steps().len() > 0,
            step_text(self.steps().last()) is Some,
        ensures
            step_text(self.steps().last()) == Some(r@),
    {
        let last = self.report.steps.len() - 1;
        match self.report.steps[last].text_result() {
            Some(text) => text.to_owned(),
            None => String::new(),
        }
    }
}

/// Connecting an allocated client on a scenario with nothing queued runs
/// exactly that connection: one more step, named `connect_allocated_client`,
/// that handled an event and leaves the queue empty; and when the allocated
/// identity is not registered yet (as on a fresh scenario, whose allocator
/// starts at 1 and counts up), the client is registered and alive.
pub proof fn law_connect_allocated_client_registers(
    before: SmithayRuntimeScenario,
    after: SmithayRuntimeScenario,
    client: CoreClientId,
    name: Option<String>,
)
    requires
        before.wf(),
        before.spec_runtime().queue().len() == 0,
        after.stepped(
            &before,
            BackendEvent::ClientConnected { client: Some(client), kind: ClientKind::WaylandPlaceholder, name },
            "connect_allocated_client"@,
        ),
    ensures
        after.steps().len() == before.steps().len() + 1,
        after.steps().last().name@ == "connect_allocated_client"@,
        after.steps().last().report.runtime_result is Some,
        after.spec_runtime().queue().len() == 0,
        !has_client(before.spec_state().view().clients, client) && client != u64::MAX ==> client_alive(
            after.spec_state().view(),
            client,
        ),
{
    let event = BackendEvent::ClientConnected {
        client: Some(client),
        kind: ClientKind::WaylandPlaceholder,
        name,
    };
    assert(before.spec_runtime().queue().push(event)[0] == event);
    before.spec_state().lemma_view_parts();
    after.spec_state().lemma_view_parts();
    let v2 = after.spec_state().view();
    if !has_client(before.spec_state().view().clients, client) && client != u64::MAX {
        let n = before.spec_state().view().clients.len() as int;
        assert(v2.clients[n].id == client);
        let k = client_index(v2.clients, client);
        assert(has_client(v2.clients, client));
        if k != n {
            if k < n {
                assert(v2.clients[k].id != v2.clients[n].id);
            }
        }
    }
}

/// Each report line names its step and gives two independent facts:
/// `handled=true` exactly when the step ran an event through the core, and
/// `valid=true` exactly when the step's validation found no issue. Lines
/// follow the steps in order: one more step appends exactly its line.
pub proof fn law_report_line_reports_handled_and_valid(
    steps: Seq<SmithayRuntimeScenarioStepReport>,
    step: SmithayRuntimeScenarioStepReport,
)
    ensures
        step_line(step) == "- "@ + step.name@ + ": handled="@ + (if step.report.runtime_result is Some {
            "true"@
        } else {
            "false"@
        }) + " valid="@ + (if step.report.validation.issues@.len() == 0 {
            "true"@
        } else {
            "false"@
        }) + "\n"@,
        step_lines(steps.push(step)) == step_lines(steps) + step_line(step),
{
    assert(steps.push(step).drop_last() =~= steps);
}

} // verus!
