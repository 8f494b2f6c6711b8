//! The core compositor state: client, surface and window registries, the
//! workspaces that reference windows, focus and output size.
//!
//! Every change goes through `State::handle_command`, whose contract is the
//! pure transition `step_view` over `CoreView`. Closed clients, surfaces and
//! windows stay in their registries as non-alive records for diagnostics.

use vstd::prelude::*;
use vstd::string::*;

use crate::core_model::types::{
    Action, CoreClientId, ClientKind, CommandResult, CoreCommand, SurfaceId, SurfaceRole, WindowId,
    WindowKind,
};
use crate::smithay_backend::surface_lifecycle::copy_opt_string;
use crate::text::{decimal, push_decimal};

verus! {

/// Number of workspaces of the compositor.
pub const WORKSPACE_COUNT: usize = 4;

/// Output size in pixels.
#[derive(Debug, Clone, Copy, PartialEq, Eq, Structural)]
pub struct OutputSize {
    pub width: u32,
    pub height: u32,
}

/// One client record.
#[derive(Debug, Clone, PartialEq, Eq)]
pub struct ClientRecord {
    pub id: CoreClientId,
    pub kind: ClientKind,
    pub name: Option<String>,
    pub alive: bool,
}

/// One surface record.
#[derive(Debug, Clone, PartialEq, Eq)]
pub struct SurfaceRecord {
    pub id: SurfaceId,
    pub client: Option<CoreClientId>,
    pub role: SurfaceRole,
    pub window: Option<WindowId>,
    pub alive: bool,
}

/// One window record.
#[derive(Debug, Clone, PartialEq, Eq)]
pub struct WindowRecord {
    pub id: WindowId,
    pub kind: WindowKind,
    pub title: String,
    pub app_id: Option<String>,
    pub surface: Option<SurfaceId>,
    pub alive: bool,
}

/// Registry of clients, alive and closed.
#[derive(Debug, Clone)]
pub struct ClientRegistry {
    records: Vec<ClientRecord>,
    next_client_id: CoreClientId,
}

/// Registry of surfaces, alive and closed.
#[derive(Debug, Clone)]
pub struct SurfaceRegistry {
    records: Vec<SurfaceRecord>,
}

/// Registry of windows, alive and closed; window `n` is the `n`-th created.
#[derive(Debug, Clone)]
pub struct WindowRegistry {
    records: Vec<WindowRecord>,
}

/// A workspace and the windows it references, in placement order.
#[derive(Debug, Clone, PartialEq, Eq)]
pub struct Workspace {
    pub id: u64,
    pub windows: Vec<WindowId>,
}

/// The focused window, if any.
#[derive(Debug, Clone, Copy, PartialEq, Eq, Structural)]
pub struct Focus {
    pub window: Option<WindowId>,
}

/// Workspaces, current workspace, focus and output.
#[derive(Debug, Clone)]
pub struct CompositorState {
    pub workspaces: Vec<Workspace>,
    pub current_workspace: usize,
    pub focus: Focus,
    pub output: OutputSize,
}

/// The whole core state.
#[derive(Debug, Clone)]
pub struct State {
    pub compositor: CompositorState,
    pub clients: ClientRegistry,
    pub surfaces: SurfaceRegistry,
    pub registry: WindowRegistry,
}

/// Mathematical view of the core state.
pub struct CoreView {
    pub clients: Seq<ClientRecord>,
    pub next_client: u64,
    pub surfaces: Seq<SurfaceRecord>,
    pub windows: Seq<WindowRecord>,
    pub lists: Seq<Seq<WindowId>>,
    pub current: int,
    pub focus: Option<WindowId>,
    pub output: OutputSize,
}

// ----- pure model -----

/// Window `id` exists and is alive.
pub open spec fn alive_in(windows: Seq<WindowRecord>, id: WindowId) -> bool {
    1 <= id <= windows.len() && windows[id - 1].alive
}

/// `l` without the windows that are not alive in `windows`, order kept.
pub open spec fn keep_alive(l: Seq<WindowId>, windows: Seq<WindowRecord>) -> Seq<WindowId>
    decreases l.len(),
{
    if l.len() == 0 {
        Seq::empty()
    } else if alive_in(windows, l.last()) {
        keep_alive(l.drop_last(), windows).push(l.last())
    } else {
        keep_alive(l.drop_last(), windows)
    }
}

/// The last element of `l`, if any.
pub open spec fn last_of(l: Seq<WindowId>) -> Option<WindowId> {
    if l.len() == 0 {
        None
    } else {
        Some(l.last())
    }
}

/// Marks the windows selected by `dead` as not alive.
pub open spec fn close_windows(windows: Seq<WindowRecord>, dead: spec_fn(WindowId) -> bool) -> Seq<
    WindowRecord,
> {
    windows.map_values(
        |w: WindowRecord| if dead(w.id) {
            WindowRecord { alive: false, ..w }
        } else {
            w
        },
    )
}

/// After windows were closed: workspaces drop them, and a closed focus moves
/// to the last window of the current workspace.
pub open spec fn settle(v: CoreView) -> CoreView {
    let lists = v.lists.map_values(|l: Seq<WindowId>| keep_alive(l, v.windows));
    let focus = match v.focus {
        Some(f) => if alive_in(v.windows, f) {
            Some(f)
        } else {
            last_of(lists[v.current])
        },
        None => None,
    };
    CoreView { lists, focus, ..v }
}

/// A client with identity `id` is registered.
pub open spec fn has_client(clients: Seq<ClientRecord>, id: CoreClientId) -> bool {
    exists|i: int| 0 <= i < clients.len() && clients[i].id == id
}

/// Position of the client `id`.
pub open spec fn client_index(clients: Seq<ClientRecord>, id: CoreClientId) -> int {
    choose|i: int| 0 <= i < clients.len() && clients[i].id == id
}

/// A surface with identity `id` is registered.
pub open spec fn has_surface(surfaces: Seq<SurfaceRecord>, id: SurfaceId) -> bool {
    exists|i: int| 0 <= i < surfaces.len() && surfaces[i].id == id
}

/// Position of the surface `id`.
pub open spec fn surface_index(surfaces: Seq<SurfaceRecord>, id: SurfaceId) -> int {
    choose|i: int| 0 <= i < surfaces.len() && surfaces[i].id == id
}

/// Client `id` is registered and alive.
pub open spec fn client_alive(v: CoreView, id: CoreClientId) -> bool {
    has_client(v.clients, id) && v.clients[client_index(v.clients, id)].alive
}

/// Surface `id` is registered and alive.
pub open spec fn surface_alive(v: CoreView, id: SurfaceId) -> bool {
    has_surface(v.surfaces, id) && v.surfaces[surface_index(v.surfaces, id)].alive
}

/// Surface record `s` is alive and owned by client `c`.
pub open spec fn owned_by(s: SurfaceRecord, c: CoreClientId) -> bool {
    s.client == Some(c) && s.alive
}

/// Window `w` is bound to an alive surface of client `c`.
pub open spec fn bound_to_client(surfaces: Seq<SurfaceRecord>, c: CoreClientId, w: WindowId) -> bool {
    exists|j: int| 0 <= j < surfaces.len() && owned_by(surfaces[j], c) && surfaces[j].window == Some(w)
}

/// Some workspace references window `w`.
pub open spec fn referenced(v: CoreView, w: WindowId) -> bool {
    exists|k: int| 0 <= k < v.lists.len() && v.lists[k].contains(w)
}

/// Structure of the view that does not depend on which windows are alive.
pub open spec fn base_wf(v: CoreView) -> bool {
    &&& forall|i: int| 0 <= i < v.windows.len() ==> (#[trigger] v.windows[i]).id == i + 1
    &&& v.windows.len() < u64::MAX
    &&& v.lists.len() == WORKSPACE_COUNT
    &&& 0 <= v.current < v.lists.len()
    &&& forall|i: int, j: int|
        0 <= i < j < v.clients.len() ==> v.clients[i].id != v.clients[j].id
    &&& forall|i: int| 0 <= i < v.clients.len() ==> (#[trigger] v.clients[i]).id < v.next_client
    &&& forall|i: int, j: int|
        0 <= i < j < v.surfaces.len() ==> v.surfaces[i].id != v.surfaces[j].id
    &&& forall|i: int|
        0 <= i < v.surfaces.len() ==> ((#[trigger] v.surfaces[i]).window matches Some(w) ==> 1 <= w
            <= v.windows.len())
}

/// Workspaces and focus only reference alive windows.
pub open spec fn refs_alive(v: CoreView) -> bool {
    &&& forall|k: int, j: int|
        0 <= k < v.lists.len() && 0 <= j < v.lists[k].len() ==> alive_in(v.windows, v.lists[k][j])
    &&& v.focus matches Some(f) ==> alive_in(v.windows, f)
}

/// Structural well-formedness of the view.
pub open spec fn view_wf(v: CoreView) -> bool {
    base_wf(v) && refs_alive(v)
}

/// The record of a newly created window.
pub open spec fn new_window(
    id: WindowId,
    kind: WindowKind,
    title: String,
    app_id: Option<String>,
    surface: Option<SurfaceId>,
) -> WindowRecord {
    WindowRecord { id, kind, title, app_id, surface, alive: true }
}

/// Adds a window to the current workspace and focuses it.
pub open spec fn add_window(v: CoreView, rec: WindowRecord) -> CoreView {
    CoreView {
        windows: v.windows.push(rec),
        lists: v.lists.update(v.current, v.lists[v.current].push(rec.id)),
        focus: Some(rec.id),
        ..v
    }
}

/// Window identities are exhausted: one more cannot be numbered.
pub open spec fn windows_full(v: CoreView) -> bool {
    v.windows.len() + 1 >= u64::MAX
}

/// Title of windows created by the spawn action.
pub open spec fn spawned_title() -> Seq<char> {
    "New Window"@
}

/// The state after one command.
pub open spec fn step_view(v: CoreView, cmd: CoreCommand) -> CoreView {
    match cmd {
        CoreCommand::Dispatch(action) => match action {
            Action::NextWorkspace => {
                let current = (v.current + 1) % (v.lists.len() as int);
                CoreView { current, focus: last_of(v.lists[current]), ..v }
            },
            Action::SpawnWindow => v,  // see `step`: the spawned window's title is a string
            Action::CloseFocusedWindow => match v.focus {
                Some(f) => settle(CoreView { windows: close_windows(v.windows, |x: WindowId| x == f), ..v }),
                None => v,
            },
        },
        CoreCommand::DebugText => v,
        CoreCommand::ValidateText => v,
        CoreCommand::ResizeOutput { width, height } => CoreView {
            output: OutputSize { width, height },
            ..v
        },
        CoreCommand::RegisterClient { client, kind, name } => match client {
            Some(c) => if has_client(v.clients, c) || c == u64::MAX {
                v
            } else {
                CoreView {
                    clients: v.clients.push(ClientRecord { id: c, kind, name, alive: true }),
                    next_client: if c < v.next_client {
                        v.next_client
                    } else {
                        (c + 1) as u64
                    },
                    ..v
                }
            },
            None => if v.next_client == u64::MAX {
                v
            } else {
                CoreView {
                    clients: v.clients.push(
                        ClientRecord { id: v.next_client, kind, name, alive: true },
                    ),
                    next_client: (v.next_client + 1) as u64,
                    ..v
                }
            },
        },
        CoreCommand::CloseClient(c) => if client_alive(v, c) {
            let i = client_index(v.clients, c);
            settle(
                CoreView {
                    clients: v.clients.update(i, ClientRecord { alive: false, ..v.clients[i] }),
                    surfaces: v.surfaces.map_values(
                        |s: SurfaceRecord| if owned_by(s, c) {
                            SurfaceRecord { alive: false, ..s }
                        } else {
                            s
                        },
                    ),
                    windows: close_windows(
                        v.windows,
                        |x: WindowId| bound_to_client(v.surfaces, c, x),
                    ),
                    ..v
                },
            )
        } else {
            v
        },
        CoreCommand::RegisterSurface { surface, client, role } => if has_surface(
            v.surfaces,
            surface,
        ) {
            v
        } else {
            CoreView {
                surfaces: v.surfaces.push(
                    SurfaceRecord { id: surface, client, role, window: None, alive: true },
                ),
                ..v
            }
        },
        CoreCommand::CloseSurface(s) => if surface_alive(v, s) {
            let i = surface_index(v.surfaces, s);
            let rec = v.surfaces[i];
            settle(
                CoreView {
                    surfaces: v.surfaces.update(i, SurfaceRecord { alive: false, ..rec }),
                    windows: match rec.window {
                        Some(w) => close_windows(v.windows, |x: WindowId| x == w),
                        None => v.windows,
                    },
                    ..v
                },
            )
        } else {
            v
        },
        CoreCommand::RegisterWindowForSurface { surface, title, app_id, kind } => if windows_full(
            v,
        ) {
            v
        } else {
            let id = (v.windows.len() + 1) as u64;
            if surface_alive(v, surface) && v.surfaces[surface_index(
                v.surfaces,
                surface,
            )].window is None {
                let i = surface_index(v.surfaces, surface);
                add_window(
                    CoreView {
                        surfaces: v.surfaces.update(
                            i,
                            SurfaceRecord { window: Some(id), ..v.surfaces[i] },
                        ),
                        ..v
                    },
                    new_window(id, kind, title, app_id, Some(surface)),
                )
            } else {
                add_window(v, new_window(id, kind, title, app_id, None))
            }
        },
    }
}

/// `v2` is the state after `cmd` in `v`.
pub open spec fn step(v: CoreView, cmd: CoreCommand, v2: CoreView) -> bool {
    match cmd {
        CoreCommand::Dispatch(Action::SpawnWindow) => if windows_full(v) {
            v2 == v
        } else {
            exists|t: String|
                t@ == spawned_title() && v2 == add_window(
                    v,
                    new_window((v.windows.len() + 1) as u64, WindowKind::Internal, t, None, None),
                )
        },
        _ => v2 == step_view(v, cmd),
    }
}

/// `r` is the result of `cmd` in `v`.
pub open spec fn step_result(v: CoreView, cmd: CoreCommand, r: CommandResult) -> bool {
    match cmd {
        CoreCommand::Dispatch(action) => r == CommandResult::ActionDispatched {
            action,
            changed: match action {
                Action::NextWorkspace => v.lists.len() > 1,
                Action::SpawnWindow => !windows_full(v),
                Action::CloseFocusedWindow => v.focus is Some,
            },
        },
        CoreCommand::DebugText => r matches CommandResult::Text(t) && t@ == debug_text(v),
        CoreCommand::ValidateText => r matches CommandResult::Text(t) && t@ == validation_text(v),
        CoreCommand::ResizeOutput { width, height } => r == CommandResult::OutputResized {
            width,
            height,
        },
        CoreCommand::RegisterClient { client, .. } => match client {
            Some(c) => r == CommandResult::ClientRegistered {
                client: c,
                registered: !(has_client(v.clients, c) || c == u64::MAX),
            },
            None => r == CommandResult::ClientRegistered {
                client: v.next_client,
                registered: v.next_client != u64::MAX,
            },
        },
        CoreCommand::CloseClient(c) => r == CommandResult::ClientClosed {
            client: c,
            closed: client_alive(v, c),
        },
        CoreCommand::RegisterSurface { surface, .. } => r == CommandResult::SurfaceRegistered {
            surface,
            registered: !has_surface(v.surfaces, surface),
        },
        CoreCommand::CloseSurface(s) => r == CommandResult::SurfaceClosed {
            surface: s,
            closed: surface_alive(v, s),
        },
        CoreCommand::RegisterWindowForSurface { surface, .. } => r
            == CommandResult::WindowRegisteredForSurface {
            surface,
            window: if windows_full(v) {
                0
            } else {
                (v.windows.len() + 1) as u64
            },
            bound: !windows_full(v) && surface_alive(v, surface) && v.surfaces[surface_index(
                v.surfaces,
                surface,
            )].window is None,
        },
    }
}

/// `v` is the initial state: four workspaces, the first holding one focused
/// internal window titled "Welcome", a 1920x1080 output, and no clients or
/// surfaces.
pub open spec fn is_initial(v: CoreView) -> bool {
    &&& v.clients.len() == 0
    &&& v.next_client == 1
    &&& v.surfaces.len() == 0
    &&& v.windows.len() == 1
    &&& v.windows[0].id == 1
    &&& v.windows[0].kind == WindowKind::Internal
    &&& v.windows[0].title@ == "Welcome"@
    &&& v.windows[0].app_id is None
    &&& v.windows[0].surface is None
    &&& v.windows[0].alive
    &&& v.lists == seq![seq![1u64], Seq::<WindowId>::empty(), Seq::<WindowId>::empty(), Seq::<WindowId>::empty()]
    &&& v.current == 0
    &&& v.focus == Some(1u64)
    &&& v.output == (OutputSize { width: 1920, height: 1080 })
}

/// The output size is invalid: a zero dimension.
pub open spec fn output_invalid(v: CoreView) -> bool {
    v.output.width == 0 || v.output.height == 0
}

/// Issues the validator reports for `v`.
pub open spec fn validation_issues(v: CoreView) -> Seq<ValidationIssue> {
    if output_invalid(v) {
        seq![ValidationIssue::InvalidOutputSize { width: v.output.width, height: v.output.height }]
    } else {
        Seq::empty()
    }
}

/// Text of the validation report.
pub open spec fn validation_text(v: CoreView) -> Seq<char> {
    "Sky Mirror Validation Report\n"@ + if output_invalid(v) {
        "- InvalidOutputSize\n"@
    } else {
        "status: clean\n"@
    }
}

/// Text of the debug snapshot, followed by the validation report.
pub open spec fn debug_text(v: CoreView) -> Seq<char> {
    "Sky Mirror Debug Snapshot\nWorkspaces: "@ + decimal(v.lists.len()) + "\nWindows: "@ + decimal(
        v.windows.len(),
    ) + "\n"@ + validation_text(v)
}

// ----- executable state -----

/// One issue found by the validator.
#[derive(Debug, Clone, Copy, PartialEq, Eq, Structural)]
pub enum ValidationIssue {
    /// The output has a zero dimension.
    InvalidOutputSize { width: u32, height: u32 },
}

/// Result of validating the state.
#[derive(Debug, Clone, PartialEq, Eq)]
pub struct ValidationReport {
    pub issues: Vec<ValidationIssue>,
}

impl ValidationReport {
    /// No issue was found.
    pub fn is_clean(&self) -> (r: bool)
        ensures
            r == (self.issues@.len() == 0),
    {
        self.issues.len() == 0
    }
}

/// Diagnostic view of one window.
#[derive(Debug, Clone, Copy, PartialEq, Eq, Structural)]
pub struct DebugWindowInfo {
    pub id: WindowId,
    pub alive: bool,
    pub referenced_by_workspace: bool,
}

/// Diagnostic view of all windows.
#[derive(Debug, Clone, PartialEq, Eq)]
pub struct DebugSnapshot {
    pub windows: Vec<DebugWindowInfo>,
}

impl ClientRegistry {
    /// Client records in registration order.
    pub closed spec fn spec_records(&self) -> Seq<ClientRecord> {
        self.records@
    }

    /// Client identities are unique.
    pub open spec fn wf(&self) -> bool {
        forall|i: int, j: int|
            0 <= i < j < self.spec_records().len() ==> self.spec_records()[i].id
                != self.spec_records()[j].id
    }

    fn find(&self, id: CoreClientId) -> (r: Option<usize>)
        requires
            self.wf(),
        ensures
            r is Some <==> has_client(self.records@, id),
            r matches Some(i) ==> i < self.records@.len() && self.records@[i as int].id == id
                && client_index(self.records@, id) == i,
    {
        let mut i: usize = 0;
        while i < self.records.len()
            invariant
                self.wf(),
                i <= self.records@.len(),
                forall|k: int| 0 <= k < i ==> self.records@[k].id != id,
            decreases self.records@.len() - i,
        {
            if self.records[i].id == id {
                let ghost j = client_index(self.records@, id);
                assert(j == i) by {
                    if j != i {
                        if j < i {
                        } else {
                            assert(self.records@[i as int].id != self.records@[j].id);
                        }
                    }
                }
                return Some(i);
            }
            i = i + 1;
        }
        None
    }

    /// The record of client `id`, closed clients included.
    pub fn get(&self, id: CoreClientId) -> (r: Option<&ClientRecord>)
        requires
            self.wf(),
        ensures
            r is Some <==> has_client(self.spec_records(), id),
            r matches Some(rec) ==> *rec == self.spec_records()[client_index(self.spec_records(), id)]
                && rec.id == id,
    {
        match self.find(id) {
            Some(i) => Some(&self.records[i]),
            None => None,
        }
    }

    /// Client `id` is registered and alive.
    pub fn is_alive(&self, id: CoreClientId) -> (r: bool)
        requires
            self.wf(),
        ensures
            r == (has_client(self.spec_records(), id) && self.spec_records()[client_index(
                self.spec_records(),
                id,
            )].alive),
    {
        match self.find(id) {
            Some(i) => self.records[i].alive,
            None => false,
        }
    }

    /// All client records in registration order.
    pub fn records(&self) -> (r: &[ClientRecord])
        ensures
            r@ == self.spec_records(),
    {
        self.records.as_slice()
    }
}

impl SurfaceRegistry {
    /// Surface records in registration order.
    pub closed spec fn spec_records(&self) -> Seq<SurfaceRecord> {
        self.records@
    }

    /// Surface identities are unique.
    pub open spec fn wf(&self) -> bool {
        forall|i: int, j: int|
            0 <= i < j < self.spec_records().len() ==> self.spec_records()[i].id
                != self.spec_records()[j].id
    }

    fn find(&self, id: SurfaceId) -> (r: Option<usize>)
        requires
            self.wf(),
        ensures
            r is Some <==> has_surface(self.records@, id),
            r matches Some(i) ==> i < self.records@.len() && self.records@[i as int].id == id
                && surface_index(self.records@, id) == i,
    {
        let mut i: usize = 0;
        while i < self.records.len()
            invariant
                self.wf(),
                i <= self.records@.len(),
                forall|k: int| 0 <= k < i ==> self.records@[k].id != id,
            decreases self.records@.len() - i,
        {
            if self.records[i].id == id {
                let ghost j = surface_index(self.records@, id);
                assert(j == i) by {
                    if j != i {
                        if j < i {
                        } else {
                            assert(self.records@[i as int].id != self.records@[j].id);
                        }
                    }
                }
                return Some(i);
            }
            i = i + 1;
        }
        None
    }

    /// The record of surface `id`, closed surfaces included.
    pub fn get(&self, id: SurfaceId) -> (r: Option<&SurfaceRecord>)
        requires
            self.wf(),
        ensures
            r is Some <==> has_surface(self.spec_records(), id),
            r matches Some(rec) ==> *rec == self.spec_records()[surface_index(
                self.spec_records(),
                id,
            )] && rec.id == id,
    {
        match self.find(id) {
            Some(i) => Some(&self.records[i]),
            None => None,
        }
    }

    /// Surface `id` is registered and alive.
    pub fn is_alive(&self, id: SurfaceId) -> (r: bool)
        requires
            self.wf(),
        ensures
            r == (has_surface(self.spec_records(), id) && self.spec_records()[surface_index(
                self.spec_records(),
                id,
            )].alive),
    {
        match self.find(id) {
            Some(i) => self.records[i].alive,
            None => false,
        }
    }

    /// All surface records in registration order.
    pub fn records(&self) -> (r: &[SurfaceRecord])
        ensures
            r@ == self.spec_records(),
    {
        self.records.as_slice()
    }
}

impl WindowRegistry {
    /// Window records; record `i` is window `i + 1`.
    pub closed spec fn spec_records(&self) -> Seq<WindowRecord> {
        self.records@
    }

    /// The record of window `id`, closed windows included.
    pub fn get(&self, id: WindowId) -> (r: Option<&WindowRecord>)
        ensures
            r is Some <==> 1 <= id <= self.spec_records().len(),
            r matches Some(rec) ==> *rec == self.spec_records()[id - 1],
    {
        if id >= 1 && id <= self.records.len() as u64 {
            Some(&self.records[(id - 1) as usize])
        } else {
            None
        }
    }

    /// Window `id` exists and is alive.
    pub fn is_alive(&self, id: WindowId) -> (r: bool)
        ensures
            r == alive_in(self.spec_records(), id),
    {
        if id >= 1 && id <= self.records.len() as u64 {
            self.records[(id - 1) as usize].alive
        } else {
            false
        }
    }
}

impl Workspace {
    /// The windows this workspace references, in placement order.
    pub fn window_ids(&self) -> (r: Vec<WindowId>)
        ensures
            r@ == self.windows@,
    {
        self.windows.clone()
    }
}

impl CompositorState {
    /// The output size.
    pub closed spec fn spec_output(&self) -> OutputSize {
        self.output
    }

    /// Identity of the current workspace (`index + 1`).
    pub fn current_workspace_id(&self) -> (r: u64)
        requires
            self.current_workspace < self.workspaces@.len(),
        ensures
            r == self.workspaces@[self.current_workspace as int].id,
    {
        self.workspaces[self.current_workspace].id
    }

    /// The current output size.
    pub fn current_output_size(&self) -> (r: OutputSize)
        ensures
            r == self.spec_output(),
    {
        self.output
    }
}

/// Keeps the windows of `l` that are alive in `windows`, order kept.
fn keep_alive_list(l: &Vec<WindowId>, windows: &Vec<WindowRecord>) -> (r: Vec<WindowId>)
    requires
        forall|i: int| 0 <= i < windows@.len() ==> (#[trigger] windows@[i]).id == i + 1,
    ensures
        r@ == keep_alive(l@, windows@),
{
    let mut out: Vec<WindowId> = Vec::new();
    let mut i: usize = 0;
    while i < l.len()
        invariant
            i <= l@.len(),
            out@ == keep_alive(l@.take(i as int), windows@),
        decreases l@.len() - i,
    {
        let w = l[i];
        assert(l@.take(i + 1).drop_last() =~= l@.take(i as int));
        assert(l@.take(i + 1).last() == w);
        if w >= 1 && w <= windows.len() as u64 && windows[(w - 1) as usize].alive {
            out.push(w);
        }
        i = i + 1;
    }
    assert(l@.take(i as int) =~= l@);
    out
}

/// Every element of `keep_alive(l, windows)` is alive in `windows`.
proof fn lemma_keep_alive_alive(l: Seq<WindowId>, windows: Seq<WindowRecord>)
    ensures
        forall|j: int|
            0 <= j < keep_alive(l, windows).len() ==> alive_in(
                windows,
                #[trigger] keep_alive(l, windows)[j],
            ),
    decreases l.len(),
{
    if l.len() > 0 {
        lemma_keep_alive_alive(l.drop_last(), windows);
        let rest = keep_alive(l.drop_last(), windows);
        let k = keep_alive(l, windows);
        assert forall|j: int| 0 <= j < k.len() implies alive_in(windows, #[trigger] k[j]) by {
            if alive_in(windows, l.last()) {
                if j < rest.len() {
                    assert(k[j] == rest[j]);
                }
            } else {
                assert(k[j] == rest[j]);
            }
        }
    }
}

/// Keeping alive windows of a list whose windows are all alive changes nothing.
proof fn lemma_keep_alive_all_alive(l: Seq<WindowId>, windows: Seq<WindowRecord>)
    requires
        forall|j: int| 0 <= j < l.len() ==> alive_in(windows, #[trigger] l[j]),
    ensures
        keep_alive(l, windows) == l,
    decreases l.len(),
{
    if l.len() > 0 {
        lemma_keep_alive_all_alive(l.drop_last(), windows);
        assert(l.drop_last().push(l.last()) =~= l);
    }
}

/// Membership in `keep_alive(l, windows)`.
pub proof fn lemma_keep_alive_contains(l: Seq<WindowId>, windows: Seq<WindowRecord>, w: WindowId)
    ensures
        keep_alive(l, windows).contains(w) <==> (l.contains(w) && alive_in(windows, w)),
    decreases l.len(),
{
    if l.len() > 0 {
        let dl = l.drop_last();
        lemma_keep_alive_contains(dl, windows, w);
        let rest = keep_alive(dl, windows);
        let k = keep_alive(l, windows);
        assert(l.contains(w) <==> (dl.contains(w) || l.last() == w)) by {
            if l.contains(w) {
                let j = choose|j: int| 0 <= j < l.len() && l[j] == w;
                if j < l.len() - 1 {
                    assert(dl[j] == w);
                }
            }
            if dl.contains(w) {
                let j = choose|j: int| 0 <= j < dl.len() && dl[j] == w;
                assert(l[j] == w);
            }
            assert(l[l.len() - 1] == l.last());
        }
        if alive_in(windows, l.last()) {
            assert(k == rest.push(l.last()));
            assert(k.contains(w) <==> (rest.contains(w) || l.last() == w)) by {
                if rest.contains(w) {
                    let j = choose|j: int| 0 <= j < rest.len() && rest[j] == w;
                    assert(k[j] == w);
                }
                if k.contains(w) {
                    let j = choose|j: int| 0 <= j < k.len() && k[j] == w;
                    if j < rest.len() {
                        assert(rest[j] == w);
                    }
                }
                assert(k[k.len() - 1] == l.last());
            }
        } else {
            assert(k == rest);
        }
    }
}

impl State {
    /// Mathematical view of the state.
    pub closed spec fn view(&self) -> CoreView {
        CoreView {
            clients: self.clients.records@,
            next_client: self.clients.next_client_id,
            surfaces: self.surfaces.records@,
            windows: self.registry.records@,
            lists: self.compositor.workspaces@.map_values(|w: Workspace| w.windows@),
            current: self.compositor.current_workspace as int,
            focus: self.compositor.focus.window,
            output: self.compositor.output,
        }
    }

    /// Well-formedness: the view is well-formed and workspace `k` has identity `k + 1`.
    pub closed spec fn wf(&self) -> bool {
        &&& view_wf(self.view())
        &&& forall|k: int|
            0 <= k < self.compositor.workspaces@.len() ==> (#[trigger] self.compositor.workspaces@[k]).id
                == k + 1
    }

    /// The registries and accessors expose the view.
    pub proof fn lemma_view_parts(&self)
        requires
            self.wf(),
        ensures
            view_wf(self.view()),
            self.clients.wf(),
            self.surfaces.wf(),
            self.clients.spec_records() == self.view().clients,
            self.surfaces.spec_records() == self.view().surfaces,
            self.registry.spec_records() == self.view().windows,
            self.compositor.spec_output() == self.view().output,
            self.compositor.focus.window == self.view().focus,
            self.compositor.current_workspace == self.view().current,
            self.compositor.current_workspace < self.compositor.workspaces@.len(),
            self.compositor.workspaces@.len() == self.view().lists.len(),
            forall|k: int|
                0 <= k < self.compositor.workspaces@.len() ==> (#[trigger] self.compositor.workspaces@[k]).windows@
                    == self.view().lists[k] && self.compositor.workspaces@[k].id == k + 1,
    {
    }

    /// Creates the initial state: four workspaces, the first holding one
    /// focused internal window titled "Welcome", a 1920x1080 output, and no
    /// clients or surfaces.
    pub fn new() -> (r: Self)
        ensures
            r.wf(),
            is_initial(r.view()),
            r.view().clients.len() == 0,
            r.view().next_client == 1,
            r.view().surfaces.len() == 0,
            r.view().windows.len() == 1,
            r.view().windows[0].id == 1,
            r.view().windows[0].kind == WindowKind::Internal,
            r.view().windows[0].title@ == "Welcome"@,
            r.view().windows[0].app_id is None,
            r.view().windows[0].surface is None,
            r.view().windows[0].alive,
            r.view().lists == seq![seq![1u64], Seq::<WindowId>::empty(), Seq::<WindowId>::empty(), Seq::<WindowId>::empty()],
            r.view().current == 0,
            r.view().focus == Some(1u64),
            r.view().output == (OutputSize { width: 1920, height: 1080 }),
    {
        let mut windows: Vec<WindowRecord> = Vec::new();
        windows.push(
            WindowRecord {
                id: 1,
                kind: WindowKind::Internal,
                title: String::from_str("Welcome"),
                app_id: None,
                surface: None,
                alive: true,
            },
        );
        let mut first: Vec<WindowId> = Vec::new();
        first.push(1);
        let mut workspaces: Vec<Workspace> = Vec::new();
        workspaces.push(Workspace { id: 1, windows: first });
        workspaces.push(Workspace { id: 2, windows: Vec::new() });
        workspaces.push(Workspace { id: 3, windows: Vec::new() });
        workspaces.push(Workspace { id: 4, windows: Vec::new() });
        let state = State {
            compositor: CompositorState {
                workspaces,
                current_workspace: 0,
                focus: Focus { window: Some(1) },
                output: OutputSize { width: 1920, height: 1080 },
            },
            clients: ClientRegistry { records: Vec::new(), next_client_id: 1 },
            surfaces: SurfaceRegistry { records: Vec::new() },
            registry: WindowRegistry { records: windows },
        };
        assert(state.view().lists =~= seq![seq![1u64], Seq::<WindowId>::empty(), Seq::<WindowId>::empty(), Seq::<WindowId>::empty()]);
        state
    }

    /// Validates the state: only the output size can be invalid.
    pub fn validate(&self) -> (r: ValidationReport)
        ensures
            r.issues@ == validation_issues(self.view()),
    {
        let mut issues: Vec<ValidationIssue> = Vec::new();
        let output = self.compositor.output;
        if output.width == 0 || output.height == 0 {
            issues.push(ValidationIssue::InvalidOutputSize { width: output.width, height: output.height });
        }
        ValidationReport { issues }
    }

    /// Text of the validation report.
    pub fn validation_text(&self) -> (r: String)
        ensures
            r@ == validation_text(self.view()),
    {
        let mut text = String::from_str("Sky Mirror Validation Report\n");
        let output = self.compositor.output;
        if output.width == 0 || output.height == 0 {
            text.append("- InvalidOutputSize\n");
        } else {
            text.append("status: clean\n");
        }
        text
    }

    /// Text of the debug snapshot followed by the validation report.
    pub fn debug_text(&self) -> (r: String)
        ensures
            r@ == debug_text(self.view()),
    {
        let mut text = String::from_str("Sky Mirror Debug Snapshot\nWorkspaces: ");
        push_decimal(&mut text, self.compositor.workspaces.len());
        text.append("\nWindows: ");
        push_decimal(&mut text, self.registry.records.len());
        text.append("\n");
        let validation = self.validation_text();
        text.append(validation.as_str());
        text
    }

    /// Diagnostic listing of every window with its liveness and whether a
    /// workspace references it.
    pub fn debug_snapshot(&self) -> (r: DebugSnapshot)
        ensures
            r.windows@.len() == self.view().windows.len(),
            forall|i: int|
                0 <= i < r.windows@.len() ==> {
                    let info = #[trigger] r.windows@[i];
                    &&& info.id == self.view().windows[i].id
                    &&& info.alive == self.view().windows[i].alive
                    &&& info.referenced_by_workspace == referenced(self.view(), info.id)
                },
    {
        let mut out: Vec<DebugWindowInfo> = Vec::new();
        let mut i: usize = 0;
        while i < self.registry.records.len()
            invariant
                i <= self.registry.records@.len(),
                out@.len() == i,
                forall|k: int|
                    0 <= k < i ==> {
                        let info = #[trigger] out@[k];
                        &&& info.id == self.view().windows[k].id
                        &&& info.alive == self.view().windows[k].alive
                        &&& info.referenced_by_workspace == referenced(self.view(), info.id)
                    },
            decreases self.registry.records@.len() - i,
        {
            let id = self.registry.records[i].id;
            let referenced = self.is_referenced(id);
            out.push(DebugWindowInfo { id, alive: self.registry.records[i].alive, referenced_by_workspace: referenced });
            i = i + 1;
        }
        DebugSnapshot { windows: out }
    }

    fn is_referenced(&self, w: WindowId) -> (r: bool)
        ensures
            r == referenced(self.view(), w),
    {
        let mut k: usize = 0;
        while k < self.compositor.workspaces.len()
            invariant
                k <= self.compositor.workspaces@.len(),
                self.view().lists.len() == self.compositor.workspaces@.len(),
                forall|a: int| 0 <= a < k ==> !self.view().lists[a].contains(w),
            decreases self.compositor.workspaces@.len() - k,
        {
            let list = &self.compositor.workspaces[k].windows;
            let mut j: usize = 0;
            assert(list@ == self.view().lists[k as int]);
            while j < list.len()
                invariant
                    k < self.compositor.workspaces@.len(),
                    self.view().lists.len() == self.compositor.workspaces@.len(),
                    j <= list@.len(),
                    list@ == self.view().lists[k as int],
                    forall|b: int| 0 <= b < j ==> list@[b] != w,
                decreases list@.len() - j,
            {
                if list[j] == w {
                    assert(self.view().lists[k as int][j as int] == w);
                    assert(self.view().lists[k as int].contains(w));
                    return true;
                }
                j = j + 1;
            }
            assert(!self.view().lists[k as int].contains(w));
            k = k + 1;
        }
        false
    }
}

impl State {
    /// Workspace `k` has identity `k + 1`.
    pub closed spec fn ws_ids(&self) -> bool {
        forall|k: int|
            0 <= k < self.compositor.workspaces@.len() ==> (#[trigger] self.compositor.workspaces@[k]).id
                == k + 1
    }

    proof fn lemma_wf_parts(&self)
        ensures
            self.wf() == (view_wf(self.view()) && self.ws_ids()),
            self.view().lists.len() == self.compositor.workspaces@.len(),
            forall|k: int|
                0 <= k < self.compositor.workspaces@.len() ==> #[trigger] self.view().lists[k]
                    == self.compositor.workspaces@[k].windows@,
    {
    }

    /// Drops closed windows from every workspace and moves a closed focus to
    /// the last window of the current workspace.
    fn settle_refs(&mut self)
        requires
            base_wf(old(self).view()),
            old(self).ws_ids(),
        ensures
            final(self).wf(),
            final(self).view() == settle(old(self).view()),
    {
        let ghost v = self.view();
        proof {
            self.lemma_wf_parts();
        }
        let mut new_ws: Vec<Workspace> = Vec::new();
        let mut k: usize = 0;
        while k < self.compositor.workspaces.len()
            invariant
                self.view() == v,
                self.ws_ids(),
                base_wf(v),
                v.lists.len() == self.compositor.workspaces@.len(),
                forall|a: int|
                    0 <= a < self.compositor.workspaces@.len() ==> #[trigger] v.lists[a]
                        == self.compositor.workspaces@[a].windows@,
                k <= self.compositor.workspaces@.len(),
                new_ws@.len() == k,
                forall|a: int|
                    0 <= a < k ==> (#[trigger] new_ws@[a]).id == a + 1 && new_ws@[a].windows@
                        == keep_alive(v.lists[a], v.windows),
            decreases self.compositor.workspaces@.len() - k,
        {
            let list = keep_alive_list(
                &self.compositor.workspaces[k].windows,
                &self.registry.records,
            );
            let id = self.compositor.workspaces[k].id;
            new_ws.push(Workspace { id, windows: list });
            k = k + 1;
        }
        self.compositor.workspaces = new_ws;
        let ghost lists = v.lists.map_values(|l: Seq<WindowId>| keep_alive(l, v.windows));
        assert(self.view().lists =~= lists);
        match self.compositor.focus.window {
            Some(f) => {
                if !self.registry.is_alive(f) {
                    let current = self.compositor.current_workspace;
                    let len = self.compositor.workspaces[current].windows.len();
                    if len > 0 {
                        let last = self.compositor.workspaces[current].windows[len - 1];
                        self.compositor.focus = Focus { window: Some(last) };
                    } else {
                        self.compositor.focus = Focus { window: None };
                    }
                }
            },
            None => {},
        }
        proof {
            let nv = self.view();
            assert(nv == settle(v));
            assert forall|a: int, j: int|
                0 <= a < nv.lists.len() && 0 <= j < nv.lists[a].len() implies alive_in(
                nv.windows,
                nv.lists[a][j],
            ) by {
                lemma_keep_alive_alive(v.lists[a], v.windows);
                assert(nv.lists[a] == keep_alive(v.lists[a], v.windows));
            }
            if let Some(f) = nv.focus {
                if !alive_in(v.windows, v.focus->0) {
                    let l = nv.lists[v.current];
                    assert(f == l[l.len() - 1]);
                }
            }
        }
    }

    /// Marks window `w` as not alive.
    fn close_window_flag(&mut self, w: WindowId)
        requires
            base_wf(old(self).view()),
            1 <= w <= old(self).view().windows.len(),
        ensures
            final(self).view() == (CoreView {
                windows: old(self).view().windows.update(
                    w - 1,
                    WindowRecord { alive: false, ..old(self).view().windows[w - 1] },
                ),
                ..old(self).view()
            }),
            final(self).ws_ids() == old(self).ws_ids(),
    {
        let idx = (w - 1) as usize;
        let rec = &self.registry.records[idx];
        let closed = WindowRecord {
            id: rec.id,
            kind: rec.kind,
            title: rec.title.clone(),
            app_id: copy_opt_string(&rec.app_id),
            surface: rec.surface,
            alive: false,
        };
        self.registry.records.set(idx, closed);
        assert(self.view().windows =~= old(self).view().windows.update(
            w - 1,
            WindowRecord { alive: false, ..old(self).view().windows[w - 1] },
        ));
    }
}

/// Closing the window at index `w - 1` by flag equals closing it by identity.
proof fn lemma_close_one(windows: Seq<WindowRecord>, w: WindowId)
    requires
        forall|i: int| 0 <= i < windows.len() ==> (#[trigger] windows[i]).id == i + 1,
        1 <= w <= windows.len(),
    ensures
        windows.update(w - 1, WindowRecord { alive: false, ..windows[w - 1] }) == close_windows(
            windows,
            |x: WindowId| x == w,
        ),
{
    assert(windows.update(w - 1, WindowRecord { alive: false, ..windows[w - 1] }) =~= close_windows(
        windows,
        |x: WindowId| x == w,
    ));
}

/// Transition contract of one command handler.
pub open spec fn handled(old_v: CoreView, cmd: CoreCommand, new_v: CoreView, r: CommandResult) -> bool {
    step(old_v, cmd, new_v) && step_result(old_v, cmd, r)
}

impl State {
    fn next_workspace(&mut self) -> (r: CommandResult)
        requires
            old(self).wf(),
        ensures
            final(self).wf(),
            handled(old(self).view(), CoreCommand::Dispatch(Action::NextWorkspace), final(self).view(), r),
    {
        proof {
            self.lemma_wf_parts();
        }
        let count = self.compositor.workspaces.len();
        let next = (self.compositor.current_workspace + 1) % count;
        self.compositor.current_workspace = next;
        let len = self.compositor.workspaces[next].windows.len();
        if len > 0 {
            let last = self.compositor.workspaces[next].windows[len - 1];
            self.compositor.focus = Focus { window: Some(last) };
        } else {
            self.compositor.focus = Focus { window: None };
        }
        proof {
            let v = self.view();
            let l = v.lists[next as int];
            if len > 0 {
                assert(alive_in(v.windows, l[l.len() - 1]));
            }
        }
        CommandResult::ActionDispatched { action: Action::NextWorkspace, changed: count > 1 }
    }

    /// Creates a window, appends it to the current workspace and focuses it.
    fn push_window(
        &mut self,
        kind: WindowKind,
        title: String,
        app_id: Option<String>,
        surface: Option<SurfaceId>,
    ) -> (id: WindowId)
        requires
            old(self).wf(),
            !windows_full(old(self).view()),
            surface matches Some(s) ==> has_surface(old(self).view().surfaces, s),
        ensures
            final(self).wf(),
            id == old(self).view().windows.len() + 1,
            final(self).view() == add_window(old(self).view(), new_window(id, kind, title, app_id, surface)),
    {
        proof {
            self.lemma_wf_parts();
        }
        let ghost v = self.view();
        let id = self.registry.records.len() as u64 + 1;
        self.registry.records.push(WindowRecord { id, kind, title, app_id, surface, alive: true });
        let current = self.compositor.current_workspace;
        let ws = &self.compositor.workspaces[current];
        let mut windows = ws.windows.clone();
        windows.push(id);
        let ws_id = ws.id;
        self.compositor.workspaces.set(current, Workspace { id: ws_id, windows });
        self.compositor.focus = Focus { window: Some(id) };
        proof {
            let nv = self.view();
            assert(nv.lists =~= v.lists.update(v.current, v.lists[v.current].push(id)));
            assert(nv == add_window(v, new_window(id, kind, title, app_id, surface)));
            assert forall|k: int, j: int|
                0 <= k < nv.lists.len() && 0 <= j < nv.lists[k].len() implies alive_in(
                nv.windows,
                nv.lists[k][j],
            ) by {
                if k == v.current && j == v.lists[k].len() {
                } else {
                    assert(nv.lists[k][j] == v.lists[k][j]);
                    assert(alive_in(v.windows, v.lists[k][j]));
                }
            }
            assert forall|k: int|
                0 <= k < self.compositor.workspaces@.len() implies (#[trigger] self.compositor.workspaces@[k]).id
                == k + 1 by {
                if k != current {
                    assert(self.compositor.workspaces@[k] == old(self).compositor.workspaces@[k]);
                }
            }
        }
        id
    }

    fn spawn_window(&mut self) -> (r: CommandResult)
        requires
            old(self).wf(),
        ensures
            final(self).wf(),
            handled(old(self).view(), CoreCommand::Dispatch(Action::SpawnWindow), final(self).view(), r),
    {
        if self.registry.records.len() as u64 >= u64::MAX - 1 {
            return CommandResult::ActionDispatched { action: Action::SpawnWindow, changed: false };
        }
        let title = String::from_str("New Window");
        let ghost t = title;
        self.push_window(WindowKind::Internal, title, None, None);
        assert(t@ == spawned_title());
        CommandResult::ActionDispatched { action: Action::SpawnWindow, changed: true }
    }

    fn close_focused_window(&mut self) -> (r: CommandResult)
        requires
            old(self).wf(),
        ensures
            final(self).wf(),
            handled(
                old(self).view(),
                CoreCommand::Dispatch(Action::CloseFocusedWindow),
                final(self).view(),
                r,
            ),
    {
        match self.compositor.focus.window {
            Some(f) => {
                let ghost v = self.view();
                self.close_window_flag(f);
                proof {
                    lemma_close_one(v.windows, f);
                }
                self.settle_refs();
                CommandResult::ActionDispatched { action: Action::CloseFocusedWindow, changed: true }
            },
            None => CommandResult::ActionDispatched {
                action: Action::CloseFocusedWindow,
                changed: false,
            },
        }
    }

    fn resize_output(&mut self, width: u32, height: u32) -> (r: CommandResult)
        requires
            old(self).wf(),
        ensures
            final(self).wf(),
            handled(old(self).view(), CoreCommand::ResizeOutput { width, height }, final(self).view(), r),
    {
        self.compositor.output = OutputSize { width, height };
        CommandResult::OutputResized { width, height }
    }

    fn register_client(&mut self, client: Option<CoreClientId>, kind: ClientKind, name: Option<String>) -> (r:
        CommandResult)
        requires
            old(self).wf(),
        ensures
            final(self).wf(),
            handled(
                old(self).view(),
                CoreCommand::RegisterClient { client, kind, name },
                final(self).view(),
                r,
            ),
    {
        proof {
            self.lemma_wf_parts();
        }
        let ghost v = self.view();
        match client {
            Some(c) => {
                if c == u64::MAX || self.clients.find(c).is_some() {
                    return CommandResult::ClientRegistered { client: c, registered: false };
                }
                self.clients.records.push(ClientRecord { id: c, kind, name, alive: true });
                if c >= self.clients.next_client_id {
                    self.clients.next_client_id = c + 1;
                }
                proof {
                    let nv = self.view();
                    assert forall|i: int, j: int|
                        0 <= i < j < nv.clients.len() implies nv.clients[i].id != nv.clients[j].id by {
                        if j == v.clients.len() {
                            assert(nv.clients[i] == v.clients[i]);
                        }
                    }
                    assert(nv.clients =~= v.clients.push(ClientRecord { id: c, kind, name, alive: true }));
                }
                CommandResult::ClientRegistered { client: c, registered: true }
            },
            None => {
                let id = self.clients.next_client_id;
                if id == u64::MAX {
                    return CommandResult::ClientRegistered { client: id, registered: false };
                }
                self.clients.records.push(ClientRecord { id, kind, name, alive: true });
                self.clients.next_client_id = id + 1;
                proof {
                    let nv = self.view();
                    assert forall|i: int, j: int|
                        0 <= i < j < nv.clients.len() implies nv.clients[i].id != nv.clients[j].id by {
                        if j == v.clients.len() {
                            assert(nv.clients[i] == v.clients[i]);
                        }
                    }
                    assert(nv.clients =~= v.clients.push(ClientRecord { id, kind, name, alive: true }));
                }
                CommandResult::ClientRegistered { client: id, registered: true }
            },
        }
    }

    fn register_surface(&mut self, surface: SurfaceId, client: Option<CoreClientId>, role: SurfaceRole) -> (r:
        CommandResult)
        requires
            old(self).wf(),
        ensures
            final(self).wf(),
            handled(
                old(self).view(),
                CoreCommand::RegisterSurface { surface, client, role },
                final(self).view(),
                r,
            ),
    {
        proof {
            self.lemma_wf_parts();
        }
        let ghost v = self.view();
        if self.surfaces.find(surface).is_some() {
            return CommandResult::SurfaceRegistered { surface, registered: false };
        }
        let rec = SurfaceRecord { id: surface, client, role, window: None, alive: true };
        self.surfaces.records.push(rec);
        proof {
            let nv = self.view();
            assert forall|i: int, j: int|
                0 <= i < j < nv.surfaces.len() implies nv.surfaces[i].id != nv.surfaces[j].id by {
                if j == v.surfaces.len() {
                    assert(nv.surfaces[i] == v.surfaces[i]);
                }
            }
            assert(nv.surfaces =~= v.surfaces.push(rec));
        }
        CommandResult::SurfaceRegistered { surface, registered: true }
    }

    fn close_surface(&mut self, surface: SurfaceId) -> (r: CommandResult)
        requires
            old(self).wf(),
        ensures
            final(self).wf(),
            handled(old(self).view(), CoreCommand::CloseSurface(surface), final(self).view(), r),
    {
        proof {
            self.lemma_wf_parts();
        }
        let ghost v = self.view();
        let found = self.surfaces.find(surface);
        let i = match found {
            Some(i) => i,
            None => {
                return CommandResult::SurfaceClosed { surface, closed: false };
            },
        };
        if !self.surfaces.records[i].alive {
            return CommandResult::SurfaceClosed { surface, closed: false };
        }
        let window = self.surfaces.records[i].window;
        let old_rec = &self.surfaces.records[i];
        let closed = SurfaceRecord {
            id: old_rec.id,
            client: old_rec.client,
            role: old_rec.role,
            window: old_rec.window,
            alive: false,
        };
        self.surfaces.records.set(i, closed);
        proof {
            let nv = self.view();
            assert forall|a: int, b: int|
                0 <= a < b < nv.surfaces.len() implies nv.surfaces[a].id != nv.surfaces[b].id by {
                assert(nv.surfaces[a].id == v.surfaces[a].id);
                assert(nv.surfaces[b].id == v.surfaces[b].id);
            }
            assert forall|a: int| 0 <= a < nv.surfaces.len() implies ((#[trigger] nv.surfaces[a]).window matches Some(
                w,
            ) ==> 1 <= w <= nv.windows.len()) by {
                assert(nv.surfaces[a].window == v.surfaces[a].window);
            }
        }
        match window {
            Some(w) => {
                self.close_window_flag(w);
                proof {
                    lemma_close_one(v.windows, w);
                }
            },
            None => {},
        }
        self.settle_refs();
        CommandResult::SurfaceClosed { surface, closed: true }
    }

    fn register_window_for_surface(
        &mut self,
        surface: SurfaceId,
        title: String,
        app_id: Option<String>,
        kind: WindowKind,
    ) -> (r: CommandResult)
        requires
            old(self).wf(),
        ensures
            final(self).wf(),
            handled(
                old(self).view(),
                CoreCommand::RegisterWindowForSurface { surface, title, app_id, kind },
                final(self).view(),
                r,
            ),
    {
        proof {
            self.lemma_wf_parts();
        }
        let ghost v = self.view();
        if self.registry.records.len() as u64 >= u64::MAX - 1 {
            return CommandResult::WindowRegisteredForSurface { surface, window: 0, bound: false };
        }
        let id = self.registry.records.len() as u64 + 1;
        let found = self.surfaces.find(surface);
        let bindable = match found {
            Some(i) => self.surfaces.records[i].alive && self.surfaces.records[i].window.is_none(),
            None => false,
        };
        if bindable {
            let i = match found {
                Some(i) => i,
                None => 0,
            };
            self.push_window(kind, title, app_id, Some(surface));
            let ghost mid = self.view();
            let old_rec = &self.surfaces.records[i];
            let bound_rec = SurfaceRecord {
                id: old_rec.id,
                client: old_rec.client,
                role: old_rec.role,
                window: Some(id),
                alive: old_rec.alive,
            };
            self.surfaces.records.set(i, bound_rec);
            proof {
                let nv = self.view();
                assert(mid.surfaces == v.surfaces);
                assert forall|a: int, b: int|
                    0 <= a < b < nv.surfaces.len() implies nv.surfaces[a].id != nv.surfaces[b].id by {
                    assert(nv.surfaces[a].id == v.surfaces[a].id);
                    assert(nv.surfaces[b].id == v.surfaces[b].id);
                }
                assert forall|a: int| 0 <= a < nv.surfaces.len() implies ((#[trigger] nv.surfaces[a]).window matches Some(
                    w,
                ) ==> 1 <= w <= nv.windows.len()) by {
                    if a != i {
                        assert(nv.surfaces[a] == v.surfaces[a]);
                    }
                }
                let upd = CoreView {
                    surfaces: v.surfaces.update(i as int, SurfaceRecord { window: Some(id), ..v.surfaces[i as int] }),
                    ..v
                };
                assert(nv.surfaces =~= upd.surfaces);
                assert(nv == add_window(upd, new_window(id, kind, title, app_id, Some(surface))));
            }
        } else {
            self.push_window(kind, title, app_id, None);
        }
        CommandResult::WindowRegisteredForSurface { surface, window: id, bound: bindable }
    }
}

/// Window `x` is bound to an alive surface of client `c` among the first `n` surfaces.
pub open spec fn bound_upto(surfaces: Seq<SurfaceRecord>, c: CoreClientId, x: WindowId, n: int) -> bool {
    exists|j: int| 0 <= j < n && owned_by(surfaces[j], c) && surfaces[j].window == Some(x)
}

/// The surface record after closing client `c`.
pub open spec fn close_owned(s: SurfaceRecord, c: CoreClientId) -> SurfaceRecord {
    if owned_by(s, c) {
        SurfaceRecord { alive: false, ..s }
    } else {
        s
    }
}

impl WindowRegistry {
    fn mark_closed(&mut self, idx: usize)
        requires
            idx < old(self).spec_records().len(),
        ensures
            final(self).spec_records() == old(self).spec_records().update(
                idx as int,
                WindowRecord { alive: false, ..old(self).spec_records()[idx as int] },
            ),
    {
        let rec = &self.records[idx];
        let closed = WindowRecord {
            id: rec.id,
            kind: rec.kind,
            title: rec.title.clone(),
            app_id: copy_opt_string(&rec.app_id),
            surface: rec.surface,
            alive: false,
        };
        self.records.set(idx, closed);
    }
}

impl State {
    fn close_client(&mut self, client: CoreClientId) -> (r: CommandResult)
        requires
            old(self).wf(),
        ensures
            final(self).wf(),
            handled(old(self).view(), CoreCommand::CloseClient(client), final(self).view(), r),
    {
        proof {
            self.lemma_wf_parts();
        }
        let ghost v = self.view();
        let found = self.clients.find(client);
        let i = match found {
            Some(i) => i,
            None => {
                return CommandResult::ClientClosed { client, closed: false };
            },
        };
        if !self.clients.records[i].alive {
            return CommandResult::ClientClosed { client, closed: false };
        }
        let old_client = &self.clients.records[i];
        let closed_client = ClientRecord {
            id: old_client.id,
            kind: old_client.kind,
            name: copy_opt_string(&old_client.name),
            alive: false,
        };
        self.clients.records.set(i, closed_client);
        let ghost clients_after = self.view().clients;
        assert(clients_after == v.clients.update(
            i as int,
            ClientRecord { alive: false, ..v.clients[i as int] },
        ));
        let n = self.surfaces.records.len();
        let mut j: usize = 0;
        while j < n
            invariant
                self.ws_ids(),
                n == v.surfaces.len(),
                j <= n,
                base_wf(v),
                self.view().clients == clients_after,
                self.view().next_client == v.next_client,
                self.view().lists == v.lists,
                self.view().current == v.current,
                self.view().focus == v.focus,
                self.view().output == v.output,
                self.view().surfaces.len() == n,
                forall|a: int| 0 <= a < j ==> #[trigger] self.view().surfaces[a] == close_owned(v.surfaces[a], client),
                forall|a: int| j <= a < n ==> #[trigger] self.view().surfaces[a] == v.surfaces[a],
                self.view().windows == close_windows(
                    v.windows,
                    |x: WindowId| bound_upto(v.surfaces, client, x, j as int),
                ),
            decreases n - j,
        {
            let ghost before = self.view();
            let owned = match self.surfaces.records[j].client {
                Some(c) => c == client && self.surfaces.records[j].alive,
                None => false,
            };
            let window = self.surfaces.records[j].window;
            if owned {
                let rec = &self.surfaces.records[j];
                let closed = SurfaceRecord {
                    id: rec.id,
                    client: rec.client,
                    role: rec.role,
                    window: rec.window,
                    alive: false,
                };
                self.surfaces.records.set(j, closed);
                match window {
                    Some(w) => {
                        let len = self.registry.records.len();
                        assert(1 <= w <= len);
                        let idx = (w - 1) as usize;
                        assert(idx == w - 1);
                        self.registry.mark_closed(idx);
                    },
                    None => {},
                }
            }
            proof {
                let nv = self.view();
                let sj = v.surfaces[j as int];
                assert(before.surfaces[j as int] == sj);
                assert(owned == owned_by(sj, client));
                let next = close_windows(
                    v.windows,
                    |x: WindowId| bound_upto(v.surfaces, client, x, j + 1),
                );
                assert forall|k: int| 0 <= k < nv.windows.len() implies #[trigger] nv.windows[k] == next[k] by {
                    let x = v.windows[k].id;
                    assert(x == k + 1);
                    let hit = owned && sj.window == Some(x);
                    if bound_upto(v.surfaces, client, x, j as int) {
                        let jj = choose|jj: int|
                            0 <= jj < j && owned_by(v.surfaces[jj], client) && v.surfaces[jj].window == Some(x);
                        assert(bound_upto(v.surfaces, client, x, j + 1));
                    }
                    if hit {
                        assert(bound_upto(v.surfaces, client, x, j + 1));
                    }
                    if bound_upto(v.surfaces, client, x, j + 1) && !bound_upto(v.surfaces, client, x, j as int) {
                        let jj = choose|jj: int|
                            0 <= jj < j + 1 && owned_by(v.surfaces[jj], client) && v.surfaces[jj].window == Some(x);
                        assert(jj == j);
                        assert(hit);
                    }
                    if hit {
                        assert(nv.windows[k] == WindowRecord { alive: false, ..before.windows[k] });
                    } else {
                        assert(nv.windows[k] == before.windows[k]);
                    }
                }
                assert(nv.windows =~= next);
                assert forall|a: int| 0 <= a < j + 1 implies #[trigger] nv.surfaces[a] == close_owned(v.surfaces[a], client) by {
                    if a < j {
                        assert(nv.surfaces[a] == before.surfaces[a]);
                    }
                }
                assert forall|a: int| j + 1 <= a < n implies #[trigger] nv.surfaces[a] == v.surfaces[a] by {
                    assert(nv.surfaces[a] == before.surfaces[a]);
                }
            }
            j = j + 1;
        }
        proof {
            let nv = self.view();
            assert(nv.surfaces =~= v.surfaces.map_values(
                |s: SurfaceRecord| if owned_by(s, client) {
                    SurfaceRecord { alive: false, ..s }
                } else {
                    s
                },
            ));
            assert(nv.windows =~= close_windows(v.windows, |x: WindowId| bound_to_client(v.surfaces, client, x)));
            assert forall|a: int, b: int|
                0 <= a < b < nv.surfaces.len() implies nv.surfaces[a].id != nv.surfaces[b].id by {
                assert(nv.surfaces[a].id == v.surfaces[a].id);
                assert(nv.surfaces[b].id == v.surfaces[b].id);
            }
            assert forall|a: int| 0 <= a < nv.surfaces.len() implies ((#[trigger] nv.surfaces[a]).window matches Some(
                w,
            ) ==> 1 <= w <= nv.windows.len()) by {
                assert(nv.surfaces[a].window == v.surfaces[a].window);
            }
            assert forall|a: int, b: int|
                0 <= a < b < nv.clients.len() implies nv.clients[a].id != nv.clients[b].id by {
                assert(nv.clients[a].id == v.clients[a].id);
                assert(nv.clients[b].id == v.clients[b].id);
            }
            assert forall|a: int| 0 <= a < nv.clients.len() implies (#[trigger] nv.clients[a]).id < nv.next_client by {
                assert(nv.clients[a].id == v.clients[a].id);
            }
            assert forall|a: int| 0 <= a < nv.windows.len() implies (#[trigger] nv.windows[a]).id == a + 1 by {
                assert(nv.windows[a].id == v.windows[a].id);
            }
            assert(client_alive(v, client));
            assert(nv == CoreView {
                clients: v.clients.update(i as int, ClientRecord { alive: false, ..v.clients[i as int] }),
                surfaces: v.surfaces.map_values(
                    |s: SurfaceRecord| if owned_by(s, client) {
                        SurfaceRecord { alive: false, ..s }
                    } else {
                        s
                    },
                ),
                windows: close_windows(v.windows, |x: WindowId| bound_to_client(v.surfaces, client, x)),
                ..v
            });
        }
        self.settle_refs();
        CommandResult::ClientClosed { client, closed: true }
    }

    /// Applies one core command; its effect is `step` and its result `step_result`.
    pub fn handle_command(&mut self, command: CoreCommand) -> (r: CommandResult)
        requires
            old(self).wf(),
        ensures
            final(self).wf(),
            handled(old(self).view(), command, final(self).view(), r),
    {
        match command {
            CoreCommand::Dispatch(action) => match action {
                Action::NextWorkspace => self.next_workspace(),
                Action::SpawnWindow => self.spawn_window(),
                Action::CloseFocusedWindow => self.close_focused_window(),
            },
            CoreCommand::DebugText => CommandResult::Text(self.debug_text()),
            CoreCommand::ValidateText => CommandResult::Text(self.validation_text()),
            CoreCommand::ResizeOutput { width, height } => self.resize_output(width, height),
            CoreCommand::RegisterClient { client, kind, name } => self.register_client(
                client,
                kind,
                name,
            ),
            CoreCommand::CloseClient(client) => self.close_client(client),
            CoreCommand::RegisterSurface { surface, client, role } => self.register_surface(
                surface,
                client,
                role,
            ),
            CoreCommand::CloseSurface(surface) => self.close_surface(surface),
            CoreCommand::RegisterWindowForSurface { surface, title, app_id, kind } => {
                self.register_window_for_surface(surface, title, app_id, kind)
            },
        }
    }
}

} // verus!
