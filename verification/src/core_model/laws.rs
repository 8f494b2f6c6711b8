//! Laws of the core lifecycle: what a client disconnect, a surface close, a
//! surface creation and an output resize do to the whole state.

use vstd::prelude::*;

use crate::core_model::state::{
    CoreView, SurfaceRecord, alive_in, client_alive, client_index, handled, has_client,
    has_surface, lemma_keep_alive_contains, owned_by, referenced, surface_alive, surface_index,
    validation_issues, view_wf,
};
use crate::core_model::types::{CommandResult, CoreClientId, CoreCommand, SurfaceId, SurfaceRole};

verus! {

proof fn lemma_client_index_is(clients: Seq<crate::core_model::state::ClientRecord>, c: CoreClientId, i: int)
    requires
        forall|a: int, b: int| 0 <= a < b < clients.len() ==> clients[a].id != clients[b].id,
        0 <= i < clients.len(),
        clients[i].id == c,
    ensures
        has_client(clients, c),
        client_index(clients, c) == i,
{
    let k = client_index(clients, c);
    if k != i {
        if k < i {
            assert(clients[k].id != clients[i].id);
        } else {
            assert(clients[i].id != clients[k].id);
        }
    }
}

proof fn lemma_surface_index_is(surfaces: Seq<SurfaceRecord>, s: SurfaceId, i: int)
    requires
        forall|a: int, b: int| 0 <= a < b < surfaces.len() ==> surfaces[a].id != surfaces[b].id,
        0 <= i < surfaces.len(),
        surfaces[i].id == s,
    ensures
        has_surface(surfaces, s),
        surface_index(surfaces, s) == i,
{
    let k = surface_index(surfaces, s);
    if k != i {
        if k < i {
            assert(surfaces[k].id != surfaces[i].id);
        } else {
            assert(surfaces[i].id != surfaces[k].id);
        }
    }
}

/// A window no longer alive is no longer referenced by any workspace after `v2`
/// settled its lists from `v2.windows`.
proof fn lemma_dead_unreferenced(v2: CoreView, lists: Seq<Seq<u64>>, w: u64)
    requires
        v2.lists == lists.map_values(|l: Seq<u64>| crate::core_model::state::keep_alive(l, v2.windows)),
        !alive_in(v2.windows, w),
    ensures
        !referenced(v2, w),
{
    assert forall|k: int| 0 <= k < v2.lists.len() implies !(#[trigger] v2.lists[k]).contains(w) by {
        lemma_keep_alive_contains(lists[k], v2.windows, w);
    }
}

/// Disconnecting an alive client closes it, closes every surface it owns and
/// every window bound to those surfaces (which no workspace references any
/// more), and leaves the surfaces of other clients as they were.
pub proof fn law_client_disconnect_cascades(v: CoreView, c: CoreClientId, v2: CoreView, r: CommandResult)
    requires
        view_wf(v),
        client_alive(v, c),
        handled(v, CoreCommand::CloseClient(c), v2, r),
    ensures
        r == (CommandResult::ClientClosed { client: c, closed: true }),
        has_client(v2.clients, c) && !client_alive(v2, c),
        v2.surfaces.len() == v.surfaces.len(),
        forall|j: int|
            0 <= j < v2.surfaces.len() && v.surfaces[j].client == Some(c) ==> !(
            #[trigger] v2.surfaces[j]).alive,
        forall|j: int|
            0 <= j < v.surfaces.len() && v.surfaces[j].client != Some(c) ==> #[trigger] v2.surfaces[j]
                == v.surfaces[j],
        forall|j: int|
            0 <= j < v.surfaces.len() && owned_by(#[trigger] v.surfaces[j], c) && v.surfaces[j].window
                is Some ==> !alive_in(v2.windows, v.surfaces[j].window->0) && !referenced(
                v2,
                v.surfaces[j].window->0,
            ),
{
    let i = client_index(v.clients, c);
    lemma_client_index_is(v2.clients, c, i);
    assert forall|j: int|
        0 <= j < v.surfaces.len() && owned_by(#[trigger] v.surfaces[j], c) && v.surfaces[j].window
            is Some implies !alive_in(v2.windows, v.surfaces[j].window->0) && !referenced(
            v2,
            v.surfaces[j].window->0,
        ) by {
        let w = v.surfaces[j].window->0;
        assert(crate::core_model::state::bound_to_client(v.surfaces, c, w));
        assert(1 <= w <= v.windows.len());
        assert(v2.windows[w - 1].id == w);
        assert(!v2.windows[w - 1].alive);
        lemma_dead_unreferenced(v2, v.lists, w);
    }
}

/// Closing an alive surface closes it and its bound window (which no workspace
/// references any more) and touches no client, no other surface and no other
/// window.
pub proof fn law_surface_close_is_isolated(v: CoreView, s: SurfaceId, v2: CoreView, r: CommandResult)
    requires
        view_wf(v),
        surface_alive(v, s),
        handled(v, CoreCommand::CloseSurface(s), v2, r),
    ensures
        r == (CommandResult::SurfaceClosed { surface: s, closed: true }),
        has_surface(v2.surfaces, s) && !surface_alive(v2, s),
        v2.clients == v.clients,
        v2.surfaces.len() == v.surfaces.len(),
        forall|j: int|
            0 <= j < v.surfaces.len() && v.surfaces[j].id != s ==> #[trigger] v2.surfaces[j]
                == v.surfaces[j],
        v2.windows.len() == v.windows.len(),
        forall|k: int|
            0 <= k < v.windows.len() && Some(v.windows[k].id) != v.surfaces[surface_index(
                v.surfaces,
                s,
            )].window ==> #[trigger] v2.windows[k] == v.windows[k],
        v.surfaces[surface_index(v.surfaces, s)].window matches Some(w) ==> !alive_in(v2.windows, w)
            && !referenced(v2, w),
{
    let i = surface_index(v.surfaces, s);
    lemma_surface_index_is(v2.surfaces, s, i);
    assert forall|j: int|
        0 <= j < v.surfaces.len() && v.surfaces[j].id != s implies #[trigger] v2.surfaces[j]
            == v.surfaces[j] by {
        assert(j != i);
    }
    match v.surfaces[i].window {
        Some(w) => {
            assert(1 <= w <= v.windows.len());
            assert(v2.windows[w - 1].id == w);
            lemma_dead_unreferenced(v2, v.lists, w);
        },
        None => {},
    }
}

/// Creating a surface never creates or changes a window, a workspace or the focus.
pub proof fn law_surface_creation_makes_no_window(
    v: CoreView,
    surface: SurfaceId,
    client: Option<CoreClientId>,
    role: SurfaceRole,
    v2: CoreView,
    r: CommandResult,
)
    requires
        handled(v, CoreCommand::RegisterSurface { surface, client, role }, v2, r),
    ensures
        v2.windows == v.windows,
        v2.lists == v.lists,
        v2.focus == v.focus,
        v2.clients == v.clients,
{
}

/// The validator reports an issue exactly when the output has a zero
/// dimension; a resize makes the state valid exactly when both new dimensions
/// are non-zero.
pub proof fn law_validation_tracks_output(v: CoreView, width: u32, height: u32, v2: CoreView, r: CommandResult)
    requires
        handled(v, CoreCommand::ResizeOutput { width, height }, v2, r),
    ensures
        (validation_issues(v).len() == 0) <==> (v.output.width != 0 && v.output.height != 0),
        (validation_issues(v2).len() == 0) <==> (width != 0 && height != 0),
        r == (CommandResult::OutputResized { width, height }),
{
}

} // verus!
