//! The tiling strategy: newly added windows spawn inset from the screen
//! origin, clear of any reserved bar region; the layout pass itself
//! leaves the geometry each window already has (recomputation is an
//! extension point), so the strategy's work is membership, stacking and
//! focus bookkeeping.

use vstd::prelude::*;

use crate::commands::Command;
use crate::config::{SPAWN_INSET_X, SPAWN_INSET_Y};
use crate::layout::{map_rev_cmds, ontop_focus_cmds};
use crate::screen::Screen;
use crate::windows::{find_id, geom_wf, ws_geom_wf, ws_has, ws_unique, WinView, Window};
use crate::workspace::Workspace;

verus! {

/// Commands of a tiling activation: map every window back-to-front, then
/// focus the front window. An empty workspace issues nothing.
pub open spec fn activate_cmds(s: Seq<WinView>) -> Seq<Command> {
    if s.len() == 0 {
        Seq::empty()
    } else {
        map_rev_cmds(s) + seq![Command::SetInputFocus(s[0].id)]
    }
}

/// Commands of a tiling deactivation: unmap every window front-to-back.
pub open spec fn deactivate_cmds(s: Seq<WinView>) -> Seq<Command>
    decreases s.len(),
{
    if s.len() == 0 {
        Seq::empty()
    } else {
        deactivate_cmds(s.drop_last()) + seq![Command::UnmapWindow(s.last().id)]
    }
}

/// The record a window is adopted as: same identity and size, moved to
/// the spawn point inset from the screen origin.
pub open spec fn spawned_at(w: WinView, screen: Screen) -> WinView {
    WinView { x: screen.x + SPAWN_INSET_X, y: screen.y + SPAWN_INSET_Y, ..w }
}

/// Commands of adding one window: move it to the spawn point, map it,
/// focus it.
pub open spec fn add_cmds(id: u32, screen: Screen) -> Seq<Command> {
    seq![
        Command::MoveWindow(
            id,
            (screen.x + SPAWN_INSET_X) as i32,
            (screen.y + SPAWN_INSET_Y) as i32,
        ),
        Command::MapWindow(id),
        Command::SetInputFocus(id),
    ]
}

/// Commands of deleting the window at `idx`: unmap it; if it was the
/// focused one and a window remains, raise and focus the new front.
pub open spec fn del_cmds(s: Seq<WinView>, idx: int) -> Seq<Command> {
    seq![Command::UnmapWindow(s[idx].id)] + (if idx == 0 && s.len() > 1 {
        ontop_focus_cmds(s[1].id)
    } else {
        Seq::empty()
    })
}

/// Map all windows in reverse collection order and focus the front one.
pub fn activate(ws: &mut Workspace, screen: &Screen) -> (cmds: Vec<Command>)
    ensures
        final(ws).windows@ == old(ws).windows@,
        final(ws).active == old(ws).active,
        final(ws).layout == old(ws).layout,
        cmds@ == activate_cmds(old(ws).windows@),
{
    let mut cmds: Vec<Command> = Vec::new();
    if ws.windows.is_empty() {
        return cmds;
    }
    let ids = ws.windows.iter_rev();
    let ghost s = ws.windows@;
    let mut k: usize = 0;
    while k < ids.len()
        invariant
            k <= ids@.len(),
            ids@.len() == s.len(),
            s == ws.windows@,
            ws.active == old(ws).active,
            ws.layout == old(ws).layout,
            forall|j: int| 0 <= j < ids@.len() ==> ids@[j] == s[s.len() - 1 - j].id,
            cmds@ == map_rev_cmds(s.skip(s.len() - k)),
        decreases ids@.len() - k,
    {
        let id = ids[k];
        cmds.push(Command::MapWindow(id));
        proof {
            let j: int = s.len() - k - 1;
            assert(s.skip(j).drop_first() =~= s.skip(j + 1));
            assert(s.skip(j)[0] == s[j]);
            assert(map_rev_cmds(s.skip(j)) == map_rev_cmds(s.skip(j + 1)) + seq![
                Command::MapWindow(s[j].id),
            ]);
            assert(cmds@ =~= map_rev_cmds(s.skip(j)));
        }
        k = k + 1;
    }
    proof {
        assert(s.skip(0) =~= s);
    }
    let focused_id = ws.windows.focused().unwrap().id;
    cmds.push(Command::SetInputFocus(focused_id));
    cmds
}

/// Unmap all windows.
pub fn deactivate(ws: &mut Workspace) -> (cmds: Vec<Command>)
    ensures
        final(ws).windows@ == old(ws).windows@,
        final(ws).active == old(ws).active,
        final(ws).layout == old(ws).layout,
        cmds@ == deactivate_cmds(old(ws).windows@),
{
    let mut cmds: Vec<Command> = Vec::new();
    let ids = ws.windows.iter();
    let ghost s = ws.windows@;
    let mut k: usize = 0;
    while k < ids.len()
        invariant
            k <= ids@.len(),
            ids@.len() == s.len(),
            s == ws.windows@,
            ws.active == old(ws).active,
            ws.layout == old(ws).layout,
            forall|j: int| 0 <= j < ids@.len() ==> ids@[j] == s[j].id,
            cmds@ == deactivate_cmds(s.take(k as int)),
        decreases ids@.len() - k,
    {
        let id = ids[k];
        cmds.push(Command::UnmapWindow(id));
        proof {
            let t = s.take(k as int + 1);
            assert(t.drop_last() =~= s.take(k as int));
            assert(t.last() == s[k as int]);
            assert(cmds@ =~= deactivate_cmds(t));
        }
        k = k + 1;
    }
    proof {
        assert(s.take(s.len() as int) =~= s);
    }
    cmds
}

/// Add a window at the front (it takes focus), repositioned to the spawn
/// point so it starts clear of any reserved bar region.
pub fn window_add(ws: &mut Workspace, screen: &Screen, window: Window) -> (cmds: Vec<Command>)
    requires
        screen.wf(),
        geom_wf(window@),
    ensures
        final(ws).windows@ == old(ws).windows@.insert(0, spawned_at(window@, *screen)),
        final(ws).active == old(ws).active,
        final(ws).layout == old(ws).layout,
        cmds@ == add_cmds(window@.id, *screen),
        forall|id2: u32|
            ws_has(final(ws).windows@, id2) <==> (id2 == window@.id || ws_has(
                old(ws).windows@,
                id2,
            )),
        ws_unique(old(ws).windows@) && !ws_has(old(ws).windows@, window@.id) ==> ws_unique(
            final(ws).windows@,
        ),
        ws_geom_wf(old(ws).windows@) ==> ws_geom_wf(final(ws).windows@),
{
    let mut window = window;
    window.x = screen.x + SPAWN_INSET_X;
    window.y = screen.y + SPAWN_INSET_Y;
    let id = window.id;
    let x = window.x;
    let y = window.y;
    ws.windows.add(window);
    let mut cmds: Vec<Command> = Vec::new();
    cmds.push(Command::MoveWindow(id, x, y));
    cmds.push(Command::MapWindow(id));
    cmds.push(Command::SetInputFocus(id));
    proof {
        assert(cmds@ =~= add_cmds(id, *screen));
    }
    cmds
}

/// Remove the window carrying `window_id`, returning its record; a
/// handle not in this workspace is a no-op. Deleting the focused window
/// promotes the next one.
pub fn window_del(ws: &mut Workspace, screen: &Screen, window_id: u32) -> (r: (
    Option<Window>,
    Vec<Command>,
))
    ensures
        final(ws).active == old(ws).active,
        final(ws).layout == old(ws).layout,
        match find_id(old(ws).windows@, window_id) {
            Some(i) => {
                &&& r.0 matches Some(w) && w@ == old(ws).windows@[i]
                &&& final(ws).windows@ == old(ws).windows@.remove(i)
                &&& r.1@ == del_cmds(old(ws).windows@, i)
            },
            None => r.0 is None && *final(ws) == *old(ws) && r.1@.len() == 0,
        },
        forall|id2: u32| ws_has(final(ws).windows@, id2) ==> ws_has(old(ws).windows@, id2),
        ws_unique(old(ws).windows@) ==> ws_unique(final(ws).windows@),
        ws_geom_wf(old(ws).windows@) ==> ws_geom_wf(final(ws).windows@),
{
    match ws.windows.index_of(window_id) {
        Some(idx) => {
            proof {
                crate::windows::lemma_find_id(ws.windows@, window_id);
            }
            let window = ws.windows.remove(idx);
            let mut cmds: Vec<Command> = Vec::new();
            cmds.push(Command::UnmapWindow(window_id));
            if idx == 0 {
                match ws.windows.focused() {
                    Some(next) => {
                        cmds.push(Command::StackAbove(next.id));
                        cmds.push(Command::SetInputFocus(next.id));
                    },
                    None => {},
                }
            }
            proof {
                assert(cmds@ =~= del_cmds(old(ws).windows@, idx as int));
            }
            (Some(window), cmds)
        },
        None => (None, Vec::new()),
    }
}

/// Remove the focused window, returning its record; the next window (if
/// any) is raised and focused.
pub fn window_del_focused(ws: &mut Workspace, screen: &Screen) -> (r: (
    Option<Window>,
    Vec<Command>,
))
    ensures
        final(ws).active == old(ws).active,
        final(ws).layout == old(ws).layout,
        if old(ws).windows@.len() == 0 {
            r.0 is None && *final(ws) == *old(ws) && r.1@.len() == 0
        } else {
            &&& r.0 matches Some(w) && w@ == old(ws).windows@[0]
            &&& final(ws).windows@ == old(ws).windows@.remove(0)
            &&& r.1@ == del_cmds(old(ws).windows@, 0)
        },
        forall|id2: u32| ws_has(final(ws).windows@, id2) ==> ws_has(old(ws).windows@, id2),
        ws_unique(old(ws).windows@) ==> ws_unique(final(ws).windows@),
        ws_geom_wf(old(ws).windows@) ==> ws_geom_wf(final(ws).windows@),
{
    if ws.windows.is_empty() {
        return (None, Vec::new());
    }
    let window = ws.windows.remove(0);
    let mut cmds: Vec<Command> = Vec::new();
    cmds.push(Command::UnmapWindow(window.id));
    match ws.windows.focused() {
        Some(next) => {
            cmds.push(Command::StackAbove(next.id));
            cmds.push(Command::SetInputFocus(next.id));
        },
        None => {},
    }
    proof {
        assert(cmds@ =~= del_cmds(old(ws).windows@, 0));
    }
    (Some(window), cmds)
}

/// Promote the window carrying `window_id` to the front, raise and focus
/// it; a handle not in this workspace is a no-op.
pub fn window_focus(ws: &mut Workspace, screen: &Screen, window_id: u32) -> (cmds: Vec<Command>)
    ensures
        final(ws).active == old(ws).active,
        final(ws).layout == old(ws).layout,
        match find_id(old(ws).windows@, window_id) {
            Some(i) => {
                &&& final(ws).windows@ == old(ws).windows@.remove(i).insert(
                    0,
                    old(ws).windows@[i],
                )
                &&& final(ws).windows@[0].id == window_id
                &&& cmds@ == ontop_focus_cmds(window_id)
            },
            None => *final(ws) == *old(ws) && cmds@.len() == 0,
        },
        forall|id2: u32| ws_has(final(ws).windows@, id2) <==> ws_has(old(ws).windows@, id2),
        ws_unique(old(ws).windows@) ==> ws_unique(final(ws).windows@),
        ws_geom_wf(old(ws).windows@) ==> ws_geom_wf(final(ws).windows@),
{
    match ws.windows.index_of(window_id) {
        Some(idx) => {
            proof {
                crate::windows::lemma_find_id(ws.windows@, window_id);
            }
            ws.windows.move_front(idx);
            let mut cmds: Vec<Command> = Vec::new();
            cmds.push(Command::StackAbove(window_id));
            cmds.push(Command::SetInputFocus(window_id));
            proof {
                assert(cmds@ =~= ontop_focus_cmds(window_id));
            }
            cmds
        },
        None => Vec::new(),
    }
}

/// Promote the window at `idx` to the front, raise and focus it; an
/// index past the end is a no-op.
pub fn window_focus_idx(ws: &mut Workspace, screen: &Screen, idx: usize) -> (cmds: Vec<Command>)
    ensures
        final(ws).active == old(ws).active,
        final(ws).layout == old(ws).layout,
        if idx < old(ws).windows@.len() {
            &&& final(ws).windows@ == old(ws).windows@.remove(idx as int).insert(
                0,
                old(ws).windows@[idx as int],
            )
            &&& cmds@ == ontop_focus_cmds(old(ws).windows@[idx as int].id)
        } else {
            *final(ws) == *old(ws) && cmds@.len() == 0
        },
        forall|id2: u32| ws_has(final(ws).windows@, id2) <==> ws_has(old(ws).windows@, id2),
        ws_unique(old(ws).windows@) ==> ws_unique(final(ws).windows@),
        ws_geom_wf(old(ws).windows@) ==> ws_geom_wf(final(ws).windows@),
{
    if idx >= ws.windows.len() {
        return Vec::new();
    }
    let id = match ws.windows.get(idx) {
        Some(w) => w.id,
        None => 0,
    };
    ws.windows.move_front(idx);
    let mut cmds: Vec<Command> = Vec::new();
    cmds.push(Command::StackAbove(id));
    cmds.push(Command::SetInputFocus(id));
    proof {
        assert(cmds@ =~= ontop_focus_cmds(id));
    }
    cmds
}

/// The tiling layout pass: geometry each window already has is kept, so
/// the pass issues nothing and changes nothing.
pub fn perform_layout(ws: &mut Workspace, screen: &Screen) -> (cmds: Vec<Command>)
    ensures
        final(ws).windows@ == old(ws).windows@,
        final(ws).active == old(ws).active,
        final(ws).layout == old(ws).layout,
        cmds@.len() == 0,
{
    Vec::new()
}

} // verus!
