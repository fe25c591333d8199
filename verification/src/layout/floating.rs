//! The floating strategy: windows keep whatever geometry the client or
//! the user's drags gave them.

use vstd::prelude::*;

use crate::commands::Command;
use crate::layout::{focus_cmds, map_rev_cmds};
use crate::screen::Screen;
use crate::windows::{find_id, geom_wf, ws_geom_wf, ws_has, ws_unique, WinView, Window};
use crate::workspace::Workspace;

verus! {

/// Commands of a floating activation: map every window back-to-front (so
/// the focused one ends on top), then focus the front window. An empty
/// workspace issues nothing.
pub open spec fn activate_cmds(s: Seq<WinView>) -> Seq<Command> {
    if s.len() == 0 {
        Seq::empty()
    } else {
        map_rev_cmds(s) + seq![Command::SetInputFocus(s[0].id)]
    }
}

/// Commands of a floating deactivation, front-to-back: tracking is
/// switched off around each unmap so the manager's own unmaps are not
/// misread as external ones.
pub open spec fn deactivate_cmds(s: Seq<WinView>) -> Seq<Command>
    decreases s.len(),
{
    if s.len() == 0 {
        Seq::empty()
    } else {
        deactivate_cmds(s.drop_last()) + seq![
            Command::DisableTracking(s.last().id),
            Command::UnmapWindow(s.last().id),
            Command::EnableTracking(s.last().id),
        ]
    }
}

/// Commands of adding one window: map it, subscribe to its events, raise
/// it, focus it.
pub open spec fn add_cmds(id: u32) -> Seq<Command> {
    seq![
        Command::MapWindow(id),
        Command::EnableTracking(id),
        Command::StackAbove(id),
        Command::SetInputFocus(id),
    ]
}

/// Commands of deleting the window at `idx`: stop tracking and unmap it;
/// if it was the focused one and a window remains, promote the new front.
pub open spec fn del_cmds(s: Seq<WinView>, idx: int) -> Seq<Command> {
    seq![Command::DisableTracking(s[idx].id), Command::UnmapWindow(s[idx].id)] + (if idx == 0
        && s.len() > 1 {
        focus_cmds(s[1].id)
    } else {
        Seq::empty()
    })
}

/// Map all windows in reverse collection order and focus the front one.
pub fn activate(ws: &mut Workspace, screen: &Screen) -> (cmds: Vec<Command>)
    ensures
        final(ws).windows@ == old(ws).windows@,
        final(ws).active == old(ws).active,
        final(ws).layout == old(ws).layout,
        cmds@ == activate_cmds(old(ws).windows@),
{
    let mut cmds: Vec<Command> = Vec::new();
    if ws.windows.is_empty() {
        return cmds;
    }
    let ids = ws.windows.iter_rev();
    let ghost s = ws.windows@;
    let mut k: usize = 0;
    while k < ids.len()
        invariant
            k <= ids@.len(),
            ids@.len() == s.len(),
            s == ws.windows@,
            ws.active == old(ws).active,
            ws.layout == old(ws).layout,
            forall|j: int| 0 <= j < ids@.len() ==> ids@[j] == s[s.len() - 1 - j].id,
            cmds@ == map_rev_cmds(s.skip(s.len() - k)),
        decreases ids@.len() - k,
    {
        let id = ids[k];
        cmds.push(Command::MapWindow(id));
        proof {
            let j: int = s.len() - k - 1;
            assert(s.skip(j).drop_first() =~= s.skip(j + 1));
            assert(s.skip(j)[0] == s[j]);
            assert(map_rev_cmds(s.skip(j)) == map_rev_cmds(s.skip(j + 1)) + seq![
                Command::MapWindow(s[j].id),
            ]);
            assert(cmds@ =~= map_rev_cmds(s.skip(j)));
        }
        k = k + 1;
    }
    proof {
        assert(s.skip(0) =~= s);
    }
    let focused_id = ws.windows.focused().unwrap().id;
    cmds.push(Command::SetInputFocus(focused_id));
    cmds
}

/// Unmap all windows, toggling event tracking around each unmap.
pub fn deactivate(ws: &mut Workspace) -> (cmds: Vec<Command>)
    ensures
        final(ws).windows@ == old(ws).windows@,
        final(ws).active == old(ws).active,
        final(ws).layout == old(ws).layout,
        cmds@ == deactivate_cmds(old(ws).windows@),
{
    let mut cmds: Vec<Command> = Vec::new();
    let ids = ws.windows.iter();
    let ghost s = ws.windows@;
    let mut k: usize = 0;
    while k < ids.len()
        invariant
            k <= ids@.len(),
            ids@.len() == s.len(),
            s == ws.windows@,
            ws.active == old(ws).active,
            ws.layout == old(ws).layout,
            forall|j: int| 0 <= j < ids@.len() ==> ids@[j] == s[j].id,
            cmds@ == deactivate_cmds(s.take(k as int)),
        decreases ids@.len() - k,
    {
        let id = ids[k];
        cmds.push(Command::DisableTracking(id));
        cmds.push(Command::UnmapWindow(id));
        cmds.push(Command::EnableTracking(id));
        proof {
            let t = s.take(k as int + 1);
            assert(t.drop_last() =~= s.take(k as int));
            assert(t.last() == s[k as int]);
            assert(cmds@ =~= deactivate_cmds(t));
        }
        k = k + 1;
    }
    proof {
        assert(s.take(s.len() as int) =~= s);
    }
    cmds
}

/// Add a window at the front (it takes focus), keeping its geometry.
pub fn window_add(ws: &mut Workspace, screen: &Screen, window: Window) -> (cmds: Vec<Command>)
    requires
        geom_wf(window@),
    ensures
        final(ws).windows@ == old(ws).windows@.insert(0, window@),
        final(ws).active == old(ws).active,
        final(ws).layout == old(ws).layout,
        cmds@ == add_cmds(window@.id),
        forall|id2: u32|
            ws_has(final(ws).windows@, id2) <==> (id2 == window@.id || ws_has(
                old(ws).windows@,
                id2,
            )),
        ws_unique(old(ws).windows@) && !ws_has(old(ws).windows@, window@.id) ==> ws_unique(
            final(ws).windows@,
        ),
        ws_geom_wf(old(ws).windows@) ==> ws_geom_wf(final(ws).windows@),
{
    let id = window.id;
    let mut cmds: Vec<Command> = Vec::new();
    cmds.push(Command::MapWindow(id));
    cmds.push(Command::EnableTracking(id));
    cmds.push(Command::StackAbove(id));
    cmds.push(Command::SetInputFocus(id));
    ws.windows.add(window);
    proof {
        assert(cmds@ =~= add_cmds(id));
    }
    cmds
}

/// Remove the window at `idx` (which carries `window_id`) and return the
/// record; deleting the focused window promotes the next one.
pub fn window_del(ws: &mut Workspace, screen: &Screen, idx: usize, window_id: u32) -> (r: (
    Window,
    Vec<Command>,
))
    requires
        idx < old(ws).windows@.len(),
        old(ws).windows@[idx as int].id == window_id,
    ensures
        r.0@ == old(ws).windows@[idx as int],
        final(ws).windows@ == old(ws).windows@.remove(idx as int),
        final(ws).active == old(ws).active,
        final(ws).layout == old(ws).layout,
        r.1@ == del_cmds(old(ws).windows@, idx as int),
        forall|id2: u32| ws_has(final(ws).windows@, id2) ==> ws_has(old(ws).windows@, id2),
        ws_unique(old(ws).windows@) ==> ws_unique(final(ws).windows@),
        ws_unique(old(ws).windows@) ==> !ws_has(final(ws).windows@, window_id),
        ws_geom_wf(old(ws).windows@) ==> ws_geom_wf(final(ws).windows@),
{
    let ghost s = ws.windows@;
    let window = ws.windows.remove(idx);
    let mut cmds: Vec<Command> = Vec::new();
    cmds.push(Command::DisableTracking(window_id));
    cmds.push(Command::UnmapWindow(window_id));
    if idx == 0 {
        match ws.windows.focused() {
            Some(next) => {
                let mut fc = window_input_focus_set_ontop(next.id);
                cmds.append(&mut fc);
            },
            None => {},
        }
    }
    proof {
        assert(cmds@ =~= del_cmds(s, idx as int));
    }
    (window, cmds)
}

/// Promote the window carrying `window_id` to the front and focus it; a
/// handle not in this workspace is a no-op.
pub fn window_focus(ws: &mut Workspace, screen: &Screen, window_id: u32) -> (cmds: Vec<Command>)
    ensures
        final(ws).active == old(ws).active,
        final(ws).layout == old(ws).layout,
        match find_id(old(ws).windows@, window_id) {
            Some(i) => {
                &&& final(ws).windows@ == old(ws).windows@.remove(i).insert(
                    0,
                    old(ws).windows@[i],
                )
                &&& final(ws).windows@[0].id == window_id
                &&& cmds@ == focus_cmds(window_id)
            },
            None => *final(ws) == *old(ws) && cmds@.len() == 0,
        },
        forall|id2: u32| ws_has(final(ws).windows@, id2) <==> ws_has(old(ws).windows@, id2),
        ws_unique(old(ws).windows@) ==> ws_unique(final(ws).windows@),
        ws_geom_wf(old(ws).windows@) ==> ws_geom_wf(final(ws).windows@),
{
    match ws.windows.index_of(window_id) {
        Some(idx) => {
            proof {
                crate::windows::lemma_find_id(ws.windows@, window_id);
            }
            ws.windows.move_front(idx);
            window_input_focus_set_ontop(window_id)
        },
        None => Vec::new(),
    }
}

/// Rotate the least recently used (last) window to the front and focus
/// it; with fewer than two windows this is a no-op.
pub fn window_focus_cycle(ws: &mut Workspace, screen: &Screen) -> (cmds: Vec<Command>)
    ensures
        final(ws).active == old(ws).active,
        final(ws).layout == old(ws).layout,
        if old(ws).windows@.len() < 2 {
            *final(ws) == *old(ws) && cmds@.len() == 0
        } else {
            let n = old(ws).windows@.len() - 1;
            &&& final(ws).windows@ == old(ws).windows@.remove(n).insert(0, old(ws).windows@[n])
            &&& cmds@ == focus_cmds(old(ws).windows@[n].id)
        },
        forall|id2: u32| ws_has(final(ws).windows@, id2) <==> ws_has(old(ws).windows@, id2),
        ws_unique(old(ws).windows@) ==> ws_unique(final(ws).windows@),
        ws_geom_wf(old(ws).windows@) ==> ws_geom_wf(final(ws).windows@),
{
    let len = ws.windows.len();
    if len < 2 {
        return Vec::new();
    }
    let last = match ws.windows.get(len - 1) {
        Some(w) => w.id,
        None => 0,
    };
    ws.windows.move_front(len - 1);
    window_input_focus_set_ontop(last)
}

/// The four requests of a floating focus promotion.
fn window_input_focus_set_ontop(window_id: u32) -> (cmds: Vec<Command>)
    ensures
        cmds@ == focus_cmds(window_id),
{
    let mut cmds: Vec<Command> = Vec::new();
    cmds.push(Command::DisableTracking(window_id));
    cmds.push(Command::StackAbove(window_id));
    cmds.push(Command::SetInputFocus(window_id));
    cmds.push(Command::EnableTracking(window_id));
    proof {
        assert(cmds@ =~= focus_cmds(window_id));
    }
    cmds
}

} // verus!
