//! One virtual desktop: a window collection, an active flag, and the
//! layout strategy currently bound to it.

use vstd::prelude::*;

use crate::commands::Command;
use crate::layout::{floating, tiling, LayoutType};
use crate::screen::Screen;
use crate::windows::{find_id, geom_wf, ws_geom_wf, ws_has, ws_unique, WinView, Window, Windows};

verus! {

/// Activation commands of the bound strategy.
pub open spec fn activate_cmds(layout: LayoutType, s: Seq<WinView>) -> Seq<Command> {
    match layout {
        LayoutType::Floating => floating::activate_cmds(s),
        LayoutType::Tiling => tiling::activate_cmds(s),
    }
}

/// Deactivation commands of the bound strategy.
pub open spec fn deactivate_cmds(layout: LayoutType, s: Seq<WinView>) -> Seq<Command> {
    match layout {
        LayoutType::Floating => floating::deactivate_cmds(s),
        LayoutType::Tiling => tiling::deactivate_cmds(s),
    }
}

/// The record a window is adopted as by the bound strategy: floating
/// keeps its geometry, tiling moves it to the spawn point.
pub open spec fn added_view(layout: LayoutType, w: WinView, screen: Screen) -> WinView {
    match layout {
        LayoutType::Floating => w,
        LayoutType::Tiling => tiling::spawned_at(w, screen),
    }
}

/// Commands of adding one window under the bound strategy.
pub open spec fn add_cmds(layout: LayoutType, id: u32, screen: Screen) -> Seq<Command> {
    match layout {
        LayoutType::Floating => floating::add_cmds(id),
        LayoutType::Tiling => tiling::add_cmds(id, screen),
    }
}

/// Commands of deleting the window at `idx` under the bound strategy.
pub open spec fn del_cmds(layout: LayoutType, s: Seq<WinView>, idx: int) -> Seq<Command> {
    match layout {
        LayoutType::Floating => floating::del_cmds(s, idx),
        LayoutType::Tiling => tiling::del_cmds(s, idx),
    }
}

/// The focus promotion commands of the bound strategy.
pub open spec fn promote_cmds(layout: LayoutType, id: u32) -> Seq<Command> {
    match layout {
        LayoutType::Floating => crate::layout::focus_cmds(id),
        LayoutType::Tiling => crate::layout::ontop_focus_cmds(id),
    }
}

/// One virtual desktop. `active` is true exactly while its windows are
/// mapped on screen; at most one workspace of the desktop is active.
pub struct Workspace {
    pub windows: Windows,
    pub active: bool,
    pub layout: LayoutType,
}

impl Default for Workspace {
    /// A fresh workspace: empty, inactive, floating.
    fn default() -> (r: Self)
        ensures
            r.windows@ == Seq::<WinView>::empty(),
            r.active == false,
            r.layout == LayoutType::Floating,
    {
        Workspace { windows: Windows::default(), active: false, layout: LayoutType::Floating }
    }
}

impl Workspace {
    /// Bind a (possibly different) layout strategy. Membership, order and
    /// geometry of the windows are untouched; when the workspace is on
    /// screen the tiling pass re-runs on bind.
    pub fn set_layout(&mut self, screen: &Screen, t: LayoutType) -> (cmds: Vec<Command>)
        ensures
            final(self).windows@ == old(self).windows@,
            final(self).active == old(self).active,
            final(self).layout == t,
            cmds@.len() == 0,
    {
        self.layout = t;
        match t {
            LayoutType::Floating => Vec::new(),
            LayoutType::Tiling => {
                if self.active {
                    tiling::perform_layout(self, screen)
                } else {
                    Vec::new()
                }
            },
        }
    }

    /// Put the workspace on screen: the bound strategy maps its windows
    /// and focuses the front one.
    pub fn activate(&mut self, screen: &Screen) -> (cmds: Vec<Command>)
        ensures
            final(self).windows@ == old(self).windows@,
            final(self).active == true,
            final(self).layout == old(self).layout,
            cmds@ == activate_cmds(old(self).layout, old(self).windows@),
    {
        let cmds = match self.layout {
            LayoutType::Floating => floating::activate(self, screen),
            LayoutType::Tiling => tiling::activate(self, screen),
        };
        self.active = true;
        cmds
    }

    /// Take the workspace off screen: the bound strategy unmaps its
    /// windows.
    pub fn deactivate(&mut self) -> (cmds: Vec<Command>)
        ensures
            final(self).windows@ == old(self).windows@,
            final(self).active == false,
            final(self).layout == old(self).layout,
            cmds@ == deactivate_cmds(old(self).layout, old(self).windows@),
    {
        let cmds = match self.layout {
            LayoutType::Floating => floating::deactivate(self),
            LayoutType::Tiling => tiling::deactivate(self),
        };
        self.active = false;
        cmds
    }

    /// Adopt a window: it goes to the front of the collection and takes
    /// focus.
    pub fn window_add(&mut self, screen: &Screen, window: Window) -> (cmds: Vec<Command>)
        requires
            screen.wf(),
            geom_wf(window@),
        ensures
            final(self).windows@ == old(self).windows@.insert(
                0,
                added_view(old(self).layout, window@, *screen),
            ),
            final(self).windows@[0].id == window@.id,
            final(self).active == old(self).active,
            final(self).layout == old(self).layout,
            cmds@ == add_cmds(old(self).layout, window@.id, *screen),
            forall|id2: u32|
                ws_has(final(self).windows@, id2) <==> (id2 == window@.id || ws_has(
                    old(self).windows@,
                    id2,
                )),
            ws_unique(old(self).windows@) && !ws_has(old(self).windows@, window@.id)
                ==> ws_unique(final(self).windows@),
            ws_geom_wf(old(self).windows@) ==> ws_geom_wf(final(self).windows@),
    {
        match self.layout {
            LayoutType::Floating => floating::window_add(self, screen, window),
            LayoutType::Tiling => tiling::window_add(self, screen, window),
        }
    }

    /// Remove the window at `idx` (the first carrying `window_id`) and
    /// return its record; deleting the focused window promotes the next.
    pub fn window_del(&mut self, screen: &Screen, idx: usize, window_id: u32) -> (r: (
        Window,
        Vec<Command>,
    ))
        requires
            find_id(old(self).windows@, window_id) == Some(idx as int),
        ensures
            r.0@ == old(self).windows@[idx as int],
            final(self).windows@ == old(self).windows@.remove(idx as int),
            final(self).active == old(self).active,
            final(self).layout == old(self).layout,
            r.1@ == del_cmds(old(self).layout, old(self).windows@, idx as int),
            forall|id2: u32| ws_has(final(self).windows@, id2) ==> ws_has(old(self).windows@, id2),
            ws_unique(old(self).windows@) ==> ws_unique(final(self).windows@),
            ws_unique(old(self).windows@) ==> !ws_has(final(self).windows@, window_id),
            ws_geom_wf(old(self).windows@) ==> ws_geom_wf(final(self).windows@),
    {
        proof {
            crate::windows::lemma_find_id(self.windows@, window_id);
        }
        match self.layout {
            LayoutType::Floating => floating::window_del(self, screen, idx, window_id),
            LayoutType::Tiling => {
                let (w, cmds) = tiling::window_del(self, screen, window_id);
                (w.unwrap(), cmds)
            },
        }
    }

    /// Remove the focused window, if any, and return its record; the
    /// next window is promoted.
    pub fn window_del_focused(&mut self, screen: &Screen) -> (r: (Option<Window>, Vec<Command>))
        ensures
            final(self).active == old(self).active,
            final(self).layout == old(self).layout,
            if old(self).windows@.len() == 0 {
                r.0 is None && *final(self) == *old(self) && r.1@.len() == 0
            } else {
                &&& r.0 matches Some(w) && w@ == old(self).windows@[0]
                &&& final(self).windows@ == old(self).windows@.remove(0)
                &&& r.1@ == del_cmds(old(self).layout, old(self).windows@, 0)
            },
            forall|id2: u32| ws_has(final(self).windows@, id2) ==> ws_has(old(self).windows@, id2),
            ws_unique(old(self).windows@) ==> ws_unique(final(self).windows@),
            ws_geom_wf(old(self).windows@) ==> ws_geom_wf(final(self).windows@),
    {
        if self.windows.is_empty() {
            return (None, Vec::new());
        }
        let focused_id = self.windows.focused().unwrap().id;
        proof {
            crate::windows::lemma_find_id_first(self.windows@, focused_id, 0);
        }
        let (w, cmds) = self.window_del(screen, 0, focused_id);
        (Some(w), cmds)
    }

    /// Promote the window carrying `window_id` to the front and focus it;
    /// a handle not in this workspace is a no-op.
    pub fn window_focus(&mut self, screen: &Screen, window_id: u32) -> (cmds: Vec<Command>)
        ensures
            final(self).active == old(self).active,
            final(self).layout == old(self).layout,
            match find_id(old(self).windows@, window_id) {
                Some(i) => {
                    &&& final(self).windows@ == old(self).windows@.remove(i).insert(
                        0,
                        old(self).windows@[i],
                    )
                    &&& final(self).windows@[0].id == window_id
                    &&& cmds@ == promote_cmds(old(self).layout, window_id)
                },
                None => *final(self) == *old(self) && cmds@.len() == 0,
            },
            forall|id2: u32| ws_has(final(self).windows@, id2) <==> ws_has(old(self).windows@, id2),
            ws_unique(old(self).windows@) ==> ws_unique(final(self).windows@),
            ws_geom_wf(old(self).windows@) ==> ws_geom_wf(final(self).windows@),
    {
        match self.layout {
            LayoutType::Floating => floating::window_focus(self, screen, window_id),
            LayoutType::Tiling => tiling::window_focus(self, screen, window_id),
        }
    }

    /// Rotate the last (least recently used) window to the front and
    /// focus it; with fewer than two windows this is a no-op.
    pub fn window_focus_cycle(&mut self, screen: &Screen) -> (cmds: Vec<Command>)
        ensures
            final(self).active == old(self).active,
            final(self).layout == old(self).layout,
            if old(self).windows@.len() < 2 {
                *final(self) == *old(self) && cmds@.len() == 0
            } else {
                let n = old(self).windows@.len() - 1;
                &&& final(self).windows@ == old(self).windows@.remove(n).insert(
                    0,
                    old(self).windows@[n],
                )
                &&& cmds@ == promote_cmds(old(self).layout, old(self).windows@[n].id)
            },
            forall|id2: u32| ws_has(final(self).windows@, id2) <==> ws_has(old(self).windows@, id2),
            ws_unique(old(self).windows@) ==> ws_unique(final(self).windows@),
            ws_geom_wf(old(self).windows@) ==> ws_geom_wf(final(self).windows@),
    {
        match self.layout {
            LayoutType::Floating => floating::window_focus_cycle(self, screen),
            LayoutType::Tiling => {
                let len = self.windows.len();
                if len < 2 {
                    Vec::new()
                } else {
                    tiling::window_focus_idx(self, screen, len - 1)
                }
            },
        }
    }

    /// Ask the focused window to close: through its advertised close
    /// protocol when it supports one, else by forced destroy. The model
    /// itself is unchanged — the window leaves the collection when the
    /// server reports it gone.
    pub fn window_close_focused(&self, wm_delete_window: u32) -> (cmds: Vec<Command>)
        ensures
            if self.windows@.len() == 0 {
                cmds@.len() == 0
            } else if self.windows@[0].protocols.contains(wm_delete_window) {
                cmds@ == seq![Command::SendCloseMessage(self.windows@[0].id)]
            } else {
                cmds@ == seq![Command::DestroyWindow(self.windows@[0].id)]
            },
    {
        let mut cmds: Vec<Command> = Vec::new();
        match self.windows.focused() {
            Some(w) => {
                if w.supports_protocol(wm_delete_window) {
                    cmds.push(Command::SendCloseMessage(w.id));
                    proof {
                        assert(cmds@ =~= seq![Command::SendCloseMessage(self.windows@[0].id)]);
                    }
                } else {
                    cmds.push(Command::DestroyWindow(w.id));
                    proof {
                        assert(cmds@ =~= seq![Command::DestroyWindow(self.windows@[0].id)]);
                    }
                }
            },
            None => {},
        }
        cmds
    }
}

} // verus!
