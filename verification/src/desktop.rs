//! The fixed-size registry of workspaces and the currently selected one.

use vstd::prelude::*;

use crate::commands::Command;
use crate::config::WORKSPACES;
use crate::layout::LayoutType;
use crate::screen::Screen;
use crate::windows::{find_id, ws_geom_wf, ws_has, ws_unique};
use crate::workspace::{activate_cmds, deactivate_cmds, Workspace};

verus! {

/// All workspaces, created once at startup and recycled for the process
/// lifetime, plus the index of the selected (visible) one.
pub struct Desktop {
    workspaces: Vec<Workspace>,
    idx: usize,
}

impl Desktop {
    pub closed spec fn spec_workspaces(&self) -> Seq<Workspace> {
        self.workspaces@
    }

    pub closed spec fn spec_idx(&self) -> int {
        self.idx as int
    }

    /// A workspace is active exactly when it is the selected one.
    pub open spec fn single_active(&self) -> bool {
        forall|i: int|
            0 <= i < self.spec_workspaces().len() ==> ((#[trigger] self.spec_workspaces()[i]).active
                <==> i == self.spec_idx())
    }

    /// Every handle is tracked in at most one place: within a workspace
    /// handles are unique, and no two workspaces share a handle.
    pub open spec fn handles_unique(&self) -> bool {
        &&& forall|i: int|
            0 <= i < self.spec_workspaces().len() ==> ws_unique(
                (#[trigger] self.spec_workspaces()[i]).windows@,
            )
        &&& forall|i: int, j: int, id: u32|
            #![trigger ws_has(self.spec_workspaces()[i].windows@, id), ws_has(self.spec_workspaces()[j].windows@, id)]
            0 <= i < self.spec_workspaces().len() && 0 <= j < self.spec_workspaces().len() && i != j
                ==> !(ws_has(self.spec_workspaces()[i].windows@, id) && ws_has(
                self.spec_workspaces()[j].windows@,
                id,
            ))
    }

    /// Every tracked window satisfies the geometry bounds.
    pub open spec fn geom_ok(&self) -> bool {
        forall|i: int|
            0 <= i < self.spec_workspaces().len() ==> ws_geom_wf(
                (#[trigger] self.spec_workspaces()[i]).windows@,
            )
    }

    pub open spec fn wf(&self) -> bool {
        &&& self.spec_workspaces().len() == WORKSPACES
        &&& 0 <= self.spec_idx() < WORKSPACES
        &&& self.single_active()
        &&& self.handles_unique()
    }

    /// Some workspace tracks this handle.
    pub open spec fn tracks(&self, id: u32) -> bool {
        exists|i: int|
            0 <= i < self.spec_workspaces().len() && ws_has(
                (#[trigger] self.spec_workspaces()[i]).windows@,
                id,
            )
    }

    /// Index of the selected workspace.
    pub fn current_index(&self) -> (r: usize)
        ensures
            r == self.spec_idx(),
    {
        self.idx
    }

    /// Index of the workspace after the selected one, wrapping around.
    pub fn index_next(&self) -> (r: usize)
        requires
            self.wf(),
        ensures
            r == if self.spec_idx() < WORKSPACES - 1 {
                self.spec_idx() + 1
            } else {
                0int
            },
            r < WORKSPACES,
    {
        if self.idx < WORKSPACES - 1 {
            self.idx + 1
        } else {
            0
        }
    }

    /// Index of the workspace before the selected one, wrapping around.
    pub fn index_prev(&self) -> (r: usize)
        requires
            self.wf(),
        ensures
            r == if self.spec_idx() > 0 {
                self.spec_idx() - 1
            } else {
                WORKSPACES - 1
            },
            r < WORKSPACES,
    {
        if self.idx > 0 {
            self.idx - 1
        } else {
            WORKSPACES - 1
        }
    }

    /// Switch to the workspace at `idx`: deactivate the selected one,
    /// then activate the target. No event is processed between the two
    /// halves, so the switch is atomic for the dispatcher.
    pub fn goto(&mut self, screen: &Screen, idx: usize) -> (cmds: Vec<Command>)
        requires
            old(self).wf(),
            idx < WORKSPACES,
        ensures
            final(self).wf(),
            final(self).spec_idx() == idx,
            forall|i: int|
                0 <= i < WORKSPACES ==> {
                    &&& (#[trigger] final(self).spec_workspaces()[i]).windows@ == old(
                        self,
                    ).spec_workspaces()[i].windows@
                    &&& final(self).spec_workspaces()[i].layout == old(
                        self,
                    ).spec_workspaces()[i].layout
                },
            cmds@ == deactivate_cmds(
                old(self).spec_workspaces()[old(self).spec_idx()].layout,
                old(self).spec_workspaces()[old(self).spec_idx()].windows@,
            ) + activate_cmds(
                old(self).spec_workspaces()[idx as int].layout,
                old(self).spec_workspaces()[idx as int].windows@,
            ),
            old(self).geom_ok() ==> final(self).geom_ok(),
    {
        let i = self.idx;
        let ws = &mut self.workspaces[i];
        let mut cmds = ws.deactivate();
        self.idx = idx;
        let ws2 = &mut self.workspaces[idx];
        let mut cmds2 = ws2.activate(screen);
        cmds.append(&mut cmds2);
        proof {
            let prev = old(self).spec_workspaces();
            let cur = self.spec_workspaces();
            assert forall|k: int| 0 <= k < WORKSPACES implies ((#[trigger] cur[k]).active <==> k
                == idx as int) by {
                assert(prev[k].active <==> k == i as int);
            }
            assert forall|k: int| 0 <= k < WORKSPACES implies (#[trigger] cur[k]).windows@
                == prev[k].windows@ && cur[k].layout == prev[k].layout by {}
            assert forall|k: int| 0 <= k < WORKSPACES implies ws_unique(
                (#[trigger] cur[k]).windows@,
            ) by {
                assert(ws_unique(prev[k].windows@));
            }
            assert forall|a: int, b: int, id: u32|
                0 <= a < WORKSPACES && 0 <= b < WORKSPACES && a != b implies !(ws_has(
                cur[a].windows@,
                id,
            ) && ws_has(cur[b].windows@, id)) by {
                assert(!(ws_has(prev[a].windows@, id) && ws_has(prev[b].windows@, id)));
            }
            if old(self).geom_ok() {
                assert forall|k: int| 0 <= k < WORKSPACES implies ws_geom_wf(
                    (#[trigger] cur[k]).windows@,
                ) by {
                    assert(ws_geom_wf(prev[k].windows@));
                }
            }
        }
        cmds
    }

    /// The selected workspace.
    pub fn current(&self) -> (r: &Workspace)
        requires
            self.wf(),
        ensures
            *r == self.spec_workspaces()[self.spec_idx()],
    {
        &self.workspaces[self.idx]
    }

    /// Mutable access to the selected workspace.
    pub fn current_mut(&mut self) -> (r: &mut Workspace)
        requires
            old(self).wf(),
        ensures
            *r == old(self).spec_workspaces()[old(self).spec_idx()],
            final(self).spec_workspaces() =~= old(self).spec_workspaces().update(
                old(self).spec_idx(),
                *final(r),
            ),
            final(self).spec_idx() == old(self).spec_idx(),
    {
        let i = self.idx;
        &mut self.workspaces[i]
    }

    /// The workspace at `idx`.
    pub fn get(&self, idx: usize) -> (r: &Workspace)
        requires
            idx < self.spec_workspaces().len(),
        ensures
            *r == self.spec_workspaces()[idx as int],
    {
        &self.workspaces[idx]
    }

    /// Mutable access to the workspace at `idx`.
    pub fn get_mut(&mut self, idx: usize) -> (r: &mut Workspace)
        requires
            idx < old(self).spec_workspaces().len(),
        ensures
            *r == old(self).spec_workspaces()[idx as int],
            final(self).spec_workspaces() =~= old(self).spec_workspaces().update(
                idx as int,
                *final(r),
            ),
            final(self).spec_idx() == old(self).spec_idx(),
    {
        &mut self.workspaces[idx]
    }

    /// Reverse lookup: the workspace and collection index tracking this
    /// handle, scanning workspaces in order.
    pub fn contains(&self, window_id: u32) -> (r: Option<(usize, usize)>)
        ensures
            match r {
                Some(loc) => {
                    &&& loc.0 < self.spec_workspaces().len()
                    &&& find_id(self.spec_workspaces()[loc.0 as int].windows@, window_id) == Some(
                        loc.1 as int,
                    )
                    &&& loc.1 < self.spec_workspaces()[loc.0 as int].windows@.len()
                    &&& self.spec_workspaces()[loc.0 as int].windows@[loc.1 as int].id == window_id
                    &&& forall|i: int|
                        0 <= i < loc.0 ==> !ws_has(
                            (#[trigger] self.spec_workspaces()[i]).windows@,
                            window_id,
                        )
                },
                None => !self.tracks(window_id),
            },
    {
        let mut i: usize = 0;
        while i < self.workspaces.len()
            invariant
                i <= self.spec_workspaces().len(),
                forall|k: int|
                    0 <= k < i ==> !ws_has(
                        (#[trigger] self.spec_workspaces()[k]).windows@,
                        window_id,
                    ),
            decreases self.spec_workspaces().len() - i,
        {
            let ws = &self.workspaces[i];
            match ws.windows.index_of(window_id) {
                Some(widx) => {
                    proof {
                        crate::windows::lemma_find_id(ws.windows@, window_id);
                    }
                    return Some((i, widx));
                },
                None => {},
            }
            i = i + 1;
        }
        None
    }
}

impl Default for Desktop {
    /// The desktop a manager starts with: the configured number of empty
    /// floating workspaces, with the first one selected and active.
    fn default() -> (r: Self)
        ensures
            r.wf(),
            r.geom_ok(),
            r.spec_idx() == 0,
            forall|i: int|
                0 <= i < WORKSPACES ==> {
                    &&& (#[trigger] r.spec_workspaces()[i]).windows@.len() == 0
                    &&& r.spec_workspaces()[i].layout == LayoutType::Floating
                },
            r.spec_workspaces()[0].active == true,
    {
        let mut workspaces: Vec<Workspace> = Vec::new();
        let mut first = Workspace::default();
        first.active = true;
        workspaces.push(first);
        let mut i: usize = 1;
        while i < WORKSPACES
            invariant
                1 <= i <= WORKSPACES,
                workspaces@.len() == i,
                forall|k: int|
                    0 <= k < i ==> {
                        &&& (#[trigger] workspaces@[k]).windows@.len() == 0
                        &&& workspaces@[k].layout == LayoutType::Floating
                        &&& (workspaces@[k].active <==> k == 0)
                    },
            decreases WORKSPACES - i,
        {
            workspaces.push(Workspace::default());
            i = i + 1;
        }
        let r = Desktop { workspaces, idx: 0 };
        proof {
            assert forall|k: int| 0 <= k < WORKSPACES implies ws_unique(
                (#[trigger] r.spec_workspaces()[k]).windows@,
            ) by {}
            assert forall|a: int, b: int, id: u32|
                0 <= a < WORKSPACES && 0 <= b < WORKSPACES && a != b implies !(ws_has(
                r.spec_workspaces()[a].windows@,
                id,
            ) && ws_has(r.spec_workspaces()[b].windows@, id)) by {
                if ws_has(r.spec_workspaces()[a].windows@, id) {
                    let k: int = choose|k: int|
                        0 <= k < r.spec_workspaces()[a].windows@.len()
                            && r.spec_workspaces()[a].windows@[k].id == id;
                }
            }
        }
        r
    }
}

/// Both desktops have the same selection and the same workspaces except
/// possibly the one at `i`.
pub open spec fn same_except(pre: Desktop, post: Desktop, i: int) -> bool {
    &&& post.spec_idx() == pre.spec_idx()
    &&& post.spec_workspaces().len() == pre.spec_workspaces().len()
    &&& forall|k: int|
        0 <= k < pre.spec_workspaces().len() && k != i ==> #[trigger] post.spec_workspaces()[k]
            == pre.spec_workspaces()[k]
}

/// Replacing one workspace's collection with one that tracks a subset of
/// its handles (uniquely) keeps the desktop well formed.
pub proof fn lemma_replace_ws(pre: Desktop, post: Desktop, wi: int)
    requires
        pre.wf(),
        0 <= wi < pre.spec_workspaces().len(),
        same_except(pre, post, wi),
        post.spec_workspaces()[wi].active == pre.spec_workspaces()[wi].active,
        forall|id: u32|
            ws_has(#[trigger] post.spec_workspaces()[wi].windows@, id) ==> ws_has(
                pre.spec_workspaces()[wi].windows@,
                id,
            ),
        ws_unique(post.spec_workspaces()[wi].windows@),
    ensures
        post.wf(),
        pre.geom_ok() && ws_geom_wf(post.spec_workspaces()[wi].windows@) ==> post.geom_ok(),
{
    let n = pre.spec_workspaces().len();
    assert forall|k: int| 0 <= k < n implies ((#[trigger] post.spec_workspaces()[k]).active <==> k
        == post.spec_idx()) by {
        assert(pre.spec_workspaces()[k].active <==> k == pre.spec_idx());
    }
    assert forall|k: int| 0 <= k < n implies ws_unique(
        (#[trigger] post.spec_workspaces()[k]).windows@,
    ) by {
        assert(ws_unique(pre.spec_workspaces()[k].windows@));
    }
    assert forall|a: int, b: int, id: u32|
        0 <= a < n && 0 <= b < n && a != b implies !(ws_has(post.spec_workspaces()[a].windows@, id)
        && ws_has(post.spec_workspaces()[b].windows@, id)) by {
        assert(!(ws_has(pre.spec_workspaces()[a].windows@, id) && ws_has(
            pre.spec_workspaces()[b].windows@,
            id,
        )));
        if a != wi {
            assert(post.spec_workspaces()[a] == pre.spec_workspaces()[a]);
        }
        if b != wi {
            assert(post.spec_workspaces()[b] == pre.spec_workspaces()[b]);
        }
    }
    if pre.geom_ok() && ws_geom_wf(post.spec_workspaces()[wi].windows@) {
        assert forall|k: int| 0 <= k < n implies ws_geom_wf(
            (#[trigger] post.spec_workspaces()[k]).windows@,
        ) by {
            assert(ws_geom_wf(pre.spec_workspaces()[k].windows@));
        }
    }
}

/// Adopting one fresh handle into one workspace (all else equal) keeps
/// the desktop well formed.
pub proof fn lemma_adopt_ws(pre: Desktop, post: Desktop, wi: int, new_id: u32)
    requires
        pre.wf(),
        0 <= wi < pre.spec_workspaces().len(),
        same_except(pre, post, wi),
        post.spec_workspaces()[wi].active == pre.spec_workspaces()[wi].active,
        forall|id: u32|
            ws_has(#[trigger] post.spec_workspaces()[wi].windows@, id) ==> (id == new_id || ws_has(
                pre.spec_workspaces()[wi].windows@,
                id,
            )),
        ws_unique(post.spec_workspaces()[wi].windows@),
        !pre.tracks(new_id),
    ensures
        post.wf(),
        pre.geom_ok() && ws_geom_wf(post.spec_workspaces()[wi].windows@) ==> post.geom_ok(),
{
    let n = pre.spec_workspaces().len();
    assert forall|k: int| 0 <= k < n implies ((#[trigger] post.spec_workspaces()[k]).active <==> k
        == post.spec_idx()) by {
        assert(pre.spec_workspaces()[k].active <==> k == pre.spec_idx());
    }
    assert forall|k: int| 0 <= k < n implies ws_unique(
        (#[trigger] post.spec_workspaces()[k]).windows@,
    ) by {
        assert(ws_unique(pre.spec_workspaces()[k].windows@));
    }
    assert forall|a: int, b: int, id: u32|
        0 <= a < n && 0 <= b < n && a != b implies !(ws_has(post.spec_workspaces()[a].windows@, id)
        && ws_has(post.spec_workspaces()[b].windows@, id)) by {
        assert(!(ws_has(pre.spec_workspaces()[a].windows@, id) && ws_has(
            pre.spec_workspaces()[b].windows@,
            id,
        )));
        if a != wi {
            assert(post.spec_workspaces()[a] == pre.spec_workspaces()[a]);
        }
        if b != wi {
            assert(post.spec_workspaces()[b] == pre.spec_workspaces()[b]);
        }
        if id == new_id {
            if a != wi && ws_has(post.spec_workspaces()[a].windows@, id) {
                assert(pre.tracks(new_id));
            }
            if b != wi && ws_has(post.spec_workspaces()[b].windows@, id) {
                assert(pre.tracks(new_id));
            }
        }
    }
    if pre.geom_ok() && ws_geom_wf(post.spec_workspaces()[wi].windows@) {
        assert forall|k: int| 0 <= k < n implies ws_geom_wf(
            (#[trigger] post.spec_workspaces()[k]).windows@,
        ) by {
            assert(ws_geom_wf(pre.spec_workspaces()[k].windows@));
        }
    }
}

/// Moving one handle from one workspace to the front of another (all
/// else equal) keeps the desktop well formed.
pub proof fn lemma_transfer_ws(pre: Desktop, post: Desktop, src: int, dst: int, moved_id: u32)
    requires
        pre.wf(),
        0 <= src < pre.spec_workspaces().len(),
        0 <= dst < pre.spec_workspaces().len(),
        src != dst,
        post.spec_idx() == pre.spec_idx(),
        post.spec_workspaces().len() == pre.spec_workspaces().len(),
        forall|k: int|
            0 <= k < pre.spec_workspaces().len() && k != src && k != dst
                ==> #[trigger] post.spec_workspaces()[k] == pre.spec_workspaces()[k],
        post.spec_workspaces()[src].active == pre.spec_workspaces()[src].active,
        post.spec_workspaces()[dst].active == pre.spec_workspaces()[dst].active,
        forall|id: u32|
            ws_has(#[trigger] post.spec_workspaces()[src].windows@, id) ==> ws_has(
                pre.spec_workspaces()[src].windows@,
                id,
            ),
        forall|id: u32|
            ws_has(#[trigger] post.spec_workspaces()[dst].windows@, id) ==> (id == moved_id
                || ws_has(pre.spec_workspaces()[dst].windows@, id)),
        ws_unique(post.spec_workspaces()[src].windows@),
        ws_unique(post.spec_workspaces()[dst].windows@),
        ws_has(pre.spec_workspaces()[src].windows@, moved_id),
        !ws_has(post.spec_workspaces()[src].windows@, moved_id),
    ensures
        post.wf(),
        pre.geom_ok() && ws_geom_wf(post.spec_workspaces()[src].windows@) && ws_geom_wf(
            post.spec_workspaces()[dst].windows@,
        ) ==> post.geom_ok(),
{
    let n = pre.spec_workspaces().len();
    assert forall|k: int| 0 <= k < n implies ((#[trigger] post.spec_workspaces()[k]).active <==> k
        == post.spec_idx()) by {
        assert(pre.spec_workspaces()[k].active <==> k == pre.spec_idx());
    }
    assert forall|k: int| 0 <= k < n implies ws_unique(
        (#[trigger] post.spec_workspaces()[k]).windows@,
    ) by {
        assert(ws_unique(pre.spec_workspaces()[k].windows@));
    }
    assert forall|a: int, b: int, id: u32|
        0 <= a < n && 0 <= b < n && a != b implies !(ws_has(post.spec_workspaces()[a].windows@, id)
        && ws_has(post.spec_workspaces()[b].windows@, id)) by {
        assert(!(ws_has(pre.spec_workspaces()[a].windows@, id) && ws_has(
            pre.spec_workspaces()[b].windows@,
            id,
        )));
        if a != src && a != dst {
            assert(post.spec_workspaces()[a] == pre.spec_workspaces()[a]);
        }
        if b != src && b != dst {
            assert(post.spec_workspaces()[b] == pre.spec_workspaces()[b]);
        }
        if id == moved_id && ws_has(post.spec_workspaces()[a].windows@, id) && ws_has(
            post.spec_workspaces()[b].windows@,
            id,
        ) {
            // only dst can still track the moved handle
            if a != dst {
                if a == src {
                } else {
                    assert(ws_has(pre.spec_workspaces()[a].windows@, id));
                    assert(!(ws_has(pre.spec_workspaces()[a].windows@, id) && ws_has(
                        pre.spec_workspaces()[src].windows@,
                        id,
                    )));
                }
            }
            if b != dst {
                if b == src {
                } else {
                    assert(ws_has(pre.spec_workspaces()[b].windows@, id));
                    assert(!(ws_has(pre.spec_workspaces()[b].windows@, id) && ws_has(
                        pre.spec_workspaces()[src].windows@,
                        id,
                    )));
                }
            }
        }
    }
    if pre.geom_ok() && ws_geom_wf(post.spec_workspaces()[src].windows@) && ws_geom_wf(
        post.spec_workspaces()[dst].windows@,
    ) {
        assert forall|k: int| 0 <= k < n implies ws_geom_wf(
            (#[trigger] post.spec_workspaces()[k]).windows@,
        ) by {
            assert(ws_geom_wf(pre.spec_workspaces()[k].windows@));
        }
    }
}

/// After initialization and across every switch, exactly one workspace is
/// active: the selected one, and no other.
pub proof fn lemma_single_active(d: Desktop)
    requires
        d.wf(),
    ensures
        d.spec_workspaces()[d.spec_idx()].active,
        forall|i: int, j: int|
            0 <= i < d.spec_workspaces().len() && 0 <= j < d.spec_workspaces().len() && (
            #[trigger] d.spec_workspaces()[i]).active && (#[trigger] d.spec_workspaces()[j]).active
                ==> i == j,
{
}

/// A handle tracked anywhere has at most one location: a reverse lookup
/// over all workspaces can return only one (workspace, index) pair.
pub proof fn lemma_no_cross_ownership(d: Desktop, i: int, a: int, j: int, b: int)
    requires
        d.wf(),
        0 <= i < d.spec_workspaces().len(),
        0 <= a < d.spec_workspaces()[i].windows@.len(),
        0 <= j < d.spec_workspaces().len(),
        0 <= b < d.spec_workspaces()[j].windows@.len(),
        d.spec_workspaces()[i].windows@[a].id == d.spec_workspaces()[j].windows@[b].id,
    ensures
        i == j,
        a == b,
{
    let id = d.spec_workspaces()[i].windows@[a].id;
    assert(ws_has(d.spec_workspaces()[i].windows@, id));
    assert(ws_has(d.spec_workspaces()[j].windows@, id));
}

} // verus!
