//! The interaction dispatcher: consumes domain events, mutates the
//! desktop model, and returns the display-server commands to issue.
//!
//! The dispatcher is single-threaded and synchronous: the surrounding
//! process blocks for the next event, hands it in here, performs the
//! returned commands, and repeats. Every handler is total over the
//! events the protocol can produce; an event addressed to a handle the
//! model no longer tracks is a silent no-op.

use vstd::prelude::*;

use crate::commands::{Command, ConfigureValues};
use crate::config::{MIN_SCREEN_ONSCREEN, WIN_HEIGHT_MIN, WIN_WIDTH_MIN, WORKSPACES};
use crate::desktop::Desktop;
use crate::events::{Event, KeyEvent, MouseButton};
use crate::layout::LayoutType;
use crate::screen::Screen;
use crate::windows::{
    clamped, find_id, geom_wf, merge_protocols, size_cap, ws_geom_wf, ws_has, WinView, Window,
};
use crate::workspace::{
    activate_cmds, add_cmds, added_view, deactivate_cmds, del_cmds, promote_cmds, Workspace,
};

verus! {

/// The pointer gesture the dispatcher is in the middle of.
#[derive(Copy, Clone, PartialEq, Eq, Structural, Debug)]
pub enum MouseMode {
    Idle,
    Moving,
    Resizing,
}

/// A zero-argument action a key binding can invoke.
#[derive(Copy, Clone, PartialEq, Eq, Structural, Debug)]
pub enum Action {
    /// Launch the external command stored at this index of the
    /// configured command table.
    RunCommand(usize),
    /// Close the focused window, gracefully when it supports it.
    CloseFocused,
    /// Terminate the manager.
    Quit,
    /// Rotate the least recently used window to the front.
    FocusCycle,
    /// Switch to this workspace.
    GotoWorkspace(usize),
    /// Switch to the next workspace, wrapping around.
    GotoNext,
    /// Switch to the previous workspace, wrapping around.
    GotoPrev,
    /// Move the focused window to this workspace.
    SendToWorkspace(usize),
    /// Move the focused window to the next workspace, wrapping around.
    SendToNext,
    /// Move the focused window to the previous workspace, wrapping
    /// around.
    SendToPrev,
    /// Bind the floating strategy to the current workspace.
    SetLayoutFloating,
    /// Bind the tiling strategy to the current workspace.
    SetLayoutTiling,
}

/// One entry of the static key binding table: an exact modifier mask and
/// key symbol, and the action a matching press invokes.
#[derive(Copy, Clone, PartialEq, Eq, Structural, Debug)]
pub struct Keybind {
    pub mask: u32,
    pub keysym: u32,
    pub action: Action,
}

/// The atoms the dispatcher's policy reads, interned once at startup.
#[derive(Copy, Clone, PartialEq, Eq, Structural, Debug)]
pub struct InternedAtoms {
    pub supported: u32,
    pub wm_delete_window: u32,
    pub wm_protocols: u32,
    pub wm_window_type_normal: u32,
    pub wm_window_type_dialog: u32,
    pub wm_window_type_toolbar: u32,
    pub wm_window_type_utility: u32,
    pub wm_window_type_splash: u32,
}

/// What the shell learned about a window that asked to map: its
/// advertised type, its current geometry, and its close protocols. Each
/// query can fail against a closing window, hence the options.
pub struct NewWindowInfo {
    pub window_type: Option<Vec<u32>>,
    pub geometry: Option<(i32, i32, i32, i32)>,
    pub protocols: Option<Vec<u32>>,
}

/// A workspace index an action may name must exist.
pub open spec fn action_wf(a: Action) -> bool {
    match a {
        Action::GotoWorkspace(i) => i < WORKSPACES,
        Action::SendToWorkspace(i) => i < WORKSPACES,
        _ => true,
    }
}

/// The window manager: the desktop model, the screen, the gesture state
/// machine, and the configured key bindings.
pub struct WM {
    pub desktop: Desktop,
    pub screen: Screen,
    pub mouse_mode: MouseMode,
    pub last_mouse_x: i32,
    pub last_mouse_y: i32,
    pub selected: Option<u32>,
    pub keybinds: Vec<Keybind>,
    pub atoms: InternedAtoms,
}

/// The workspace at index `i`.
pub open spec fn ws_at(d: Desktop, i: int) -> Workspace {
    d.spec_workspaces()[i]
}

/// The selected workspace.
pub open spec fn cur_ws(d: Desktop) -> Workspace {
    d.spec_workspaces()[d.spec_idx()]
}

/// Both desktops have the same selection and the same workspaces except
/// possibly the one at `i`.
pub open spec fn same_except(pre: Desktop, post: Desktop, i: int) -> bool {
    &&& post.spec_idx() == pre.spec_idx()
    &&& post.spec_workspaces().len() == pre.spec_workspaces().len()
    &&& forall|k: int|
        0 <= k < pre.spec_workspaces().len() && k != i ==> #[trigger] post.spec_workspaces()[k]
            == pre.spec_workspaces()[k]
}

/// `post` is `pre` with every field unchanged except possibly the
/// desktop.
pub open spec fn same_but_desktop(pre: WM, post: WM) -> bool {
    post == (WM { desktop: post.desktop, ..pre })
}

/// The two desktops hold the same workspaces and the same selection.
pub open spec fn desktop_eq(pre: Desktop, post: Desktop) -> bool {
    &&& post.spec_idx() == pre.spec_idx()
    &&& post.spec_workspaces() == pre.spec_workspaces()
}

impl WM {
    pub open spec fn wf(&self) -> bool {
        &&& self.desktop.wf()
        &&& self.desktop.geom_ok()
        &&& self.screen.wf()
        &&& -32768 <= self.last_mouse_x <= 32767
        &&& -32768 <= self.last_mouse_y <= 32767
        &&& (self.mouse_mode is Idle <==> self.selected is None)
        &&& forall|k: int|
            0 <= k < self.keybinds@.len() ==> action_wf((#[trigger] self.keybinds@[k]).action)
    }

    /// A freshly registered manager: the default desktop, the given
    /// screen, no gesture in progress.
    pub fn new(screen: Screen, keybinds: Vec<Keybind>, atoms: InternedAtoms) -> (wm: WM)
        requires
            screen.wf(),
            forall|k: int| 0 <= k < keybinds@.len() ==> action_wf((#[trigger] keybinds@[k]).action),
        ensures
            wm.wf(),
            wm.screen == screen,
            wm.keybinds == keybinds,
            wm.atoms == atoms,
            wm.mouse_mode is Idle,
            wm.selected is None,
            wm.last_mouse_x == 0 && wm.last_mouse_y == 0,
            wm.desktop.spec_idx() == 0,
            forall|i: int|
                0 <= i < WORKSPACES ==> (#[trigger] wm.desktop.spec_workspaces()[i]).windows@.len()
                    == 0,
    {
        WM {
            desktop: Desktop::default(),
            screen,
            mouse_mode: MouseMode::Idle,
            last_mouse_x: 0,
            last_mouse_y: 0,
            selected: None,
            keybinds,
            atoms,
        }
    }

    /// Terminate the manager: the model is untouched, the process exits.
    pub fn kill(&self) -> (cmds: Vec<Command>)
        ensures
            cmds@ == seq![Command::Exit],
    {
        let mut cmds: Vec<Command> = Vec::new();
        cmds.push(Command::Exit);
        proof {
            assert(cmds@ =~= seq![Command::Exit]);
        }
        cmds
    }

    /// Pointer-follows-focus: entering a window of the visible workspace
    /// focuses it directly, without promotion and independent of the
    /// gesture state machine.
    pub fn on_enter_notify(&mut self, window: u32) -> (cmds: Vec<Command>)
        requires
            old(self).wf(),
        ensures
            final(self).wf(),
            *final(self) == *old(self),
            cmds@ == if ws_has(cur_ws(old(self).desktop).windows@, window) {
                seq![Command::SetInputFocus(window)]
            } else {
                Seq::<Command>::empty()
            },
    {
        let mut cmds: Vec<Command> = Vec::new();
        match self.desktop.current().windows.contains(window) {
            Some(_) => {
                proof {
                    crate::windows::lemma_find_id(cur_ws(self.desktop).windows@, window);
                }
                cmds.push(Command::SetInputFocus(window));
                proof {
                    assert(cmds@ =~= seq![Command::SetInputFocus(window)]);
                }
            },
            None => {},
        }
        cmds
    }

    /// Any release ends the gesture, whichever button started it: back
    /// to `Idle`, nothing selected, pointer grab released.
    pub fn on_button_release(&mut self, button: MouseButton) -> (cmds: Vec<Command>)
        requires
            old(self).wf(),
        ensures
            final(self).wf(),
            *final(self) == (WM {
                mouse_mode: MouseMode::Idle,
                selected: None,
                ..*old(self)
            }),
            cmds@ == seq![Command::UngrabPointer],
    {
        self.selected = None;
        self.mouse_mode = MouseMode::Idle;
        let mut cmds: Vec<Command> = Vec::new();
        cmds.push(Command::UngrabPointer);
        proof {
            assert(cmds@ =~= seq![Command::UngrabPointer]);
        }
        cmds
    }
}

/// The geometry a drag leaves a window with: each axis moves by the
/// pointer delta, clamped so the window stays pick-up-able on screen.
pub open spec fn moved_view(w: WinView, screen: Screen, dx: int, dy: int) -> WinView {
    WinView {
        x: clamped(
            w.x + dx,
            screen.x - w.width + MIN_SCREEN_ONSCREEN,
            screen.x + screen.width - MIN_SCREEN_ONSCREEN,
        ),
        y: clamped(
            w.y + dy,
            screen.y - w.height + MIN_SCREEN_ONSCREEN,
            screen.y + screen.height - MIN_SCREEN_ONSCREEN,
        ),
        ..w
    }
}

/// The geometry a resize leaves a window with: each extent grows by the
/// pointer delta, clamped to the configured minimum and to the screen
/// space remaining past the window's origin.
pub open spec fn resized_view(w: WinView, screen: Screen, dx: int, dy: int) -> WinView {
    WinView {
        width: clamped(
            w.width + dx,
            WIN_WIDTH_MIN as int,
            size_cap(screen.x + screen.width - w.x, WIN_WIDTH_MIN as int),
        ),
        height: clamped(
            w.height + dy,
            WIN_HEIGHT_MIN as int,
            size_cap(screen.y + screen.height - w.y, WIN_HEIGHT_MIN as int),
        ),
        ..w
    }
}

/// Promoting `child` in the selected workspace: found, it rotates to
/// the front and the strategy's promotion commands are issued; absent,
/// nothing happens at all.
pub open spec fn focus_in_current_rel(
    pre: Desktop,
    post: Desktop,
    cmds: Seq<Command>,
    child: u32,
) -> bool {
    let cur = cur_ws(pre);
    &&& same_except(pre, post, pre.spec_idx())
    &&& match find_id(cur.windows@, child) {
        Some(i) => {
            &&& cur_ws(post).windows@ == cur.windows@.remove(i).insert(0, cur.windows@[i])
            &&& cur_ws(post).active == cur.active
            &&& cur_ws(post).layout == cur.layout
            &&& cmds == promote_cmds(cur.layout, child)
        },
        None => desktop_eq(pre, post) && cmds.len() == 0,
    }
}

/// The dispatcher re-focuses `child` only when it is not already the
/// focused window of the selected workspace.
pub open spec fn refocus_rel(pre: Desktop, post: Desktop, cmds: Seq<Command>, child: u32) -> bool {
    let cur = cur_ws(pre);
    if cur.windows@.len() > 0 && cur.windows@[0].id == child {
        desktop_eq(pre, post) && cmds.len() == 0
    } else {
        focus_in_current_rel(pre, post, cmds, child)
    }
}

/// What a button press does: a press on the bare root is ignored;
/// otherwise the pointed-at window is selected and (if needed)
/// re-focused, the pointer is grabbed, the press position becomes the
/// motion baseline, and the button picks the gesture.
pub open spec fn button_press_post(
    pre: WM,
    post: WM,
    cmds: Seq<Command>,
    x: int,
    y: int,
    button: MouseButton,
    child: u32,
) -> bool {
    if child == 0 {
        post == pre && cmds.len() == 0
    } else {
        &&& post == (WM {
            mouse_mode: post.mouse_mode,
            last_mouse_x: x as i32,
            last_mouse_y: y as i32,
            selected: Some(child),
            desktop: post.desktop,
            ..pre
        })
        &&& post.mouse_mode == (match button {
            MouseButton::LeftClick => MouseMode::Moving,
            MouseButton::RightClick => MouseMode::Resizing,
        })
        &&& exists|fc: Seq<Command>|
            cmds == seq![Command::GrabPointer] + fc && #[trigger] refocus_rel(
                pre.desktop,
                post.desktop,
                fc,
                child,
            )
    }
}

/// What a pointer motion does: the baseline always advances to the new
/// position; during a gesture the delta drives a clamped move or resize
/// of the selected window (if the visible workspace still tracks it);
/// in `Idle` no geometry changes and nothing is issued.
pub open spec fn motion_post(pre: WM, post: WM, cmds: Seq<Command>, x: int, y: int) -> bool {
    let dx = x - pre.last_mouse_x;
    let dy = y - pre.last_mouse_y;
    let cur = cur_ws(pre.desktop);
    &&& post == (WM {
        last_mouse_x: x as i32,
        last_mouse_y: y as i32,
        desktop: post.desktop,
        ..pre
    })
    &&& if pre.selected is Some && !(pre.mouse_mode is Idle) {
        match find_id(cur.windows@, pre.selected->0) {
            Some(i) => {
                let w = cur.windows@[i];
                let w2 = if pre.mouse_mode is Moving {
                    moved_view(w, pre.screen, dx, dy)
                } else {
                    resized_view(w, pre.screen, dx, dy)
                };
                &&& same_except(pre.desktop, post.desktop, pre.desktop.spec_idx())
                &&& cur_ws(post.desktop).windows@ == cur.windows@.update(i, w2)
                &&& cur_ws(post.desktop).active == cur.active
                &&& cur_ws(post.desktop).layout == cur.layout
                &&& cmds == (if pre.mouse_mode is Moving {
                    seq![Command::MoveWindow(w.id, w2.x as i32, w2.y as i32)]
                } else {
                    seq![Command::ResizeWindow(w.id, w2.width as i32, w2.height as i32)]
                })
            },
            None => post.desktop == pre.desktop && cmds.len() == 0,
        }
    } else {
        post.desktop == pre.desktop && cmds.len() == 0
    }
}

impl WM {
    /// Re-focus `child` in the selected workspace unless it is already
    /// the focused window.
    fn refocus(&mut self, child: u32) -> (cmds: Vec<Command>)
        requires
            old(self).wf(),
        ensures
            final(self).wf(),
            same_but_desktop(*old(self), *final(self)),
            refocus_rel(old(self).desktop, final(self).desktop, cmds@, child),
    {
        if self.desktop.current().windows.is_focused(child) {
            return Vec::new();
        }
        let ghost pre_d = self.desktop;
        let ws = self.desktop.current_mut();
        let cmds = ws.window_focus(&self.screen, child);
        proof {
            crate::windows::lemma_find_id(cur_ws(pre_d).windows@, child);
            crate::desktop::lemma_replace_ws(pre_d, self.desktop, pre_d.spec_idx());
            if find_id(cur_ws(pre_d).windows@, child) is None {
                assert(self.desktop.spec_workspaces() =~= pre_d.spec_workspaces());
            }
        }
        cmds
    }

    /// A button press over a child window starts a gesture: left begins
    /// a move, right a resize. A press on the bare root is ignored.
    pub fn on_button_press(&mut self, x: i32, y: i32, button: MouseButton, child: u32) -> (cmds:
        Vec<Command>)
        requires
            old(self).wf(),
            -32768 <= x <= 32767,
            -32768 <= y <= 32767,
        ensures
            final(self).wf(),
            button_press_post(*old(self), *final(self), cmds@, x as int, y as int, button, child),
    {
        let mut cmds: Vec<Command> = Vec::new();
        if child == 0 {
            return cmds;
        }
        self.selected = Some(child);
        self.last_mouse_x = x;
        self.last_mouse_y = y;
        match button {
            MouseButton::LeftClick => {
                self.mouse_mode = MouseMode::Moving;
            },
            MouseButton::RightClick => {
                self.mouse_mode = MouseMode::Resizing;
            },
        }
        cmds.push(Command::GrabPointer);
        let mut fc = self.refocus(child);
        let ghost fcg = fc@;
        cmds.append(&mut fc);
        proof {
            assert(cmds@ =~= seq![Command::GrabPointer] + fcg);
        }
        cmds
    }

    /// Pointer motion: always advances the motion baseline; during a
    /// move or resize gesture the delta drives the selected window's
    /// clamped move or resize.
    pub fn on_motion_notify(&mut self, x: i32, y: i32) -> (cmds: Vec<Command>)
        requires
            old(self).wf(),
            -32768 <= x <= 32767,
            -32768 <= y <= 32767,
        ensures
            final(self).wf(),
            motion_post(*old(self), *final(self), cmds@, x as int, y as int),
    {
        let dx = x - self.last_mouse_x;
        let dy = y - self.last_mouse_y;
        self.last_mouse_x = x;
        self.last_mouse_y = y;
        let mut cmds: Vec<Command> = Vec::new();
        let selected = match self.selected {
            Some(s) => s,
            None => {
                return cmds;
            },
        };
        let moving = match self.mouse_mode {
            MouseMode::Idle => {
                return cmds;
            },
            MouseMode::Moving => true,
            MouseMode::Resizing => false,
        };
        let loc = self.desktop.current().windows.contains(selected);
        let wj = match loc {
            Some(wj) => wj,
            None => {
                return cmds;
            },
        };
        let ghost pre_d = self.desktop;
        let ghost pre_win = cur_ws(pre_d).windows@[wj as int];
        proof {
            crate::windows::lemma_find_id(cur_ws(pre_d).windows@, selected);
        }
        let ws = self.desktop.current_mut();
        let w = ws.windows.get_mut(wj);
        let c = if moving {
            w.do_move(&self.screen, dx, dy)
        } else {
            w.do_resize(&self.screen, dx, dy)
        };
        cmds.push(c);
        proof {
            let post_d = self.desktop;
            let newv = cur_ws(post_d).windows@;
            let oldv = cur_ws(pre_d).windows@;
            assert(newv =~= oldv.update(
                wj as int,
                if moving {
                    moved_view(pre_win, self.screen, dx as int, dy as int)
                } else {
                    resized_view(pre_win, self.screen, dx as int, dy as int)
                },
            ));
            crate::windows::lemma_same_ids(oldv, newv);
            assert forall|k: int| 0 <= k < newv.len() implies geom_wf(#[trigger] newv[k]) by {
                assert(ws_geom_wf(oldv));
                if k != wj as int {
                    assert(newv[k] == oldv[k]);
                }
            }
            crate::desktop::lemma_replace_ws(pre_d, post_d, pre_d.spec_idx());
            assert(cmds@ =~= seq![c]);
        }
        cmds
    }
}


/// A root geometry change refreshes the screen and redraws the visible
/// workspace (deactivate, then activate); configure notifications for
/// other windows are ignored.
pub open spec fn configure_notify_post(
    pre: WM,
    post: WM,
    cmds: Seq<Command>,
    window: u32,
    x: int,
    y: int,
    width: int,
    height: int,
) -> bool {
    if window == pre.screen.root_id {
        &&& post.screen == (Screen {
            x: x as i32,
            y: y as i32,
            width: width as i32,
            height: height as i32,
            ..pre.screen
        })
        &&& post == (WM { screen: post.screen, desktop: post.desktop, ..pre })
        &&& same_except(pre.desktop, post.desktop, pre.desktop.spec_idx())
        &&& cur_ws(post.desktop).windows@ == cur_ws(pre.desktop).windows@
        &&& cur_ws(post.desktop).layout == cur_ws(pre.desktop).layout
        &&& cur_ws(post.desktop).active == cur_ws(pre.desktop).active
        &&& cmds == deactivate_cmds(cur_ws(pre.desktop).layout, cur_ws(pre.desktop).windows@)
            + activate_cmds(cur_ws(pre.desktop).layout, cur_ws(pre.desktop).windows@)
    } else {
        post == pre && cmds.len() == 0
    }
}

/// All bounds a configure request's values satisfy on the wire: 16-bit
/// positions and sizes.
pub open spec fn cfg_values_wf(v: ConfigureValues) -> bool {
    &&& (v.x matches Some(x) ==> -32768 <= x <= 32767)
    &&& (v.y matches Some(y) ==> -32768 <= y <= 32767)
    &&& (v.width matches Some(w) ==> 0 <= w <= 65535)
    &&& (v.height matches Some(h) ==> 0 <= h <= 65535)
}

/// The geometry a window's record holds after a configure request:
/// exactly the named fields change.
pub open spec fn configured_view(w: WinView, v: ConfigureValues) -> WinView {
    WinView {
        x: if v.x is Some {
            v.x->0 as int
        } else {
            w.x
        },
        y: if v.y is Some {
            v.y->0 as int
        } else {
            w.y
        },
        width: if v.width is Some {
            v.width->0 as int
        } else {
            w.width
        },
        height: if v.height is Some {
            v.height->0 as int
        } else {
            w.height
        },
        ..w
    }
}

/// A configure request is honored unconditionally: it is echoed back
/// as an authoritative configure. Only a tracked window gets the
/// bookkeeping: its record adopts the named fields.
pub open spec fn configure_request_post(
    pre: WM,
    post: WM,
    cmds: Seq<Command>,
    window: u32,
    values: ConfigureValues,
) -> bool {
    &&& same_but_desktop(pre, post)
    &&& if pre.desktop.tracks(window) {
        &&& exists|wi: int, wj: int|
            #![trigger ws_at(pre.desktop, wi).windows@[wj]]
            {
                &&& 0 <= wi < pre.desktop.spec_workspaces().len()
                &&& 0 <= wj < ws_at(pre.desktop, wi).windows@.len()
                &&& ws_at(pre.desktop, wi).windows@[wj].id == window
                &&& same_except(pre.desktop, post.desktop, wi)
                &&& ws_at(post.desktop, wi).windows@ == ws_at(pre.desktop, wi).windows@.update(
                    wj,
                    configured_view(ws_at(pre.desktop, wi).windows@[wj], values),
                )
                &&& ws_at(post.desktop, wi).active == ws_at(pre.desktop, wi).active
                &&& ws_at(post.desktop, wi).layout == ws_at(pre.desktop, wi).layout
            }
        &&& cmds == seq![Command::ConfigureWindow(window, values)]
    } else {
        desktop_eq(pre.desktop, post.desktop) && cmds == seq![
            Command::ConfigureWindow(window, values),
        ]
    }
}

/// An unmap or destroy notification removes the window from whichever
/// workspace tracks it (promoting that workspace's next window if the
/// focused one left); an untracked handle is a silent no-op.
pub open spec fn unmap_post(pre: WM, post: WM, cmds: Seq<Command>, window: u32) -> bool {
    &&& same_but_desktop(pre, post)
    &&& if pre.desktop.tracks(window) {
        &&& !post.desktop.tracks(window)
        &&& exists|wi: int, wj: int|
            #![trigger ws_at(pre.desktop, wi).windows@[wj]]
            {
                &&& 0 <= wi < pre.desktop.spec_workspaces().len()
                &&& 0 <= wj < ws_at(pre.desktop, wi).windows@.len()
                &&& ws_at(pre.desktop, wi).windows@[wj].id == window
                &&& same_except(pre.desktop, post.desktop, wi)
                &&& ws_at(post.desktop, wi).windows@ == ws_at(pre.desktop, wi).windows@.remove(wj)
                &&& ws_at(post.desktop, wi).active == ws_at(pre.desktop, wi).active
                &&& ws_at(post.desktop, wi).layout == ws_at(pre.desktop, wi).layout
                &&& cmds == del_cmds(
                    ws_at(pre.desktop, wi).layout,
                    ws_at(pre.desktop, wi).windows@,
                    wj,
                )
            }
    } else {
        desktop_eq(pre.desktop, post.desktop) && cmds.len() == 0
    }
}

/// Whether an advertised window type list marks a window the manager
/// should track: normal, dialog, toolbar, utility or splash.
pub open spec fn managed_type(types: Seq<u32>, atoms: InternedAtoms) -> bool {
    ||| types.contains(atoms.wm_window_type_normal)
    ||| types.contains(atoms.wm_window_type_dialog)
    ||| types.contains(atoms.wm_window_type_toolbar)
    ||| types.contains(atoms.wm_window_type_utility)
    ||| types.contains(atoms.wm_window_type_splash)
}

/// Bounds the queried geometry of a window satisfies on the wire.
pub open spec fn info_wf(info: NewWindowInfo) -> bool {
    info.geometry matches Some(g) ==> {
        &&& -32768 <= g.0 <= 32767
        &&& -32768 <= g.1 <= 32767
        &&& 0 <= g.2 <= 65535
        &&& 0 <= g.3 <= 65535
    }
}

/// The record a newly adopted window starts from: the queried geometry
/// (zeros when the query failed) and the advertised close protocols.
pub open spec fn adopted_view(window: u32, info: NewWindowInfo) -> WinView {
    let g = if info.geometry is Some {
        info.geometry->0
    } else {
        (0i32, 0i32, 0i32, 0i32)
    };
    WinView {
        id: window,
        x: g.0 as int,
        y: g.1 as int,
        width: g.2 as int,
        height: g.3 as int,
        protocols: merge_protocols(
            Seq::<u32>::empty(),
            if info.protocols is Some {
                info.protocols->0@
            } else {
                Seq::<u32>::empty()
            },
        ),
    }
}

/// A map request: a window already tracked is re-focused only when its
/// workspace is the visible one; a new window of an unmanaged type is
/// mapped but left untracked; any other new window is adopted into the
/// visible workspace by its layout strategy.
pub open spec fn map_request_post(
    pre: WM,
    post: WM,
    cmds: Seq<Command>,
    window: u32,
    info: NewWindowInfo,
) -> bool {
    &&& same_but_desktop(pre, post)
    &&& if pre.desktop.tracks(window) {
        if ws_has(cur_ws(pre.desktop).windows@, window) {
            focus_in_current_rel(pre.desktop, post.desktop, cmds, window)
        } else {
            desktop_eq(pre.desktop, post.desktop) && cmds.len() == 0
        }
    } else if info.window_type matches Some(t) && !managed_type(t@, pre.atoms) {
        desktop_eq(pre.desktop, post.desktop) && cmds == seq![Command::MapWindow(window)]
    } else {
        let cur = cur_ws(pre.desktop);
        &&& same_except(pre.desktop, post.desktop, pre.desktop.spec_idx())
        &&& cur_ws(post.desktop).windows@ == cur.windows@.insert(
            0,
            added_view(cur.layout, adopted_view(window, info), pre.screen),
        )
        &&& cur_ws(post.desktop).active == cur.active
        &&& cur_ws(post.desktop).layout == cur.layout
        &&& cmds == add_cmds(cur.layout, window, pre.screen)
    }
}

/// Whether the atom list holds the given atom.
fn contains_atom(list: &Vec<u32>, atom: u32) -> (r: bool)
    ensures
        r == list@.contains(atom),
{
    let mut i: usize = 0;
    while i < list.len()
        invariant
            i <= list@.len(),
            forall|k: int| 0 <= k < i ==> list@[k] != atom,
        decreases list@.len() - i,
    {
        if list[i] == atom {
            return true;
        }
        i = i + 1;
    }
    false
}

/// Whether an advertised type list names one of the tracked kinds.
fn is_managed_type(types: &Vec<u32>, atoms: &InternedAtoms) -> (r: bool)
    ensures
        r == managed_type(types@, *atoms),
{
    contains_atom(types, atoms.wm_window_type_normal) || contains_atom(
        types,
        atoms.wm_window_type_dialog,
    ) || contains_atom(types, atoms.wm_window_type_toolbar) || contains_atom(
        types,
        atoms.wm_window_type_utility,
    ) || contains_atom(types, atoms.wm_window_type_splash)
}

impl WM {
    /// A configure notification for the root window adopts the new
    /// screen geometry and redraws the visible workspace; for any other
    /// window it is ignored.
    pub fn on_configure_notify(
        &mut self,
        window: u32,
        x: i32,
        y: i32,
        width: i32,
        height: i32,
    ) -> (cmds: Vec<Command>)
        requires
            old(self).wf(),
            -32768 <= x <= 32767,
            -32768 <= y <= 32767,
            0 <= width <= 65535,
            0 <= height <= 65535,
        ensures
            final(self).wf(),
            configure_notify_post(
                *old(self),
                *final(self),
                cmds@,
                window,
                x as int,
                y as int,
                width as int,
                height as int,
            ),
    {
        let mut cmds: Vec<Command> = Vec::new();
        if window != self.screen.id() {
            return cmds;
        }
        self.screen.set(x, y, width, height);
        let ghost pre_d = self.desktop;
        let ws = self.desktop.current_mut();
        let mut c1 = ws.deactivate();
        let mut c2 = ws.activate(&self.screen);
        cmds.append(&mut c1);
        cmds.append(&mut c2);
        proof {
            crate::desktop::lemma_replace_ws(pre_d, self.desktop, pre_d.spec_idx());
        }
        cmds
    }

    /// Honor a client's configure request unconditionally, echoing it
    /// back as an authoritative configure; the record of a tracked
    /// window adopts the named fields.
    pub fn on_configure_request(&mut self, window: u32, values: ConfigureValues) -> (cmds: Vec<
        Command,
    >)
        requires
            old(self).wf(),
            cfg_values_wf(values),
        ensures
            final(self).wf(),
            configure_request_post(*old(self), *final(self), cmds@, window, values),
    {
        let mut cmds: Vec<Command> = Vec::new();
        let loc = self.desktop.contains(window);
        let (wi, wj) = match loc {
            Some(l) => l,
            None => {
                cmds.push(Command::ConfigureWindow(window, values));
                proof {
                    assert(cmds@ =~= seq![Command::ConfigureWindow(window, values)]);
                }
                return cmds;
            },
        };
        let ghost pre_d = self.desktop;
        proof {
            assert(ws_has(ws_at(pre_d, wi as int).windows@, window));
        }
        let ws = self.desktop.get_mut(wi);
        let w = ws.windows.get_mut(wj);
        match values.x {
            Some(v) => {
                w.x = v;
            },
            None => {},
        }
        match values.y {
            Some(v) => {
                w.y = v;
            },
            None => {},
        }
        match values.width {
            Some(v) => {
                w.width = v;
            },
            None => {},
        }
        match values.height {
            Some(v) => {
                w.height = v;
            },
            None => {},
        }
        cmds.push(Command::ConfigureWindow(window, values));
        proof {
            let post_d = self.desktop;
            let oldv = ws_at(pre_d, wi as int).windows@;
            let newv = ws_at(post_d, wi as int).windows@;
            assert(newv =~= oldv.update(wj as int, configured_view(oldv[wj as int], values)));
            crate::windows::lemma_same_ids(oldv, newv);
            assert forall|k: int| 0 <= k < newv.len() implies geom_wf(#[trigger] newv[k]) by {
                assert(ws_geom_wf(oldv));
                if k != wj as int {
                    assert(newv[k] == oldv[k]);
                }
            }
            crate::desktop::lemma_replace_ws(pre_d, post_d, wi as int);
            assert(cmds@ =~= seq![Command::ConfigureWindow(window, values)]);
        }
        cmds
    }

    /// Remove the window from whichever workspace tracks it; absence is
    /// a silent no-op (redundant notifications race with local removal).
    fn unmap_window(&mut self, window: u32) -> (cmds: Vec<Command>)
        requires
            old(self).wf(),
        ensures
            final(self).wf(),
            unmap_post(*old(self), *final(self), cmds@, window),
    {
        let loc = self.desktop.contains(window);
        let (wi, wj) = match loc {
            Some(l) => l,
            None => {
                return Vec::new();
            },
        };
        let ghost pre_d = self.desktop;
        proof {
            assert(ws_has(ws_at(pre_d, wi as int).windows@, window));
        }
        let ws = self.desktop.get_mut(wi);
        let (_removed, cmds) = ws.window_del(&self.screen, wj, window);
        proof {
            let post_d = self.desktop;
            crate::desktop::lemma_replace_ws(pre_d, post_d, wi as int);
            assert forall|i: int|
                0 <= i < post_d.spec_workspaces().len() implies !ws_has(
                (#[trigger] post_d.spec_workspaces()[i]).windows@,
                window,
            ) by {
                if i != wi as int {
                    assert(post_d.spec_workspaces()[i] == pre_d.spec_workspaces()[i]);
                    assert(!(ws_has(pre_d.spec_workspaces()[i].windows@, window) && ws_has(
                        pre_d.spec_workspaces()[wi as int].windows@,
                        window,
                    )));
                }
            }
        }
        cmds
    }

    /// An unmap notification: the window leaves the model.
    pub fn on_unmap_notify(&mut self, window: u32) -> (cmds: Vec<Command>)
        requires
            old(self).wf(),
        ensures
            final(self).wf(),
            unmap_post(*old(self), *final(self), cmds@, window),
    {
        self.unmap_window(window)
    }

    /// A destroy notification: the window leaves the model.
    pub fn on_destroy_notify(&mut self, window: u32) -> (cmds: Vec<Command>)
        requires
            old(self).wf(),
        ensures
            final(self).wf(),
            unmap_post(*old(self), *final(self), cmds@, window),
    {
        self.unmap_window(window)
    }

    /// Adopt a window the model does not track yet, unless its
    /// advertised type says to leave it alone (then it is only mapped).
    fn map_window(&mut self, window: u32, info: NewWindowInfo) -> (cmds: Vec<Command>)
        requires
            old(self).wf(),
            info_wf(info),
            !old(self).desktop.tracks(window),
        ensures
            final(self).wf(),
            map_request_post(*old(self), *final(self), cmds@, window, info),
    {
        let mut cmds: Vec<Command> = Vec::new();
        let managed = match &info.window_type {
            Some(types) => is_managed_type(types, &self.atoms),
            None => true,
        };
        if !managed {
            cmds.push(Command::MapWindow(window));
            proof {
                assert(cmds@ =~= seq![Command::MapWindow(window)]);
            }
            return cmds;
        }
        let mut w = Window::from(window);
        match info.geometry {
            Some((gx, gy, gw, gh)) => {
                w.x = gx;
                w.y = gy;
                w.width = gw;
                w.height = gh;
            },
            None => {},
        }
        match &info.protocols {
            Some(p) => {
                w.set_supported_protocols(p);
            },
            None => {},
        }
        proof {
            assert(w@ == adopted_view(window, info));
            assert(geom_wf(w@));
        }
        let ghost pre_d = self.desktop;
        let ws = self.desktop.current_mut();
        let c = ws.window_add(&self.screen, w);
        proof {
            crate::desktop::lemma_adopt_ws(pre_d, self.desktop, pre_d.spec_idx(), window);
        }
        c
    }

    /// A map request: adopt a new window, or re-focus a tracked one when
    /// its workspace is the visible one.
    pub fn on_map_request(&mut self, window: u32, info: NewWindowInfo) -> (cmds: Vec<Command>)
        requires
            old(self).wf(),
            info_wf(info),
        ensures
            final(self).wf(),
            map_request_post(*old(self), *final(self), cmds@, window, info),
    {
        let loc = self.desktop.contains(window);
        match loc {
            Some((wi, _wj)) => {
                let ghost pre_d = self.desktop;
                proof {
                    assert(ws_has(ws_at(pre_d, wi as int).windows@, window));
                }
                if wi == self.desktop.current_index() {
                    let ws = self.desktop.current_mut();
                    let cmds = ws.window_focus(&self.screen, window);
                    proof {
                        crate::windows::lemma_find_id(cur_ws(pre_d).windows@, window);
                        crate::desktop::lemma_replace_ws(pre_d, self.desktop, pre_d.spec_idx());
                    }
                    cmds
                } else {
                    proof {
                        assert(!(ws_has(ws_at(pre_d, wi as int).windows@, window) && ws_has(
                            cur_ws(pre_d).windows@,
                            window,
                        )));
                    }
                    Vec::new()
                }
            },
            None => self.map_window(window, info),
        }
    }
}


/// The action of the first binding matching the pressed mask and key
/// symbol exactly; `None` when no binding matches.
pub open spec fn find_binding(ks: Seq<Keybind>, mask: u32, key: u32) -> Option<Action>
    decreases ks.len(),
{
    if ks.len() == 0 {
        None
    } else if ks[0].mask == mask && ks[0].keysym == key {
        Some(ks[0].action)
    } else {
        find_binding(ks.drop_first(), mask, key)
    }
}

/// A first match determines `find_binding` exactly.
pub proof fn lemma_find_binding_first(ks: Seq<Keybind>, mask: u32, key: u32, i: int)
    requires
        0 <= i < ks.len(),
        ks[i].mask == mask && ks[i].keysym == key,
        forall|k: int| 0 <= k < i ==> !(ks[k].mask == mask && ks[k].keysym == key),
    ensures
        find_binding(ks, mask, key) == Some(ks[i].action),
    decreases ks.len(),
{
    if i == 0 {
    } else {
        assert(ks.drop_first()[i - 1] == ks[i]);
        assert forall|k: int|
            0 <= k < i - 1 implies !(ks.drop_first()[k].mask == mask && ks.drop_first()[k].keysym
            == key) by {
            assert(ks.drop_first()[k] == ks[k + 1]);
        }
        lemma_find_binding_first(ks.drop_first(), mask, key, i - 1);
    }
}

/// No match anywhere means no binding is found.
pub proof fn lemma_find_binding_none(ks: Seq<Keybind>, mask: u32, key: u32)
    requires
        forall|k: int| 0 <= k < ks.len() ==> !(ks[k].mask == mask && ks[k].keysym == key),
    ensures
        find_binding(ks, mask, key) is None,
    decreases ks.len(),
{
    if ks.len() > 0 {
        assert forall|k: int|
            0 <= k < ks.drop_first().len() implies !(ks.drop_first()[k].mask == mask
            && ks.drop_first()[k].keysym == key) by {
            assert(ks.drop_first()[k] == ks[k + 1]);
        }
        lemma_find_binding_none(ks.drop_first(), mask, key);
    }
}

/// The graceful-close decision for the focused window of a workspace.
pub open spec fn close_cmds(ws: Workspace, wm_delete_window: u32) -> Seq<Command> {
    if ws.windows@.len() == 0 {
        Seq::empty()
    } else if ws.windows@[0].protocols.contains(wm_delete_window) {
        seq![Command::SendCloseMessage(ws.windows@[0].id)]
    } else {
        seq![Command::DestroyWindow(ws.windows@[0].id)]
    }
}

/// Index of the workspace after the selected one, wrapping around.
pub open spec fn next_of(d: Desktop) -> int {
    if d.spec_idx() < WORKSPACES - 1 {
        d.spec_idx() + 1
    } else {
        0
    }
}

/// Index of the workspace before the selected one, wrapping around.
pub open spec fn prev_of(d: Desktop) -> int {
    if d.spec_idx() > 0 {
        d.spec_idx() - 1
    } else {
        WORKSPACES - 1
    }
}

/// A workspace switch: the old workspace's deactivation commands, then
/// the target's activation commands; windows and layouts are untouched.
pub open spec fn goto_rel(pre: WM, post: WM, cmds: Seq<Command>, target: int) -> bool {
    &&& same_but_desktop(pre, post)
    &&& post.desktop.spec_idx() == target
    &&& post.desktop.spec_workspaces().len() == pre.desktop.spec_workspaces().len()
    &&& forall|i: int|
        0 <= i < pre.desktop.spec_workspaces().len() ==> {
            &&& (#[trigger] post.desktop.spec_workspaces()[i]).windows@
                == pre.desktop.spec_workspaces()[i].windows@
            &&& post.desktop.spec_workspaces()[i].layout
                == pre.desktop.spec_workspaces()[i].layout
        }
    &&& cmds == deactivate_cmds(cur_ws(pre.desktop).layout, cur_ws(pre.desktop).windows@)
        + activate_cmds(ws_at(pre.desktop, target).layout, ws_at(pre.desktop, target).windows@)
}

/// A focus cycle on the selected workspace: fewer than two windows is a
/// no-op, otherwise the last window rotates to the front and is
/// promoted.
pub open spec fn cycle_rel(pre: Desktop, post: Desktop, cmds: Seq<Command>) -> bool {
    let cur = cur_ws(pre);
    &&& same_except(pre, post, pre.spec_idx())
    &&& if cur.windows@.len() < 2 {
        desktop_eq(pre, post) && cmds.len() == 0
    } else {
        let n = cur.windows@.len() - 1;
        &&& cur_ws(post).windows@ == cur.windows@.remove(n).insert(0, cur.windows@[n])
        &&& cur_ws(post).active == cur.active
        &&& cur_ws(post).layout == cur.layout
        &&& cmds == promote_cmds(cur.layout, cur.windows@[n].id)
    }
}

/// Sending the focused window of the selected workspace to `target`:
/// the record leaves the source collection (promoting the source's next
/// window) and is inserted, unchanged, at the front of the target.
pub open spec fn send_rel(pre: WM, post: WM, cmds: Seq<Command>, target: int) -> bool {
    let cur = cur_ws(pre.desktop);
    let idx = pre.desktop.spec_idx();
    &&& same_but_desktop(pre, post)
    &&& if cur.windows@.len() == 0 {
        desktop_eq(pre.desktop, post.desktop) && cmds.len() == 0
    } else {
        let w = cur.windows@[0];
        &&& post.desktop.spec_idx() == idx
        &&& post.desktop.spec_workspaces().len() == pre.desktop.spec_workspaces().len()
        &&& cmds == del_cmds(cur.layout, cur.windows@, 0)
        &&& ws_at(post.desktop, target).active == ws_at(pre.desktop, target).active
        &&& ws_at(post.desktop, target).layout == ws_at(pre.desktop, target).layout
        &&& ws_at(post.desktop, idx).active == cur.active
        &&& ws_at(post.desktop, idx).layout == cur.layout
        &&& if target == idx {
            &&& (forall|i: int|
                0 <= i < pre.desktop.spec_workspaces().len() && i != idx
                    ==> #[trigger] post.desktop.spec_workspaces()[i]
                    == pre.desktop.spec_workspaces()[i])
            &&& ws_at(post.desktop, idx).windows@ == cur.windows@.remove(0).insert(0, w)
        } else {
            &&& (forall|i: int|
                0 <= i < pre.desktop.spec_workspaces().len() && i != idx && i != target
                    ==> #[trigger] post.desktop.spec_workspaces()[i]
                    == pre.desktop.spec_workspaces()[i])
            &&& ws_at(post.desktop, idx).windows@ == cur.windows@.remove(0)
            &&& ws_at(post.desktop, target).windows@ == ws_at(
                pre.desktop,
                target,
            ).windows@.insert(0, w)
        }
    }
}

/// Binding a layout to the selected workspace: membership, order,
/// geometry and visibility are untouched.
pub open spec fn set_layout_rel(pre: Desktop, post: Desktop, cmds: Seq<Command>, t: LayoutType) -> bool {
    let cur = cur_ws(pre);
    &&& same_except(pre, post, pre.spec_idx())
    &&& cur_ws(post).windows@ == cur.windows@
    &&& cur_ws(post).active == cur.active
    &&& cur_ws(post).layout == t
    &&& cmds.len() == 0
}

/// What each bound action does to the manager.
pub open spec fn action_post(pre: WM, post: WM, cmds: Seq<Command>, action: Action) -> bool {
    match action {
        Action::RunCommand(i) => post == pre && cmds == seq![Command::Spawn(i)],
        Action::CloseFocused => post == pre && cmds == close_cmds(
            cur_ws(pre.desktop),
            pre.atoms.wm_delete_window,
        ),
        Action::Quit => post == pre && cmds == seq![Command::Exit],
        Action::FocusCycle => same_but_desktop(pre, post) && cycle_rel(
            pre.desktop,
            post.desktop,
            cmds,
        ),
        Action::GotoWorkspace(i) => goto_rel(pre, post, cmds, i as int),
        Action::GotoNext => goto_rel(pre, post, cmds, next_of(pre.desktop)),
        Action::GotoPrev => goto_rel(pre, post, cmds, prev_of(pre.desktop)),
        Action::SendToWorkspace(i) => send_rel(pre, post, cmds, i as int),
        Action::SendToNext => send_rel(pre, post, cmds, next_of(pre.desktop)),
        Action::SendToPrev => send_rel(pre, post, cmds, prev_of(pre.desktop)),
        Action::SetLayoutFloating => same_but_desktop(pre, post) && set_layout_rel(
            pre.desktop,
            post.desktop,
            cmds,
            LayoutType::Floating,
        ),
        Action::SetLayoutTiling => same_but_desktop(pre, post) && set_layout_rel(
            pre.desktop,
            post.desktop,
            cmds,
            LayoutType::Tiling,
        ),
    }
}

/// A key press that matches a binding first re-focuses the originating
/// window (unless it is already focused), then performs the bound
/// action; a press matching no binding does nothing.
pub open spec fn key_press_post(
    pre: WM,
    post: WM,
    cmds: Seq<Command>,
    ev: KeyEvent,
    child: u32,
) -> bool {
    match find_binding(pre.keybinds@, ev.mask, ev.key) {
        None => post == pre && cmds.len() == 0,
        Some(action) => exists|mid: WM, rc: Seq<Command>, ac: Seq<Command>|
            #![trigger refocus_rel(pre.desktop, mid.desktop, rc, child), action_post(mid, post, ac, action)]
            {
                &&& cmds == rc + ac
                &&& same_but_desktop(pre, mid)
                &&& mid.wf()
                &&& refocus_rel(pre.desktop, mid.desktop, rc, child)
                &&& action_post(mid, post, ac, action)
            },
    }
}

/// The first binding matching the pressed mask and key symbol, if any.
fn find_keybind(keybinds: &Vec<Keybind>, mask: u32, key: u32) -> (r: Option<Action>)
    ensures
        r == find_binding(keybinds@, mask, key),
{
    let mut i: usize = 0;
    while i < keybinds.len()
        invariant
            i <= keybinds@.len(),
            forall|k: int|
                0 <= k < i ==> !((#[trigger] keybinds@[k]).mask == mask && keybinds@[k].keysym
                    == key),
        decreases keybinds@.len() - i,
    {
        let kb = keybinds[i];
        if kb.mask == mask && kb.keysym == key {
            proof {
                lemma_find_binding_first(keybinds@, mask, key, i as int);
            }
            return Some(kb.action);
        }
        i = i + 1;
    }
    proof {
        lemma_find_binding_none(keybinds@, mask, key);
    }
    None
}

impl WM {
    /// Move the focused window of the selected workspace to the
    /// workspace at `idx`: out of the source collection (promoting the
    /// source's next window), to the front of the target's.
    pub fn send_window_from_workspace_to(&mut self, idx: usize) -> (cmds: Vec<Command>)
        requires
            old(self).wf(),
            idx < WORKSPACES,
        ensures
            final(self).wf(),
            send_rel(*old(self), *final(self), cmds@, idx as int),
    {
        let ghost pre_d = self.desktop;
        let cur_idx = self.desktop.current_index();
        let ws = self.desktop.current_mut();
        let (opt, cmds) = ws.window_del_focused(&self.screen);
        let window = match opt {
            Some(w) => w,
            None => {
                proof {
                    assert(self.desktop.spec_workspaces() =~= pre_d.spec_workspaces());
                }
                return cmds;
            },
        };
        let ghost wv = window@;
        let ws2 = self.desktop.get_mut(idx);
        ws2.windows.add(window);
        proof {
            let post_d = self.desktop;
            let cur = cur_ws(pre_d);
            assert(wv == cur.windows@[0]);
            if idx == cur_idx {
                crate::desktop::lemma_replace_ws(pre_d, post_d, idx as int);
            } else {
                assert(ws_has(cur.windows@, wv.id));
                assert(!(ws_has(ws_at(pre_d, idx as int).windows@, wv.id) && ws_has(
                    cur.windows@,
                    wv.id,
                )));
                crate::desktop::lemma_transfer_ws(
                    pre_d,
                    post_d,
                    cur_idx as int,
                    idx as int,
                    wv.id,
                );
            }
        }
        cmds
    }

    /// Perform one bound action.
    pub fn run_action(&mut self, action: Action) -> (cmds: Vec<Command>)
        requires
            old(self).wf(),
            action_wf(action),
        ensures
            final(self).wf(),
            action_post(*old(self), *final(self), cmds@, action),
    {
        match action {
            Action::RunCommand(i) => {
                let mut cmds: Vec<Command> = Vec::new();
                cmds.push(Command::Spawn(i));
                proof {
                    assert(cmds@ =~= seq![Command::Spawn(i)]);
                }
                cmds
            },
            Action::CloseFocused => {
                let atom = self.atoms.wm_delete_window;
                let cmds = self.desktop.current().window_close_focused(atom);
                proof {
                    if cur_ws(self.desktop).windows@.len() == 0 {
                        assert(cmds@ =~= Seq::<Command>::empty());
                    }
                }
                cmds
            },
            Action::Quit => self.kill(),
            Action::FocusCycle => {
                let ghost pre_d = self.desktop;
                let ws = self.desktop.current_mut();
                let cmds = ws.window_focus_cycle(&self.screen);
                proof {
                    crate::desktop::lemma_replace_ws(pre_d, self.desktop, pre_d.spec_idx());
                    if cur_ws(pre_d).windows@.len() < 2 {
                        assert(self.desktop.spec_workspaces() =~= pre_d.spec_workspaces());
                    }
                }
                cmds
            },
            Action::GotoWorkspace(i) => self.desktop.goto(&self.screen, i),
            Action::GotoNext => {
                let n = self.desktop.index_next();
                self.desktop.goto(&self.screen, n)
            },
            Action::GotoPrev => {
                let n = self.desktop.index_prev();
                self.desktop.goto(&self.screen, n)
            },
            Action::SendToWorkspace(i) => self.send_window_from_workspace_to(i),
            Action::SendToNext => {
                let n = self.desktop.index_next();
                self.send_window_from_workspace_to(n)
            },
            Action::SendToPrev => {
                let n = self.desktop.index_prev();
                self.send_window_from_workspace_to(n)
            },
            Action::SetLayoutFloating => {
                let ghost pre_d = self.desktop;
                let ws = self.desktop.current_mut();
                let cmds = ws.set_layout(&self.screen, LayoutType::Floating);
                proof {
                    crate::desktop::lemma_replace_ws(pre_d, self.desktop, pre_d.spec_idx());
                }
                cmds
            },
            Action::SetLayoutTiling => {
                let ghost pre_d = self.desktop;
                let ws = self.desktop.current_mut();
                let cmds = ws.set_layout(&self.screen, LayoutType::Tiling);
                proof {
                    crate::desktop::lemma_replace_ws(pre_d, self.desktop, pre_d.spec_idx());
                }
                cmds
            },
        }
    }

    /// A key press: scan the binding table for an exact (mask, keysym)
    /// match — first match wins — re-focus the originating window if it
    /// is not already focused, then perform the bound action.
    pub fn on_key_press(&mut self, ev: KeyEvent, child: u32) -> (cmds: Vec<Command>)
        requires
            old(self).wf(),
        ensures
            final(self).wf(),
            key_press_post(*old(self), *final(self), cmds@, ev, child),
    {
        let action = match find_keybind(&self.keybinds, ev.mask, ev.key) {
            Some(a) => a,
            None => {
                return Vec::new();
            },
        };
        proof {
            lemma_binding_action_wf(self.keybinds@, ev.mask, ev.key);
        }
        let mut cmds = self.refocus(child);
        let ghost mid = *self;
        let ghost rc = cmds@;
        let mut ac = self.run_action(action);
        let ghost acg = ac@;
        cmds.append(&mut ac);
        proof {
            assert(cmds@ == rc + acg);
            assert(refocus_rel(old(self).desktop, mid.desktop, rc, child));
            assert(action_post(mid, *self, acg, action));
        }
        cmds
    }
}

/// A found binding's action came from the table, so it satisfies the
/// table's well-formedness.
pub proof fn lemma_binding_action_wf(ks: Seq<Keybind>, mask: u32, key: u32)
    requires
        forall|k: int| 0 <= k < ks.len() ==> action_wf((#[trigger] ks[k]).action),
    ensures
        find_binding(ks, mask, key) matches Some(a) ==> action_wf(a),
    decreases ks.len(),
{
    if ks.len() > 0 && !(ks[0].mask == mask && ks[0].keysym == key) {
        assert forall|k: int| 0 <= k < ks.drop_first().len() implies action_wf(
            (#[trigger] ks.drop_first()[k]).action,
        ) by {
            assert(ks.drop_first()[k] == ks[k + 1]);
        }
        lemma_binding_action_wf(ks.drop_first(), mask, key);
    }
}

/// Bounds every decoded event satisfies on the wire: 16-bit coordinates
/// and sizes.
pub open spec fn event_wf(e: Event) -> bool {
    match e {
        Event::MotionNotify((x, y)) => -32768 <= x <= 32767 && -32768 <= y <= 32767,
        Event::ButtonPress(((x, y), _b, _c)) => -32768 <= x <= 32767 && -32768 <= y <= 32767,
        Event::ConfigureRequest(v, _w) => cfg_values_wf(v),
        _ => true,
    }
}

/// The queried info a map request is handled with: what the shell
/// passed, or nothing learned at all.
pub open spec fn info_of(new_window: Option<NewWindowInfo>) -> NewWindowInfo {
    match new_window {
        Some(i) => i,
        None => NewWindowInfo { window_type: None, geometry: None, protocols: None },
    }
}

impl WM {
    /// Dispatch one domain event. For a map request the shell passes
    /// what it could learn about the window; every other event needs
    /// nothing besides its decoded fields.
    pub fn handle_event(&mut self, event: Event, new_window: Option<NewWindowInfo>) -> (cmds: Vec<
        Command,
    >)
        requires
            old(self).wf(),
            event_wf(event),
            new_window matches Some(i) ==> info_wf(i),
        ensures
            final(self).wf(),
            match event {
                Event::MapRequest(w) => map_request_post(
                    *old(self),
                    *final(self),
                    cmds@,
                    w,
                    info_of(new_window),
                ),
                Event::UnmapNotify(w) => unmap_post(*old(self), *final(self), cmds@, w),
                Event::DestroyNotify(w) => unmap_post(*old(self), *final(self), cmds@, w),
                Event::EnterNotify(w) => *final(self) == *old(self) && cmds@ == (if ws_has(
                    cur_ws(old(self).desktop).windows@,
                    w,
                ) {
                    seq![Command::SetInputFocus(w)]
                } else {
                    Seq::<Command>::empty()
                }),
                Event::ConfigureRequest(v, w) => configure_request_post(
                    *old(self),
                    *final(self),
                    cmds@,
                    w,
                    v,
                ),
                Event::MotionNotify((x, y)) => motion_post(
                    *old(self),
                    *final(self),
                    cmds@,
                    x as int,
                    y as int,
                ),
                Event::KeyPress((ev, child)) => key_press_post(
                    *old(self),
                    *final(self),
                    cmds@,
                    ev,
                    child,
                ),
                Event::ButtonPress(((x, y), b, c)) => button_press_post(
                    *old(self),
                    *final(self),
                    cmds@,
                    x as int,
                    y as int,
                    b,
                    c,
                ),
                Event::ButtonRelease(_b) => *final(self) == (WM {
                    mouse_mode: MouseMode::Idle,
                    selected: None,
                    ..*old(self)
                }) && cmds@ == seq![Command::UngrabPointer],
            },
    {
        match event {
            Event::MapRequest(w) => {
                let info = match new_window {
                    Some(i) => i,
                    None => NewWindowInfo { window_type: None, geometry: None, protocols: None },
                };
                self.on_map_request(w, info)
            },
            Event::UnmapNotify(w) => self.on_unmap_notify(w),
            Event::DestroyNotify(w) => self.on_destroy_notify(w),
            Event::EnterNotify(w) => self.on_enter_notify(w),
            Event::ConfigureRequest(v, w) => self.on_configure_request(w, v),
            Event::MotionNotify((x, y)) => self.on_motion_notify(x, y),
            Event::KeyPress((ev, child)) => self.on_key_press(ev, child),
            Event::ButtonPress(((x, y), b, c)) => self.on_button_press(x, y, b, c),
            Event::ButtonRelease(b) => self.on_button_release(b),
        }
    }
}

} // verus!
