//! Tests of the window collection, workspaces and the desktop registry.

use winmgr::commands::Command;
use winmgr::cursor::CoreCursor;
use winmgr::desktop::Desktop;
use winmgr::layout::LayoutType;
use winmgr::screen::Screen;
use winmgr::windows::{ensure_in_bounds, Window, Windows};
use winmgr::workspace::Workspace;

fn win(id: u32) -> Window {
    Window { id, x: 0, y: 0, width: 100, height: 100, protocols: Vec::new() }
}

fn screen_150() -> Screen {
    let mut s = Screen::new(0, 1);
    s.set(0, 0, 150, 150);
    s
}

fn ids(w: &Windows) -> Vec<u32> {
    w.iter()
}

#[test]
fn add_prepends_and_focuses() {
    let mut ws = Windows::default();
    ws.add(win(1));
    ws.add(win(2));
    assert_eq!(ids(&ws), vec![2, 1]);
    assert!(ws.is_focused(2));
    assert!(!ws.is_focused(1));
    assert_eq!(ws.focused().unwrap().id, 2);
}

#[test]
fn add_remove_round_trip() {
    // Adding a window then removing it by its handle restores the
    // collection exactly.
    let mut ws = Windows::default();
    ws.add(win(1));
    ws.add(win(2));
    let before = ids(&ws);
    ws.add(win(3));
    let idx = ws.index_of(3).unwrap();
    assert_eq!(idx, 0);
    let removed = ws.remove(idx);
    assert_eq!(removed.id, 3);
    assert_eq!(ids(&ws), before);
    assert!(ws.is_focused(2));
}

#[test]
fn move_front_rotates() {
    let mut ws = Windows::default();
    ws.add(win(1));
    ws.add(win(2));
    ws.add(win(3));
    assert_eq!(ids(&ws), vec![3, 2, 1]);
    ws.move_front(2);
    assert_eq!(ids(&ws), vec![1, 3, 2]);
}

#[test]
fn index_of_first_match() {
    let mut ws = Windows::default();
    ws.add(win(7));
    ws.add(win(9));
    assert_eq!(ws.index_of(7), Some(1));
    assert_eq!(ws.index_of(9), Some(0));
    assert_eq!(ws.index_of(8), None);
    assert_eq!(ws.contains(7), Some(1));
}

#[test]
fn iter_rev_is_back_to_front() {
    let mut ws = Windows::default();
    ws.add(win(1));
    ws.add(win(2));
    ws.add(win(3));
    assert_eq!(ws.iter_rev(), vec![1, 2, 3]);
}

#[test]
fn ensure_in_bounds_clamps() {
    let mut v: i32 = 5;
    ensure_in_bounds(&mut v, 10, 20);
    assert_eq!(v, 10);
    let mut v: i32 = 25;
    ensure_in_bounds(&mut v, 10, 20);
    assert_eq!(v, 20);
    let mut v: i32 = 15;
    ensure_in_bounds(&mut v, 10, 20);
    assert_eq!(v, 15);
    // crossed bounds: the lower bound is checked first
    let mut v: i32 = 5;
    ensure_in_bounds(&mut v, 10, 7);
    assert_eq!(v, 10);
}

#[test]
fn resize_clamps_to_screen() {
    // A window at x=0 of width 100 on a 150-wide screen, resized by
    // +200, ends exactly at the screen edge: width 150.
    let screen = screen_150();
    let mut w = win(4);
    let c = w.do_resize(&screen, 200, 0);
    assert_eq!(w.width, 150);
    assert_eq!(w.height, 100);
    assert_eq!(c, Command::ResizeWindow(4, 150, 100));
}

#[test]
fn resize_clamps_to_minimum() {
    let screen = screen_150();
    let mut w = win(4);
    let _ = w.do_resize(&screen, -95, -200);
    assert_eq!(w.width, 10);
    assert_eq!(w.height, 10);
}

#[test]
fn move_keeps_window_reachable() {
    let screen = screen_150();
    let mut w = win(4);
    let c = w.do_move(&screen, 500, -500);
    // at least 10 pixels stay on screen in each axis
    assert_eq!(w.x, 140);
    assert_eq!(w.y, -90);
    assert_eq!(c, Command::MoveWindow(4, 140, -90));
}

#[test]
fn protocols_are_a_set() {
    let mut w = win(6);
    w.set_supported_protocols(&vec![5, 5, 7]);
    assert!(w.supports_protocol(5));
    assert!(w.supports_protocol(7));
    assert!(!w.supports_protocol(9));
    assert_eq!(w.protocols.len(), 2);
    // learning again forgets nothing
    w.set_supported_protocols(&vec![7, 9]);
    assert!(w.supports_protocol(5));
    assert!(w.supports_protocol(9));
    assert_eq!(w.protocols.len(), 3);
}

#[test]
fn window_equality_is_by_handle() {
    let a = win(5);
    let mut b = win(5);
    b.x = 99;
    assert!(a == b);
    assert!(a != win(6));
}

#[test]
fn focus_cycle_scenario() {
    // [W3, W2, W1] cycles to [W1, W3, W2], then to [W2, W1, W3].
    let screen = screen_150();
    let mut ws = Workspace::default();
    ws.windows.add(win(1));
    ws.windows.add(win(2));
    ws.windows.add(win(3));
    let _ = ws.window_focus_cycle(&screen);
    assert_eq!(ids(&ws.windows), vec![1, 3, 2]);
    let _ = ws.window_focus_cycle(&screen);
    assert_eq!(ids(&ws.windows), vec![2, 1, 3]);
}

#[test]
fn focus_cycle_single_window_is_noop() {
    let screen = screen_150();
    let mut ws = Workspace::default();
    ws.windows.add(win(1));
    let cmds = ws.window_focus_cycle(&screen);
    assert!(cmds.is_empty());
    assert_eq!(ids(&ws.windows), vec![1]);
}

#[test]
fn layout_switch_preserves_membership() {
    // A workspace with [A, B] under floating still holds exactly
    // {A, B} after switching to tiling.
    let screen = screen_150();
    let mut ws = Workspace::default();
    ws.windows.add(win(11));
    ws.windows.add(win(12));
    assert_eq!(ws.layout, LayoutType::Floating);
    let cmds = ws.set_layout(&screen, LayoutType::Tiling);
    assert!(cmds.is_empty());
    assert_eq!(ws.layout, LayoutType::Tiling);
    assert_eq!(ids(&ws.windows), vec![12, 11]);
}

#[test]
fn floating_add_commands() {
    let screen = screen_150();
    let mut ws = Workspace::default();
    let cmds = ws.window_add(&screen, win(3));
    assert_eq!(
        cmds,
        vec![
            Command::MapWindow(3),
            Command::EnableTracking(3),
            Command::StackAbove(3),
            Command::SetInputFocus(3),
        ]
    );
    assert_eq!(ids(&ws.windows), vec![3]);
}

#[test]
fn tiling_add_spawns_inset() {
    let screen = screen_150();
    let mut ws = Workspace::default();
    let _ = ws.set_layout(&screen, LayoutType::Tiling);
    let cmds = ws.window_add(&screen, win(3));
    assert_eq!(cmds[0], Command::MoveWindow(3, 16, 9));
    assert_eq!(cmds[1], Command::MapWindow(3));
    assert_eq!(cmds[2], Command::SetInputFocus(3));
    let w = ws.windows.get(0).unwrap();
    assert_eq!((w.x, w.y), (16, 9));
}

#[test]
fn deleting_focused_promotes_next() {
    let screen = screen_150();
    let mut ws = Workspace::default();
    ws.windows.add(win(1));
    ws.windows.add(win(2));
    let (removed, cmds) = ws.window_del_focused(&screen);
    assert_eq!(removed.unwrap().id, 2);
    assert_eq!(ids(&ws.windows), vec![1]);
    // untrack + unmap the removed window, then promote the new front
    assert_eq!(
        cmds,
        vec![
            Command::DisableTracking(2),
            Command::UnmapWindow(2),
            Command::DisableTracking(1),
            Command::StackAbove(1),
            Command::SetInputFocus(1),
            Command::EnableTracking(1),
        ]
    );
}

#[test]
fn deleting_last_window_skips_promotion() {
    let screen = screen_150();
    let mut ws = Workspace::default();
    ws.windows.add(win(1));
    let (removed, cmds) = ws.window_del_focused(&screen);
    assert_eq!(removed.unwrap().id, 1);
    assert!(ws.windows.is_empty());
    assert_eq!(cmds, vec![Command::DisableTracking(1), Command::UnmapWindow(1)]);
}

#[test]
fn close_focused_prefers_graceful() {
    let delete_atom = 99;
    let mut ws = Workspace::default();
    assert!(ws.window_close_focused(delete_atom).is_empty());
    let mut polite = win(1);
    polite.set_supported_protocols(&vec![99]);
    ws.windows.add(polite);
    assert_eq!(ws.window_close_focused(delete_atom), vec![Command::SendCloseMessage(1)]);
    ws.windows.add(win(2));
    assert_eq!(ws.window_close_focused(delete_atom), vec![Command::DestroyWindow(2)]);
}

#[test]
fn activate_maps_in_reverse_and_focuses_front() {
    let screen = screen_150();
    let mut ws = Workspace::default();
    ws.windows.add(win(1));
    ws.windows.add(win(2));
    let cmds = ws.activate(&screen);
    assert!(ws.active);
    assert_eq!(
        cmds,
        vec![Command::MapWindow(1), Command::MapWindow(2), Command::SetInputFocus(2)]
    );
}

#[test]
fn deactivate_unmaps_with_tracking_toggled() {
    let screen = screen_150();
    let mut ws = Workspace::default();
    ws.windows.add(win(1));
    let _ = ws.activate(&screen);
    let cmds = ws.deactivate();
    assert!(!ws.active);
    assert_eq!(
        cmds,
        vec![
            Command::DisableTracking(1),
            Command::UnmapWindow(1),
            Command::EnableTracking(1),
        ]
    );
}

#[test]
fn desktop_starts_with_single_active_workspace() {
    // On the initial state exactly one workspace, number 0, is active.
    let d = Desktop::default();
    assert_eq!(d.current_index(), 0);
    for i in 0..9 {
        assert_eq!(d.get(i).active, i == 0);
    }
}

#[test]
fn goto_switches_the_active_workspace() {
    let screen = screen_150();
    let mut d = Desktop::default();
    let _ = d.goto(&screen, 2);
    assert_eq!(d.current_index(), 2);
    for i in 0..9 {
        assert_eq!(d.get(i).active, i == 2);
    }
}

#[test]
fn index_next_prev_wrap() {
    let screen = screen_150();
    let mut d = Desktop::default();
    assert_eq!(d.index_prev(), 8);
    assert_eq!(d.index_next(), 1);
    let _ = d.goto(&screen, 8);
    assert_eq!(d.index_next(), 0);
    assert_eq!(d.index_prev(), 7);
}

#[test]
fn reverse_lookup_finds_one_location() {
    // A handle is found in exactly the workspace that holds it.
    let mut d = Desktop::default();
    d.get_mut(0).windows.add(win(10));
    d.get_mut(3).windows.add(win(30));
    d.get_mut(3).windows.add(win(31));
    assert_eq!(d.contains(10), Some((0, 0)));
    assert_eq!(d.contains(30), Some((3, 1)));
    assert_eq!(d.contains(31), Some((3, 0)));
    assert_eq!(d.contains(99), None);
}

#[test]
fn cursor_glyph_pairs() {
    assert_eq!(CoreCursor::LeftPtr.value(), 68);
    assert_eq!(CoreCursor::LeftPtr.mask(), 69);
}
