//! Tests of the interaction dispatcher: the gesture state machine, event
//! handling, and key-bound actions.

use winmgr::commands::{Command, ConfigureValues};
use winmgr::events::{Event, KeyEvent, MouseButton};
use winmgr::screen::Screen;
use winmgr::wm::{Action, InternedAtoms, Keybind, MouseMode, NewWindowInfo, WM};

const NORMAL: u32 = 301;
const DIALOG: u32 = 302;
const DELETE: u32 = 201;

fn atoms() -> InternedAtoms {
    InternedAtoms {
        supported: 100,
        wm_delete_window: DELETE,
        wm_protocols: 202,
        wm_window_type_normal: NORMAL,
        wm_window_type_dialog: DIALOG,
        wm_window_type_toolbar: 303,
        wm_window_type_utility: 304,
        wm_window_type_splash: 305,
    }
}

fn make_wm(keybinds: Vec<Keybind>) -> WM {
    let mut screen = Screen::new(0, 1);
    screen.set(0, 0, 150, 150);
    WM::new(screen, keybinds, atoms())
}

fn no_info() -> Option<NewWindowInfo> {
    None
}

fn info(x: i32, y: i32, w: i32, h: i32) -> Option<NewWindowInfo> {
    Some(NewWindowInfo {
        window_type: Some(vec![NORMAL]),
        geometry: Some((x, y, w, h)),
        protocols: Some(vec![DELETE]),
    })
}

fn map(wm: &mut WM, id: u32, x: i32, y: i32, w: i32, h: i32) {
    let _ = wm.handle_event(Event::MapRequest(id), info(x, y, w, h));
}

#[test]
fn map_request_adopts_new_window() {
    let mut wm = make_wm(vec![]);
    let cmds = wm.handle_event(Event::MapRequest(7), info(5, 6, 100, 100));
    assert_eq!(
        cmds,
        vec![
            Command::MapWindow(7),
            Command::EnableTracking(7),
            Command::StackAbove(7),
            Command::SetInputFocus(7),
        ]
    );
    assert_eq!(wm.desktop.contains(7), Some((0, 0)));
    let w = wm.desktop.current().windows.get(0).unwrap();
    assert_eq!((w.x, w.y, w.width, w.height), (5, 6, 100, 100));
    assert!(w.supports_protocol(DELETE));
}

#[test]
fn map_request_without_queries_adopts_blank_record() {
    let mut wm = make_wm(vec![]);
    let _ = wm.handle_event(Event::MapRequest(7), no_info());
    let w = wm.desktop.current().windows.get(0).unwrap();
    assert_eq!((w.x, w.y, w.width, w.height), (0, 0, 0, 0));
}

#[test]
fn map_request_ignores_unmanaged_types() {
    let mut wm = make_wm(vec![]);
    let i = Some(NewWindowInfo {
        window_type: Some(vec![999]),
        geometry: None,
        protocols: None,
    });
    let cmds = wm.handle_event(Event::MapRequest(7), i);
    assert_eq!(cmds, vec![Command::MapWindow(7)]);
    assert_eq!(wm.desktop.contains(7), None);
}

#[test]
fn map_request_refocuses_only_on_the_visible_workspace() {
    let mut wm = make_wm(vec![]);
    map(&mut wm, 7, 0, 0, 50, 50);
    map(&mut wm, 8, 0, 0, 50, 50);
    // 7 is tracked on the visible workspace but not focused: re-focus it
    let cmds = wm.handle_event(Event::MapRequest(7), no_info());
    assert!(!cmds.is_empty());
    assert!(wm.desktop.current().windows.is_focused(7));
    // move 7 to another workspace: a map request for it does nothing
    let _ = wm.send_window_from_workspace_to(2);
    let cmds = wm.handle_event(Event::MapRequest(7), no_info());
    assert!(cmds.is_empty());
}

#[test]
fn unmap_removes_the_window_wherever_it_is() {
    let mut wm = make_wm(vec![]);
    map(&mut wm, 7, 0, 0, 50, 50);
    let _ = wm.send_window_from_workspace_to(4);
    assert_eq!(wm.desktop.contains(7), Some((4, 0)));
    let _ = wm.handle_event(Event::UnmapNotify(7), no_info());
    assert_eq!(wm.desktop.contains(7), None);
}

#[test]
fn unmap_of_unknown_handle_is_a_noop() {
    let mut wm = make_wm(vec![]);
    map(&mut wm, 7, 0, 0, 50, 50);
    let cmds = wm.handle_event(Event::DestroyNotify(999), no_info());
    assert!(cmds.is_empty());
    assert_eq!(wm.desktop.contains(7), Some((0, 0)));
}

#[test]
fn enter_notify_focuses_tracked_windows_only() {
    let mut wm = make_wm(vec![]);
    map(&mut wm, 7, 0, 0, 50, 50);
    let cmds = wm.handle_event(Event::EnterNotify(7), no_info());
    assert_eq!(cmds, vec![Command::SetInputFocus(7)]);
    let cmds = wm.handle_event(Event::EnterNotify(8), no_info());
    assert!(cmds.is_empty());
}

#[test]
fn gesture_state_machine() {
    // A press over a window enters exactly one of Moving or Resizing,
    // picked by the button; any release returns to Idle; motion while
    // Idle changes no geometry.
    let mut wm = make_wm(vec![]);
    map(&mut wm, 7, 0, 0, 100, 100);
    assert_eq!(wm.mouse_mode, MouseMode::Idle);

    let _ = wm.handle_event(Event::ButtonPress(((10, 10), MouseButton::LeftClick, 7)), no_info());
    assert_eq!(wm.mouse_mode, MouseMode::Moving);
    assert_eq!(wm.selected, Some(7));

    // a release of the other button still ends the gesture
    let cmds = wm.handle_event(Event::ButtonRelease(MouseButton::RightClick), no_info());
    assert_eq!(wm.mouse_mode, MouseMode::Idle);
    assert_eq!(wm.selected, None);
    assert_eq!(cmds, vec![Command::UngrabPointer]);

    let _ = wm.handle_event(Event::ButtonPress(((10, 10), MouseButton::RightClick, 7)), no_info());
    assert_eq!(wm.mouse_mode, MouseMode::Resizing);
    let _ = wm.handle_event(Event::ButtonRelease(MouseButton::RightClick), no_info());
    assert_eq!(wm.mouse_mode, MouseMode::Idle);

    // motion while Idle: baseline moves, geometry does not, nothing issued
    let cmds = wm.handle_event(Event::MotionNotify((42, 43)), no_info());
    assert!(cmds.is_empty());
    assert_eq!((wm.last_mouse_x, wm.last_mouse_y), (42, 43));
    let w = wm.desktop.current().windows.get(0).unwrap();
    assert_eq!((w.x, w.y, w.width, w.height), (0, 0, 100, 100));
}

#[test]
fn button_press_on_bare_root_is_ignored() {
    let mut wm = make_wm(vec![]);
    let cmds = wm.handle_event(Event::ButtonPress(((10, 10), MouseButton::LeftClick, 0)), no_info());
    assert!(cmds.is_empty());
    assert_eq!(wm.mouse_mode, MouseMode::Idle);
    assert_eq!(wm.selected, None);
}

#[test]
fn drag_moves_the_selected_window() {
    let mut wm = make_wm(vec![]);
    map(&mut wm, 7, 0, 0, 100, 100);
    let _ = wm.handle_event(Event::ButtonPress(((50, 50), MouseButton::LeftClick, 7)), no_info());
    let cmds = wm.handle_event(Event::MotionNotify((60, 70)), no_info());
    assert_eq!(cmds, vec![Command::MoveWindow(7, 10, 20)]);
    let w = wm.desktop.current().windows.get(0).unwrap();
    assert_eq!((w.x, w.y), (10, 20));
    // deltas chain from the advanced baseline
    let cmds = wm.handle_event(Event::MotionNotify((61, 70)), no_info());
    assert_eq!(cmds, vec![Command::MoveWindow(7, 11, 20)]);
}

#[test]
fn resize_gesture_clamps_to_screen() {
    // The resize clamp through the dispatcher: width ends at the
    // screen edge, never negative, never past it.
    let mut wm = make_wm(vec![]);
    map(&mut wm, 7, 0, 0, 100, 100);
    let _ = wm.handle_event(Event::ButtonPress(((0, 0), MouseButton::RightClick, 7)), no_info());
    let cmds = wm.handle_event(Event::MotionNotify((200, 0)), no_info());
    assert_eq!(cmds, vec![Command::ResizeWindow(7, 150, 100)]);
    let w = wm.desktop.current().windows.get(0).unwrap();
    assert_eq!(w.width, 150);
    assert!(w.width >= 0);
}

#[test]
fn workspace_transfer() {
    // Sending the focused window of workspace A to workspace B removes
    // it from A (promoting A's next window) and puts it at the front
    // of B.
    let mut wm = make_wm(vec![]);
    map(&mut wm, 1, 0, 0, 50, 50);
    map(&mut wm, 2, 0, 0, 50, 50);
    assert!(wm.desktop.current().windows.is_focused(2));
    let _ = wm.send_window_from_workspace_to(3);
    assert_eq!(wm.desktop.contains(2), Some((3, 0)));
    assert_eq!(wm.desktop.contains(1), Some((0, 0)));
    assert!(wm.desktop.current().windows.is_focused(1));
    // sending again stacks at the front of B
    let _ = wm.send_window_from_workspace_to(3);
    assert_eq!(wm.desktop.contains(1), Some((3, 0)));
    assert_eq!(wm.desktop.contains(2), Some((3, 1)));
    assert!(wm.desktop.current().windows.is_empty());
}

#[test]
fn transfer_to_same_workspace_keeps_the_window() {
    let mut wm = make_wm(vec![]);
    map(&mut wm, 1, 0, 0, 50, 50);
    let _ = wm.send_window_from_workspace_to(0);
    assert_eq!(wm.desktop.contains(1), Some((0, 0)));
}

#[test]
fn configure_request_updates_named_fields_and_echoes() {
    let mut wm = make_wm(vec![]);
    map(&mut wm, 7, 5, 6, 100, 100);
    let values = ConfigureValues { x: Some(40), y: None, width: Some(120), height: None };
    let cmds = wm.handle_event(Event::ConfigureRequest(values, 7), no_info());
    assert_eq!(cmds, vec![Command::ConfigureWindow(7, values)]);
    let w = wm.desktop.current().windows.get(0).unwrap();
    assert_eq!((w.x, w.y, w.width, w.height), (40, 6, 120, 100));
}

#[test]
fn untracked_configure_request_is_echoed_without_bookkeeping() {
    let mut wm = make_wm(vec![]);
    let values = ConfigureValues { x: Some(40), y: None, width: None, height: None };
    let cmds = wm.handle_event(Event::ConfigureRequest(values, 7), no_info());
    assert_eq!(cmds, vec![Command::ConfigureWindow(7, values)]);
    assert_eq!(wm.desktop.contains(7), None);
}

#[test]
fn root_configure_notify_refreshes_screen_and_redraws() {
    let mut wm = make_wm(vec![]);
    map(&mut wm, 7, 0, 0, 50, 50);
    let cmds = wm.on_configure_notify(1, 0, 0, 800, 600);
    assert_eq!((wm.screen.width, wm.screen.height), (800, 600));
    // the visible workspace is redrawn: unmap (tracking toggled), map, focus
    assert_eq!(
        cmds,
        vec![
            Command::DisableTracking(7),
            Command::UnmapWindow(7),
            Command::EnableTracking(7),
            Command::MapWindow(7),
            Command::SetInputFocus(7),
        ]
    );
    // a configure notify for any other window is ignored
    let cmds = wm.on_configure_notify(2, 0, 0, 10, 10);
    assert!(cmds.is_empty());
    assert_eq!((wm.screen.width, wm.screen.height), (800, 600));
}

#[test]
fn key_press_runs_the_first_matching_binding() {
    let binds = vec![
        Keybind { mask: 8, keysym: 0x20, action: Action::RunCommand(3) },
        Keybind { mask: 8, keysym: 0x21, action: Action::Quit },
    ];
    let mut wm = make_wm(binds);
    let cmds = wm.handle_event(
        Event::KeyPress((KeyEvent { mask: 8, key: 0x20 }, 0)),
        no_info(),
    );
    assert_eq!(cmds, vec![Command::Spawn(3)]);
    let cmds = wm.handle_event(
        Event::KeyPress((KeyEvent { mask: 8, key: 0x21 }, 0)),
        no_info(),
    );
    assert_eq!(cmds, vec![Command::Exit]);
}

#[test]
fn key_press_without_binding_does_nothing() {
    let mut wm = make_wm(vec![Keybind { mask: 8, keysym: 0x20, action: Action::Quit }]);
    let cmds = wm.handle_event(
        Event::KeyPress((KeyEvent { mask: 9, key: 0x20 }, 0)),
        no_info(),
    );
    assert!(cmds.is_empty());
}

#[test]
fn key_press_refocuses_the_originating_window_first() {
    let binds = vec![Keybind { mask: 8, keysym: 0x20, action: Action::RunCommand(0) }];
    let mut wm = make_wm(binds);
    map(&mut wm, 1, 0, 0, 50, 50);
    map(&mut wm, 2, 0, 0, 50, 50);
    let _ = wm.handle_event(Event::KeyPress((KeyEvent { mask: 8, key: 0x20 }, 1)), no_info());
    assert!(wm.desktop.current().windows.is_focused(1));
}

#[test]
fn goto_bindings_switch_workspaces() {
    let binds = vec![
        Keybind { mask: 8, keysym: 1, action: Action::GotoWorkspace(2) },
        Keybind { mask: 8, keysym: 2, action: Action::GotoNext },
        Keybind { mask: 8, keysym: 3, action: Action::GotoPrev },
    ];
    let mut wm = make_wm(binds);
    let _ = wm.handle_event(Event::KeyPress((KeyEvent { mask: 8, key: 1 }, 0)), no_info());
    assert_eq!(wm.desktop.current_index(), 2);
    let _ = wm.handle_event(Event::KeyPress((KeyEvent { mask: 8, key: 2 }, 0)), no_info());
    assert_eq!(wm.desktop.current_index(), 3);
    let _ = wm.handle_event(Event::KeyPress((KeyEvent { mask: 8, key: 3 }, 0)), no_info());
    assert_eq!(wm.desktop.current_index(), 2);
}

#[test]
fn goto_hides_one_workspace_and_shows_the_other() {
    let mut wm = make_wm(vec![]);
    map(&mut wm, 7, 0, 0, 50, 50);
    let cmds = wm.run_action(Action::GotoWorkspace(1));
    // workspace 0's window is unmapped; workspace 1 is empty
    assert_eq!(
        cmds,
        vec![
            Command::DisableTracking(7),
            Command::UnmapWindow(7),
            Command::EnableTracking(7),
        ]
    );
    assert_eq!(wm.desktop.current_index(), 1);
    let cmds = wm.run_action(Action::GotoWorkspace(0));
    assert_eq!(cmds, vec![Command::MapWindow(7), Command::SetInputFocus(7)]);
}

#[test]
fn close_focused_uses_the_advertised_protocol() {
    let mut wm = make_wm(vec![]);
    map(&mut wm, 7, 0, 0, 50, 50);  // advertises the delete protocol
    let cmds = wm.run_action(Action::CloseFocused);
    assert_eq!(cmds, vec![Command::SendCloseMessage(7)]);
    // a window without the protocol is destroyed outright
    let blunt = Some(NewWindowInfo {
        window_type: Some(vec![NORMAL]),
        geometry: None,
        protocols: None,
    });
    let _ = wm.handle_event(Event::MapRequest(8), blunt);
    let cmds = wm.run_action(Action::CloseFocused);
    assert_eq!(cmds, vec![Command::DestroyWindow(8)]);
}

#[test]
fn kill_exits() {
    let wm = make_wm(vec![]);
    assert_eq!(wm.kill(), vec![Command::Exit]);
}
