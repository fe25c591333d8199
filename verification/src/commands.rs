//! Outbound display-server requests.
//!
//! Every mutating operation of the model returns the commands it wants
//! issued, in order. The unverified shell encodes each command as the
//! corresponding protocol request; the model itself never touches the
//! connection.

use vstd::prelude::*;

verus! {

/// A subset of a window's geometry, as carried by a configure request:
/// each field is present exactly when the client named it in the
/// request's value mask.
#[derive(Copy, Clone, PartialEq, Eq, Debug)]
pub struct ConfigureValues {
    pub x: Option<i32>,
    pub y: Option<i32>,
    pub width: Option<i32>,
    pub height: Option<i32>,
}

/// One fire-and-forget request to the display server.
#[derive(Copy, Clone, PartialEq, Eq, Debug)]
pub enum Command {
    /// Make the window visible.
    MapWindow(u32),
    /// Hide the window.
    UnmapWindow(u32),
    /// Set the window's position.
    MoveWindow(u32, i32, i32),
    /// Set the window's size.
    ResizeWindow(u32, i32, i32),
    /// Echo a client's configure request with exactly the fields it asked
    /// to change.
    ConfigureWindow(u32, ConfigureValues),
    /// Raise the window to the top of the stacking order.
    StackAbove(u32),
    /// Give the window keyboard input focus.
    SetInputFocus(u32),
    /// Subscribe to the window's enter and structure notifications.
    EnableTracking(u32),
    /// Drop all event subscriptions on the window.
    DisableTracking(u32),
    /// Grab pointer motion and release events for the ongoing gesture.
    GrabPointer,
    /// Release the pointer grab.
    UngrabPointer,
    /// Ask the window to close itself through its advertised close
    /// protocol.
    SendCloseMessage(u32),
    /// Forcibly destroy the window.
    DestroyWindow(u32),
    /// Launch the external user command stored at this index of the
    /// configured command table.
    Spawn(usize),
    /// Terminate the manager process.
    Exit,
}

} // verus!
