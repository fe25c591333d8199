//! Domain events.
//!
//! The protocol translator in the unverified shell decodes each raw
//! display-server notification into one of these closed set of events
//! before the dispatcher sees it. Coordinates are 16-bit values on the
//! wire, so every decoded coordinate fits `i16` and every size fits
//! `u16`; the dispatcher's contracts rely on those ranges.

use vstd::prelude::*;

verus! {

/// A decoded key press: the modifier mask held down and the key symbol
/// the pressed code resolved to.
#[derive(Copy, Clone, PartialEq, Eq, Debug)]
pub struct KeyEvent {
    pub mask: u32,
    pub key: u32,
}

/// The two pointer buttons the manager grabs.
#[derive(Copy, Clone, PartialEq, Eq, Debug)]
pub enum MouseButton {
    LeftClick,
    RightClick,
}

/// One normalized display-server notification.
#[derive(Copy, Clone, PartialEq, Eq, Debug)]
pub enum Event {
    /// A window asked to become visible.
    MapRequest(u32),
    /// A window was hidden.
    UnmapNotify(u32),
    /// A window was destroyed.
    DestroyNotify(u32),
    /// The pointer entered a window.
    EnterNotify(u32),
    /// A client asked for new geometry; the values carry exactly the
    /// fields named in the request's mask.
    ConfigureRequest(crate::commands::ConfigureValues, u32),
    /// The pointer moved to these root coordinates.
    MotionNotify((i32, i32)),
    /// A grabbed key was pressed while the pointer was over the given
    /// child window (zero when over the bare root).
    KeyPress((KeyEvent, u32)),
    /// A grabbed button was pressed at these root coordinates over the
    /// given child window (zero when over the bare root).
    ButtonPress(((i32, i32), MouseButton, u32)),
    /// A grabbed button was released.
    ButtonRelease(MouseButton),
}

} // verus!
