//! Layout strategies.
//!
//! A workspace is bound to exactly one strategy at a time and can swap it
//! live. Each strategy is a capability set over the workspace's window
//! collection; the two implementations share the focus-ranked collection
//! and differ in how they place windows and which requests they issue.

use vstd::prelude::*;

use crate::commands::Command;
use crate::windows::WinView;

pub mod floating;
pub mod tiling;

verus! {

/// Which strategy a workspace is bound to.
#[derive(Copy, Clone, PartialEq, Eq, Structural, Debug)]
pub enum LayoutType {
    Floating,
    Tiling,
}

/// Map every window back-to-front, so that the front (focused) window
/// ends on top of the stacking order.
pub open spec fn map_rev_cmds(s: Seq<WinView>) -> Seq<Command>
    decreases s.len(),
{
    if s.len() == 0 {
        Seq::empty()
    } else {
        map_rev_cmds(s.drop_first()) + seq![Command::MapWindow(s[0].id)]
    }
}

/// The focus promotion used by the floating strategy: tracking is
/// disabled around the raise and focus so the manager's own requests do
/// not come back as notifications.
pub open spec fn focus_cmds(id: u32) -> Seq<Command> {
    seq![
        Command::DisableTracking(id),
        Command::StackAbove(id),
        Command::SetInputFocus(id),
        Command::EnableTracking(id),
    ]
}

/// The focus promotion used by the tiling strategy: raise, then focus.
pub open spec fn ontop_focus_cmds(id: u32) -> Seq<Command> {
    seq![Command::StackAbove(id), Command::SetInputFocus(id)]
}

} // verus!
