//! Compile-time policy knobs shared by the model.

use vstd::prelude::*;

verus! {

/// Number of virtual workspaces the desktop is created with.
pub const WORKSPACES: usize = 9;

/// Smallest width a pointer-driven resize may leave a window with.
pub const WIN_WIDTH_MIN: i32 = 10;

/// Smallest height a pointer-driven resize may leave a window with.
pub const WIN_HEIGHT_MIN: i32 = 10;

/// How many pixels of a dragged window must stay on screen, so it can
/// still be picked up again.
pub const MIN_SCREEN_ONSCREEN: i32 = 10;

/// Largest width or height the model allows a window: the display protocol
/// carries sizes in 16-bit fields, so nothing wider is representable.
pub const WIN_SIZE_MAX: i32 = 65535;

/// Bound on modeled window coordinates. The drag and resize clamps keep
/// every coordinate well inside this range (screen position is a 16-bit
/// value and window sizes stay below `WIN_SIZE_MAX`).
pub const COORD_LIMIT: i32 = 131072;

/// Horizontal inset from the screen origin where the tiling layout spawns
/// a newly added window, keeping it clear of any reserved bar region.
pub const SPAWN_INSET_X: i32 = 16;

/// Vertical inset from the screen origin where the tiling layout spawns a
/// newly added window.
pub const SPAWN_INSET_Y: i32 = 9;

} // verus!
