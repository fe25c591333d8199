//! Core cursor glyph identifiers.
//!
//! The display server's standard cursor font stores each cursor as a pair
//! of glyphs: the shape at an even index and its mask right after it.

use vstd::prelude::*;

verus! {

/// Slot in the manager's table of loaded cursors.
pub enum CursorIndex {
    LeftPointer,
}

/// Glyph index of the left-pointer shape in the standard cursor font.
pub const LEFT_PTR_GLYPH: u16 = 34;

/// A cursor of the standard cursor font known to the manager.
#[derive(Copy, Clone)]
pub enum CoreCursor {
    LeftPtr,
}

/// The font glyph a core cursor is drawn from.
pub open spec fn glyph_of(c: CoreCursor) -> u16 {
    match c {
        CoreCursor::LeftPtr => LEFT_PTR_GLYPH,
    }
}

impl CoreCursor {
    /// Index of the cursor's shape glyph: the font stores shapes at even
    /// positions, two slots per cursor.
    pub fn value(self) -> (v: u16)
        ensures
            v == 2 * glyph_of(self),
    {
        match self {
            CoreCursor::LeftPtr => 2 * LEFT_PTR_GLYPH,
        }
    }

    /// Index of the cursor's mask glyph, directly after its shape.
    pub fn mask(self) -> (v: u16)
        ensures
            v == 2 * glyph_of(self) + 1,
    {
        let v = self.value();
        v + 1
    }
}

} // verus!
