//! The visible geometry of the managed display.

use vstd::prelude::*;

verus! {

/// Position and size of the root window the manager draws into, plus the
/// screen's index and root window handle. The geometry is refreshed
/// whenever the display server reports a root geometry change.
pub struct Screen {
    pub x: i32,
    pub y: i32,
    pub width: i32,
    pub height: i32,
    pub idx: i32,
    pub root_id: u32,
}

impl Screen {
    /// The protocol carries positions as 16-bit signed and sizes as
    /// 16-bit unsigned values, so a screen read from the wire always
    /// satisfies these bounds.
    pub open spec fn wf(&self) -> bool {
        &&& -32768 <= self.x <= 32767
        &&& -32768 <= self.y <= 32767
        &&& 0 <= self.width <= 65535
        &&& 0 <= self.height <= 65535
    }

    /// Handle of the root window of this screen.
    pub open spec fn spec_id(&self) -> u32 {
        self.root_id
    }

    pub fn new(screen_idx: i32, root_id: u32) -> (s: Self)
        ensures
            s.x == 0 && s.y == 0 && s.width == 0 && s.height == 0,
            s.idx == screen_idx,
            s.spec_id() == root_id,
            s.wf(),
    {
        Self { x: 0, y: 0, width: 0, height: 0, idx: screen_idx, root_id }
    }

    pub fn id(&self) -> (r: u32)
        ensures
            r == self.spec_id(),
    {
        self.root_id
    }

    /// Adopt freshly reported root geometry.
    pub fn set(&mut self, x: i32, y: i32, width: i32, height: i32)
        requires
            -32768 <= x <= 32767,
            -32768 <= y <= 32767,
            0 <= width <= 65535,
            0 <= height <= 65535,
        ensures
            final(self).x == x && final(self).y == y,
            final(self).width == width && final(self).height == height,
            final(self).idx == old(self).idx,
            final(self).spec_id() == old(self).spec_id(),
            final(self).wf(),
    {
        self.x = x;
        self.y = y;
        self.width = width;
        self.height = height;
    }
}

} // verus!
