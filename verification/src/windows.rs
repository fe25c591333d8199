//! Window records and the focus-ordered window collection.
//!
//! A collection keeps the invariant that index 0 is the focused window
//! (or the collection is empty): additions prepend, and promoting a
//! window rotates it to the front without touching its contents.

use vstd::prelude::*;

use crate::commands::Command;
use crate::config::{COORD_LIMIT, MIN_SCREEN_ONSCREEN, WIN_HEIGHT_MIN, WIN_SIZE_MAX, WIN_WIDTH_MIN};
use crate::screen::Screen;

verus! {

/// Clamp `v` into `[min, max]`; when the bounds cross, the lower bound
/// wins (checked first).
pub open spec fn clamped(v: int, min: int, max: int) -> int {
    if v < min {
        min
    } else if v > max {
        max
    } else {
        v
    }
}

/// Clamp a value into the inclusive range `[min, max]`.
pub fn ensure_in_bounds(val: &mut i32, min: i32, max: i32)
    ensures
        *final(val) as int == clamped(*old(val) as int, min as int, max as int),
{
    if *val < min {
        *val = min;
    } else if *val > max {
        *val = max;
    }
}

/// Mathematical image of one window record.
pub struct WinView {
    pub id: u32,
    pub x: int,
    pub y: int,
    pub width: int,
    pub height: int,
    pub protocols: Seq<u32>,
}

/// Geometry bounds every tracked window satisfies: sizes fit the
/// protocol's 16-bit fields and positions stay within the range the drag
/// and resize clamps can produce.
pub open spec fn geom_wf(w: WinView) -> bool {
    &&& -COORD_LIMIT <= w.x <= COORD_LIMIT
    &&& -COORD_LIMIT <= w.y <= COORD_LIMIT
    &&& 0 <= w.width <= WIN_SIZE_MAX
    &&& 0 <= w.height <= WIN_SIZE_MAX
}

/// Geometry and identity of one managed window, plus the close protocols
/// it advertised when it was adopted.
pub struct Window {
    pub id: u32,
    pub x: i32,
    pub y: i32,
    pub width: i32,
    pub height: i32,
    pub protocols: Vec<u32>,
}

impl View for Window {
    type V = WinView;

    open spec fn view(&self) -> WinView {
        WinView {
            id: self.id,
            x: self.x as int,
            y: self.y as int,
            width: self.width as int,
            height: self.height as int,
            protocols: self.protocols@,
        }
    }
}

impl PartialEq for Window {
    /// Two records denote the same window exactly when their handles match.
    fn eq(&self, other: &Self) -> (r: bool) {
        self.id == other.id
    }
}

impl vstd::std_specs::cmp::PartialEqSpecImpl for Window {
    open spec fn obeys_eq_spec() -> bool {
        true
    }

    open spec fn eq_spec(&self, other: &Window) -> bool {
        self.id == other.id
    }
}

/// Upper clamp bound for a resize: the space left on screen past the
/// window's origin, capped at what the protocol can carry and floored at
/// the configured minimum so a resize can never go below it.
pub open spec fn size_cap(avail: int, size_min: int) -> int {
    let capped = if avail > WIN_SIZE_MAX {
        WIN_SIZE_MAX as int
    } else {
        avail
    };
    if capped < size_min {
        size_min
    } else {
        capped
    }
}

impl Window {
    /// A fresh record for a newly reported window: geometry unknown (all
    /// zero until queried), no protocols learned yet.
    pub fn from(window_id: u32) -> (w: Self)
        ensures
            w@ == (WinView {
                id: window_id,
                x: 0,
                y: 0,
                width: 0,
                height: 0,
                protocols: Seq::<u32>::empty(),
            }),
    {
        let w = Self { id: window_id, x: 0, y: 0, width: 0, height: 0, protocols: Vec::new() };
        proof {
            assert(w@.protocols =~= Seq::<u32>::empty());
        }
        w
    }

    /// Grow or shrink the window by a pointer delta, clamped to the
    /// configured minimum size and to the screen space remaining past the
    /// window's origin (never negative, never past the protocol's 16-bit
    /// ceiling). Returns the resize command to issue.
    pub fn do_resize(&mut self, screen: &Screen, dx: i32, dy: i32) -> (c: Command)
        requires
            screen.wf(),
            geom_wf(old(self)@),
            -COORD_LIMIT <= dx <= COORD_LIMIT,
            -COORD_LIMIT <= dy <= COORD_LIMIT,
        ensures
            final(self).id == old(self).id,
            final(self).x == old(self).x,
            final(self).y == old(self).y,
            final(self).protocols@ == old(self).protocols@,
            final(self).width as int == clamped(
                old(self).width + dx,
                WIN_WIDTH_MIN as int,
                size_cap(screen.x + screen.width - old(self).x, WIN_WIDTH_MIN as int),
            ),
            final(self).height as int == clamped(
                old(self).height + dy,
                WIN_HEIGHT_MIN as int,
                size_cap(screen.y + screen.height - old(self).y, WIN_HEIGHT_MIN as int),
            ),
            geom_wf(final(self)@),
            c == Command::ResizeWindow(old(self).id, final(self).width, final(self).height),
    {
        let mut width = self.width + dx;
        let mut height = self.height + dy;

        let avail_w = screen.x + screen.width - self.x;
        let mut max_w = if avail_w > WIN_SIZE_MAX { WIN_SIZE_MAX } else { avail_w };
        if max_w < WIN_WIDTH_MIN {
            max_w = WIN_WIDTH_MIN;
        }
        let avail_h = screen.y + screen.height - self.y;
        let mut max_h = if avail_h > WIN_SIZE_MAX { WIN_SIZE_MAX } else { avail_h };
        if max_h < WIN_HEIGHT_MIN {
            max_h = WIN_HEIGHT_MIN;
        }

        ensure_in_bounds(&mut width, WIN_WIDTH_MIN, max_w);
        ensure_in_bounds(&mut height, WIN_HEIGHT_MIN, max_h);

        self.width = width;
        self.height = height;
        Command::ResizeWindow(self.id, width, height)
    }

    /// Drag the window by a pointer delta, clamped so that at least
    /// `MIN_SCREEN_ONSCREEN` pixels of it stay on screen in each axis.
    /// Returns the move command to issue.
    pub fn do_move(&mut self, screen: &Screen, dx: i32, dy: i32) -> (c: Command)
        requires
            screen.wf(),
            geom_wf(old(self)@),
            -COORD_LIMIT <= dx <= COORD_LIMIT,
            -COORD_LIMIT <= dy <= COORD_LIMIT,
        ensures
            final(self).id == old(self).id,
            final(self).width == old(self).width,
            final(self).height == old(self).height,
            final(self).protocols@ == old(self).protocols@,
            final(self).x as int == clamped(
                old(self).x + dx,
                screen.x - old(self).width + MIN_SCREEN_ONSCREEN,
                screen.x + screen.width - MIN_SCREEN_ONSCREEN,
            ),
            final(self).y as int == clamped(
                old(self).y + dy,
                screen.y - old(self).height + MIN_SCREEN_ONSCREEN,
                screen.y + screen.height - MIN_SCREEN_ONSCREEN,
            ),
            geom_wf(final(self)@),
            c == Command::MoveWindow(old(self).id, final(self).x, final(self).y),
    {
        let mut x = self.x + dx;
        let mut y = self.y + dy;

        ensure_in_bounds(
            &mut x,
            screen.x - self.width + MIN_SCREEN_ONSCREEN,
            screen.x + screen.width - MIN_SCREEN_ONSCREEN,
        );
        ensure_in_bounds(
            &mut y,
            screen.y - self.height + MIN_SCREEN_ONSCREEN,
            screen.y + screen.height - MIN_SCREEN_ONSCREEN,
        );

        self.x = x;
        self.y = y;
        Command::MoveWindow(self.id, x, y)
    }

    /// Record the close protocols the window advertised. Each atom is
    /// added once; the set never forgets an atom it already holds.
    pub fn set_supported_protocols(&mut self, protocols: &Vec<u32>)
        ensures
            final(self).id == old(self).id,
            final(self).x == old(self).x,
            final(self).y == old(self).y,
            final(self).width == old(self).width,
            final(self).height == old(self).height,
            final(self).protocols@ == merge_protocols(old(self).protocols@, protocols@),
            forall|a: u32|
                #![trigger final(self).protocols@.contains(a)]
                final(self).protocols@.contains(a) <==> (old(self).protocols@.contains(a)
                    || protocols@.contains(a)),
    {
        let ghost orig = self.protocols@;
        let mut i: usize = 0;
        while i < protocols.len()
            invariant
                i <= protocols@.len(),
                self.id == old(self).id,
                self.x == old(self).x,
                self.y == old(self).y,
                self.width == old(self).width,
                self.height == old(self).height,
                orig == old(self).protocols@,
                self.protocols@ == merge_protocols(orig, protocols@.take(i as int)),
            decreases protocols@.len() - i,
        {
            let p = protocols[i];
            let present = self.supports_protocol(p);
            if !present {
                self.protocols.push(p);
            }
            proof {
                let t = protocols@.take(i as int + 1);
                assert(t.drop_last() =~= protocols@.take(i as int));
                assert(t.last() == protocols@[i as int]);
            }
            i = i + 1;
        }
        proof {
            assert(protocols@.take(protocols@.len() as int) =~= protocols@);
            assert forall|a: u32|
                #![trigger self.protocols@.contains(a)]
                self.protocols@.contains(a) <==> (orig.contains(a) || protocols@.contains(a)) by {
                lemma_merge_contains(orig, protocols@, a);
            }
        }
    }

    /// Whether the window advertised the given close protocol when it was
    /// adopted.
    pub fn supports_protocol(&self, atom: u32) -> (r: bool)
        ensures
            r == self.protocols@.contains(atom),
    {
        let mut i: usize = 0;
        while i < self.protocols.len()
            invariant
                i <= self.protocols@.len(),
                forall|k: int| 0 <= k < i ==> self.protocols@[k] != atom,
            decreases self.protocols@.len() - i,
        {
            if self.protocols[i] == atom {
                return true;
            }
            i = i + 1;
        }
        false
    }
}

/// The protocol set after adding each atom of `add` (in order) to `cur`,
/// skipping the ones already present.
pub open spec fn merge_protocols(cur: Seq<u32>, add: Seq<u32>) -> Seq<u32>
    decreases add.len(),
{
    if add.len() == 0 {
        cur
    } else {
        let rest = merge_protocols(cur, add.drop_last());
        if rest.contains(add.last()) {
            rest
        } else {
            rest.push(add.last())
        }
    }
}

/// Merging protocol lists is membership-wise a union.
pub proof fn lemma_merge_contains(cur: Seq<u32>, add: Seq<u32>, a: u32)
    ensures
        merge_protocols(cur, add).contains(a) <==> (cur.contains(a) || add.contains(a)),
    decreases add.len(),
{
    if add.len() == 0 {
        if add.contains(a) {
            let k: int = choose|k: int| 0 <= k < add.len() && add[k] == a;
        }
    } else {
        lemma_merge_contains(cur, add.drop_last(), a);
        let rest = merge_protocols(cur, add.drop_last());
        lemma_push_contains(rest, add.last(), a);
        assert(add =~= add.drop_last().push(add.last()));
        lemma_push_contains(add.drop_last(), add.last(), a);
        if rest.contains(add.last()) && a == add.last() {
            assert(merge_protocols(cur, add) == rest);
        }
    }
}

/// Membership of `x` in `s` splits over a push.
proof fn lemma_push_contains(s: Seq<u32>, x: u32, a: u32)
    ensures
        s.push(x).contains(a) <==> (s.contains(a) || a == x),
{
    if s.contains(a) {
        let k: int = choose|k: int| 0 <= k < s.len() && s[k] == a;
        assert(s.push(x)[k] == a);
    }
    if a == x {
        assert(s.push(x)[s.len() as int] == a);
    }
    if s.push(x).contains(a) {
        let k: int = choose|k: int| 0 <= k < s.push(x).len() && s.push(x)[k] == a;
        if k < s.len() {
            assert(s[k] == a);
        }
    }
}

/// Some window in the sequence carries this handle.
pub open spec fn ws_has(s: Seq<WinView>, id: u32) -> bool {
    exists|k: int| 0 <= k < s.len() && s[k].id == id
}

/// No handle occurs twice in the sequence.
pub open spec fn ws_unique(s: Seq<WinView>) -> bool {
    forall|a: int, b: int|
        #![trigger s[a].id, s[b].id]
        0 <= a < s.len() && 0 <= b < s.len() && s[a].id == s[b].id ==> a == b
}

/// Every window in the sequence satisfies the geometry bounds.
pub open spec fn ws_geom_wf(s: Seq<WinView>) -> bool {
    forall|k: int| 0 <= k < s.len() ==> geom_wf(#[trigger] s[k])
}

/// Two sequences of windows with the same handles at the same slots
/// track the same handles, uniquely or not.
pub proof fn lemma_same_ids(s: Seq<WinView>, t: Seq<WinView>)
    requires
        t.len() == s.len(),
        forall|k: int| 0 <= k < s.len() ==> #[trigger] t[k].id == s[k].id,
    ensures
        forall|id: u32| ws_has(t, id) <==> ws_has(s, id),
        ws_unique(s) ==> ws_unique(t),
{
    assert forall|id: u32| ws_has(t, id) <==> ws_has(s, id) by {
        if ws_has(t, id) {
            let k: int = choose|k: int| 0 <= k < t.len() && t[k].id == id;
            assert(s[k].id == id);
        }
        if ws_has(s, id) {
            let k: int = choose|k: int| 0 <= k < s.len() && s[k].id == id;
            assert(t[k].id == id);
        }
    }
    if ws_unique(s) {
        assert forall|a: int, b: int|
            0 <= a < t.len() && 0 <= b < t.len() && t[a].id == t[b].id implies a == b by {
            assert(s[a].id == t[a].id && s[b].id == t[b].id);
        }
    }
}

/// Index of the first window carrying this handle, if any.
pub open spec fn find_id(s: Seq<WinView>, id: u32) -> Option<int>
    decreases s.len(),
{
    if s.len() == 0 {
        None
    } else if s[0].id == id {
        Some(0int)
    } else {
        match find_id(s.drop_first(), id) {
            None => None,
            Some(i) => Some(i + 1),
        }
    }
}

/// What `find_id` returns is the first match; `None` means the handle is
/// absent.
pub proof fn lemma_find_id(s: Seq<WinView>, id: u32)
    ensures
        match find_id(s, id) {
            Some(i) => 0 <= i < s.len() && s[i].id == id && (forall|k: int|
                0 <= k < i ==> s[k].id != id),
            None => !ws_has(s, id),
        },
    decreases s.len(),
{
    if s.len() == 0 {
    } else if s[0].id == id {
    } else {
        lemma_find_id(s.drop_first(), id);
        match find_id(s.drop_first(), id) {
            Some(i) => {
                assert(s.drop_first()[i] == s[i + 1]);
                assert forall|k: int| 0 <= k < i + 1 implies s[k].id != id by {
                    if k >= 1 {
                        assert(s.drop_first()[k - 1] == s[k]);
                    }
                }
            },
            None => {
                assert forall|k: int| 0 <= k < s.len() implies s[k].id != id by {
                    if k >= 1 {
                        assert(s.drop_first()[k - 1] == s[k]);
                    }
                }
            },
        }
    }
}

/// A first match determines `find_id` exactly.
pub proof fn lemma_find_id_first(s: Seq<WinView>, id: u32, i: int)
    requires
        0 <= i < s.len(),
        s[i].id == id,
        forall|k: int| 0 <= k < i ==> s[k].id != id,
    ensures
        find_id(s, id) == Some(i),
    decreases s.len(),
{
    if i == 0 {
    } else {
        assert(s.drop_first()[i - 1] == s[i]);
        assert forall|k: int| 0 <= k < i - 1 implies s.drop_first()[k].id != id by {
            assert(s.drop_first()[k] == s[k + 1]);
        }
        lemma_find_id_first(s.drop_first(), id, i - 1);
    }
}

/// Focus invariant: the front slot always holds the most recently
/// focused window. An add focuses the newcomer; promoting the window at
/// `i` puts exactly that record in front; removing the focused window
/// promotes the next one.
pub proof fn lemma_focus_invariant(s: Seq<WinView>, w: WinView, i: int)
    requires
        0 <= i < s.len(),
    ensures
        s.insert(0, w)[0] == w,
        s.remove(i).insert(0, s[i])[0] == s[i],
        s.len() > 1 ==> s.remove(0)[0] == s[1],
{
}

/// Adding a window to the front and immediately removing it by its handle
/// restores the collection exactly: same length, same order, same focus.
pub proof fn lemma_add_remove_round_trip(s: Seq<WinView>, w: WinView)
    ensures
        find_id(s.insert(0, w), w.id) == Some(0int),
        s.insert(0, w).remove(0) == s,
{
    assert(s.insert(0, w)[0] == w);
    assert(s.insert(0, w).remove(0) =~= s);
}

/// The ordered, focus-ranked collection of one workspace's windows.
pub struct Windows {
    items: Vec<Window>,
}

impl View for Windows {
    type V = Seq<WinView>;

    closed spec fn view(&self) -> Seq<WinView> {
        Seq::new(self.items@.len(), |i: int| self.items@[i]@)
    }
}

impl Default for Windows {
    fn default() -> (r: Self)
        ensures
            r@ == Seq::<WinView>::empty(),
    {
        let r = Windows { items: Vec::new() };
        proof {
            assert(r@ =~= Seq::<WinView>::empty());
        }
        r
    }
}

impl Windows {
    pub fn len(&self) -> (r: usize)
        ensures
            r == self@.len(),
    {
        self.items.len()
    }

    pub fn is_empty(&self) -> (r: bool)
        ensures
            r == (self@.len() == 0),
    {
        self.items.len() == 0
    }

    /// Prepend a window: the newcomer takes the focus slot.
    pub fn add(&mut self, window: Window)
        ensures
            final(self)@ == old(self)@.insert(0, window@),
            final(self)@.len() == old(self)@.len() + 1,
            final(self)@[0] == window@,
            forall|x: int| 1 <= x < final(self)@.len() ==> final(self)@[x] == old(self)@[x - 1],
            forall|id: u32|
                ws_has(final(self)@, id) <==> (id == window@.id || ws_has(old(self)@, id)),
            ws_unique(old(self)@) && !ws_has(old(self)@, window@.id) ==> ws_unique(final(self)@),
            ws_geom_wf(old(self)@) && geom_wf(window@) ==> ws_geom_wf(final(self)@),
    {
        let ghost prev = self@;
        let ghost wv = window@;
        self.items.insert(0, window);
        proof {
            assert(self@ =~= prev.insert(0, wv));
            let cur = self@;
            assert forall|id: u32| ws_has(cur, id) <==> (id == wv.id || ws_has(prev, id)) by {
                if ws_has(cur, id) {
                    let k: int = choose|k: int| 0 <= k < cur.len() && cur[k].id == id;
                    if k >= 1 {
                        assert(prev[k - 1].id == id);
                    }
                }
                if ws_has(prev, id) {
                    let k: int = choose|k: int| 0 <= k < prev.len() && prev[k].id == id;
                    assert(cur[k + 1].id == id);
                }
                if id == wv.id {
                    assert(cur[0].id == id);
                }
            }
            if ws_unique(prev) && !ws_has(prev, wv.id) {
                assert forall|a: int, b: int|
                    0 <= a < cur.len() && 0 <= b < cur.len() && cur[a].id == cur[b].id implies a
                    == b by {
                    if a >= 1 && b >= 1 {
                        assert(cur[a] == prev[a - 1] && cur[b] == prev[b - 1]);
                    } else if a == 0 && b >= 1 {
                        assert(prev[b - 1].id == wv.id);
                    } else if b == 0 && a >= 1 {
                        assert(prev[a - 1].id == wv.id);
                    }
                }
            }
        }
    }

    /// Remove and return the window at `idx`. Under uniqueness, its handle
    /// is no longer present afterwards.
    pub fn remove(&mut self, idx: usize) -> (w: Window)
        requires
            idx < old(self)@.len(),
        ensures
            w@ == old(self)@[idx as int],
            final(self)@ == old(self)@.remove(idx as int),
            final(self)@.len() == old(self)@.len() - 1,
            forall|x: int| 0 <= x < idx ==> final(self)@[x] == old(self)@[x],
            forall|x: int|
                idx <= x < final(self)@.len() ==> final(self)@[x] == old(self)@[x + 1],
            forall|id: u32| ws_has(final(self)@, id) ==> ws_has(old(self)@, id),
            ws_unique(old(self)@) ==> ws_unique(final(self)@),
            ws_unique(old(self)@) ==> !ws_has(final(self)@, old(self)@[idx as int].id),
            ws_geom_wf(old(self)@) ==> ws_geom_wf(final(self)@),
    {
        let ghost prev = self@;
        let w = self.items.remove(idx);
        proof {
            assert(self@ =~= prev.remove(idx as int));
            let cur = self@;
            assert forall|id: u32| ws_has(cur, id) implies ws_has(prev, id) by {
                let k: int = choose|k: int| 0 <= k < cur.len() && cur[k].id == id;
                if k < idx {
                    assert(prev[k].id == id);
                } else {
                    assert(prev[k + 1].id == id);
                }
            }
            if ws_unique(prev) {
                assert forall|a: int, b: int|
                    0 <= a < cur.len() && 0 <= b < cur.len() && cur[a].id == cur[b].id implies a
                    == b by {
                    let sa: int = if a < idx { a } else { a + 1 };
                    let sb: int = if b < idx { b } else { b + 1 };
                    assert(cur[a] == prev[sa] && cur[b] == prev[sb]);
                }
                assert forall|k: int| 0 <= k < cur.len() implies cur[k].id != prev[idx as int].id
                    by {
                    let sk: int = if k < idx { k } else { k + 1 };
                    assert(cur[k] == prev[sk]);
                }
            }
        }
        w
    }

    /// Rotate the window at `idx` to the front without changing its
    /// contents; everything before it shifts back one slot.
    pub fn move_front(&mut self, idx: usize)
        requires
            idx < old(self)@.len(),
        ensures
            final(self)@ == old(self)@.remove(idx as int).insert(0, old(self)@[idx as int]),
            final(self)@.len() == old(self)@.len(),
            final(self)@[0] == old(self)@[idx as int],
            forall|x: int| 1 <= x <= idx ==> final(self)@[x] == old(self)@[x - 1],
            forall|x: int| idx < x < final(self)@.len() ==> final(self)@[x] == old(self)@[x],
            forall|id: u32| ws_has(final(self)@, id) <==> ws_has(old(self)@, id),
            ws_unique(old(self)@) ==> ws_unique(final(self)@),
            ws_geom_wf(old(self)@) ==> ws_geom_wf(final(self)@),
    {
        let ghost prev = self@;
        if idx != 0 {
            let w = self.items.remove(idx);
            self.items.insert(0, w);
        }
        proof {
            let target = prev.remove(idx as int).insert(0, prev[idx as int]);
            assert(self@ =~= target);
            let cur = self@;
            assert forall|x: int| 1 <= x <= idx implies cur[x] == prev[x - 1] by {
                assert(cur[x] == prev.remove(idx as int)[x - 1]);
            }
            assert forall|x: int| idx < x < cur.len() implies cur[x] == prev[x] by {
                assert(cur[x] == prev.remove(idx as int)[x - 1]);
            }
            // the rotation maps new index x to old index src(x)
            assert forall|id: u32| ws_has(cur, id) <==> ws_has(prev, id) by {
                if ws_has(cur, id) {
                    let k: int = choose|k: int| 0 <= k < cur.len() && cur[k].id == id;
                    if k == 0 {
                        assert(prev[idx as int].id == id);
                    } else if k <= idx {
                        assert(prev[k - 1].id == id);
                    } else {
                        assert(prev[k].id == id);
                    }
                }
                if ws_has(prev, id) {
                    let k: int = choose|k: int| 0 <= k < prev.len() && prev[k].id == id;
                    if k == idx {
                        assert(cur[0].id == id);
                    } else if k < idx {
                        assert(cur[k + 1].id == id);
                    } else {
                        assert(cur[k].id == id);
                    }
                }
            }
            if ws_unique(prev) {
                assert forall|a: int, b: int|
                    0 <= a < cur.len() && 0 <= b < cur.len() && cur[a].id == cur[b].id implies a
                    == b by {
                    let sa: int = if a == 0 {
                        idx as int
                    } else if a <= idx {
                        a - 1
                    } else {
                        a
                    };
                    let sb: int = if b == 0 {
                        idx as int
                    } else if b <= idx {
                        b - 1
                    } else {
                        b
                    };
                    assert(cur[a] == prev[sa] && cur[b] == prev[sb]);
                }
            }
            if ws_geom_wf(prev) {
                assert forall|k: int| 0 <= k < cur.len() implies geom_wf(cur[k]) by {
                    let sk: int = if k == 0 {
                        idx as int
                    } else if k <= idx {
                        k - 1
                    } else {
                        k
                    };
                    assert(cur[k] == prev[sk]);
                }
            }
        }
    }

    /// First index holding the given handle, scanning from the focus end.
    pub fn index_of(&self, window_id: u32) -> (r: Option<usize>)
        ensures
            match r {
                Some(i) => find_id(self@, window_id) == Some(i as int),
                None => find_id(self@, window_id) is None && !ws_has(self@, window_id),
            },
    {
        let mut idx: usize = 0;
        while idx < self.items.len()
            invariant
                idx <= self@.len(),
                self@.len() == self.items@.len(),
                forall|k: int| 0 <= k < idx ==> self@[k].id != window_id,
                forall|k: int| 0 <= k < self.items@.len() ==> self@[k] == self.items@[k]@,
            decreases self.items@.len() - idx,
        {
            if self.items[idx].id == window_id {
                proof {
                    lemma_find_id_first(self@, window_id, idx as int);
                }
                return Some(idx);
            }
            idx = idx + 1;
        }
        proof {
            lemma_find_id(self@, window_id);
            if ws_has(self@, window_id) {
                let k: int = choose|k: int| 0 <= k < self@.len() && self@[k].id == window_id;
                assert(self@[k].id != window_id);
            }
        }
        None
    }

    /// Same lookup as `index_of`, under the name the dispatcher uses.
    pub fn contains(&self, window_id: u32) -> (r: Option<usize>)
        ensures
            match r {
                Some(i) => find_id(self@, window_id) == Some(i as int),
                None => find_id(self@, window_id) is None && !ws_has(self@, window_id),
            },
    {
        self.index_of(window_id)
    }

    pub fn get(&self, idx: usize) -> (r: Option<&Window>)
        ensures
            match r {
                Some(w) => idx < self@.len() && w@ == self@[idx as int],
                None => idx >= self@.len(),
            },
    {
        if idx < self.items.len() {
            Some(&self.items[idx])
        } else {
            None
        }
    }

    /// Mutable access to the window at `idx`; the caller's writes become
    /// the new element.
    pub fn get_mut(&mut self, idx: usize) -> (w: &mut Window)
        requires
            idx < old(self)@.len(),
        ensures
            (*w)@ == old(self)@[idx as int],
            final(self)@ =~= old(self)@.update(idx as int, (*final(w))@),
    {
        let w = &mut self.items[idx];
        w
    }

    /// Whether this handle is the focused (front) window.
    pub fn is_focused(&self, window_id: u32) -> (r: bool)
        ensures
            r == (self@.len() > 0 && self@[0].id == window_id),
    {
        match self.focused() {
            Some(window) => window_id == window.id,
            None => false,
        }
    }

    /// The focused window: the front of the collection.
    pub fn focused(&self) -> (r: Option<&Window>)
        ensures
            match r {
                Some(w) => self@.len() > 0 && w@ == self@[0],
                None => self@.len() == 0,
            },
    {
        self.get(0)
    }

    /// Mutable access to the focused window.
    pub fn focused_mut(&mut self) -> (w: &mut Window)
        requires
            old(self)@.len() > 0,
        ensures
            (*w)@ == old(self)@[0],
            final(self)@ =~= old(self)@.update(0, (*final(w))@),
    {
        self.get_mut(0)
    }

    /// The window handles front-to-back. The verified layout passes walk
    /// this instead of borrowing an iterator.
    pub fn iter(&self) -> (r: Vec<u32>)
        ensures
            r@.len() == self@.len(),
            forall|k: int| 0 <= k < r@.len() ==> r@[k] == self@[k].id,
    {
        let mut r: Vec<u32> = Vec::new();
        let mut i: usize = 0;
        while i < self.items.len()
            invariant
                i <= self.items@.len(),
                self@.len() == self.items@.len(),
                r@.len() == i,
                forall|k: int| 0 <= k < self.items@.len() ==> self@[k] == self.items@[k]@,
                forall|k: int| 0 <= k < i ==> r@[k] == self@[k].id,
            decreases self.items@.len() - i,
        {
            r.push(self.items[i].id);
            i = i + 1;
        }
        r
    }

    /// The window handles back-to-front.
    pub fn iter_rev(&self) -> (r: Vec<u32>)
        ensures
            r@.len() == self@.len(),
            forall|k: int| 0 <= k < r@.len() ==> r@[k] == self@[self@.len() - 1 - k].id,
    {
        let mut r: Vec<u32> = Vec::new();
        let mut i: usize = self.items.len();
        while i > 0
            invariant
                i <= self.items@.len(),
                self@.len() == self.items@.len(),
                r@.len() == self@.len() - i,
                forall|k: int| 0 <= k < self.items@.len() ==> self@[k] == self.items@[k]@,
                forall|k: int| 0 <= k < r@.len() ==> r@[k] == self@[self@.len() - 1 - k].id,
            decreases i,
        {
            i = i - 1;
            r.push(self.items[i].id);
        }
        r
    }
}

} // verus!

