//! An ordered, non-empty collection of layouts with a cursor at the active
//! one. The cursor cycles with wrap-around; messages go to the active layout
//! only.

use vstd::prelude::*;
use crate::geometry::Rect;
use crate::layout::{Layout, Message, message_applied};

verus! {

/// A non-empty sequence of layouts and the index of the active one.
pub struct LayoutStack {
    pub layouts: Vec<Layout>,
    pub cursor: usize,
}

/// The cursor after one step forward: the next index, wrapping to the front.
pub open spec fn next_cursor(c: int, len: int) -> int {
    if c + 1 < len {
        c + 1
    } else {
        0
    }
}

/// The cursor after one step backward: the previous index, wrapping to the
/// back.
pub open spec fn prev_cursor(c: int, len: int) -> int {
    if c == 0 {
        len - 1
    } else {
        c - 1
    }
}

/// The cursor after `n` forward steps from `c` over `len` layouts.
pub open spec fn cycled_cursor(c: int, len: int, n: nat) -> int
    decreases n,
{
    if n == 0 {
        c
    } else {
        next_cursor(cycled_cursor(c, len, (n - 1) as nat), len)
    }
}

impl LayoutStack {
    /// The stack is non-empty, the cursor points at a layout, and every
    /// layout's parameters are in range.
    pub open spec fn wf(self) -> bool {
        &&& self.layouts@.len() > 0
        &&& self.cursor < self.layouts@.len()
        &&& forall|i: int| 0 <= i < self.layouts@.len() ==> (#[trigger] self.layouts@[i]).wf()
    }

    /// The layout the cursor points at.
    pub open spec fn active_spec(self) -> Layout {
        self.layouts@[self.cursor as int]
    }

    /// Whether the stack is well-formed: the executable form of `wf`.
    pub fn is_wf(&self) -> (r: bool)
        ensures
            r == self.wf(),
    {
        if self.layouts.len() == 0 || self.cursor >= self.layouts.len() {
            return false;
        }
        let mut i: usize = 0;
        while i < self.layouts.len()
            invariant
                i <= self.layouts@.len(),
                forall|j: int| 0 <= j < i as int ==> (#[trigger] self.layouts@[j]).wf(),
            decreases self.layouts@.len() - i,
        {
            if !self.layouts[i].is_wf() {
                return false;
            }
            i += 1;
        }
        true
    }

    /// Build a stack from an ordered list of layouts; the first is active.
    pub fn from_vec(layouts: Vec<Layout>) -> (s: LayoutStack)
        requires
            layouts@.len() > 0,
            forall|i: int| 0 <= i < layouts@.len() ==> (#[trigger] layouts@[i]).wf(),
        ensures
            s.wf(),
            s.layouts@ == layouts@,
            s.cursor == 0,
    {
        LayoutStack { layouts, cursor: 0 }
    }

    /// Move the cursor to the next layout, wrapping past the end.
    pub fn next(&mut self)
        requires
            old(self).wf(),
        ensures
            final(self).wf(),
            final(self).layouts@ == old(self).layouts@,
            final(self).cursor as int == next_cursor(old(self).cursor as int, old(self).layouts@.len() as int),
    {
        if self.cursor < self.layouts.len() - 1 {
            self.cursor = self.cursor + 1;
        } else {
            self.cursor = 0;
        }
    }

    /// Move the cursor to the previous layout, wrapping past the front.
    pub fn previous(&mut self)
        requires
            old(self).wf(),
        ensures
            final(self).wf(),
            final(self).layouts@ == old(self).layouts@,
            final(self).cursor as int == prev_cursor(old(self).cursor as int, old(self).layouts@.len() as int),
    {
        if self.cursor == 0 {
            self.cursor = self.layouts.len() - 1;
        } else {
            self.cursor = self.cursor - 1;
        }
    }

    /// Compute placements for `windows` in `region` with the active layout.
    pub fn apply(&self, windows: &Vec<u64>, focus: usize, region: Rect) -> (out: Vec<(u64, Rect)>)
        requires
            self.wf(),
            region.fits(),
            windows@.len() > 0 ==> focus < windows@.len(),
        ensures
            out@ == self.active_spec().place_spec(windows@, focus as int, region),
            forall|i: int| 0 <= i < out@.len() ==> (#[trigger] out@[i]).1.fits(),
    {
        let active = &self.layouts[self.cursor];
        active.apply(windows, focus, region)
    }

    /// Deliver a message to the active layout only; the other layouts and
    /// the cursor are untouched. Unrecognised messages are ignored by the
    /// layout itself, never an error.
    pub fn send_message(&mut self, m: Message)
        requires
            old(self).wf(),
        ensures
            final(self).wf(),
            final(self).cursor == old(self).cursor,
            final(self).layouts@.len() == old(self).layouts@.len(),
            forall|i: int|
                0 <= i < old(self).layouts@.len() && i != old(self).cursor as int
                    ==> final(self).layouts@[i] == old(self).layouts@[i],
            message_applied(old(self).active_spec(), final(self).active_spec(), m),
    {
        let l = self.layouts.remove(self.cursor);
        let l2 = l.handle_message(m);
        self.layouts.insert(self.cursor, l2);
    }
}

proof fn lemma_cycled_cursor_shape(c: int, len: int, n: nat)
    requires
        0 <= c < len,
        n <= len,
    ensures
        cycled_cursor(c, len, n) == if c + n < len {
            c + n
        } else {
            c + n - len
        },
    decreases n,
{
    if n > 0 {
        lemma_cycled_cursor_shape(c, len, (n - 1) as nat);
    }
}

/// Cycling a layout stack forward as many times as it holds layouts brings
/// the cursor — and with it the active layout — back to where it started.
pub proof fn lemma_full_cycle_returns_active(layouts: Seq<Layout>, c: int)
    requires
        0 <= c < layouts.len(),
    ensures
        cycled_cursor(c, layouts.len() as int, layouts.len()) == c,
        layouts[cycled_cursor(c, layouts.len() as int, layouts.len())] == layouts[c],
{
    lemma_cycled_cursor_shape(c, layouts.len() as int, layouts.len());
}

} // verus!
