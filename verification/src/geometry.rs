//! Screen-space rectangles and the inset operation used by gap decorators.

use vstd::prelude::*;

verus! {

/// An axis-aligned rectangle in screen coordinates: origin `(x, y)`,
/// extent `w` by `h` pixels.
#[derive(Clone, Copy, Debug, PartialEq, Eq, Structural)]
pub struct Rect {
    pub x: u32,
    pub y: u32,
    pub w: u32,
    pub h: u32,
}

impl Rect {
    /// The rectangle lies within the coordinate space: its far edges do not
    /// overflow `u32`. Every screen region handed to a layout satisfies this.
    pub open spec fn fits(self) -> bool {
        self.x + self.w <= u32::MAX && self.y + self.h <= u32::MAX
    }

    /// What `shrink` returns: the rectangle inset by `gap` on all four sides,
    /// or the rectangle unchanged where it is too small to inset.
    pub open spec fn shrink_spec(self, gap: u32) -> Rect {
        if 2 * gap < self.w && 2 * gap < self.h {
            Rect {
                x: (self.x + gap) as u32,
                y: (self.y + gap) as u32,
                w: (self.w - 2 * gap) as u32,
                h: (self.h - 2 * gap) as u32,
            }
        } else {
            self
        }
    }

    /// Inset the rectangle by `gap` pixels on every side. A rectangle whose
    /// width or height is not strictly larger than twice the gap is returned
    /// unchanged rather than collapsed to nothing.
    pub fn shrink(self, gap: u32) -> (r: Rect)
        requires
            self.fits(),
        ensures
            r == self.shrink_spec(gap),
            r.fits(),
    {
        if gap <= u32::MAX / 2 && 2 * gap < self.w && 2 * gap < self.h {
            Rect { x: self.x + gap, y: self.y + gap, w: self.w - 2 * gap, h: self.h - 2 * gap }
        } else {
            self
        }
    }

    /// `inner` lies strictly inside `self`, `gap` pixels from each edge.
    pub open spec fn strictly_inset_by(self, inner: Rect, gap: u32) -> bool {
        &&& inner.x == self.x + gap
        &&& inner.y == self.y + gap
        &&& inner.x + inner.w + gap == self.x + self.w
        &&& inner.y + inner.h + gap == self.y + self.h
    }
}

} // verus!
