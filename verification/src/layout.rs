//! Layout algorithms: a main-and-stack split, a monocle (single fullscreen)
//! layout, and a gap-inserting decorator that composes around either.
//!
//! A layout is a pure function from an ordered window list, a focus position
//! and a screen region to a sequence of `(window, rectangle)` placements.
//! Layouts also carry parameter state (main-area window count, main-area
//! ratio) that typed messages adjust; a layout ignores messages it does not
//! recognise.

use vstd::prelude::*;
use vstd::arithmetic::div_mod::{lemma_fundamental_div_mod, lemma_mod_bound, lemma_div_is_ordered, lemma_div_multiples_vanish};
use vstd::arithmetic::mul::{lemma_mul_inequality, lemma_mul_is_distributive_add_other_way, lemma_mul_upper_bound};
use crate::geometry::Rect;

verus! {

/// A typed message for `send_message`: adjust the number of windows kept in
/// the main area, or grow/shrink the main area's share of the screen.
#[derive(Clone, Copy, Debug, PartialEq, Eq, Structural)]
pub enum Message {
    /// Change the main-area window count by the given signed amount,
    /// saturating at zero and at `u32::MAX`.
    IncMain(i32),
    /// Grow the main area by one ratio step, capped at the full width.
    ExpandMain,
    /// Shrink the main area by one ratio step, floored at zero width.
    ShrinkMain,
}

/// A layout algorithm, possibly wrapped by decorators. `ratio` and
/// `ratio_step` are percentages of the region width (0 to 100).
pub enum Layout {
    /// The first `max_main` windows share a left column of width
    /// `w * ratio / 100`; the rest share the right column. Either side
    /// splits its column into equal-height rows.
    MainAndStack { max_main: u32, ratio: u32, ratio_step: u32 },
    /// Only the focused window is placed, over the whole region.
    Monocle,
    /// Decorator: places windows with the wrapped layout, then insets every
    /// rectangle by `gap` pixels on all four sides.
    Gaps { inner: Box<Layout>, gap: u32 },
}

/// The rectangle of row `i` out of `k` equal-height rows stacked in `r`:
/// each row gets `r.h / k` pixels, the last row also the remainder.
pub open spec fn row_rect(r: Rect, k: int, i: int) -> Rect
    recommends
        1 <= k,
        0 <= i < k,
{
    let rh = r.h as int / k;
    Rect {
        x: r.x,
        y: (r.y + i * rh) as u32,
        w: r.w,
        h: if i == k - 1 { (r.h - (k - 1) * rh) as u32 } else { rh as u32 },
    }
}

/// Every window of `ws`, in order, in its row of the column `r`.
pub open spec fn rows_spec(ws: Seq<u64>, r: Rect) -> Seq<(u64, Rect)> {
    Seq::new(ws.len(), |i: int| (ws[i], row_rect(r, ws.len() as int, i)))
}

/// The left (main) column of `r`: `ratio` percent of its width.
pub open spec fn main_region(r: Rect, ratio: u32) -> Rect {
    Rect { x: r.x, y: r.y, w: (r.w * ratio / 100) as u32, h: r.h }
}

/// The right (stack) column of `r`: what the main column leaves.
pub open spec fn stack_region(r: Rect, ratio: u32) -> Rect {
    Rect {
        x: (r.x + r.w * ratio / 100) as u32,
        y: r.y,
        w: (r.w - r.w * ratio / 100) as u32,
        h: r.h,
    }
}

/// How many of `n` windows the main area holds under a `max_main` setting:
/// the setting, clipped at the total window count.
pub open spec fn main_count(max_main: u32, n: int) -> int {
    if n <= max_main { n } else { max_main as int }
}

/// The main-area window count setting after `IncMain(delta)`: moved by
/// `delta`, saturating at zero and at `u32::MAX`.
pub open spec fn inc_main(max_main: u32, delta: i32) -> u32 {
    if max_main + delta < 0 {
        0
    } else if max_main + delta > u32::MAX {
        u32::MAX
    } else {
        (max_main + delta) as u32
    }
}

/// The main-area ratio after a message: stepped by `ratio_step`, clamped
/// to 0..=100.
pub open spec fn stepped_ratio(ratio: u32, ratio_step: u32, m: Message) -> u32 {
    match m {
        Message::ExpandMain => if ratio + ratio_step <= 100 {
            (ratio + ratio_step) as u32
        } else {
            100
        },
        Message::ShrinkMain => if ratio >= ratio_step {
            (ratio - ratio_step) as u32
        } else {
            0
        },
        Message::IncMain(_) => ratio,
    }
}

/// A main-and-stack layout with message `m` delivered: the parameter the
/// message names is stepped, the others stay.
pub open spec fn main_and_stack_step(max_main: u32, ratio: u32, ratio_step: u32, m: Message) -> Layout {
    Layout::MainAndStack {
        max_main: match m {
            Message::IncMain(d) => inc_main(max_main, d),
            Message::ExpandMain => max_main,
            Message::ShrinkMain => max_main,
        },
        ratio: stepped_ratio(ratio, ratio_step, m),
        ratio_step,
    }
}

/// `after` is `before` with message `m` delivered: a main-and-stack layout
/// updates the parameter the message names, a monocle layout ignores every
/// message, and a gap decorator forwards the message to the wrapped layout
/// unchanged, keeping its own gap.
pub open spec fn message_applied(before: Layout, after: Layout, m: Message) -> bool
    decreases before,
{
    match before {
        Layout::MainAndStack { max_main, ratio, ratio_step } => {
            after == main_and_stack_step(max_main, ratio, ratio_step, m)
        },
        Layout::Monocle => after == Layout::Monocle,
        Layout::Gaps { inner, gap } => {
            &&& after is Gaps
            &&& after->gap == gap
            &&& message_applied(*inner, *after->inner, m)
        },
    }
}

impl Layout {
    /// Parameter state is in range: ratios are percentages.
    pub open spec fn wf(self) -> bool
        decreases self,
    {
        match self {
            Layout::MainAndStack { max_main, ratio, ratio_step } => ratio <= 100 && ratio_step <= 100,
            Layout::Monocle => true,
            Layout::Gaps { inner, gap } => (*inner).wf(),
        }
    }

    /// What `apply` returns for windows `ws` with focus index `focus` in
    /// region `r`.
    pub open spec fn place_spec(self, ws: Seq<u64>, focus: int, r: Rect) -> Seq<(u64, Rect)>
        decreases self,
    {
        match self {
            Layout::Monocle => if ws.len() == 0 {
                Seq::empty()
            } else {
                seq![(ws[focus], r)]
            },
            Layout::MainAndStack { max_main, ratio, ratio_step } => {
                let n = ws.len() as int;
                let m = main_count(max_main, n);
                if n == 0 {
                    Seq::empty()
                } else if m == 0 || m == n {
                    rows_spec(ws, r)
                } else {
                    rows_spec(ws.take(m), main_region(r, ratio)) + rows_spec(
                        ws.skip(m),
                        stack_region(r, ratio),
                    )
                }
            },
            Layout::Gaps { inner, gap } => (*inner).place_spec(ws, focus, r).map_values(
                |p: (u64, Rect)| (p.0, p.1.shrink_spec(gap)),
            ),
        }
    }

    /// Compute the placement of every window of `windows` in `region`.
    /// The result pairs each window with its rectangle; every rectangle lies
    /// within the coordinate space.
    pub fn apply(&self, windows: &Vec<u64>, focus: usize, region: Rect) -> (out: Vec<(u64, Rect)>)
        requires
            self.wf(),
            region.fits(),
            windows@.len() > 0 ==> focus < windows@.len(),
        ensures
            out@ == self.place_spec(windows@, focus as int, region),
            forall|i: int| 0 <= i < out@.len() ==> (#[trigger] out@[i]).1.fits(),
        decreases self,
    {
        match self {
            Layout::Monocle => {
                let mut out: Vec<(u64, Rect)> = Vec::new();
                if windows.len() > 0 {
                    out.push((windows[focus], region));
                }
                proof {
                    assert(out@ =~= self.place_spec(windows@, focus as int, region));
                }
                out
            },
            Layout::MainAndStack { max_main, ratio, ratio_step } => {
                let n = windows.len();
                if n == 0 {
                    let out: Vec<(u64, Rect)> = Vec::new();
                    proof {
                        assert(out@ =~= self.place_spec(windows@, focus as int, region));
                    }
                    out
                } else {
                    let m: usize = if (*max_main as u64) < (n as u64) {
                        *max_main as usize
                    } else {
                        n
                    };
                    proof {
                        assert(m as int == main_count(*max_main, n as int));
                    }
                    if m == 0 || m == n {
                        let out = rows_range(windows, 0, n, region);
                        proof {
                            assert(windows@.subrange(0, n as int) =~= windows@);
                        }
                        out
                    } else {
                        proof {
                            lemma_mul_upper_bound(region.w as int, u32::MAX as int, *ratio as int, 100);
                        }
                        let mw64: u64 = (region.w as u64) * (*ratio as u64) / 100;
                        proof {
                            lemma_mul_inequality(*ratio as int, 100, region.w as int);
                            lemma_div_is_ordered(
                                region.w as int * *ratio as int,
                                100 * region.w as int,
                                100,
                            );
                            lemma_div_multiples_vanish(region.w as int, 100);
                            assert(mw64 <= region.w);
                        }
                        let mw = mw64 as u32;
                        let main_r = Rect { x: region.x, y: region.y, w: mw, h: region.h };
                        let stack_r = Rect {
                            x: region.x + mw,
                            y: region.y,
                            w: region.w - mw,
                            h: region.h,
                        };
                        let mut out = rows_range(windows, 0, m, main_r);
                        let mut rest = rows_range(windows, m, n, stack_r);
                        out.append(&mut rest);
                        proof {
                            assert(windows@.subrange(0, m as int) =~= windows@.take(m as int));
                            assert(windows@.subrange(m as int, n as int) =~= windows@.skip(m as int));
                            assert(main_r == main_region(region, *ratio));
                            assert(stack_r == stack_region(region, *ratio));
                        }
                        out
                    }
                }
            },
            Layout::Gaps { inner, gap } => {
                let base = inner.apply(windows, focus, region);
                let ghost base_spec = (*inner).place_spec(windows@, focus as int, region);
                let mut out: Vec<(u64, Rect)> = Vec::new();
                let mut i: usize = 0;
                while i < base.len()
                    invariant
                        i <= base@.len(),
                        base@ == base_spec,
                        forall|j: int| 0 <= j < base@.len() ==> (#[trigger] base@[j]).1.fits(),
                        out@.len() == i as int,
                        forall|j: int|
                            0 <= j < i as int ==> #[trigger] out@[j] == (
                            base_spec[j].0,
                            base_spec[j].1.shrink_spec(*gap),
                            ),
                        forall|j: int| 0 <= j < i as int ==> (#[trigger] out@[j]).1.fits(),
                    decreases base@.len() - i,
                {
                    let (w, rc) = base[i];
                    out.push((w, rc.shrink(*gap)));
                    i += 1;
                }
                proof {
                    assert(out@ =~= base_spec.map_values(
                        |p: (u64, Rect)| (p.0, p.1.shrink_spec(*gap)),
                    ));
                }
                out
            },
        }
    }

    /// Whether the parameter state is in range: the executable form of `wf`.
    pub fn is_wf(&self) -> (r: bool)
        ensures
            r == self.wf(),
        decreases self,
    {
        match self {
            Layout::MainAndStack { max_main, ratio, ratio_step } => *ratio <= 100 && *ratio_step
                <= 100,
            Layout::Monocle => true,
            Layout::Gaps { inner, gap } => inner.is_wf(),
        }
    }

    /// Deliver a message to this layout (see `message_applied`). A monocle
    /// layout recognises no message and is unchanged; a gap decorator
    /// forwards the message to the layout it wraps.
    pub fn handle_message(self, m: Message) -> (r: Layout)
        requires
            self.wf(),
        ensures
            message_applied(self, r, m),
            r.wf(),
        decreases self,
    {
        match self {
            Layout::MainAndStack { max_main, ratio, ratio_step } => {
                match m {
                    Message::IncMain(d) => {
                        let new_max: u32 = if d >= 0 {
                            if max_main <= u32::MAX - (d as u32) {
                                max_main + (d as u32)
                            } else {
                                u32::MAX
                            }
                        } else {
                            let mag: u64 = (-(d as i64)) as u64;
                            if (max_main as u64) >= mag {
                                max_main - (mag as u32)
                            } else {
                                0
                            }
                        };
                        Layout::MainAndStack { max_main: new_max, ratio, ratio_step }
                    },
                    Message::ExpandMain => {
                        let new_ratio: u32 = if ratio + ratio_step <= 100 {
                            ratio + ratio_step
                        } else {
                            100
                        };
                        Layout::MainAndStack { max_main, ratio: new_ratio, ratio_step }
                    },
                    Message::ShrinkMain => {
                        let new_ratio: u32 = if ratio >= ratio_step {
                            ratio - ratio_step
                        } else {
                            0
                        };
                        Layout::MainAndStack { max_main, ratio: new_ratio, ratio_step }
                    },
                }
            },
            Layout::Monocle => Layout::Monocle,
            Layout::Gaps { inner, gap } => {
                let new_inner = (*inner).handle_message(m);
                Layout::Gaps { inner: Box::new(new_inner), gap }
            },
        }
    }
}

/// Placements for the windows `ws[lo..hi]` stacked as rows in the column `r`.
fn rows_range(ws: &Vec<u64>, lo: usize, hi: usize, r: Rect) -> (out: Vec<(u64, Rect)>)
    requires
        lo < hi <= ws@.len(),
        r.fits(),
    ensures
        out@ == rows_spec(ws@.subrange(lo as int, hi as int), r),
        forall|i: int| 0 <= i < out@.len() ==> (#[trigger] out@[i]).1.fits(),
{
    let k: u64 = (hi - lo) as u64;
    let rh: u64 = (r.h as u64) / k;
    proof {
        lemma_fundamental_div_mod(r.h as int, k as int);
        lemma_mod_bound(r.h as int, k as int);
        lemma_mul_inequality(1, k as int, rh as int);
        assert(k as int * rh as int <= r.h as int);
    }
    let mut out: Vec<(u64, Rect)> = Vec::new();
    let mut i: usize = lo;
    while i < hi
        invariant
            lo <= i <= hi <= ws@.len(),
            k == hi - lo,
            rh == r.h as u64 / k,
            k as int * rh as int <= r.h as int,
            rh <= r.h,
            r.fits(),
            out@.len() == i - lo,
            forall|j: int|
                0 <= j < i - lo ==> #[trigger] out@[j] == (
                ws@[lo + j],
                row_rect(r, k as int, j),
                ),
            forall|j: int| 0 <= j < i - lo ==> (#[trigger] out@[j]).1.fits(),
        decreases hi - i,
    {
        let idx: u64 = (i - lo) as u64;
        proof {
            lemma_mul_inequality(idx as int, k as int - 1, rh as int);
            lemma_mul_inequality(k as int - 1, k as int, rh as int);
            lemma_mul_inequality(idx as int + 1, k as int, rh as int);
            lemma_mul_is_distributive_add_other_way(rh as int, idx as int, 1);
        }
        let off: u64 = idx * rh;
        let y: u32 = ((r.y as u64) + off) as u32;
        let hh: u32 = if i == hi - 1 {
            ((r.h as u64) - ((k - 1) * rh)) as u32
        } else {
            rh as u32
        };
        out.push((ws[i], Rect { x: r.x, y, w: r.w, h: hh }));
        i += 1;
    }
    proof {
        assert(out@ =~= rows_spec(ws@.subrange(lo as int, hi as int), r));
    }
    out
}

/// Feeding `IncMain(1)` to a main-and-stack layout raises the number of
/// windows the main area holds by exactly one, clipped at the total window
/// count: it never exceeds the number of windows on the tag.
pub proof fn lemma_inc_main_clipped(before: Layout, after: Layout, n: int)
    requires
        before is MainAndStack,
        message_applied(before, after, Message::IncMain(1)),
        0 <= n <= u32::MAX,
    ensures
        after is MainAndStack,
        main_count(after->max_main, n) == if main_count(before->max_main, n) + 1 <= n {
            main_count(before->max_main, n) + 1
        } else {
            n
        },
{
}

/// A gap decorator's placements are those of the layout it wraps: the same
/// windows in the same order, each rectangle strictly inset by the gap on
/// all four sides wherever the wrapped rectangle leaves room for it —
/// including placements that touch the screen region's own boundary.
pub proof fn lemma_gaps_strict_inset(l: Layout, ws: Seq<u64>, focus: int, r: Rect)
    requires
        l is Gaps,
    ensures
        ({
            let base = (*l->inner).place_spec(ws, focus, r);
            let wrapped = l.place_spec(ws, focus, r);
            &&& wrapped.len() == base.len()
            &&& forall|i: int| 0 <= i < base.len() ==> (#[trigger] wrapped[i]).0 == base[i].0
            &&& forall|i: int|
                0 <= i < base.len() && (#[trigger] base[i]).1.fits() && 2 * l->gap < base[i].1.w
                    && 2 * l->gap < base[i].1.h ==> base[i].1.strictly_inset_by(
                    wrapped[i].1,
                    l->gap,
                )
        }),
{
    let base = (*l->inner).place_spec(ws, focus, r);
    let wrapped = l.place_spec(ws, focus, r);
    assert forall|i: int|
        0 <= i < base.len() && (#[trigger] base[i]).1.fits() && 2 * l->gap < base[i].1.w && 2
            * l->gap < base[i].1.h implies base[i].1.strictly_inset_by(wrapped[i].1, l->gap) by {
        assert(wrapped[i].1 == base[i].1.shrink_spec(l->gap));
    }
}

} // verus!
