//! The pure data model of the window manager: tags (virtual desktops) owning
//! ordered windows and a focus position, screens each showing one tag, and a
//! single focused screen. No I/O happens here; every operation is a
//! synchronous transformation of this state.
//!
//! Invariants (see `ClientSet::wf`): every screen shows an existing tag, no
//! two screens show the same tag, every tag's focus points at one of its
//! windows (or is zero when the tag is empty), tag names are distinct, and a
//! window belongs to exactly one tag at one position. The globally focused
//! window is derived: the focused window of the tag shown on the focused
//! screen — so there is exactly one (or none), by construction.

use vstd::prelude::*;
use crate::geometry::Rect;
use crate::layout_stack::LayoutStack;
use crate::strutil::str_eq;

verus! {

/// A named virtual desktop: an ordered window list, the index of its focused
/// window, and its own layout stack.
pub struct Tag {
    pub name: String,
    pub windows: Vec<u64>,
    pub focus: usize,
    pub layouts: LayoutStack,
}

/// A physical output: its region in screen coordinates, the tag it shows,
/// and the tag it showed before that (for toggling back).
#[derive(Clone, Copy, Debug, PartialEq, Eq, Structural)]
pub struct Screen {
    pub rect: Rect,
    pub tag: usize,
    pub prev_tag: usize,
}

/// The aggregate state: all tags, all screens, and which screen has focus.
pub struct ClientSet {
    pub tags: Vec<Tag>,
    pub screens: Vec<Screen>,
    pub focused_screen: usize,
}

/// The focus index after moving down (towards the back), wrapping.
pub open spec fn focus_down_idx(f: int, n: int) -> int {
    if f + 1 < n {
        f + 1
    } else {
        0
    }
}

/// The focus index after moving up (towards the front), wrapping.
pub open spec fn focus_up_idx(f: int, n: int) -> int {
    if f == 0 {
        n - 1
    } else {
        f - 1
    }
}

/// `b` differs from `a` in at most the tag at index `t`: screens, screen
/// focus and all other tags are identical.
pub open spec fn only_tag_changed(a: ClientSet, b: ClientSet, t: int) -> bool {
    &&& b.screens@ == a.screens@
    &&& b.focused_screen == a.focused_screen
    &&& b.tags@.len() == a.tags@.len()
    &&& forall|u: int| 0 <= u < a.tags@.len() && u != t ==> b.tags@[u] == a.tags@[u]
}

/// `b` is tag `a` with its focus moved to `f`: name, windows and layouts
/// untouched.
pub open spec fn tag_refocused(a: Tag, b: Tag, f: int) -> bool {
    &&& b.name == a.name
    &&& b.windows == a.windows
    &&& b.layouts == a.layouts
    &&& b.focus == f
}

impl Tag {
    /// The focus index points at a window, or is zero when there is none,
    /// and the layout stack is well-formed.
    pub open spec fn wf(self) -> bool {
        &&& (self.windows@.len() == 0 ==> self.focus == 0)
        &&& (self.windows@.len() > 0 ==> self.focus < self.windows@.len())
        &&& self.layouts.wf()
    }

    /// Whether this tag can enter a fresh model: no windows yet, focus at
    /// the front, and a well-formed layout stack.
    pub fn is_startup_ready(&self) -> (r: bool)
        ensures
            r == (self.wf() && self.windows@.len() == 0),
    {
        self.windows.len() == 0 && self.focus == 0 && self.layouts.is_wf()
    }

    /// The window this tag's focus points at, if any.
    pub open spec fn focused_window(self) -> Option<u64> {
        if self.windows@.len() == 0 {
            None
        } else {
            Some(self.windows@[self.focus as int])
        }
    }
}

impl ClientSet {
    /// No window occurs in two places: distinct (tag, position) pairs hold
    /// distinct windows.
    pub open spec fn windows_disjoint(self) -> bool {
        forall|t1: int, i1: int, t2: int, i2: int|
            0 <= t1 < self.tags@.len() && 0 <= i1 < self.tags@[t1].windows@.len() && 0 <= t2
                < self.tags@.len() && 0 <= i2 < self.tags@[t2].windows@.len() && (t1 != t2 || i1
                != i2) ==> #[trigger] self.tags@[t1].windows@[i1] != #[trigger] self.tags@[t2].windows@[i2]
    }

    /// The structural invariant every operation preserves.
    pub open spec fn wf(self) -> bool {
        &&& self.screens@.len() > 0
        &&& self.focused_screen < self.screens@.len()
        &&& forall|s: int|
            0 <= s < self.screens@.len() ==> (#[trigger] self.screens@[s]).tag < self.tags@.len()
                && self.screens@[s].prev_tag < self.tags@.len() && self.screens@[s].rect.fits()
        &&& forall|s1: int, s2: int|
            0 <= s1 < self.screens@.len() && 0 <= s2 < self.screens@.len() && s1 != s2
                ==> (#[trigger] self.screens@[s1]).tag != (#[trigger] self.screens@[s2]).tag
        &&& forall|t: int| 0 <= t < self.tags@.len() ==> (#[trigger] self.tags@[t]).wf()
        &&& forall|t1: int, t2: int|
            0 <= t1 < self.tags@.len() && 0 <= t2 < self.tags@.len() && t1 != t2
                ==> (#[trigger] self.tags@[t1]).name@ != (#[trigger] self.tags@[t2]).name@
        &&& self.windows_disjoint()
    }

    /// The index of the tag shown on the focused screen.
    pub open spec fn current_tag_idx(self) -> int {
        self.screens@[self.focused_screen as int].tag as int
    }

    /// The tag shown on the focused screen.
    pub open spec fn current_tag(self) -> Tag {
        self.tags@[self.current_tag_idx()]
    }

    /// The globally focused window: the focused window of the tag shown on
    /// the focused screen, or none when that tag is empty.
    pub open spec fn focused_window(self) -> Option<u64> {
        self.current_tag().focused_window()
    }

    /// Some tag holds window `w`.
    pub open spec fn has_window(self, w: u64) -> bool {
        exists|t: int, i: int|
            0 <= t < self.tags@.len() && 0 <= i < self.tags@[t].windows@.len()
                && self.tags@[t].windows@[i] == w
    }

    /// Some tag is named `name`.
    pub open spec fn has_tag_named(self, name: Seq<char>) -> bool {
        exists|t: int| 0 <= t < self.tags@.len() && (#[trigger] self.tags@[t]).name@ == name
    }

    /// Build the initial state from monitor geometry: screen `i` shows tag
    /// `i`, every tag starts empty, the first screen has focus.
    pub fn new(tags: Vec<Tag>, screen_rects: Vec<Rect>) -> (cs: ClientSet)
        requires
            screen_rects@.len() > 0,
            tags@.len() >= screen_rects@.len(),
            forall|i: int| 0 <= i < screen_rects@.len() ==> (#[trigger] screen_rects@[i]).fits(),
            forall|t: int| 0 <= t < tags@.len() ==> (#[trigger] tags@[t]).wf(),
            forall|t: int| 0 <= t < tags@.len() ==> (#[trigger] tags@[t]).windows@.len() == 0,
            forall|t1: int, t2: int|
                0 <= t1 < tags@.len() && 0 <= t2 < tags@.len() && t1 != t2
                    ==> (#[trigger] tags@[t1]).name@ != (#[trigger] tags@[t2]).name@,
        ensures
            cs.wf(),
            cs.tags@ == tags@,
            cs.focused_screen == 0,
            cs.screens@.len() == screen_rects@.len(),
            forall|i: int|
                0 <= i < screen_rects@.len() ==> #[trigger] cs.screens@[i] == (Screen {
                    rect: screen_rects@[i],
                    tag: i as usize,
                    prev_tag: i as usize,
                }),
    {
        let mut screens: Vec<Screen> = Vec::new();
        let mut i: usize = 0;
        while i < screen_rects.len()
            invariant
                i <= screen_rects@.len(),
                screens@.len() == i as int,
                forall|j: int|
                    0 <= j < i as int ==> #[trigger] screens@[j] == (Screen {
                        rect: screen_rects@[j],
                        tag: j as usize,
                        prev_tag: j as usize,
                    }),
            decreases screen_rects@.len() - i,
        {
            screens.push(Screen { rect: screen_rects[i], tag: i, prev_tag: i });
            i += 1;
        }
        ClientSet { tags, screens, focused_screen: 0 }
    }

    /// Move focus to the next window of the current tag, wrapping; no-op
    /// when the tag has fewer than two windows.
    pub fn focus_down(&mut self)
        requires
            old(self).wf(),
        ensures
            final(self).wf(),
            ({
                let ct = old(self).current_tag_idx();
                let n = old(self).current_tag().windows@.len() as int;
                if n >= 2 {
                    &&& only_tag_changed(*old(self), *final(self), ct)
                    &&& tag_refocused(
                        old(self).tags@[ct],
                        final(self).tags@[ct],
                        focus_down_idx(old(self).current_tag().focus as int, n),
                    )
                } else {
                    *final(self) == *old(self)
                }
            }),
    {
        let ct = self.screens[self.focused_screen].tag;
        let n = self.tags[ct].windows.len();
        if n >= 2 {
            let f = self.tags[ct].focus;
            let nf: usize = if f + 1 < n {
                f + 1
            } else {
                0
            };
            self.tags[ct].focus = nf;
            proof {
                lemma_wf_after_tag_update(*old(self), *self, ct as int);
            }
        }
    }

    /// Move focus to the previous window of the current tag, wrapping; no-op
    /// when the tag has fewer than two windows.
    pub fn focus_up(&mut self)
        requires
            old(self).wf(),
        ensures
            final(self).wf(),
            ({
                let ct = old(self).current_tag_idx();
                let n = old(self).current_tag().windows@.len() as int;
                if n >= 2 {
                    &&& only_tag_changed(*old(self), *final(self), ct)
                    &&& tag_refocused(
                        old(self).tags@[ct],
                        final(self).tags@[ct],
                        focus_up_idx(old(self).current_tag().focus as int, n),
                    )
                } else {
                    *final(self) == *old(self)
                }
            }),
    {
        let ct = self.screens[self.focused_screen].tag;
        let n = self.tags[ct].windows.len();
        if n >= 2 {
            let f = self.tags[ct].focus;
            let nf: usize = if f == 0 {
                n - 1
            } else {
                f - 1
            };
            self.tags[ct].focus = nf;
            proof {
                lemma_wf_after_tag_update(*old(self), *self, ct as int);
            }
        }
    }

    /// Move screen focus to the next screen, cyclically by index.
    pub fn next_screen(&mut self)
        requires
            old(self).wf(),
        ensures
            final(self).wf(),
            final(self).tags@ == old(self).tags@,
            final(self).screens@ == old(self).screens@,
            final(self).focused_screen as int == focus_down_idx(
                old(self).focused_screen as int,
                old(self).screens@.len() as int,
            ),
    {
        if self.focused_screen < self.screens.len() - 1 {
            self.focused_screen = self.focused_screen + 1;
        } else {
            self.focused_screen = 0;
        }
    }

    /// Move screen focus to the previous screen, cyclically by index.
    pub fn previous_screen(&mut self)
        requires
            old(self).wf(),
        ensures
            final(self).wf(),
            final(self).tags@ == old(self).tags@,
            final(self).screens@ == old(self).screens@,
            final(self).focused_screen as int == focus_up_idx(
                old(self).focused_screen as int,
                old(self).screens@.len() as int,
            ),
    {
        if self.focused_screen == 0 {
            self.focused_screen = self.screens.len() - 1;
        } else {
            self.focused_screen = self.focused_screen - 1;
        }
    }

    /// The globally focused window, if any (see the spec `focused_window`).
    pub fn focused(&self) -> (r: Option<u64>)
        requires
            self.wf(),
        ensures
            r == self.focused_window(),
    {
        let ct = self.screens[self.focused_screen].tag;
        let tag = &self.tags[ct];
        if tag.windows.len() == 0 {
            None
        } else {
            Some(tag.windows[tag.focus])
        }
    }

    /// The index of the focused screen.
    pub fn current_screen_index(&self) -> (r: usize)
        ensures
            r == self.focused_screen,
    {
        self.focused_screen
    }

    /// A view of all screens, in index order.
    pub fn screens(&self) -> (r: &Vec<Screen>)
        ensures
            r@ == self.screens@,
    {
        &self.screens
    }

    /// The name of the tag shown on screen `index`, or none for an invalid
    /// index.
    pub fn tag_for_screen(&self, index: usize) -> (r: Option<&String>)
        requires
            self.wf(),
        ensures
            match r {
                Some(name) => index < self.screens@.len() && name@
                    == self.tags@[self.screens@[index as int].tag as int].name@,
                None => index >= self.screens@.len(),
            },
    {
        if index < self.screens.len() {
            let t = self.screens[index].tag;
            Some(&self.tags[t].name)
        } else {
            None
        }
    }
}

/// `b` is tag `a` with the windows at `i` and `j` exchanged and the focus
/// moved to `f`: name and layouts untouched.
pub open spec fn tag_swapped(a: Tag, b: Tag, i: int, j: int, f: int) -> bool {
    &&& b.name == a.name
    &&& b.layouts == a.layouts
    &&& b.windows@ == a.windows@.update(i, a.windows@[j]).update(j, a.windows@[i])
    &&& b.focus == f
}

impl ClientSet {
    /// Exchange the focused window with its successor in the current tag's
    /// order, moving focus with it. Clamped at the back boundary (no wrap):
    /// a no-op when the focused window is last, or the tag has no windows.
    pub fn swap_down(&mut self)
        requires
            old(self).wf(),
        ensures
            final(self).wf(),
            ({
                let ct = old(self).current_tag_idx();
                let tag = old(self).tags@[ct];
                let f = tag.focus as int;
                if tag.windows@.len() > 0 && f + 1 < tag.windows@.len() {
                    &&& only_tag_changed(*old(self), *final(self), ct)
                    &&& tag_swapped(tag, final(self).tags@[ct], f, f + 1, f + 1)
                } else {
                    *final(self) == *old(self)
                }
            }),
    {
        let ct = self.screens[self.focused_screen].tag;
        let n = self.tags[ct].windows.len();
        let f = self.tags[ct].focus;
        if n > 0 && f < n - 1 {
            let tag = &mut self.tags[ct];
            let a = tag.windows[f];
            let b = tag.windows[f + 1];
            tag.windows[f] = b;
            tag.windows[f + 1] = a;
            tag.focus = f + 1;
            proof {
                lemma_wf_after_tag_swap(*old(self), *self, ct as int, f as int, f + 1 as int);
            }
        }
    }

    /// Exchange the focused window with its predecessor in the current tag's
    /// order, moving focus with it. Clamped at the front boundary (no wrap):
    /// a no-op when the focused window is first, or the tag has no windows.
    pub fn swap_up(&mut self)
        requires
            old(self).wf(),
        ensures
            final(self).wf(),
            ({
                let ct = old(self).current_tag_idx();
                let tag = old(self).tags@[ct];
                let f = tag.focus as int;
                if tag.windows@.len() > 0 && f > 0 {
                    &&& only_tag_changed(*old(self), *final(self), ct)
                    &&& tag_swapped(tag, final(self).tags@[ct], f - 1, f, f - 1)
                } else {
                    *final(self) == *old(self)
                }
            }),
    {
        let ct = self.screens[self.focused_screen].tag;
        let n = self.tags[ct].windows.len();
        let f = self.tags[ct].focus;
        if n > 0 && f > 0 {
            let tag = &mut self.tags[ct];
            let a = tag.windows[f - 1];
            let b = tag.windows[f];
            tag.windows[f - 1] = b;
            tag.windows[f] = a;
            tag.focus = f - 1;
            proof {
                lemma_wf_after_tag_swap(*old(self), *self, ct as int, f - 1 as int, f as int);
            }
        }
    }

    /// Cycle the current tag's layout stack to the next layout.
    pub fn next_layout(&mut self)
        requires
            old(self).wf(),
        ensures
            final(self).wf(),
            ({
                let ct = old(self).current_tag_idx();
                let stack = old(self).tags@[ct].layouts;
                &&& only_tag_changed(*old(self), *final(self), ct)
                &&& final(self).tags@[ct].name == old(self).tags@[ct].name
                &&& final(self).tags@[ct].windows == old(self).tags@[ct].windows
                &&& final(self).tags@[ct].focus == old(self).tags@[ct].focus
                &&& final(self).tags@[ct].layouts.layouts@ == stack.layouts@
                &&& final(self).tags@[ct].layouts.cursor as int == crate::layout_stack::next_cursor(
                    stack.cursor as int,
                    stack.layouts@.len() as int,
                )
            }),
    {
        let ct = self.screens[self.focused_screen].tag;
        let tag = &mut self.tags[ct];
        tag.layouts.next();
        proof {
            lemma_wf_after_tag_update(*old(self), *self, ct as int);
        }
    }

    /// Cycle the current tag's layout stack to the previous layout.
    pub fn previous_layout(&mut self)
        requires
            old(self).wf(),
        ensures
            final(self).wf(),
            ({
                let ct = old(self).current_tag_idx();
                let stack = old(self).tags@[ct].layouts;
                &&& only_tag_changed(*old(self), *final(self), ct)
                &&& final(self).tags@[ct].name == old(self).tags@[ct].name
                &&& final(self).tags@[ct].windows == old(self).tags@[ct].windows
                &&& final(self).tags@[ct].focus == old(self).tags@[ct].focus
                &&& final(self).tags@[ct].layouts.layouts@ == stack.layouts@
                &&& final(self).tags@[ct].layouts.cursor as int == crate::layout_stack::prev_cursor(
                    stack.cursor as int,
                    stack.layouts@.len() as int,
                )
            }),
    {
        let ct = self.screens[self.focused_screen].tag;
        let tag = &mut self.tags[ct];
        tag.layouts.previous();
        proof {
            lemma_wf_after_tag_update(*old(self), *self, ct as int);
        }
    }

    /// Deliver a layout message to the current tag's active layout.
    pub fn send_message(&mut self, m: crate::layout::Message)
        requires
            old(self).wf(),
        ensures
            final(self).wf(),
            ({
                let ct = old(self).current_tag_idx();
                let stack = old(self).tags@[ct].layouts;
                let new_stack = final(self).tags@[ct].layouts;
                &&& only_tag_changed(*old(self), *final(self), ct)
                &&& final(self).tags@[ct].name == old(self).tags@[ct].name
                &&& final(self).tags@[ct].windows == old(self).tags@[ct].windows
                &&& final(self).tags@[ct].focus == old(self).tags@[ct].focus
                &&& new_stack.cursor == stack.cursor
                &&& new_stack.layouts@.len() == stack.layouts@.len()
                &&& forall|i: int|
                    0 <= i < stack.layouts@.len() && i != stack.cursor as int
                        ==> new_stack.layouts@[i] == stack.layouts@[i]
                &&& crate::layout::message_applied(
                    stack.active_spec(),
                    new_stack.active_spec(),
                    m,
                )
            }),
    {
        let ct = self.screens[self.focused_screen].tag;
        let tag = &mut self.tags[ct];
        tag.layouts.send_message(m);
        proof {
            lemma_wf_after_tag_update(*old(self), *self, ct as int);
        }
    }
}

impl ClientSet {
    /// The index of the tag named `name`, if one exists.
    fn find_tag_index(&self, name: &str) -> (r: Option<usize>)
        ensures
            match r {
                Some(t) => t < self.tags@.len() && self.tags@[t as int].name@ == name@,
                None => !self.has_tag_named(name@),
            },
    {
        let mut t: usize = 0;
        while t < self.tags.len()
            invariant
                t <= self.tags@.len(),
                forall|u: int| 0 <= u < t as int ==> (#[trigger] self.tags@[u]).name@ != name@,
            decreases self.tags@.len() - t,
        {
            if str_eq(self.tags[t].name.as_str(), name) {
                return Some(t);
            }
            t += 1;
        }
        None
    }

    /// The screen showing tag `t`, if any, skipping screen `except`.
    fn screen_showing_other(&self, t: usize, except: usize) -> (r: Option<usize>)
        ensures
            match r {
                Some(s) => s < self.screens@.len() && s != except && self.screens@[s as int].tag
                    == t,
                None => forall|s: int|
                    0 <= s < self.screens@.len() && s != except as int
                        ==> (#[trigger] self.screens@[s]).tag != t,
            },
    {
        let mut s: usize = 0;
        while s < self.screens.len()
            invariant
                s <= self.screens@.len(),
                forall|u: int|
                    0 <= u < s as int && u != except as int ==> (#[trigger] self.screens@[u]).tag
                        != t,
            decreases self.screens@.len() - s,
        {
            if s != except && self.screens[s].tag == t {
                return Some(s);
            }
            s += 1;
        }
        None
    }

    /// Swap the focused screen back to the tag it showed before the current
    /// one. A no-op when that tag is the one already shown, or is meanwhile
    /// shown on another screen (a tag may be visible on at most one screen).
    pub fn toggle_tag(&mut self)
        requires
            old(self).wf(),
        ensures
            final(self).wf(),
            ({
                let s = old(self).focused_screen as int;
                let cur = old(self).screens@[s].tag;
                let prev = old(self).screens@[s].prev_tag;
                if prev != cur && (forall|s2: int|
                    0 <= s2 < old(self).screens@.len() && s2 != s
                        ==> (#[trigger] old(self).screens@[s2]).tag != prev) {
                    &&& final(self).tags@ == old(self).tags@
                    &&& final(self).focused_screen == old(self).focused_screen
                    &&& final(self).screens@ == old(self).screens@.update(
                        s,
                        Screen { rect: old(self).screens@[s].rect, tag: prev, prev_tag: cur },
                    )
                } else {
                    *final(self) == *old(self)
                }
            }),
    {
        let s = self.focused_screen;
        let cur = self.screens[s].tag;
        let prev = self.screens[s].prev_tag;
        if prev != cur {
            match self.screen_showing_other(prev, s) {
                Some(_) => {},
                None => {
                    self.screens[s] = Screen { rect: self.screens[s].rect, tag: prev, prev_tag: cur };
                },
            }
        }
    }

    /// Show the tag named `name` on a screen and focus it: if some screen
    /// already shows it, focus moves to that screen; otherwise the focused
    /// screen switches to it, hiding (but retaining) the tag shown so far.
    /// A no-op when no tag has that name.
    pub fn focus_tag(&mut self, name: &str)
        requires
            old(self).wf(),
        ensures
            final(self).wf(),
            !old(self).has_tag_named(name@) ==> *final(self) == *old(self),
            forall|t: int, s2: int|
                0 <= t < old(self).tags@.len() && (#[trigger] old(self).tags@[t]).name@ == name@
                    && 0 <= s2 < old(self).screens@.len()
                    && (#[trigger] old(self).screens@[s2]).tag == t ==> {
                    &&& final(self).tags@ == old(self).tags@
                    &&& final(self).screens@ == old(self).screens@
                    &&& final(self).focused_screen == s2
                },
            forall|t: int|
                0 <= t < old(self).tags@.len() && (#[trigger] old(self).tags@[t]).name@ == name@
                    && (forall|s2: int|
                    0 <= s2 < old(self).screens@.len()
                        ==> (#[trigger] old(self).screens@[s2]).tag != t) ==> {
                    let s = old(self).focused_screen as int;
                    &&& final(self).tags@ == old(self).tags@
                    &&& final(self).focused_screen == old(self).focused_screen
                    &&& final(self).screens@ == old(self).screens@.update(
                        s,
                        Screen {
                            rect: old(self).screens@[s].rect,
                            tag: t as usize,
                            prev_tag: old(self).screens@[s].tag,
                        },
                    )
                },
    {
        let t = match self.find_tag_index(name) {
            Some(t) => t,
            None => {
                return ;
            },
        };
        let s = self.focused_screen;
        if self.screens[s].tag == t {
            return ;
        }
        match self.screen_showing_other(t, s) {
            Some(s2) => {
                self.focused_screen = s2;
            },
            None => {
                let cur = self.screens[s].tag;
                self.screens[s] = Screen { rect: self.screens[s].rect, tag: t, prev_tag: cur };
            },
        }
    }

    /// Force the tag named `name` onto the focused screen. A hidden tag
    /// displaces the tag shown there (which becomes hidden, keeping its
    /// windows); a tag visible on another screen trades places with it.
    /// A no-op when no tag has that name or it is already shown here.
    pub fn pull_tag_to_screen(&mut self, name: &str)
        requires
            old(self).wf(),
        ensures
            final(self).wf(),
            !old(self).has_tag_named(name@) ==> *final(self) == *old(self),
            forall|t: int|
                0 <= t < old(self).tags@.len() && (#[trigger] old(self).tags@[t]).name@ == name@
                    ==> {
                    let s = old(self).focused_screen as int;
                    let cur = old(self).screens@[s].tag;
                    if cur == t as usize {
                        *final(self) == *old(self)
                    } else {
                        &&& final(self).tags@ == old(self).tags@
                        &&& final(self).focused_screen == old(self).focused_screen
                        &&& final(self).screens@.len() == old(self).screens@.len()
                        &&& final(self).screens@[s] == (Screen {
                            rect: old(self).screens@[s].rect,
                            tag: t as usize,
                            prev_tag: cur,
                        })
                        &&& forall|s2: int|
                            0 <= s2 < old(self).screens@.len() && s2 != s
                                && (#[trigger] old(self).screens@[s2]).tag != t as usize
                                ==> final(self).screens@[s2] == old(self).screens@[s2]
                        &&& forall|s2: int|
                            0 <= s2 < old(self).screens@.len() && s2 != s
                                && (#[trigger] old(self).screens@[s2]).tag == t as usize
                                ==> final(self).screens@[s2] == (Screen {
                                rect: old(self).screens@[s2].rect,
                                tag: cur,
                                prev_tag: t as usize,
                            })
                    }
                },
    {
        let t = match self.find_tag_index(name) {
            Some(t) => t,
            None => {
                return ;
            },
        };
        let s = self.focused_screen;
        let cur = self.screens[s].tag;
        if cur == t {
            return ;
        }
        match self.screen_showing_other(t, s) {
            Some(s2) => {
                self.screens[s2] = Screen { rect: self.screens[s2].rect, tag: cur, prev_tag: t };
                self.screens[s] = Screen { rect: self.screens[s].rect, tag: t, prev_tag: cur };
            },
            None => {
                self.screens[s] = Screen { rect: self.screens[s].rect, tag: t, prev_tag: cur };
            },
        }
    }
}

/// The focus index of a tag after the window at `i` was removed, leaving
/// `newlen` windows: focus follows its window, or stays in place so that it
/// lands on the removed window's successor, clamped to the last window.
pub open spec fn focus_after_window_removal(f: int, i: int, newlen: int) -> int {
    if newlen == 0 {
        0
    } else if f < i {
        f
    } else if f > i {
        f - 1
    } else if f < newlen {
        f
    } else {
        newlen - 1
    }
}

/// `b` is tag `a` with the window at `i` removed and focus adjusted as
/// `focus_after_window_removal` says: name and layouts untouched.
pub open spec fn tag_window_removed(a: Tag, b: Tag, i: int) -> bool {
    &&& b.name == a.name
    &&& b.layouts == a.layouts
    &&& b.windows@ == a.windows@.remove(i)
    &&& b.focus as int == focus_after_window_removal(a.focus as int, i, a.windows@.len() - 1)
}

impl ClientSet {
    /// Whether any tag holds window `w`.
    pub fn contains_window(&self, w: u64) -> (r: bool)
        ensures
            r == self.has_window(w),
    {
        let mut t: usize = 0;
        while t < self.tags.len()
            invariant
                t <= self.tags@.len(),
                forall|u: int, i: int|
                    0 <= u < t as int && 0 <= i < self.tags@[u].windows@.len()
                        ==> #[trigger] self.tags@[u].windows@[i] != w,
            decreases self.tags@.len() - t,
        {
            let tag = &self.tags[t];
            let mut i: usize = 0;
            while i < tag.windows.len()
                invariant
                    t < self.tags@.len(),
                    tag == self.tags@[t as int],
                    i <= tag.windows@.len(),
                    forall|j: int| 0 <= j < i as int ==> #[trigger] tag.windows@[j] != w,
                decreases tag.windows@.len() - i,
            {
                if tag.windows[i] == w {
                    return true;
                }
                i += 1;
            }
            t += 1;
        }
        false
    }

    /// Add a window the model has never seen to the current tag, at the back
    /// of its order, and focus it.
    pub fn insert_window(&mut self, w: u64)
        requires
            old(self).wf(),
            !old(self).has_window(w),
        ensures
            final(self).wf(),
            ({
                let ct = old(self).current_tag_idx();
                &&& only_tag_changed(*old(self), *final(self), ct)
                &&& final(self).tags@[ct].name == old(self).tags@[ct].name
                &&& final(self).tags@[ct].layouts == old(self).tags@[ct].layouts
                &&& final(self).tags@[ct].windows@ == old(self).tags@[ct].windows@.push(w)
                &&& final(self).tags@[ct].focus as int == old(self).tags@[ct].windows@.len()
            }),
    {
        let ct = self.screens[self.focused_screen].tag;
        let tag = &mut self.tags[ct];
        let n = tag.windows.len();
        tag.windows.push(w);
        tag.focus = n;
        proof {
            lemma_wf_after_window_push(*old(self), *self, ct as int, w);
        }
    }

    /// Remove the focused window of the current tag from the model and
    /// return it; focus moves to the next window of that tag, or empties.
    /// Returns none (a no-op) when the current tag has no windows.
    pub fn remove_focused(&mut self) -> (r: Option<u64>)
        requires
            old(self).wf(),
        ensures
            final(self).wf(),
            r == old(self).focused_window(),
            ({
                let ct = old(self).current_tag_idx();
                let tag = old(self).tags@[ct];
                if tag.windows@.len() > 0 {
                    &&& only_tag_changed(*old(self), *final(self), ct)
                    &&& tag_window_removed(tag, final(self).tags@[ct], tag.focus as int)
                } else {
                    *final(self) == *old(self)
                }
            }),
    {
        let ct = self.screens[self.focused_screen].tag;
        let n = self.tags[ct].windows.len();
        if n == 0 {
            return None;
        }
        let tag = &mut self.tags[ct];
        let f = tag.focus;
        let w = tag.windows.remove(f);
        let m = tag.windows.len();
        tag.focus = if m == 0 {
            0
        } else if f < m {
            f
        } else {
            m - 1
        };
        proof {
            lemma_wf_after_window_removal(*old(self), *self, ct as int, f as int);
        }
        Some(w)
    }

    /// Drop window `w` from whichever tag holds it (e.g. after the server
    /// reports it destroyed); that tag's focus adjusts as
    /// `focus_after_window_removal` says. A no-op when no tag holds `w`.
    pub fn remove_window(&mut self, w: u64)
        requires
            old(self).wf(),
        ensures
            final(self).wf(),
            !old(self).has_window(w) ==> *final(self) == *old(self),
            forall|t: int, i: int|
                0 <= t < old(self).tags@.len() && 0 <= i < old(self).tags@[t].windows@.len()
                    && #[trigger] old(self).tags@[t].windows@[i] == w ==> {
                    &&& only_tag_changed(*old(self), *final(self), t)
                    &&& tag_window_removed(old(self).tags@[t], final(self).tags@[t], i)
                },
    {
        let mut t: usize = 0;
        while t < self.tags.len()
            invariant
                old(self).wf(),
                *self == *old(self),
                t <= self.tags@.len(),
                forall|u: int, i: int|
                    0 <= u < t as int && 0 <= i < self.tags@[u].windows@.len()
                        ==> #[trigger] self.tags@[u].windows@[i] != w,
            decreases self.tags@.len() - t,
        {
            let n = self.tags[t].windows.len();
            let mut i: usize = 0;
            while i < n
                invariant
                    old(self).wf(),
                    *self == *old(self),
                    t < self.tags@.len(),
                    n == self.tags@[t as int].windows@.len(),
                    i <= n,
                    forall|j: int| 0 <= j < i as int ==> #[trigger] self.tags@[t as int].windows@[j] != w,
                decreases n - i,
            {
                if self.tags[t].windows[i] == w {
                    let tag = &mut self.tags[t];
                    let f = tag.focus;
                    let _ = tag.windows.remove(i);
                    let m = tag.windows.len();
                    tag.focus = if m == 0 {
                        0
                    } else if f < i {
                        f
                    } else if f > i {
                        f - 1
                    } else if f < m {
                        f
                    } else {
                        m - 1
                    };
                    proof {
                        lemma_wf_after_window_removal(*old(self), *self, t as int, i as int);
                    }
                    return ;
                }
                i += 1;
            }
            t += 1;
        }
    }

    /// Move the focused window out of the current tag to the back of the tag
    /// named `name`; the source tag's focus moves to the next window there.
    /// The target tag keeps its own focus (the moved window is focused there
    /// only when the target was empty). A no-op when no tag has that name,
    /// when it is the current tag, or when nothing is focused. The state is
    /// unchanged bit for bit when the name does not exist.
    pub fn move_focused_to_tag(&mut self, name: &str)
        requires
            old(self).wf(),
        ensures
            final(self).wf(),
            !old(self).has_tag_named(name@) ==> *final(self) == *old(self),
            old(self).current_tag().windows@.len() == 0 ==> *final(self) == *old(self),
            forall|t: int|
                0 <= t < old(self).tags@.len() && (#[trigger] old(self).tags@[t]).name@ == name@
                    && old(self).current_tag().windows@.len() > 0 ==> {
                    let ct = old(self).current_tag_idx();
                    let src = old(self).tags@[ct];
                    let w = src.windows@[src.focus as int];
                    if t == ct {
                        *final(self) == *old(self)
                    } else {
                        &&& final(self).screens@ == old(self).screens@
                        &&& final(self).focused_screen == old(self).focused_screen
                        &&& final(self).tags@.len() == old(self).tags@.len()
                        &&& forall|u: int|
                            0 <= u < old(self).tags@.len() && u != t && u != ct
                                ==> final(self).tags@[u] == old(self).tags@[u]
                        &&& tag_window_removed(src, final(self).tags@[ct], src.focus as int)
                        &&& final(self).tags@[t].name == old(self).tags@[t].name
                        &&& final(self).tags@[t].layouts == old(self).tags@[t].layouts
                        &&& final(self).tags@[t].focus == old(self).tags@[t].focus
                        &&& final(self).tags@[t].windows@ == old(self).tags@[t].windows@.push(w)
                    }
                },
    {
        let t = match self.find_tag_index(name) {
            Some(t) => t,
            None => {
                return ;
            },
        };
        let ct = self.screens[self.focused_screen].tag;
        if t == ct {
            return ;
        }
        let n = self.tags[ct].windows.len();
        if n == 0 {
            return ;
        }
        let src = &mut self.tags[ct];
        let f = src.focus;
        let w = src.windows.remove(f);
        let m = src.windows.len();
        src.focus = if m == 0 {
            0
        } else if f < m {
            f
        } else {
            m - 1
        };
        let dst = &mut self.tags[t];
        dst.windows.push(w);
        proof {
            lemma_wf_after_window_move(*old(self), *self, ct as int, t as int, f as int);
        }
    }
}

/// Pushing a window nothing holds keeps all windows distinct across tags.
proof fn lemma_wf_after_window_push(a: ClientSet, b: ClientSet, t: int, w: u64)
    requires
        a.wf(),
        0 <= t < a.tags@.len(),
        !a.has_window(w),
        only_tag_changed(a, b, t),
        b.tags@[t].wf(),
        b.tags@[t].name == a.tags@[t].name,
        b.tags@[t].windows@ == a.tags@[t].windows@.push(w),
    ensures
        b.wf(),
{
    let oldlen = a.tags@[t].windows@.len() as int;
    assert forall|t1: int, i1: int, t2: int, i2: int|
        0 <= t1 < b.tags@.len() && 0 <= i1 < b.tags@[t1].windows@.len() && 0 <= t2 < b.tags@.len()
            && 0 <= i2 < b.tags@[t2].windows@.len() && (t1 != t2 || i1 != i2) implies #[trigger] b.tags@[t1].windows@[i1]
        != #[trigger] b.tags@[t2].windows@[i2] by {
        if t1 == t && i1 == oldlen {
            assert(b.tags@[t1].windows@[i1] == w);
            assert(b.tags@[t2].windows@[i2] == a.tags@[t2].windows@[i2]);
        } else if t2 == t && i2 == oldlen {
            assert(b.tags@[t2].windows@[i2] == w);
            assert(b.tags@[t1].windows@[i1] == a.tags@[t1].windows@[i1]);
        } else {
            assert(b.tags@[t1].windows@[i1] == a.tags@[t1].windows@[i1]);
            assert(b.tags@[t2].windows@[i2] == a.tags@[t2].windows@[i2]);
        }
    }
}

/// Removing one window from one tag keeps all windows distinct across tags.
proof fn lemma_wf_after_window_removal(a: ClientSet, b: ClientSet, t: int, i: int)
    requires
        a.wf(),
        0 <= t < a.tags@.len(),
        0 <= i < a.tags@[t].windows@.len(),
        only_tag_changed(a, b, t),
        b.tags@[t].wf(),
        b.tags@[t].name == a.tags@[t].name,
        b.tags@[t].windows@ == a.tags@[t].windows@.remove(i),
    ensures
        b.wf(),
{
    assert forall|t1: int, i1: int, t2: int, i2: int|
        0 <= t1 < b.tags@.len() && 0 <= i1 < b.tags@[t1].windows@.len() && 0 <= t2 < b.tags@.len()
            && 0 <= i2 < b.tags@[t2].windows@.len() && (t1 != t2 || i1 != i2) implies #[trigger] b.tags@[t1].windows@[i1]
        != #[trigger] b.tags@[t2].windows@[i2] by {
        let o1: int = if t1 == t && i1 >= i {
            i1 + 1
        } else {
            i1
        };
        let o2: int = if t2 == t && i2 >= i {
            i2 + 1
        } else {
            i2
        };
        assert(b.tags@[t1].windows@[i1] == a.tags@[t1].windows@[o1]);
        assert(b.tags@[t2].windows@[i2] == a.tags@[t2].windows@[o2]);
    }
}

/// Moving one window from one tag to the back of another keeps all windows
/// distinct across tags.
proof fn lemma_wf_after_window_move(a: ClientSet, b: ClientSet, src: int, dst: int, f: int)
    requires
        a.wf(),
        0 <= src < a.tags@.len(),
        0 <= dst < a.tags@.len(),
        src != dst,
        0 <= f < a.tags@[src].windows@.len(),
        b.screens@ == a.screens@,
        b.focused_screen == a.focused_screen,
        b.tags@.len() == a.tags@.len(),
        forall|u: int| 0 <= u < a.tags@.len() && u != src && u != dst ==> b.tags@[u] == a.tags@[u],
        b.tags@[src].wf(),
        b.tags@[dst].wf(),
        b.tags@[src].name == a.tags@[src].name,
        b.tags@[dst].name == a.tags@[dst].name,
        b.tags@[src].windows@ == a.tags@[src].windows@.remove(f),
        b.tags@[dst].windows@ == a.tags@[dst].windows@.push(a.tags@[src].windows@[f]),
    ensures
        b.wf(),
{
    let dlen = a.tags@[dst].windows@.len() as int;
    assert forall|t1: int, i1: int, t2: int, i2: int|
        0 <= t1 < b.tags@.len() && 0 <= i1 < b.tags@[t1].windows@.len() && 0 <= t2 < b.tags@.len()
            && 0 <= i2 < b.tags@[t2].windows@.len() && (t1 != t2 || i1 != i2) implies #[trigger] b.tags@[t1].windows@[i1]
        != #[trigger] b.tags@[t2].windows@[i2] by {
        let from1: (int, int) = if t1 == dst && i1 == dlen {
            (src, f)
        } else if t1 == src && i1 >= f {
            (t1, i1 + 1)
        } else {
            (t1, i1)
        };
        let from2: (int, int) = if t2 == dst && i2 == dlen {
            (src, f)
        } else if t2 == src && i2 >= f {
            (t2, i2 + 1)
        } else {
            (t2, i2)
        };
        assert(b.tags@[t1].windows@[i1] == a.tags@[from1.0].windows@[from1.1]);
        assert(b.tags@[t2].windows@[i2] == a.tags@[from2.0].windows@[from2.1]);
        assert(from1 != from2);
    }
}

/// Permuting one tag's windows keeps all windows distinct across tags.
proof fn lemma_wf_after_tag_swap(a: ClientSet, b: ClientSet, t: int, i: int, j: int)
    requires
        a.wf(),
        0 <= t < a.tags@.len(),
        0 <= i < a.tags@[t].windows@.len(),
        0 <= j < a.tags@[t].windows@.len(),
        only_tag_changed(a, b, t),
        b.tags@[t].wf(),
        b.tags@[t].name == a.tags@[t].name,
        b.tags@[t].windows@ == a.tags@[t].windows@.update(i, a.tags@[t].windows@[j]).update(
            j,
            a.tags@[t].windows@[i],
        ),
    ensures
        b.wf(),
{
    assert forall|t1: int, i1: int, t2: int, i2: int|
        0 <= t1 < b.tags@.len() && 0 <= i1 < b.tags@[t1].windows@.len() && 0 <= t2 < b.tags@.len()
            && 0 <= i2 < b.tags@[t2].windows@.len() && (t1 != t2 || i1 != i2) implies #[trigger] b.tags@[t1].windows@[i1]
        != #[trigger] b.tags@[t2].windows@[i2] by {
        let o1: int = if t1 == t && i1 == i {
            j
        } else if t1 == t && i1 == j {
            i
        } else {
            i1
        };
        let o2: int = if t2 == t && i2 == i {
            j
        } else if t2 == t && i2 == j {
            i
        } else {
            i2
        };
        assert(b.tags@[t1].windows@[i1] == a.tags@[t1].windows@[o1]);
        assert(b.tags@[t2].windows@[i2] == a.tags@[t2].windows@[o2]);
    }
}

/// Changing one tag without touching any window list or name preserves the
/// whole invariant.
proof fn lemma_wf_after_tag_update(a: ClientSet, b: ClientSet, t: int)
    requires
        a.wf(),
        0 <= t < a.tags@.len(),
        only_tag_changed(a, b, t),
        b.tags@[t].wf(),
        b.tags@[t].name == a.tags@[t].name,
        b.tags@[t].windows == a.tags@[t].windows,
    ensures
        b.wf(),
{
    assert forall|u: int| 0 <= u < b.tags@.len() implies (#[trigger] b.tags@[u]).windows@
        == a.tags@[u].windows@ by {}
    assert(b.windows_disjoint());
}

/// Exactly one window is globally focused, or none: the focused window is
/// the one the current tag's focus points at, it is on the tag shown on the
/// focused screen, and no other tag or position holds it. When the current
/// tag is empty there is no focused window.
pub proof fn lemma_single_global_focus(cs: ClientSet)
    requires
        cs.wf(),
    ensures
        match cs.focused_window() {
            Some(w) => {
                &&& cs.current_tag().windows@.contains(w)
                &&& forall|t: int, i: int|
                    0 <= t < cs.tags@.len() && 0 <= i < cs.tags@[t].windows@.len()
                        && cs.tags@[t].windows@[i] == w ==> t == cs.current_tag_idx() && i
                        == cs.current_tag().focus as int
            },
            None => cs.current_tag().windows@.len() == 0,
        },
{
    match cs.focused_window() {
        Some(w) => {
            let ct = cs.current_tag_idx();
            let f = cs.current_tag().focus as int;
            assert(cs.tags@[ct].windows@[f] == w);
            assert(cs.current_tag().windows@.contains(w)) by {
                assert(cs.current_tag().windows@[f] == w);
            }
        },
        None => {},
    }
}

/// Round trip: from any focus position in a tag with at least two windows,
/// moving focus up and then down (or down and then up) returns it to where
/// it started.
pub proof fn lemma_focus_round_trip(f: int, n: int)
    requires
        2 <= n,
        0 <= f < n,
    ensures
        focus_down_idx(focus_up_idx(f, n), n) == f,
        focus_up_idx(focus_down_idx(f, n), n) == f,
{
}

} // verus!
