//! The window-manager core: owns the client model, the binding tables and
//! the hook chain, and turns one incoming event at a time into model changes
//! and a list of actions for the host to perform.
//!
//! The loop is single-threaded and cooperative: the host blocks waiting for
//! the next X event, hands it to `step`, and carries the returned actions
//! out before asking for the next event. A malformed event is ignored; a
//! lost connection is fatal and moves the machine to its terminal state.

use vstd::prelude::*;
use crate::bindings::{Action, BindingTable, Chord, ConfigError, ModSet, build_spec, entry_resolvable, table_lookup};
use crate::client_set::{ClientSet, Screen, Tag, focus_down_idx, focus_up_idx, only_tag_changed, tag_refocused, tag_swapped, tag_window_removed};
use crate::events::{Event, WmAction};
use crate::geometry::Rect;
use crate::hooks::{Hook, chain_spec, run_chain};
use crate::layout::{Message, message_applied};

verus! {

/// Where the event loop stands: accepting events, or tearing down.
#[derive(Clone, Copy, Debug, PartialEq, Eq, Structural)]
pub enum LoopState {
    /// Waiting for the next event.
    Idle,
    /// Terminal: an exit action or a fatal connection error was seen.
    ShuttingDown,
}

/// A pointer chord: a button with modifiers, matched exactly.
#[derive(Clone, Copy, Debug, PartialEq, Eq, Structural)]
pub struct MouseState {
    pub button: u8,
    pub mods: ModSet,
}

/// What a pointer chord is bound to.
#[derive(Clone, Copy, Debug, PartialEq, Eq, Structural)]
pub enum MouseAction {
    /// Drag the focused window (floating move).
    DragMove,
    /// Drag-resize the focused window.
    DragResize,
    /// Sink the focused window back into the tiled layer.
    SinkFocused,
}

/// What the mouse table maps a pointer chord to: the first entry for it.
pub open spec fn mouse_lookup(t: Seq<(MouseState, MouseAction)>, m: MouseState) -> Option<
    MouseAction,
>
    decreases t.len(),
{
    if t.len() == 0 {
        None
    } else if t[0].0 == m {
        Some(t[0].1)
    } else {
        mouse_lookup(t.skip(1), m)
    }
}

/// The window-manager core state.
pub struct WindowManager {
    pub clients: ClientSet,
    pub bindings: BindingTable,
    pub mouse: Vec<(MouseState, MouseAction)>,
    pub hooks: Vec<Hook>,
    pub state: LoopState,
    /// Border width of an ordinary window, in pixels.
    pub border_width: u32,
    /// Border colour of the focused window, as a pixel value.
    pub focused_border: u32,
}

/// The `Position` actions that lay out the tag shown on screen `s`.
pub open spec fn screen_positions(cs: ClientSet, s: int) -> Seq<WmAction> {
    let tag = cs.tags@[cs.screens@[s].tag as int];
    tag.layouts.active_spec().place_spec(tag.windows@, tag.focus as int, cs.screens@[s].rect)
        .map_values(|p: (u64, Rect)| WmAction::Position { window: p.0, rect: p.1 })
}

/// The `Position` actions for every screen from `s` on, in screen order.
pub open spec fn relayout_from(cs: ClientSet, s: int) -> Seq<WmAction>
    decreases cs.screens@.len() - s,
{
    if s < 0 || s >= cs.screens@.len() {
        Seq::empty()
    } else {
        screen_positions(cs, s) + relayout_from(cs, s + 1)
    }
}

/// The relayout of the whole visible state.
pub open spec fn relayout_spec(cs: ClientSet) -> Seq<WmAction> {
    relayout_from(cs, 0)
}

/// Whether a bound action changes the client model (and so is followed by a
/// relayout). The others act on the X server or the system alone.
pub open spec fn action_mutates(a: Action) -> bool {
    match a {
        Action::FocusUp => true,
        Action::FocusDown => true,
        Action::SwapUp => true,
        Action::SwapDown => true,
        Action::ToggleTag => true,
        Action::NextScreen => true,
        Action::PreviousScreen => true,
        Action::PullOtherScreenTag => true,
        Action::NextLayout => true,
        Action::PreviousLayout => true,
        Action::SendLayout(_) => true,
        Action::FocusTag(_) => true,
        Action::MoveFocusedToTag(_) => true,
        Action::KillFocused => false,
        Action::ToggleFullscreen => false,
        Action::ToggleFloating => false,
        Action::SinkFocused => false,
        Action::Exit => false,
        Action::Spawn(_) => false,
        Action::FocusOrSpawn(_, _) => false,
    }
}

/// The actions a key binding emits for the host, besides positions: requests
/// on the focused window, or a process to spawn.
pub open spec fn key_action_out(a: Action, pre: ClientSet) -> Seq<WmAction> {
    match a {
        Action::KillFocused => match pre.focused_window() {
            Some(w) => seq![WmAction::KillWindow { window: w }],
            None => Seq::empty(),
        },
        Action::ToggleFullscreen => match pre.focused_window() {
            Some(w) => seq![WmAction::ToggleFullscreen { window: w }],
            None => Seq::empty(),
        },
        Action::ToggleFloating => match pre.focused_window() {
            Some(w) => seq![WmAction::ToggleFloating { window: w }],
            None => Seq::empty(),
        },
        Action::SinkFocused => match pre.focused_window() {
            Some(w) => seq![WmAction::SinkWindow { window: w }],
            None => Seq::empty(),
        },
        Action::Spawn(cmd) => seq![WmAction::Spawn { command: cmd }],
        Action::FocusOrSpawn(class, cmd) => seq![
            WmAction::FocusOrSpawn { class, command: cmd },
        ],
        _ => Seq::empty(),
    }
}

/// The first other screen `PullOtherScreenTag` takes the tag from: the
/// lowest screen index that is not the focused screen.
pub open spec fn first_other_screen(cs: ClientSet) -> int {
    if cs.focused_screen == 0 {
        1
    } else {
        0
    }
}

/// How each bound action transforms the client model: the exact relations
/// the model operations promise, selected by the action. Actions that only
/// address the X server or the system leave the model untouched.
pub open spec fn key_action_applied(a: Action, pre: ClientSet, post: ClientSet) -> bool {
    match a {
        Action::FocusUp => {
            let ct = pre.current_tag_idx();
            let n = pre.current_tag().windows@.len() as int;
            if n >= 2 {
                only_tag_changed(pre, post, ct) && tag_refocused(
                    pre.tags@[ct],
                    post.tags@[ct],
                    focus_up_idx(pre.current_tag().focus as int, n),
                )
            } else {
                post == pre
            }
        },
        Action::FocusDown => {
            let ct = pre.current_tag_idx();
            let n = pre.current_tag().windows@.len() as int;
            if n >= 2 {
                only_tag_changed(pre, post, ct) && tag_refocused(
                    pre.tags@[ct],
                    post.tags@[ct],
                    focus_down_idx(pre.current_tag().focus as int, n),
                )
            } else {
                post == pre
            }
        },
        Action::SwapUp => {
            let ct = pre.current_tag_idx();
            let tag = pre.tags@[ct];
            let f = tag.focus as int;
            if tag.windows@.len() > 0 && f > 0 {
                only_tag_changed(pre, post, ct) && tag_swapped(tag, post.tags@[ct], f - 1, f, f - 1)
            } else {
                post == pre
            }
        },
        Action::SwapDown => {
            let ct = pre.current_tag_idx();
            let tag = pre.tags@[ct];
            let f = tag.focus as int;
            if tag.windows@.len() > 0 && f + 1 < tag.windows@.len() {
                only_tag_changed(pre, post, ct) && tag_swapped(tag, post.tags@[ct], f, f + 1, f + 1)
            } else {
                post == pre
            }
        },
        Action::ToggleTag => {
            let s = pre.focused_screen as int;
            let cur = pre.screens@[s].tag;
            let prev = pre.screens@[s].prev_tag;
            if prev != cur && (forall|s2: int|
                0 <= s2 < pre.screens@.len() && s2 != s ==> (#[trigger] pre.screens@[s2]).tag
                    != prev) {
                &&& post.tags@ == pre.tags@
                &&& post.focused_screen == pre.focused_screen
                &&& post.screens@ == pre.screens@.update(
                    s,
                    Screen { rect: pre.screens@[s].rect, tag: prev, prev_tag: cur },
                )
            } else {
                post == pre
            }
        },
        Action::NextScreen => {
            &&& post.tags@ == pre.tags@
            &&& post.screens@ == pre.screens@
            &&& post.focused_screen as int == focus_down_idx(
                pre.focused_screen as int,
                pre.screens@.len() as int,
            )
        },
        Action::PreviousScreen => {
            &&& post.tags@ == pre.tags@
            &&& post.screens@ == pre.screens@
            &&& post.focused_screen as int == focus_up_idx(
                pre.focused_screen as int,
                pre.screens@.len() as int,
            )
        },
        Action::PullOtherScreenTag => {
            if pre.screens@.len() < 2 {
                post == pre
            } else {
                let s = pre.focused_screen as int;
                let s2 = first_other_screen(pre);
                let t = pre.screens@[s2].tag;
                let cur = pre.screens@[s].tag;
                &&& post.tags@ == pre.tags@
                &&& post.focused_screen == pre.focused_screen
                &&& post.screens@.len() == pre.screens@.len()
                &&& post.screens@[s] == (Screen {
                    rect: pre.screens@[s].rect,
                    tag: t,
                    prev_tag: cur,
                })
                &&& post.screens@[s2] == (Screen {
                    rect: pre.screens@[s2].rect,
                    tag: cur,
                    prev_tag: t,
                })
                &&& forall|u: int|
                    0 <= u < pre.screens@.len() && u != s && u != s2
                        ==> post.screens@[u] == pre.screens@[u]
            }
        },
        Action::NextLayout => {
            let ct = pre.current_tag_idx();
            let stack = pre.tags@[ct].layouts;
            &&& only_tag_changed(pre, post, ct)
            &&& post.tags@[ct].name == pre.tags@[ct].name
            &&& post.tags@[ct].windows == pre.tags@[ct].windows
            &&& post.tags@[ct].focus == pre.tags@[ct].focus
            &&& post.tags@[ct].layouts.layouts@ == stack.layouts@
            &&& post.tags@[ct].layouts.cursor as int == crate::layout_stack::next_cursor(
                stack.cursor as int,
                stack.layouts@.len() as int,
            )
        },
        Action::PreviousLayout => {
            let ct = pre.current_tag_idx();
            let stack = pre.tags@[ct].layouts;
            &&& only_tag_changed(pre, post, ct)
            &&& post.tags@[ct].name == pre.tags@[ct].name
            &&& post.tags@[ct].windows == pre.tags@[ct].windows
            &&& post.tags@[ct].focus == pre.tags@[ct].focus
            &&& post.tags@[ct].layouts.layouts@ == stack.layouts@
            &&& post.tags@[ct].layouts.cursor as int == crate::layout_stack::prev_cursor(
                stack.cursor as int,
                stack.layouts@.len() as int,
            )
        },
        Action::SendLayout(m) => {
            let ct = pre.current_tag_idx();
            let stack = pre.tags@[ct].layouts;
            let new_stack = post.tags@[ct].layouts;
            &&& only_tag_changed(pre, post, ct)
            &&& post.tags@[ct].name == pre.tags@[ct].name
            &&& post.tags@[ct].windows == pre.tags@[ct].windows
            &&& post.tags@[ct].focus == pre.tags@[ct].focus
            &&& new_stack.cursor == stack.cursor
            &&& new_stack.layouts@.len() == stack.layouts@.len()
            &&& forall|i: int|
                0 <= i < stack.layouts@.len() && i != stack.cursor as int
                    ==> new_stack.layouts@[i] == stack.layouts@[i]
            &&& message_applied(stack.active_spec(), new_stack.active_spec(), m)
        },
        Action::FocusTag(name) => {
            &&& (!pre.has_tag_named(name@) ==> post == pre)
            &&& forall|t: int, s2: int|
                0 <= t < pre.tags@.len() && (#[trigger] pre.tags@[t]).name@ == name@ && 0 <= s2
                    < pre.screens@.len() && (#[trigger] pre.screens@[s2]).tag == t ==> {
                    &&& post.tags@ == pre.tags@
                    &&& post.screens@ == pre.screens@
                    &&& post.focused_screen == s2
                }
            &&& forall|t: int|
                0 <= t < pre.tags@.len() && (#[trigger] pre.tags@[t]).name@ == name@ && (forall|
                    s2: int,
                |
                    0 <= s2 < pre.screens@.len() ==> (#[trigger] pre.screens@[s2]).tag != t) ==> {
                    let s = pre.focused_screen as int;
                    &&& post.tags@ == pre.tags@
                    &&& post.focused_screen == pre.focused_screen
                    &&& post.screens@ == pre.screens@.update(
                        s,
                        Screen {
                            rect: pre.screens@[s].rect,
                            tag: t as usize,
                            prev_tag: pre.screens@[s].tag,
                        },
                    )
                }
        },
        Action::MoveFocusedToTag(name) => {
            &&& (!pre.has_tag_named(name@) ==> post == pre)
            &&& (pre.current_tag().windows@.len() == 0 ==> post == pre)
            &&& forall|t: int|
                0 <= t < pre.tags@.len() && (#[trigger] pre.tags@[t]).name@ == name@
                    && pre.current_tag().windows@.len() > 0 ==> {
                    let ct = pre.current_tag_idx();
                    let src = pre.tags@[ct];
                    let w = src.windows@[src.focus as int];
                    if t == ct {
                        post == pre
                    } else {
                        &&& post.screens@ == pre.screens@
                        &&& post.focused_screen == pre.focused_screen
                        &&& post.tags@.len() == pre.tags@.len()
                        &&& forall|u: int|
                            0 <= u < pre.tags@.len() && u != t && u != ct ==> post.tags@[u]
                                == pre.tags@[u]
                        &&& tag_window_removed(src, post.tags@[ct], src.focus as int)
                        &&& post.tags@[t].name == pre.tags@[t].name
                        &&& post.tags@[t].layouts == pre.tags@[t].layouts
                        &&& post.tags@[t].focus == pre.tags@[t].focus
                        &&& post.tags@[t].windows@ == pre.tags@[t].windows@.push(w)
                    }
                }
        },
        Action::KillFocused => post == pre,
        Action::ToggleFullscreen => post == pre,
        Action::ToggleFloating => post == pre,
        Action::SinkFocused => post == pre,
        Action::Exit => post == pre,
        Action::Spawn(_) => post == pre,
        Action::FocusOrSpawn(_, _) => post == pre,
    }
}

/// One window is removed from the model, as the model's removal operation
/// promises: the tag that held `w` loses it and refocuses; nothing else
/// moves. The model is untouched when no tag holds `w`.
pub open spec fn window_removal_post(pre: ClientSet, post: ClientSet, w: u64) -> bool {
    &&& (!pre.has_window(w) ==> post == pre)
    &&& forall|t: int, i: int|
        0 <= t < pre.tags@.len() && 0 <= i < pre.tags@[t].windows@.len()
            && #[trigger] pre.tags@[t].windows@[i] == w ==> {
            &&& only_tag_changed(pre, post, t)
            &&& tag_window_removed(pre.tags@[t], post.tags@[t], i)
        }
}

/// A new window joins the current tag at the back of its order and takes
/// the focus there.
pub open spec fn window_insert_post(pre: ClientSet, post: ClientSet, w: u64) -> bool {
    let ct = pre.current_tag_idx();
    &&& only_tag_changed(pre, post, ct)
    &&& post.tags@[ct].name == pre.tags@[ct].name
    &&& post.tags@[ct].layouts == pre.tags@[ct].layouts
    &&& post.tags@[ct].windows@ == pre.tags@[ct].windows@.push(w)
    &&& post.tags@[ct].focus as int == pre.tags@[ct].windows@.len()
}

/// What the pointer table emits for a button press: a drag, a resize or a
/// sink request on the focused window, or nothing.
pub open spec fn mouse_out(
    table: Seq<(MouseState, MouseAction)>,
    ms: MouseState,
    pre: ClientSet,
) -> Seq<WmAction> {
    match mouse_lookup(table, ms) {
        None => Seq::empty(),
        Some(ma) => match pre.focused_window() {
            None => Seq::empty(),
            Some(w) => match ma {
                MouseAction::DragMove => seq![WmAction::StartMouseDrag { window: w }],
                MouseAction::DragResize => seq![WmAction::StartMouseResize { window: w }],
                MouseAction::SinkFocused => seq![WmAction::SinkWindow { window: w }],
            },
        },
    }
}

/// What one `step` does from the idle state on a non-fatal event: the hook
/// chain runs first for every event; a key press then dispatches through the
/// binding table (an unmatched chord is ignored), a button press through the
/// mouse table; window lifecycle events update the model; and every change
/// to the model is followed by a relayout of the visible screens.
pub open spec fn step_post(
    pre: WindowManager,
    post: WindowManager,
    e: Event,
    out: Seq<WmAction>,
) -> bool {
    let hooks_out = chain_spec(pre.hooks@, e);
    match e {
        Event::KeyPress { mods, keycode } => {
            match table_lookup(pre.bindings.entries@, Chord { mods, keycode }) {
                None => post.clients == pre.clients && post.state is Idle && out == hooks_out,
                Some(a) => {
                    &&& key_action_applied(a, pre.clients, post.clients)
                    &&& (post.state is ShuttingDown <==> a == Action::Exit)
                    &&& out == hooks_out + key_action_out(a, pre.clients) + (if action_mutates(a) {
                        relayout_spec(post.clients)
                    } else {
                        Seq::empty()
                    })
                },
            }
        },
        Event::ButtonPress { mods, button } => {
            &&& post.clients == pre.clients
            &&& post.state is Idle
            &&& out == hooks_out + mouse_out(pre.mouse@, MouseState { button, mods }, pre.clients)
        },
        Event::MapRequest { window } => {
            &&& post.state is Idle
            &&& if pre.clients.has_window(window) {
                post.clients == pre.clients && out == hooks_out
            } else {
                window_insert_post(pre.clients, post.clients, window) && out == hooks_out
                    + relayout_spec(post.clients)
            }
        },
        Event::UnmapNotify { window } => {
            &&& post.state is Idle
            &&& window_removal_post(pre.clients, post.clients, window)
            &&& out == hooks_out + relayout_spec(post.clients)
        },
        Event::DestroyNotify { window } => {
            &&& post.state is Idle
            &&& window_removal_post(pre.clients, post.clients, window)
            &&& out == hooks_out + relayout_spec(post.clients)
        },
        Event::PropertyNotify { window } => post.clients == pre.clients && post.state is Idle
            && out == hooks_out,
        Event::RandrNotify => post.clients == pre.clients && post.state is Idle && out
            == hooks_out,
        Event::Unknown => post.clients == pre.clients && post.state is Idle && out == hooks_out,
        Event::ConnectionLost => true,
    }
}

/// The monitor geometry can seat a model: at least one screen, every region
/// within the coordinate space.
pub open spec fn geometry_ok(rects: Seq<Rect>) -> bool {
    &&& rects.len() > 0
    &&& forall|i: int| 0 <= i < rects.len() ==> (#[trigger] rects[i]).fits()
}

/// The tag list can seat the screens: one tag per screen at least, every tag
/// empty and well-formed, and no name used twice.
pub open spec fn tags_ok(tags: Seq<Tag>, nscreens: int) -> bool {
    &&& tags.len() >= nscreens
    &&& forall|t: int| 0 <= t < tags.len() ==> (#[trigger] tags[t]).wf()
    &&& forall|t: int| 0 <= t < tags.len() ==> (#[trigger] tags[t]).windows@.len() == 0
    &&& forall|t1: int, t2: int|
        0 <= t1 < tags.len() && 0 <= t2 < tags.len() && t1 != t2 ==> (#[trigger] tags[t1]).name@
            != (#[trigger] tags[t2]).name@
}

impl WindowManager {
    /// The model invariant holds; the loop state is one of the two.
    pub open spec fn wf(self) -> bool {
        self.clients.wf()
    }

    /// Assemble a window manager: check the monitor geometry and the tag
    /// list, resolve and build the key-binding table, then the client model.
    /// Fails — before any state exists or any window is managed — exactly
    /// when the geometry or the tag list is invalid, a chord is malformed,
    /// or a key symbol does not resolve: fatal configuration errors.
    pub fn new(
        tags: Vec<Tag>,
        screen_rects: Vec<Rect>,
        raw_bindings: Vec<(String, Action)>,
        resolver: &Vec<(String, u8)>,
        mouse: Vec<(MouseState, MouseAction)>,
        hooks: Vec<Hook>,
        border_width: u32,
        focused_border: u32,
    ) -> (r: Result<WindowManager, ConfigError>)
        ensures
            match r {
                Ok(wm) => {
                    &&& geometry_ok(screen_rects@)
                    &&& tags_ok(tags@, screen_rects@.len() as int)
                    &&& forall|i: int|
                        0 <= i < raw_bindings@.len() ==> entry_resolvable(
                            (#[trigger] raw_bindings@[i]).0@,
                            resolver@,
                        )
                    &&& wm.wf()
                    &&& wm.state is Idle
                    &&& wm.bindings.entries@ == build_spec(raw_bindings@, resolver@)
                    &&& wm.clients.tags@ == tags@
                    &&& wm.clients.focused_screen == 0
                    &&& wm.hooks@ == hooks@
                    &&& wm.mouse@ == mouse@
                    &&& wm.border_width == border_width
                    &&& wm.focused_border == focused_border
                },
                Err(e) => match e {
                    ConfigError::InvalidGeometry => !geometry_ok(screen_rects@),
                    ConfigError::InvalidTags => geometry_ok(screen_rects@) && !tags_ok(
                        tags@,
                        screen_rects@.len() as int,
                    ),
                    _ => geometry_ok(screen_rects@) && tags_ok(
                        tags@,
                        screen_rects@.len() as int,
                    ) && exists|i: int|
                        0 <= i < raw_bindings@.len() && !entry_resolvable(
                            (#[trigger] raw_bindings@[i]).0@,
                            resolver@,
                        ),
                },
            },
    {
        if screen_rects.len() == 0 {
            return Err(ConfigError::InvalidGeometry);
        }
        let mut i: usize = 0;
        while i < screen_rects.len()
            invariant
                i <= screen_rects@.len(),
                forall|j: int| 0 <= j < i as int ==> (#[trigger] screen_rects@[j]).fits(),
            decreases screen_rects@.len() - i,
        {
            let rc = screen_rects[i];
            if (rc.x as u64) + (rc.w as u64) > (u32::MAX as u64) || (rc.y as u64) + (rc.h as u64)
                > (u32::MAX as u64) {
                return Err(ConfigError::InvalidGeometry);
            }
            i += 1;
        }
        if tags.len() < screen_rects.len() {
            return Err(ConfigError::InvalidTags);
        }
        let mut t: usize = 0;
        while t < tags.len()
            invariant
                geometry_ok(screen_rects@),
                t <= tags@.len(),
                forall|u: int|
                    0 <= u < t as int ==> (#[trigger] tags@[u]).wf() && tags@[u].windows@.len()
                        == 0,
            decreases tags@.len() - t,
        {
            if !tags[t].is_startup_ready() {
                return Err(ConfigError::InvalidTags);
            }
            t += 1;
        }
        let mut t1: usize = 0;
        while t1 < tags.len()
            invariant
                geometry_ok(screen_rects@),
                t1 <= tags@.len(),
                forall|u1: int, u2: int|
                    0 <= u1 < t1 as int && u1 < u2 < tags@.len()
                        ==> (#[trigger] tags@[u1]).name@ != (#[trigger] tags@[u2]).name@,
            decreases tags@.len() - t1,
        {
            let mut t2: usize = t1 + 1;
            while t2 < tags.len()
                invariant
                    geometry_ok(screen_rects@),
                    t1 < t2 <= tags@.len(),
                    forall|u2: int|
                        t1 < u2 < t2 as int ==> (#[trigger] tags@[u2]).name@ != tags@[
                            t1 as int
                        ].name@,
                decreases tags@.len() - t2,
            {
                if crate::strutil::str_eq(tags[t1].name.as_str(), tags[t2].name.as_str()) {
                    return Err(ConfigError::InvalidTags);
                }
                t2 += 1;
            }
            t1 += 1;
        }
        proof {
            assert forall|u1: int, u2: int|
                0 <= u1 < tags@.len() && 0 <= u2 < tags@.len() && u1 != u2 implies (
            #[trigger] tags@[u1]).name@ != (#[trigger] tags@[u2]).name@ by {}
        }
        let bindings = match BindingTable::build(raw_bindings, resolver) {
            Ok(t) => t,
            Err(e) => {
                return Err(e);
            },
        };
        let clients = ClientSet::new(tags, screen_rects);
        Ok(
            WindowManager {
                clients,
                bindings,
                mouse,
                hooks,
                state: LoopState::Idle,
                border_width,
                focused_border,
            },
        )
    }

    /// The first entry of the mouse table for this pointer chord, if any.
    fn lookup_mouse(&self, ms: MouseState) -> (r: Option<MouseAction>)
        ensures
            r == mouse_lookup(self.mouse@, ms),
    {
        let mut i: usize = 0;
        proof {
            assert(self.mouse@.skip(0) =~= self.mouse@);
        }
        while i < self.mouse.len()
            invariant
                i <= self.mouse@.len(),
                mouse_lookup(self.mouse@, ms) == mouse_lookup(self.mouse@.skip(i as int), ms),
            decreases self.mouse@.len() - i,
        {
            proof {
                assert(self.mouse@.skip(i as int)[0] == self.mouse@[i as int]);
                assert(self.mouse@.skip(i as int).skip(1) =~= self.mouse@.skip(i as int + 1));
            }
            if self.mouse[i].0 == ms {
                return Some(self.mouse[i].1);
            }
            i += 1;
        }
        None
    }

    /// Handle one event: run the hook chain, dispatch a key or button press
    /// through the binding tables, track window lifecycle in the model, and
    /// relayout after every model change. A lost connection moves the
    /// machine to its terminal state; once there, every event is ignored.
    pub fn step(&mut self, e: Event) -> (out: Vec<WmAction>)
        requires
            old(self).wf(),
        ensures
            final(self).wf(),
            final(self).bindings == old(self).bindings,
            final(self).mouse == old(self).mouse,
            final(self).hooks == old(self).hooks,
            final(self).border_width == old(self).border_width,
            final(self).focused_border == old(self).focused_border,
            old(self).state is ShuttingDown ==> *final(self) == *old(self) && out@ == Seq::<
                WmAction,
            >::empty(),
            (old(self).state is Idle && e is ConnectionLost) ==> final(self).state
                is ShuttingDown && final(self).clients == old(self).clients && out@ == Seq::<
                WmAction,
            >::empty(),
            (old(self).state is Idle && !(e is ConnectionLost)) ==> step_post(
                *old(self),
                *final(self),
                e,
                out@,
            ),
    {
        match self.state {
            LoopState::ShuttingDown => {
                return Vec::new();
            },
            LoopState::Idle => {},
        }
        match e {
            Event::ConnectionLost => {
                self.state = LoopState::ShuttingDown;
                return Vec::new();
            },
            _ => {},
        }
        let mut out = run_chain(&self.hooks, &e);
        match e {
            Event::KeyPress { mods, keycode } => {
                let found = self.bindings.lookup(mods, keycode);
                match found {
                    None => {},
                    Some(a) => {
                        let mut mutated = false;
                        match a {
                            Action::FocusUp => {
                                self.clients.focus_up();
                                mutated = true;
                            },
                            Action::FocusDown => {
                                self.clients.focus_down();
                                mutated = true;
                            },
                            Action::SwapUp => {
                                self.clients.swap_up();
                                mutated = true;
                            },
                            Action::SwapDown => {
                                self.clients.swap_down();
                                mutated = true;
                            },
                            Action::ToggleTag => {
                                self.clients.toggle_tag();
                                mutated = true;
                            },
                            Action::NextScreen => {
                                self.clients.next_screen();
                                mutated = true;
                            },
                            Action::PreviousScreen => {
                                self.clients.previous_screen();
                                mutated = true;
                            },
                            Action::PullOtherScreenTag => {
                                self.pull_other_screen_tag();
                                mutated = true;
                            },
                            Action::NextLayout => {
                                self.clients.next_layout();
                                mutated = true;
                            },
                            Action::PreviousLayout => {
                                self.clients.previous_layout();
                                mutated = true;
                            },
                            Action::SendLayout(m) => {
                                self.clients.send_message(*m);
                                mutated = true;
                            },
                            Action::FocusTag(name) => {
                                self.clients.focus_tag(name.as_str());
                                mutated = true;
                            },
                            Action::MoveFocusedToTag(name) => {
                                self.clients.move_focused_to_tag(name.as_str());
                                mutated = true;
                            },
                            Action::KillFocused => {
                                match self.clients.focused() {
                                    Some(w) => {
                                        out.push(WmAction::KillWindow { window: w });
                                    },
                                    None => {},
                                }
                            },
                            Action::ToggleFullscreen => {
                                match self.clients.focused() {
                                    Some(w) => {
                                        out.push(WmAction::ToggleFullscreen { window: w });
                                    },
                                    None => {},
                                }
                            },
                            Action::ToggleFloating => {
                                match self.clients.focused() {
                                    Some(w) => {
                                        out.push(WmAction::ToggleFloating { window: w });
                                    },
                                    None => {},
                                }
                            },
                            Action::SinkFocused => {
                                match self.clients.focused() {
                                    Some(w) => {
                                        out.push(WmAction::SinkWindow { window: w });
                                    },
                                    None => {},
                                }
                            },
                            Action::Exit => {
                                self.state = LoopState::ShuttingDown;
                            },
                            Action::Spawn(cmd) => {
                                out.push(WmAction::Spawn { command: cmd.clone() });
                            },
                            Action::FocusOrSpawn(class, cmd) => {
                                out.push(
                                    WmAction::FocusOrSpawn {
                                        class: class.clone(),
                                        command: cmd.clone(),
                                    },
                                );
                            },
                        }
                        if mutated {
                            let mut lay = self.relayout();
                            out.append(&mut lay);
                        }
                        proof {
                            assert(out@ =~= chain_spec(old(self).hooks@, e) + key_action_out(
                                *a,
                                old(self).clients,
                            ) + (if action_mutates(*a) {
                                relayout_spec(self.clients)
                            } else {
                                Seq::<WmAction>::empty()
                            }));
                        }
                    },
                }
            },
            Event::ButtonPress { mods, button } => {
                match self.lookup_mouse(MouseState { button, mods }) {
                    None => {},
                    Some(ma) => {
                        match self.clients.focused() {
                            None => {},
                            Some(w) => {
                                match ma {
                                    MouseAction::DragMove => {
                                        out.push(WmAction::StartMouseDrag { window: w });
                                    },
                                    MouseAction::DragResize => {
                                        out.push(WmAction::StartMouseResize { window: w });
                                    },
                                    MouseAction::SinkFocused => {
                                        out.push(WmAction::SinkWindow { window: w });
                                    },
                                }
                            },
                        }
                    },
                }
                proof {
                    assert(out@ =~= chain_spec(old(self).hooks@, e) + mouse_out(
                        old(self).mouse@,
                        MouseState { button, mods },
                        old(self).clients,
                    ));
                }
            },
            Event::MapRequest { window } => {
                if !self.clients.contains_window(window) {
                    self.clients.insert_window(window);
                    let mut lay = self.relayout();
                    out.append(&mut lay);
                }
            },
            Event::UnmapNotify { window } => {
                self.clients.remove_window(window);
                let mut lay = self.relayout();
                out.append(&mut lay);
            },
            Event::DestroyNotify { window } => {
                self.clients.remove_window(window);
                let mut lay = self.relayout();
                out.append(&mut lay);
            },
            Event::PropertyNotify { .. } => {},
            Event::RandrNotify => {},
            Event::Unknown => {},
            Event::ConnectionLost => {},
        }
        out
    }

    /// Pull the tag shown on the first other screen onto the focused screen
    /// (they trade places); a no-op with a single screen.
    fn pull_other_screen_tag(&mut self)
        requires
            old(self).wf(),
        ensures
            final(self).wf(),
            final(self).bindings == old(self).bindings,
            final(self).mouse == old(self).mouse,
            final(self).hooks == old(self).hooks,
            final(self).state == old(self).state,
            final(self).border_width == old(self).border_width,
            final(self).focused_border == old(self).focused_border,
            key_action_applied(Action::PullOtherScreenTag, old(self).clients, final(self).clients),
    {
        if self.clients.screens.len() < 2 {
            return ;
        }
        let s2: usize = if self.clients.focused_screen == 0 {
            1
        } else {
            0
        };
        let t = self.clients.screens[s2].tag;
        let name = self.clients.tags[t].name.clone();
        let ghost pre = self.clients;
        self.clients.pull_tag_to_screen(name.as_str());
        proof {
            assert(pre.tags@[t as int].name@ == name@);
            assert(pre.screens@[pre.focused_screen as int].tag != t) by {
                assert(s2 as int != pre.focused_screen as int);
            }
        }
    }

    /// Compute the positions of every visible window, screen by screen.
    pub fn relayout(&self) -> (out: Vec<WmAction>)
        requires
            self.clients.wf(),
        ensures
            out@ == relayout_spec(self.clients),
    {
        let mut out: Vec<WmAction> = Vec::new();
        let mut s: usize = 0;
        while s < self.clients.screens.len()
            invariant
                self.clients.wf(),
                s <= self.clients.screens@.len(),
                out@ + relayout_from(self.clients, s as int) == relayout_from(self.clients, 0),
            decreases self.clients.screens@.len() - s,
        {
            let t = self.clients.screens[s].tag;
            let tag = &self.clients.tags[t];
            let placed = tag.layouts.apply(&tag.windows, tag.focus, self.clients.screens[s].rect);
            let ghost placed_spec = placed@;
            let mut part: Vec<WmAction> = Vec::new();
            let mut i: usize = 0;
            while i < placed.len()
                invariant
                    placed@ == placed_spec,
                    i <= placed@.len(),
                    part@ =~= placed_spec.take(i as int).map_values(
                        |p: (u64, Rect)| WmAction::Position { window: p.0, rect: p.1 },
                    ),
                decreases placed@.len() - i,
            {
                let (w, rc) = placed[i];
                part.push(WmAction::Position { window: w, rect: rc });
                proof {
                    assert(placed_spec.take(i as int + 1).map_values(
                        |p: (u64, Rect)| WmAction::Position { window: p.0, rect: p.1 },
                    ) =~= placed_spec.take(i as int).map_values(
                        |p: (u64, Rect)| WmAction::Position { window: p.0, rect: p.1 },
                    ).push(WmAction::Position { window: w, rect: rc }));
                }
                i += 1;
            }
            proof {
                assert(placed_spec.take(placed_spec.len() as int) =~= placed_spec);
                assert(part@ =~= screen_positions(self.clients, s as int));
            }
            let ghost out_before = out@;
            out.append(&mut part);
            proof {
                assert(out@ + relayout_from(self.clients, s as int + 1) =~= out_before + (
                screen_positions(self.clients, s as int) + relayout_from(
                    self.clients,
                    s as int + 1,
                )));
            }
            s += 1;
        }
        proof {
            assert(out@ =~= out@ + relayout_from(self.clients, self.clients.screens@.len() as int));
        }
        out
    }
}

} // verus!
