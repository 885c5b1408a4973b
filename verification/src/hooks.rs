//! The event-hook chain: an ordered list of handlers run for every incoming
//! event. Each hook decides on a request for the host to perform and whether
//! processing continues to the next hook; a hook that returns `false`
//! swallows the event for the hooks after it.
//!
//! The hooks themselves are pure decisions here: the I/O they ask for (a
//! property query, a border change, a process spawn) travels back to the
//! host as a `WmAction`.

use vstd::prelude::*;
use crate::events::{Event, WmAction};

verus! {

/// A hook in the chain.
pub enum Hook {
    /// On a property change, have the host re-read the window's fullscreen
    /// state and set its border: `fullscreen_border_px` when fullscreen, the
    /// configured width otherwise (see `fullscreen_border`).
    FullScreen { fullscreen_border_px: u32 },
    /// On a monitor change, have the host re-apply the wallpaper at `path`.
    Monitor { path: String },
}

/// What one hook asks for on one event, and whether the chain continues.
/// Both built-in hooks always continue.
pub open spec fn hook_decide_spec(h: Hook, e: Event) -> (Option<WmAction>, bool) {
    match h {
        Hook::FullScreen { fullscreen_border_px } => (
            match e {
                Event::PropertyNotify { window } => Some(
                    WmAction::UpdateBorder { window, fullscreen_border_px },
                ),
                _ => None,
            },
            true,
        ),
        Hook::Monitor { path } => (
            match e {
                Event::RandrNotify => Some(WmAction::SetWallpaper { path }),
                _ => None,
            },
            true,
        ),
    }
}

/// The requests a chain makes on `e`, in hook order, stopping after the
/// first hook that swallows the event.
pub open spec fn chain_spec(hooks: Seq<Hook>, e: Event) -> Seq<WmAction>
    decreases hooks.len(),
{
    if hooks.len() == 0 {
        Seq::empty()
    } else {
        let (req, cont) = hook_decide_spec(hooks[0], e);
        let head: Seq<WmAction> = match req {
            Some(a) => seq![a],
            None => Seq::empty(),
        };
        if cont {
            head + chain_spec(hooks.skip(1), e)
        } else {
            head
        }
    }
}

impl Hook {
    /// Decide this hook's request for `e`; the flag says whether the event
    /// passes on to the next hook.
    pub fn decide(&self, e: &Event) -> (r: (Option<WmAction>, bool))
        ensures
            r == hook_decide_spec(*self, *e),
    {
        match self {
            Hook::FullScreen { fullscreen_border_px } => {
                match e {
                    Event::PropertyNotify { window } => (
                        Some(
                            WmAction::UpdateBorder {
                                window: *window,
                                fullscreen_border_px: *fullscreen_border_px,
                            },
                        ),
                        true,
                    ),
                    _ => (None, true),
                }
            },
            Hook::Monitor { path } => {
                match e {
                    Event::RandrNotify => (
                        Some(WmAction::SetWallpaper { path: path.clone() }),
                        true,
                    ),
                    _ => (None, true),
                }
            },
        }
    }
}

/// Run the chain on `e`: every hook in order, later hooks seeing the event
/// only while earlier ones let it pass.
pub fn run_chain(hooks: &Vec<Hook>, e: &Event) -> (out: Vec<WmAction>)
    ensures
        out@ == chain_spec(hooks@, *e),
{
    let mut out: Vec<WmAction> = Vec::new();
    let mut i: usize = 0;
    proof {
        assert(hooks@.skip(0) =~= hooks@);
    }
    while i < hooks.len()
        invariant
            i <= hooks@.len(),
            out@ + chain_spec(hooks@.skip(i as int), *e) == chain_spec(hooks@, *e),
        decreases hooks@.len() - i,
    {
        proof {
            assert(hooks@.skip(i as int)[0] == hooks@[i as int]);
            assert(hooks@.skip(i as int).skip(1) =~= hooks@.skip(i as int + 1));
        }
        let (req, cont) = hooks[i].decide(e);
        match req {
            Some(a) => {
                out.push(a);
            },
            None => {},
        }
        if !cont {
            return out;
        }
        i += 1;
    }
    proof {
        assert(out@ =~= out@ + chain_spec(hooks@.skip(hooks@.len() as int), *e));
    }
    out
}

/// The border width a window should get, from the values of its state
/// property: the fullscreen width exactly when the fullscreen atom is among
/// them, the normal width otherwise.
pub fn fullscreen_border(vals: &Vec<u32>, fullscreen_atom: u32, fullscreen_px: u32, normal_px: u32) -> (r: u32)
    ensures
        r == if vals@.contains(fullscreen_atom) {
            fullscreen_px
        } else {
            normal_px
        },
{
    let mut i: usize = 0;
    while i < vals.len()
        invariant
            i <= vals@.len(),
            forall|j: int| 0 <= j < i as int ==> vals@[j] != fullscreen_atom,
        decreases vals@.len() - i,
    {
        if vals[i] == fullscreen_atom {
            proof {
                assert(vals@.contains(fullscreen_atom)) by {
                    assert(vals@[i as int] == fullscreen_atom);
                }
            }
            return fullscreen_px;
        }
        i += 1;
    }
    proof {
        if vals@.contains(fullscreen_atom) {
            let j = choose|j: int| 0 <= j < vals@.len() && vals@[j] == fullscreen_atom;
            assert(vals@[j] != fullscreen_atom);
        }
    }
    normal_px
}

} // verus!
