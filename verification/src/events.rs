//! The events the window manager consumes and the actions it hands back to
//! its host. The host owns the X connection: it reads events from the
//! server, feeds them to the core, and carries the returned actions out.

use vstd::prelude::*;
use crate::bindings::ModSet;
use crate::geometry::Rect;

verus! {

/// One event from the X server, reduced to the data the core decides on.
#[derive(Debug, PartialEq, Eq)]
pub enum Event {
    /// A key was pressed with these modifiers held.
    KeyPress { mods: ModSet, keycode: u8 },
    /// A pointer button was pressed with these modifiers held.
    ButtonPress { mods: ModSet, button: u8 },
    /// A window's property changed.
    PropertyNotify { window: u64 },
    /// The monitor set changed.
    RandrNotify,
    /// A window asked to be mapped (shown).
    MapRequest { window: u64 },
    /// A window was unmapped.
    UnmapNotify { window: u64 },
    /// A window was destroyed.
    DestroyNotify { window: u64 },
    /// A malformed or unexpected event: logged by the host, ignored here.
    Unknown,
    /// The connection to the server failed: fatal.
    ConnectionLost,
}

/// One effect for the host to carry out against the X server (or the
/// operating system, for spawning).
#[derive(Debug, PartialEq, Eq)]
pub enum WmAction {
    /// Configure a window to this geometry.
    Position { window: u64, rect: Rect },
    /// Ask the server to destroy this window.
    KillWindow { window: u64 },
    /// Start a detached external process.
    Spawn { command: String },
    /// Focus the window of this class if one exists, else spawn the command.
    FocusOrSpawn { class: String, command: String },
    /// Toggle the window's fullscreen state.
    ToggleFullscreen { window: u64 },
    /// Toggle the window in and out of the floating layer.
    ToggleFloating { window: u64 },
    /// Sink the window back into the tiled layer.
    SinkWindow { window: u64 },
    /// Begin a pointer-driven move of the window.
    StartMouseDrag { window: u64 },
    /// Begin a pointer-driven resize of the window.
    StartMouseResize { window: u64 },
    /// Query the window's state property and set its border accordingly.
    UpdateBorder { window: u64, fullscreen_border_px: u32 },
    /// Run the wallpaper-setting command for this image path.
    SetWallpaper { path: String },
}

} // verus!
