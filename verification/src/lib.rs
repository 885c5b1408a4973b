//! Core of a tiling window manager for X11: a pure data model of windows,
//! tags (virtual desktops), screens and focus; cyclable layout stacks that
//! turn a window list and a screen region into rectangle placements; a
//! key-binding table built from chord strings; event-hook decisions; and the
//! event-loop state machine that ties them together.
//!
//! Everything here is synchronous and free of I/O: the X connection itself is
//! a collaborator that a host process owns. The host feeds events in and
//! carries the returned actions (configure a window, spawn a process, kill a
//! window) out to the server.

pub mod geometry;
pub mod layout;
pub mod layout_stack;
pub mod strutil;
pub mod client_set;
pub mod bindings;
pub mod events;
pub mod hooks;
pub mod wm;
pub mod defaults;
