//! The event-loop core: startup, dispatch, hooks and shutdown.

use wmcore::bindings::{Action, ConfigError, ModSet};
use wmcore::client_set::Tag;
use wmcore::defaults::{layouts, mouse_bindings, raw_key_bindings};
use wmcore::events::{Event, WmAction};
use wmcore::geometry::Rect;
use wmcore::hooks::{Hook, fullscreen_border};
use wmcore::wm::{LoopState, MouseState, WindowManager};

fn tag(name: &str) -> Tag {
    Tag { name: name.to_string(), windows: Vec::new(), focus: 0, layouts: layouts() }
}

fn rect(x: u32, y: u32, w: u32, h: u32) -> Rect {
    Rect { x, y, w, h }
}

fn meta() -> ModSet {
    ModSet { meta: true, shift: false, alt: false, ctrl: false }
}

/// A small resolver: chord symbols for the tests below.
fn resolver() -> Vec<(String, u8)> {
    vec![
        ("Right".to_string(), 114),
        ("q".to_string(), 24),
        ("p".to_string(), 33),
    ]
}

fn raw() -> Vec<(String, Action)> {
    vec![
        ("M-Right".to_string(), Action::FocusDown),
        ("M-S-q".to_string(), Action::Exit),
        ("M-p".to_string(), Action::Spawn("dmenu_run".to_string())),
        ("M-q".to_string(), Action::KillFocused),
    ]
}

fn manager() -> WindowManager {
    WindowManager::new(
        vec![tag("1"), tag("2")],
        vec![rect(0, 0, 800, 600)],
        raw(),
        &resolver(),
        mouse_bindings(),
        vec![
            Hook::FullScreen { fullscreen_border_px: 0 },
            Hook::Monitor { path: "/tmp/wall.jpg".to_string() },
        ],
        2,
        0xffffffff,
    )
    .unwrap()
}

#[test]
fn startup_fails_on_an_unresolvable_symbol() {
    // the resolver lacks "S-q"'s symbol: startup must fail before any
    // window is managed, with no partial state
    let res = WindowManager::new(
        vec![tag("1")],
        vec![rect(0, 0, 800, 600)],
        raw(),
        &vec![("Right".to_string(), 114u8)],
        mouse_bindings(),
        Vec::new(),
        2,
        0xffffffff,
    );
    match res {
        Err(ConfigError::UnresolvedKeysym(sym)) => assert_eq!(sym, "q"),
        other => panic!("expected startup to fail, got {:?}", other.is_ok()),
    }
}

#[test]
fn startup_fails_on_invalid_monitor_geometry() {
    let res = WindowManager::new(
        vec![tag("1")],
        Vec::new(),
        raw(),
        &resolver(),
        mouse_bindings(),
        Vec::new(),
        2,
        0xffffffff,
    );
    assert_eq!(res.err(), Some(ConfigError::InvalidGeometry));
    // a region whose far edge leaves the coordinate space
    let res = WindowManager::new(
        vec![tag("1")],
        vec![rect(u32::MAX - 10, 0, 100, 100)],
        raw(),
        &resolver(),
        mouse_bindings(),
        Vec::new(),
        2,
        0xffffffff,
    );
    assert_eq!(res.err(), Some(ConfigError::InvalidGeometry));
}

#[test]
fn startup_fails_on_a_bad_tag_list() {
    // fewer tags than screens
    let res = WindowManager::new(
        Vec::new(),
        vec![rect(0, 0, 800, 600)],
        raw(),
        &resolver(),
        mouse_bindings(),
        Vec::new(),
        2,
        0xffffffff,
    );
    assert_eq!(res.err(), Some(ConfigError::InvalidTags));
    // two tags under one name
    let res = WindowManager::new(
        vec![tag("1"), tag("1")],
        vec![rect(0, 0, 800, 600)],
        raw(),
        &resolver(),
        mouse_bindings(),
        Vec::new(),
        2,
        0xffffffff,
    );
    assert_eq!(res.err(), Some(ConfigError::InvalidTags));
}

#[test]
fn startup_succeeds_with_the_stock_bindings_resolved() {
    // the stock table needs every one of its symbols resolved
    let full: Vec<(String, u8)> = [
        "Left", "Up", "Right", "Down", "k", "j", "q", "Tab", "bracketright", "bracketleft",
        "grave", "f", "space", "p", "c", "Return", "d", "b", "v", "l", "s", "Print",
        "XF86AudioRaiseVolume", "XF86AudioLowerVolume", "XF86AudioMute", "XF86MonBrightnessUp",
        "XF86MonBrightnessDown", "XF86AudioPlay", "XF86AudioNext", "XF86AudioPrev", "1", "2", "3",
        "4", "5", "6", "7", "8", "9",
    ]
    .iter()
    .enumerate()
    .map(|(i, n)| (n.to_string(), (i + 8) as u8))
    .collect();
    let wm = WindowManager::new(
        vec![
            tag("1"), tag("2"), tag("3"), tag("4"), tag("5"), tag("6"), tag("7"), tag("8"),
            tag("9"),
        ],
        vec![rect(0, 0, 1920, 1080)],
        raw_key_bindings(),
        &full,
        mouse_bindings(),
        Vec::new(),
        2,
        0xffffffff,
    )
    .unwrap();
    assert_eq!(wm.state, LoopState::Idle);
}

#[test]
fn key_dispatch_moves_focus_and_relays_positions() {
    let mut wm = manager();
    let out = wm.step(Event::MapRequest { window: 10 });
    assert!(out.contains(&WmAction::Position { window: 10, rect: rect(10, 10, 780, 580) }));
    wm.step(Event::MapRequest { window: 11 });
    assert_eq!(wm.clients.focused(), Some(11));
    let out = wm.step(Event::KeyPress { mods: meta(), keycode: 114 });
    assert_eq!(wm.clients.focused(), Some(10));
    // a model change is followed by a relayout of the visible screen
    assert!(out.iter().any(|a| matches!(a, WmAction::Position { .. })));
}

#[test]
fn unmatched_chord_is_ignored() {
    let mut wm = manager();
    wm.step(Event::MapRequest { window: 10 });
    let out = wm.step(Event::KeyPress { mods: meta(), keycode: 99 });
    assert_eq!(out, Vec::new());
    assert_eq!(wm.state, LoopState::Idle);
    assert_eq!(wm.clients.focused(), Some(10));
}

#[test]
fn exit_binding_shuts_the_loop_down() {
    let mut wm = manager();
    let shift_meta = ModSet { meta: true, shift: true, alt: false, ctrl: false };
    wm.step(Event::KeyPress { mods: shift_meta, keycode: 24 });
    assert_eq!(wm.state, LoopState::ShuttingDown);
    // once terminal, every event is ignored
    let out = wm.step(Event::MapRequest { window: 12 });
    assert_eq!(out, Vec::new());
    assert!(!wm.clients.contains_window(12));
}

#[test]
fn connection_loss_is_fatal() {
    let mut wm = manager();
    let out = wm.step(Event::ConnectionLost);
    assert_eq!(out, Vec::new());
    assert_eq!(wm.state, LoopState::ShuttingDown);
}

#[test]
fn unknown_events_are_ignored_and_the_loop_continues() {
    let mut wm = manager();
    wm.step(Event::MapRequest { window: 10 });
    let out = wm.step(Event::Unknown);
    assert_eq!(out, Vec::new());
    assert_eq!(wm.state, LoopState::Idle);
    assert_eq!(wm.clients.focused(), Some(10));
}

#[test]
fn spawn_binding_emits_the_command() {
    let mut wm = manager();
    let out = wm.step(Event::KeyPress { mods: meta(), keycode: 33 });
    assert_eq!(out, vec![WmAction::Spawn { command: "dmenu_run".to_string() }]);
}

#[test]
fn kill_binding_requests_destruction_and_destroy_notify_removes() {
    let mut wm = manager();
    wm.step(Event::MapRequest { window: 10 });
    let out = wm.step(Event::KeyPress { mods: meta(), keycode: 24 });
    assert_eq!(out, vec![WmAction::KillWindow { window: 10 }]);
    // the model still holds the window until the server confirms
    assert!(wm.clients.contains_window(10));
    wm.step(Event::DestroyNotify { window: 10 });
    assert!(!wm.clients.contains_window(10));
}

#[test]
fn hooks_run_in_order_for_matching_events() {
    let mut wm = manager();
    let out = wm.step(Event::PropertyNotify { window: 42 });
    assert_eq!(out, vec![WmAction::UpdateBorder { window: 42, fullscreen_border_px: 0 }]);
    let out = wm.step(Event::RandrNotify);
    assert_eq!(out, vec![WmAction::SetWallpaper { path: "/tmp/wall.jpg".to_string() }]);
}

#[test]
fn mouse_binding_acts_on_the_focused_window() {
    let mut wm = manager();
    wm.step(Event::MapRequest { window: 10 });
    let shift_meta = ModSet { meta: true, shift: true, alt: false, ctrl: false };
    let out = wm.step(Event::ButtonPress { mods: shift_meta, button: 1 });
    assert_eq!(out, vec![WmAction::StartMouseDrag { window: 10 }]);
    let out = wm.step(Event::ButtonPress { mods: shift_meta, button: 2 });
    assert_eq!(out, vec![WmAction::SinkWindow { window: 10 }]);
    let out = wm.step(Event::ButtonPress { mods: meta(), button: 1 });
    assert_eq!(out, Vec::new());
}

#[test]
fn fullscreen_border_follows_the_property_values() {
    let fullscreen_atom = 355;
    assert_eq!(fullscreen_border(&vec![12, 355, 9], fullscreen_atom, 0, 2), 0);
    assert_eq!(fullscreen_border(&vec![12, 9], fullscreen_atom, 0, 2), 2);
    assert_eq!(fullscreen_border(&Vec::new(), fullscreen_atom, 0, 2), 2);
}

#[test]
fn mouse_state_lookup_is_exact() {
    let table = mouse_bindings();
    let shift_meta = ModSet { meta: true, shift: true, alt: false, ctrl: false };
    assert!(table.iter().any(|(ms, _)| *ms == MouseState { button: 1, mods: shift_meta }));
    assert_eq!(table.len(), 3);
}
