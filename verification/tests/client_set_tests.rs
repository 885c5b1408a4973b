//! The client model: focus movement, swaps, tag and screen operations.

use wmcore::client_set::{ClientSet, Tag};
use wmcore::defaults::layouts;
use wmcore::geometry::Rect;

fn tag(name: &str) -> Tag {
    Tag { name: name.to_string(), windows: Vec::new(), focus: 0, layouts: layouts() }
}

fn rect(x: u32, y: u32, w: u32, h: u32) -> Rect {
    Rect { x, y, w, h }
}

/// One screen showing tag "1", tags "1" and "2", with the given windows
/// inserted into tag "1" (the last one focused).
fn one_screen(windows: &[u64]) -> ClientSet {
    let mut cs = ClientSet::new(
        vec![tag("1"), tag("2")],
        vec![rect(0, 0, 800, 600)],
    );
    for w in windows {
        cs.insert_window(*w);
    }
    cs
}

#[test]
fn exactly_one_window_is_globally_focused() {
    let mut cs = one_screen(&[1, 2, 3]);
    cs.move_focused_to_tag("2");
    let focused = cs.focused().unwrap();
    // the focused window is on the tag shown on the focused screen,
    // and on no other tag or position
    let shown = cs.screens[cs.focused_screen].tag;
    let mut occurrences = 0;
    for (t, tag) in cs.tags.iter().enumerate() {
        for (i, w) in tag.windows.iter().enumerate() {
            if *w == focused {
                occurrences += 1;
                assert_eq!(t, shown);
                assert_eq!(i, tag.focus);
            }
        }
    }
    assert_eq!(occurrences, 1);
}

#[test]
fn empty_model_has_no_focused_window() {
    let cs = one_screen(&[]);
    assert!(cs.focused().is_none());
}

#[test]
fn focus_up_then_down_round_trips() {
    let mut cs = one_screen(&[1, 2, 3]);
    let before = cs.focused();
    cs.focus_up();
    cs.focus_down();
    assert_eq!(cs.focused(), before);
    // and from the front boundary, where both moves wrap
    cs.focus_down();
    cs.focus_down();
    let before = cs.focused();
    cs.focus_up();
    cs.focus_down();
    assert_eq!(cs.focused(), before);
}

#[test]
fn focus_wraps_around_the_tag_order() {
    let mut cs = one_screen(&[1, 2]);
    // window 2 (the last inserted) is focused
    assert_eq!(cs.focused(), Some(2));
    cs.focus_down();
    assert_eq!(cs.focused(), Some(1));
    cs.focus_down();
    assert_eq!(cs.focused(), Some(2));
}

#[test]
fn focus_single_window_is_a_no_op() {
    let mut cs = one_screen(&[1]);
    cs.focus_down();
    assert_eq!(cs.focused(), Some(1));
    cs.focus_up();
    assert_eq!(cs.focused(), Some(1));
}

#[test]
fn swap_down_exchanges_and_follows_the_window() {
    let mut cs = one_screen(&[1, 2, 3]);
    cs.focus_up();
    cs.focus_up();
    // focus is on window 1 at the front
    assert_eq!(cs.focused(), Some(1));
    cs.swap_down();
    assert_eq!(cs.tags[0].windows, vec![2, 1, 3]);
    assert_eq!(cs.focused(), Some(1));
}

#[test]
fn swap_clamps_at_the_boundaries() {
    let mut cs = one_screen(&[1, 2]);
    // focus on the last window: swapping down does nothing
    cs.swap_down();
    assert_eq!(cs.tags[0].windows, vec![1, 2]);
    cs.swap_up();
    assert_eq!(cs.tags[0].windows, vec![2, 1]);
    // focus followed window 2 to the front: swapping up again does nothing
    cs.swap_up();
    assert_eq!(cs.tags[0].windows, vec![2, 1]);
}

#[test]
fn move_to_nonexistent_tag_is_bit_for_bit_unchanged() {
    let mut cs = one_screen(&[1, 2]);
    cs.move_focused_to_tag("no-such-tag");
    assert_eq!(cs.tags.len(), 2);
    assert_eq!(cs.tags[0].name, "1");
    assert_eq!(cs.tags[0].windows, vec![1, 2]);
    assert_eq!(cs.tags[0].focus, 1);
    assert_eq!(cs.tags[1].name, "2");
    assert_eq!(cs.tags[1].windows, Vec::<u64>::new());
    assert_eq!(cs.tags[1].focus, 0);
    assert_eq!(cs.focused_screen, 0);
    assert_eq!(cs.screens[0].tag, 0);
    assert_eq!(cs.screens[0].prev_tag, 0);
}

#[test]
fn move_focused_window_to_other_tag() {
    // two tags "1", "2", one screen showing "1" with windows [A, B], A focused
    let a: u64 = 0xA;
    let b: u64 = 0xB;
    let mut cs = one_screen(&[a, b]);
    cs.focus_down(); // wraps from B back to A
    assert_eq!(cs.focused(), Some(a));
    cs.move_focused_to_tag("2");
    assert_eq!(cs.tags[0].windows, vec![b]);
    assert_eq!(cs.focused(), Some(b));
    assert_eq!(cs.tags[1].windows, vec![a]);
    // the screen still shows tag "1"
    assert_eq!(cs.screens[0].tag, 0);
    assert_eq!(cs.tag_for_screen(0).unwrap().as_str(), "1");
}

#[test]
fn focus_tag_switches_and_toggle_comes_back() {
    let mut cs = one_screen(&[1]);
    cs.focus_tag("2");
    assert_eq!(cs.screens[0].tag, 1);
    assert_eq!(cs.screens[0].prev_tag, 0);
    assert!(cs.focused().is_none());
    cs.toggle_tag();
    assert_eq!(cs.screens[0].tag, 0);
    assert_eq!(cs.focused(), Some(1));
}

#[test]
fn focus_tag_with_unknown_name_is_a_no_op() {
    let mut cs = one_screen(&[1]);
    cs.focus_tag("9");
    assert_eq!(cs.screens[0].tag, 0);
    assert_eq!(cs.focused_screen, 0);
}

#[test]
fn focus_tag_shown_on_another_screen_focuses_that_screen() {
    let mut cs = ClientSet::new(
        vec![tag("1"), tag("2")],
        vec![rect(0, 0, 800, 600), rect(800, 0, 800, 600)],
    );
    assert_eq!(cs.focused_screen, 0);
    cs.focus_tag("2");
    assert_eq!(cs.focused_screen, 1);
    assert_eq!(cs.screens[0].tag, 0);
    assert_eq!(cs.screens[1].tag, 1);
}

#[test]
fn screens_cycle_by_index() {
    let mut cs = ClientSet::new(
        vec![tag("1"), tag("2"), tag("3")],
        vec![rect(0, 0, 800, 600), rect(800, 0, 800, 600)],
    );
    cs.next_screen();
    assert_eq!(cs.current_screen_index(), 1);
    cs.next_screen();
    assert_eq!(cs.current_screen_index(), 0);
    cs.previous_screen();
    assert_eq!(cs.current_screen_index(), 1);
}

#[test]
fn pull_hidden_tag_displaces_and_retains() {
    let mut cs = one_screen(&[1, 2]);
    cs.pull_tag_to_screen("2");
    assert_eq!(cs.screens[0].tag, 1);
    assert_eq!(cs.screens[0].prev_tag, 0);
    // the displaced tag keeps its windows while hidden
    assert_eq!(cs.tags[0].windows, vec![1, 2]);
}

#[test]
fn pull_visible_tag_trades_places() {
    let mut cs = ClientSet::new(
        vec![tag("1"), tag("2")],
        vec![rect(0, 0, 800, 600), rect(800, 0, 800, 600)],
    );
    cs.pull_tag_to_screen("2");
    assert_eq!(cs.screens[0].tag, 1);
    assert_eq!(cs.screens[1].tag, 0);
}

#[test]
fn remove_focused_moves_focus_to_the_next_window() {
    let mut cs = one_screen(&[1, 2, 3]);
    cs.focus_down(); // wrap to window 1
    assert_eq!(cs.focused(), Some(1));
    let removed = cs.remove_focused();
    assert_eq!(removed, Some(1));
    assert_eq!(cs.tags[0].windows, vec![2, 3]);
    assert_eq!(cs.focused(), Some(2));
}

#[test]
fn remove_last_window_empties_the_focus() {
    let mut cs = one_screen(&[1]);
    assert_eq!(cs.remove_focused(), Some(1));
    assert!(cs.focused().is_none());
    assert_eq!(cs.remove_focused(), None);
}

#[test]
fn remove_window_finds_it_on_a_hidden_tag() {
    let mut cs = one_screen(&[1, 2]);
    cs.move_focused_to_tag("2");
    cs.remove_window(2);
    assert_eq!(cs.tags[1].windows, Vec::<u64>::new());
    assert_eq!(cs.tags[0].windows, vec![1]);
    cs.remove_window(77); // unknown windows are ignored
    assert_eq!(cs.tags[0].windows, vec![1]);
}

#[test]
fn insert_window_focuses_it_at_the_back() {
    let mut cs = one_screen(&[]);
    cs.insert_window(5);
    cs.insert_window(6);
    assert_eq!(cs.tags[0].windows, vec![5, 6]);
    assert_eq!(cs.focused(), Some(6));
    assert!(cs.contains_window(5));
    assert!(!cs.contains_window(7));
}
