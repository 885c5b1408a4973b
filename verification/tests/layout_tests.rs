//! Layout placement arithmetic, messages and the gap decorator.

use wmcore::geometry::Rect;
use wmcore::layout::{Layout, Message};
use wmcore::layout_stack::LayoutStack;

fn rect(x: u32, y: u32, w: u32, h: u32) -> Rect {
    Rect { x, y, w, h }
}

fn main_and_stack() -> Layout {
    Layout::MainAndStack { max_main: 1, ratio: 60, ratio_step: 10 }
}

#[test]
fn main_and_stack_exact_placements() {
    let l = main_and_stack();
    let out = l.apply(&vec![1, 2, 3], 0, rect(0, 0, 100, 90));
    assert_eq!(
        out,
        vec![
            (1, rect(0, 0, 60, 90)),
            (2, rect(60, 0, 40, 45)),
            (3, rect(60, 45, 40, 45)),
        ]
    );
}

#[test]
fn main_and_stack_uneven_rows_give_remainder_to_last() {
    let l = Layout::MainAndStack { max_main: 0, ratio: 60, ratio_step: 10 };
    let out = l.apply(&vec![4, 5, 6], 0, rect(0, 0, 100, 100));
    assert_eq!(
        out,
        vec![
            (4, rect(0, 0, 100, 33)),
            (5, rect(0, 33, 100, 33)),
            (6, rect(0, 66, 100, 34)),
        ]
    );
}

#[test]
fn main_and_stack_few_windows_fill_whole_region() {
    let l = main_and_stack();
    let out = l.apply(&vec![9], 0, rect(5, 5, 200, 100));
    assert_eq!(out, vec![(9, rect(5, 5, 200, 100))]);
}

#[test]
fn monocle_places_only_the_focused_window() {
    let r = rect(0, 0, 800, 600);
    let out = Layout::Monocle.apply(&vec![7, 8, 9], 1, r);
    assert_eq!(out, vec![(8, r)]);
}

#[test]
fn empty_window_list_gives_no_placements() {
    let out = main_and_stack().apply(&vec![], 0, rect(0, 0, 100, 100));
    assert!(out.is_empty());
    let out = Layout::Monocle.apply(&vec![], 0, rect(0, 0, 100, 100));
    assert!(out.is_empty());
}

#[test]
fn gaps_inset_every_placement_including_screen_edges() {
    let inner = main_and_stack();
    let wrapped = Layout::Gaps { inner: Box::new(main_and_stack()), gap: 10 };
    let region = rect(0, 0, 100, 90);
    let base = inner.apply(&vec![1, 2, 3], 0, region);
    let out = wrapped.apply(&vec![1, 2, 3], 0, region);
    assert_eq!(out.len(), base.len());
    for (b, w) in base.iter().zip(out.iter()) {
        assert_eq!(b.0, w.0);
        assert_eq!(w.1.x, b.1.x + 10);
        assert_eq!(w.1.y, b.1.y + 10);
        assert_eq!(w.1.w, b.1.w - 20);
        assert_eq!(w.1.h, b.1.h - 20);
    }
    assert_eq!(
        out,
        vec![
            (1, rect(10, 10, 40, 70)),
            (2, rect(70, 10, 20, 25)),
            (3, rect(70, 55, 20, 25)),
        ]
    );
}

#[test]
fn gaps_leave_tiny_rectangles_unshrunk() {
    let wrapped = Layout::Gaps { inner: Box::new(Layout::Monocle), gap: 10 };
    let region = rect(0, 0, 15, 15);
    let out = wrapped.apply(&vec![1], 0, region);
    assert_eq!(out, vec![(1, region)]);
}

#[test]
fn inc_main_is_clipped_at_the_window_count() {
    let windows = vec![1, 2];
    let region = rect(0, 0, 100, 100);
    let mut l = main_and_stack();
    l = l.handle_message(Message::IncMain(1));
    // both windows now fit in the main area: one column of full width
    let out = l.apply(&windows, 0, region);
    assert_eq!(out, vec![(1, rect(0, 0, 100, 50)), (2, rect(0, 50, 100, 50))]);
    // a further increment cannot push the main count past the window count
    l = l.handle_message(Message::IncMain(1));
    let out = l.apply(&windows, 0, region);
    assert_eq!(out, vec![(1, rect(0, 0, 100, 50)), (2, rect(0, 50, 100, 50))]);
}

#[test]
fn inc_main_saturates_at_zero() {
    let l = main_and_stack().handle_message(Message::IncMain(-5));
    let out = l.apply(&vec![1, 2], 0, rect(0, 0, 100, 100));
    // with no main area every window sits in the stack over the full region
    assert_eq!(out, vec![(1, rect(0, 0, 100, 50)), (2, rect(0, 50, 100, 50))]);
}

#[test]
fn expand_and_shrink_step_the_ratio_with_clamps() {
    let l = main_and_stack().handle_message(Message::ExpandMain);
    let out = l.apply(&vec![1, 2], 0, rect(0, 0, 100, 100));
    assert_eq!(out[0].1.w, 70);
    let l = Layout::MainAndStack { max_main: 1, ratio: 95, ratio_step: 10 }
        .handle_message(Message::ExpandMain);
    let out = l.apply(&vec![1, 2], 0, rect(0, 0, 100, 100));
    assert_eq!(out[0].1.w, 100);
    let l = Layout::MainAndStack { max_main: 1, ratio: 5, ratio_step: 10 }
        .handle_message(Message::ShrinkMain);
    let out = l.apply(&vec![1, 2], 0, rect(0, 0, 100, 100));
    assert_eq!(out[0].1.w, 0);
}

#[test]
fn monocle_ignores_messages() {
    let l = Layout::Monocle.handle_message(Message::IncMain(3));
    let r = rect(0, 0, 50, 50);
    assert_eq!(l.apply(&vec![4], 0, r), vec![(4, r)]);
}

#[test]
fn gaps_forward_messages_to_the_wrapped_layout() {
    let wrapped = Layout::Gaps { inner: Box::new(main_and_stack()), gap: 0 };
    let l = wrapped.handle_message(Message::ExpandMain);
    let out = l.apply(&vec![1, 2], 0, rect(0, 0, 100, 100));
    assert_eq!(out[0].1.w, 70);
}

#[test]
fn full_cycle_returns_the_starting_active_layout() {
    let mut s = LayoutStack::from_vec(vec![
        main_and_stack(),
        Layout::Monocle,
        Layout::Gaps { inner: Box::new(Layout::Monocle), gap: 5 },
    ]);
    assert_eq!(s.cursor, 0);
    let n = s.layouts.len();
    for _ in 0..n {
        s.next();
    }
    assert_eq!(s.cursor, 0);
}

#[test]
fn next_and_previous_cycle_with_wrap() {
    let mut s = LayoutStack::from_vec(vec![main_and_stack(), Layout::Monocle]);
    s.previous();
    assert_eq!(s.cursor, 1);
    s.next();
    assert_eq!(s.cursor, 0);
    s.next();
    assert_eq!(s.cursor, 1);
}

#[test]
fn send_message_reaches_only_the_active_layout() {
    let mut s = LayoutStack::from_vec(vec![main_and_stack(), main_and_stack()]);
    s.send_message(Message::ExpandMain);
    let out = s.apply(&vec![1, 2], 0, rect(0, 0, 100, 100));
    assert_eq!(out[0].1.w, 70);
    s.next();
    let out = s.apply(&vec![1, 2], 0, rect(0, 0, 100, 100));
    assert_eq!(out[0].1.w, 60);
}
