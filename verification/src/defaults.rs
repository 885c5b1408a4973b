//! The stock configuration: the key-binding table, the mouse bindings and
//! the layout stack the window manager starts with.

use vstd::prelude::*;
use crate::bindings::{Action, ModSet, lemma_keysym_nonempty, valid_chord};
use crate::layout::{Layout, Message};
use crate::layout_stack::LayoutStack;
use crate::wm::{MouseAction, MouseState};

verus! {

/// The number of entries `raw_key_bindings` returns: the fixed chords plus
/// a focus and a move binding for each of the nine tags.
pub const RAW_KEY_BINDING_COUNT: usize = 57;

/// The chord string of entry `i` of the stock key-binding table.
pub open spec fn stock_chord(i: int) -> Seq<char> {
    if i == 0 {
        "M-Left"@
    } else if i == 1 {
        "M-Up"@
    } else if i == 2 {
        "M-Right"@
    } else if i == 3 {
        "M-Down"@
    } else if i == 4 {
        "M-S-k"@
    } else if i == 5 {
        "M-S-j"@
    } else if i == 6 {
        "M-q"@
    } else if i == 7 {
        "M-Tab"@
    } else if i == 8 {
        "M-bracketright"@
    } else if i == 9 {
        "M-bracketleft"@
    } else if i == 10 {
        "M-S-Tab"@
    } else if i == 11 {
        "M-grave"@
    } else if i == 12 {
        "M-S-grave"@
    } else if i == 13 {
        "M-S-Up"@
    } else if i == 14 {
        "M-S-Down"@
    } else if i == 15 {
        "M-S-Right"@
    } else if i == 16 {
        "M-S-Left"@
    } else if i == 17 {
        "M-f"@
    } else if i == 18 {
        "M-space"@
    } else if i == 19 {
        "M-S-q"@
    } else if i == 20 {
        "M-p"@
    } else if i == 21 {
        "M-c"@
    } else if i == 22 {
        "M-Return"@
    } else if i == 23 {
        "M-d"@
    } else if i == 24 {
        "M-b"@
    } else if i == 25 {
        "M-v"@
    } else if i == 26 {
        "M-l"@
    } else if i == 27 {
        "M-S-s"@
    } else if i == 28 {
        "Print"@
    } else if i == 29 {
        "M-S-c"@
    } else if i == 30 {
        "M-s"@
    } else if i == 31 {
        "XF86AudioRaiseVolume"@
    } else if i == 32 {
        "XF86AudioLowerVolume"@
    } else if i == 33 {
        "XF86AudioMute"@
    } else if i == 34 {
        "XF86MonBrightnessUp"@
    } else if i == 35 {
        "XF86MonBrightnessDown"@
    } else if i == 36 {
        "XF86AudioPlay"@
    } else if i == 37 {
        "XF86AudioNext"@
    } else if i == 38 {
        "XF86AudioPrev"@
    } else if i == 39 {
        "M-1"@
    } else if i == 40 {
        "M-2"@
    } else if i == 41 {
        "M-3"@
    } else if i == 42 {
        "M-4"@
    } else if i == 43 {
        "M-5"@
    } else if i == 44 {
        "M-6"@
    } else if i == 45 {
        "M-7"@
    } else if i == 46 {
        "M-8"@
    } else if i == 47 {
        "M-9"@
    } else if i == 48 {
        "M-S-1"@
    } else if i == 49 {
        "M-S-2"@
    } else if i == 50 {
        "M-S-3"@
    } else if i == 51 {
        "M-S-4"@
    } else if i == 52 {
        "M-S-5"@
    } else if i == 53 {
        "M-S-6"@
    } else if i == 54 {
        "M-S-7"@
    } else if i == 55 {
        "M-S-8"@
    } else if i == 56 {
        "M-S-9"@
    } else {
        Seq::<char>::empty()
    }
}

/// Which position of the stock table a chord string occupies, or -1 for a
/// string that is no stock chord. The inverse of `stock_chord`, which makes
/// the stock chords pairwise distinct.
pub open spec fn stock_index(s: Seq<char>) -> int {
    if s == "M-Left"@ {
        0
    } else if s == "M-Up"@ {
        1
    } else if s == "M-Right"@ {
        2
    } else if s == "M-Down"@ {
        3
    } else if s == "M-S-k"@ {
        4
    } else if s == "M-S-j"@ {
        5
    } else if s == "M-q"@ {
        6
    } else if s == "M-Tab"@ {
        7
    } else if s == "M-bracketright"@ {
        8
    } else if s == "M-bracketleft"@ {
        9
    } else if s == "M-S-Tab"@ {
        10
    } else if s == "M-grave"@ {
        11
    } else if s == "M-S-grave"@ {
        12
    } else if s == "M-S-Up"@ {
        13
    } else if s == "M-S-Down"@ {
        14
    } else if s == "M-S-Right"@ {
        15
    } else if s == "M-S-Left"@ {
        16
    } else if s == "M-f"@ {
        17
    } else if s == "M-space"@ {
        18
    } else if s == "M-S-q"@ {
        19
    } else if s == "M-p"@ {
        20
    } else if s == "M-c"@ {
        21
    } else if s == "M-Return"@ {
        22
    } else if s == "M-d"@ {
        23
    } else if s == "M-b"@ {
        24
    } else if s == "M-v"@ {
        25
    } else if s == "M-l"@ {
        26
    } else if s == "M-S-s"@ {
        27
    } else if s == "Print"@ {
        28
    } else if s == "M-S-c"@ {
        29
    } else if s == "M-s"@ {
        30
    } else if s == "XF86AudioRaiseVolume"@ {
        31
    } else if s == "XF86AudioLowerVolume"@ {
        32
    } else if s == "XF86AudioMute"@ {
        33
    } else if s == "XF86MonBrightnessUp"@ {
        34
    } else if s == "XF86MonBrightnessDown"@ {
        35
    } else if s == "XF86AudioPlay"@ {
        36
    } else if s == "XF86AudioNext"@ {
        37
    } else if s == "XF86AudioPrev"@ {
        38
    } else if s == "M-1"@ {
        39
    } else if s == "M-2"@ {
        40
    } else if s == "M-3"@ {
        41
    } else if s == "M-4"@ {
        42
    } else if s == "M-5"@ {
        43
    } else if s == "M-6"@ {
        44
    } else if s == "M-7"@ {
        45
    } else if s == "M-8"@ {
        46
    } else if s == "M-9"@ {
        47
    } else if s == "M-S-1"@ {
        48
    } else if s == "M-S-2"@ {
        49
    } else if s == "M-S-3"@ {
        50
    } else if s == "M-S-4"@ {
        51
    } else if s == "M-S-5"@ {
        52
    } else if s == "M-S-6"@ {
        53
    } else if s == "M-S-7"@ {
        54
    } else if s == "M-S-8"@ {
        55
    } else if s == "M-S-9"@ {
        56
    } else {
        -1
    }
}

/// The action bound at entry `i` of the stock key-binding table.
pub open spec fn stock_action_is(i: int, a: Action) -> bool {
    if i == 0 {
        a == Action::FocusUp
    } else if i == 1 {
        a == Action::FocusUp
    } else if i == 2 {
        a == Action::FocusDown
    } else if i == 3 {
        a == Action::FocusDown
    } else if i == 4 {
        a == Action::SwapDown
    } else if i == 5 {
        a == Action::SwapUp
    } else if i == 6 {
        a == Action::KillFocused
    } else if i == 7 {
        a == Action::ToggleTag
    } else if i == 8 {
        a == Action::NextScreen
    } else if i == 9 {
        a == Action::PreviousScreen
    } else if i == 10 {
        a == Action::PullOtherScreenTag
    } else if i == 11 {
        a == Action::NextLayout
    } else if i == 12 {
        a == Action::PreviousLayout
    } else if i == 13 {
        a == Action::SendLayout(Message::IncMain(1i32))
    } else if i == 14 {
        a == Action::SendLayout(Message::IncMain(-1i32))
    } else if i == 15 {
        a == Action::SendLayout(Message::ExpandMain)
    } else if i == 16 {
        a == Action::SendLayout(Message::ShrinkMain)
    } else if i == 17 {
        a == Action::ToggleFullscreen
    } else if i == 18 {
        a == Action::ToggleFloating
    } else if i == 19 {
        a == Action::Exit
    } else if i == 20 {
        (a matches Action::Spawn(c) && c@ == "dmenu_run"@)
    } else if i == 21 {
        (a matches Action::Spawn(c) && c@ == "emacsclient -c"@)
    } else if i == 22 {
        (a matches Action::Spawn(c) && c@ == "starteshell"@)
    } else if i == 23 {
        (a matches Action::Spawn(c) && c@ == "startdired"@)
    } else if i == 24 {
        (a matches Action::Spawn(c) && c@ == "thorium"@)
    } else if i == 25 {
        (a matches Action::Spawn(c) && c@ == "code"@)
    } else if i == 26 {
        (a matches Action::Spawn(c) && c@ == "xsecurelock"@)
    } else if i == 27 {
        (a matches Action::Spawn(c) && c@ == "flameshot gui"@)
    } else if i == 28 {
        (a matches Action::Spawn(c) && c@ == "flameshot screen"@)
    } else if i == 29 {
        (a matches Action::Spawn(c) && c@ == "xcolor -s clipboard"@)
    } else if i == 30 {
        (a matches Action::FocusOrSpawn(cl, c) && cl@ == "spotify"@ && c@ == "spotify"@)
    } else if i == 31 {
        (a matches Action::Spawn(c) && c@ == "pactl set-sink-volume @DEFAULT_SINK@ +5%"@)
    } else if i == 32 {
        (a matches Action::Spawn(c) && c@ == "pactl set-sink-volume @DEFAULT_SINK@ -5%"@)
    } else if i == 33 {
        (a matches Action::Spawn(c) && c@ == "pamixer -t"@)
    } else if i == 34 {
        (a matches Action::Spawn(c) && c@ == "light -A 5"@)
    } else if i == 35 {
        (a matches Action::Spawn(c) && c@ == "light -U 5"@)
    } else if i == 36 {
        (a matches Action::Spawn(c) && c@ == "dbus-send --print-reply --dest=org.mpris.MediaPlayer2.spotify /org/mpris/MediaPlayer2 org.mpris.MediaPlayer2.Player.PlayPause"@)
    } else if i == 37 {
        (a matches Action::Spawn(c) && c@ == "dbus-send --print-reply --dest=org.mpris.MediaPlayer2.spotify /org/mpris/MediaPlayer2 org.mpris.MediaPlayer2.Player.Next"@)
    } else if i == 38 {
        (a matches Action::Spawn(c) && c@ == "dbus-send --print-reply --dest=org.mpris.MediaPlayer2.spotify /org/mpris/MediaPlayer2 org.mpris.MediaPlayer2.Player.Previous"@)
    } else if i == 39 {
        (a matches Action::FocusTag(t) && t@ == "1"@)
    } else if i == 40 {
        (a matches Action::FocusTag(t) && t@ == "2"@)
    } else if i == 41 {
        (a matches Action::FocusTag(t) && t@ == "3"@)
    } else if i == 42 {
        (a matches Action::FocusTag(t) && t@ == "4"@)
    } else if i == 43 {
        (a matches Action::FocusTag(t) && t@ == "5"@)
    } else if i == 44 {
        (a matches Action::FocusTag(t) && t@ == "6"@)
    } else if i == 45 {
        (a matches Action::FocusTag(t) && t@ == "7"@)
    } else if i == 46 {
        (a matches Action::FocusTag(t) && t@ == "8"@)
    } else if i == 47 {
        (a matches Action::FocusTag(t) && t@ == "9"@)
    } else if i == 48 {
        (a matches Action::MoveFocusedToTag(t) && t@ == "1"@)
    } else if i == 49 {
        (a matches Action::MoveFocusedToTag(t) && t@ == "2"@)
    } else if i == 50 {
        (a matches Action::MoveFocusedToTag(t) && t@ == "3"@)
    } else if i == 51 {
        (a matches Action::MoveFocusedToTag(t) && t@ == "4"@)
    } else if i == 52 {
        (a matches Action::MoveFocusedToTag(t) && t@ == "5"@)
    } else if i == 53 {
        (a matches Action::MoveFocusedToTag(t) && t@ == "6"@)
    } else if i == 54 {
        (a matches Action::MoveFocusedToTag(t) && t@ == "7"@)
    } else if i == 55 {
        (a matches Action::MoveFocusedToTag(t) && t@ == "8"@)
    } else if i == 56 {
        (a matches Action::MoveFocusedToTag(t) && t@ == "9"@)
    } else {
        false
    }
}

/// Every stock chord follows the chord grammar, and `stock_index` undoes
/// `stock_chord` — so no two entries share a chord.
#[verifier::rlimit(100)]
pub proof fn lemma_stock_chord_facts(i: int)
    requires
        0 <= i < RAW_KEY_BINDING_COUNT,
    ensures
        valid_chord(stock_chord(i)),
        stock_index(stock_chord(i)) == i,
{
    reveal_strlit("M-Left");
    reveal_strlit("M-Up");
    reveal_strlit("M-Right");
    reveal_strlit("M-Down");
    reveal_strlit("M-S-k");
    reveal_strlit("M-S-j");
    reveal_strlit("M-q");
    reveal_strlit("M-Tab");
    reveal_strlit("M-bracketright");
    reveal_strlit("M-bracketleft");
    reveal_strlit("M-S-Tab");
    reveal_strlit("M-grave");
    reveal_strlit("M-S-grave");
    reveal_strlit("M-S-Up");
    reveal_strlit("M-S-Down");
    reveal_strlit("M-S-Right");
    reveal_strlit("M-S-Left");
    reveal_strlit("M-f");
    reveal_strlit("M-space");
    reveal_strlit("M-S-q");
    reveal_strlit("M-p");
    reveal_strlit("M-c");
    reveal_strlit("M-Return");
    reveal_strlit("M-d");
    reveal_strlit("M-b");
    reveal_strlit("M-v");
    reveal_strlit("M-l");
    reveal_strlit("M-S-s");
    reveal_strlit("Print");
    reveal_strlit("M-S-c");
    reveal_strlit("M-s");
    reveal_strlit("XF86AudioRaiseVolume");
    reveal_strlit("XF86AudioLowerVolume");
    reveal_strlit("XF86AudioMute");
    reveal_strlit("XF86MonBrightnessUp");
    reveal_strlit("XF86MonBrightnessDown");
    reveal_strlit("XF86AudioPlay");
    reveal_strlit("XF86AudioNext");
    reveal_strlit("XF86AudioPrev");
    reveal_strlit("M-1");
    reveal_strlit("M-2");
    reveal_strlit("M-3");
    reveal_strlit("M-4");
    reveal_strlit("M-5");
    reveal_strlit("M-6");
    reveal_strlit("M-7");
    reveal_strlit("M-8");
    reveal_strlit("M-9");
    reveal_strlit("M-S-1");
    reveal_strlit("M-S-2");
    reveal_strlit("M-S-3");
    reveal_strlit("M-S-4");
    reveal_strlit("M-S-5");
    reveal_strlit("M-S-6");
    reveal_strlit("M-S-7");
    reveal_strlit("M-S-8");
    reveal_strlit("M-S-9");
    // spell each chord out character by character: with the concrete
    // sequences at hand the solver can tell any two distinct chords apart,
    // which settles every comparison inside `stock_index`
    assert("M-Left"@ =~= seq!['M', '-', 'L', 'e', 'f', 't']);
    assert("M-Up"@ =~= seq!['M', '-', 'U', 'p']);
    assert("M-Right"@ =~= seq!['M', '-', 'R', 'i', 'g', 'h', 't']);
    assert("M-Down"@ =~= seq!['M', '-', 'D', 'o', 'w', 'n']);
    assert("M-S-k"@ =~= seq!['M', '-', 'S', '-', 'k']);
    assert("M-S-j"@ =~= seq!['M', '-', 'S', '-', 'j']);
    assert("M-q"@ =~= seq!['M', '-', 'q']);
    assert("M-Tab"@ =~= seq!['M', '-', 'T', 'a', 'b']);
    assert("M-bracketright"@ =~= seq!['M', '-', 'b', 'r', 'a', 'c', 'k', 'e', 't', 'r', 'i', 'g', 'h', 't']);
    assert("M-bracketleft"@ =~= seq!['M', '-', 'b', 'r', 'a', 'c', 'k', 'e', 't', 'l', 'e', 'f', 't']);
    assert("M-S-Tab"@ =~= seq!['M', '-', 'S', '-', 'T', 'a', 'b']);
    assert("M-grave"@ =~= seq!['M', '-', 'g', 'r', 'a', 'v', 'e']);
    assert("M-S-grave"@ =~= seq!['M', '-', 'S', '-', 'g', 'r', 'a', 'v', 'e']);
    assert("M-S-Up"@ =~= seq!['M', '-', 'S', '-', 'U', 'p']);
    assert("M-S-Down"@ =~= seq!['M', '-', 'S', '-', 'D', 'o', 'w', 'n']);
    assert("M-S-Right"@ =~= seq!['M', '-', 'S', '-', 'R', 'i', 'g', 'h', 't']);
    assert("M-S-Left"@ =~= seq!['M', '-', 'S', '-', 'L', 'e', 'f', 't']);
    assert("M-f"@ =~= seq!['M', '-', 'f']);
    assert("M-space"@ =~= seq!['M', '-', 's', 'p', 'a', 'c', 'e']);
    assert("M-S-q"@ =~= seq!['M', '-', 'S', '-', 'q']);
    assert("M-p"@ =~= seq!['M', '-', 'p']);
    assert("M-c"@ =~= seq!['M', '-', 'c']);
    assert("M-Return"@ =~= seq!['M', '-', 'R', 'e', 't', 'u', 'r', 'n']);
    assert("M-d"@ =~= seq!['M', '-', 'd']);
    assert("M-b"@ =~= seq!['M', '-', 'b']);
    assert("M-v"@ =~= seq!['M', '-', 'v']);
    assert("M-l"@ =~= seq!['M', '-', 'l']);
    assert("M-S-s"@ =~= seq!['M', '-', 'S', '-', 's']);
    assert("Print"@ =~= seq!['P', 'r', 'i', 'n', 't']);
    assert("M-S-c"@ =~= seq!['M', '-', 'S', '-', 'c']);
    assert("M-s"@ =~= seq!['M', '-', 's']);
    assert("XF86AudioRaiseVolume"@ =~= seq!['X', 'F', '8', '6', 'A', 'u', 'd', 'i', 'o', 'R', 'a', 'i', 's', 'e', 'V', 'o', 'l', 'u', 'm', 'e']);
    assert("XF86AudioLowerVolume"@ =~= seq!['X', 'F', '8', '6', 'A', 'u', 'd', 'i', 'o', 'L', 'o', 'w', 'e', 'r', 'V', 'o', 'l', 'u', 'm', 'e']);
    assert("XF86AudioMute"@ =~= seq!['X', 'F', '8', '6', 'A', 'u', 'd', 'i', 'o', 'M', 'u', 't', 'e']);
    assert("XF86MonBrightnessUp"@ =~= seq!['X', 'F', '8', '6', 'M', 'o', 'n', 'B', 'r', 'i', 'g', 'h', 't', 'n', 'e', 's', 's', 'U', 'p']);
    assert("XF86MonBrightnessDown"@ =~= seq!['X', 'F', '8', '6', 'M', 'o', 'n', 'B', 'r', 'i', 'g', 'h', 't', 'n', 'e', 's', 's', 'D', 'o', 'w', 'n']);
    assert("XF86AudioPlay"@ =~= seq!['X', 'F', '8', '6', 'A', 'u', 'd', 'i', 'o', 'P', 'l', 'a', 'y']);
    assert("XF86AudioNext"@ =~= seq!['X', 'F', '8', '6', 'A', 'u', 'd', 'i', 'o', 'N', 'e', 'x', 't']);
    assert("XF86AudioPrev"@ =~= seq!['X', 'F', '8', '6', 'A', 'u', 'd', 'i', 'o', 'P', 'r', 'e', 'v']);
    assert("M-1"@ =~= seq!['M', '-', '1']);
    assert("M-2"@ =~= seq!['M', '-', '2']);
    assert("M-3"@ =~= seq!['M', '-', '3']);
    assert("M-4"@ =~= seq!['M', '-', '4']);
    assert("M-5"@ =~= seq!['M', '-', '5']);
    assert("M-6"@ =~= seq!['M', '-', '6']);
    assert("M-7"@ =~= seq!['M', '-', '7']);
    assert("M-8"@ =~= seq!['M', '-', '8']);
    assert("M-9"@ =~= seq!['M', '-', '9']);
    assert("M-S-1"@ =~= seq!['M', '-', 'S', '-', '1']);
    assert("M-S-2"@ =~= seq!['M', '-', 'S', '-', '2']);
    assert("M-S-3"@ =~= seq!['M', '-', 'S', '-', '3']);
    assert("M-S-4"@ =~= seq!['M', '-', 'S', '-', '4']);
    assert("M-S-5"@ =~= seq!['M', '-', 'S', '-', '5']);
    assert("M-S-6"@ =~= seq!['M', '-', 'S', '-', '6']);
    assert("M-S-7"@ =~= seq!['M', '-', 'S', '-', '7']);
    assert("M-S-8"@ =~= seq!['M', '-', 'S', '-', '8']);
    assert("M-S-9"@ =~= seq!['M', '-', 'S', '-', '9']);
    if i == 0 {
        lemma_keysym_nonempty("M-Left"@);
    } else if i == 1 {
        lemma_keysym_nonempty("M-Up"@);
    } else if i == 2 {
        lemma_keysym_nonempty("M-Right"@);
    } else if i == 3 {
        lemma_keysym_nonempty("M-Down"@);
    } else if i == 4 {
        lemma_keysym_nonempty("M-S-k"@);
    } else if i == 5 {
        lemma_keysym_nonempty("M-S-j"@);
    } else if i == 6 {
        lemma_keysym_nonempty("M-q"@);
    } else if i == 7 {
        lemma_keysym_nonempty("M-Tab"@);
    } else if i == 8 {
        lemma_keysym_nonempty("M-bracketright"@);
    } else if i == 9 {
        lemma_keysym_nonempty("M-bracketleft"@);
    } else if i == 10 {
        lemma_keysym_nonempty("M-S-Tab"@);
    } else if i == 11 {
        lemma_keysym_nonempty("M-grave"@);
    } else if i == 12 {
        lemma_keysym_nonempty("M-S-grave"@);
    } else if i == 13 {
        lemma_keysym_nonempty("M-S-Up"@);
    } else if i == 14 {
        lemma_keysym_nonempty("M-S-Down"@);
    } else if i == 15 {
        lemma_keysym_nonempty("M-S-Right"@);
    } else if i == 16 {
        lemma_keysym_nonempty("M-S-Left"@);
    } else if i == 17 {
        lemma_keysym_nonempty("M-f"@);
    } else if i == 18 {
        lemma_keysym_nonempty("M-space"@);
    } else if i == 19 {
        lemma_keysym_nonempty("M-S-q"@);
    } else if i == 20 {
        lemma_keysym_nonempty("M-p"@);
    } else if i == 21 {
        lemma_keysym_nonempty("M-c"@);
    } else if i == 22 {
        lemma_keysym_nonempty("M-Return"@);
    } else if i == 23 {
        lemma_keysym_nonempty("M-d"@);
    } else if i == 24 {
        lemma_keysym_nonempty("M-b"@);
    } else if i == 25 {
        lemma_keysym_nonempty("M-v"@);
    } else if i == 26 {
        lemma_keysym_nonempty("M-l"@);
    } else if i == 27 {
        lemma_keysym_nonempty("M-S-s"@);
    } else if i == 28 {
        lemma_keysym_nonempty("Print"@);
    } else if i == 29 {
        lemma_keysym_nonempty("M-S-c"@);
    } else if i == 30 {
        lemma_keysym_nonempty("M-s"@);
    } else if i == 31 {
        lemma_keysym_nonempty("XF86AudioRaiseVolume"@);
    } else if i == 32 {
        lemma_keysym_nonempty("XF86AudioLowerVolume"@);
    } else if i == 33 {
        lemma_keysym_nonempty("XF86AudioMute"@);
    } else if i == 34 {
        lemma_keysym_nonempty("XF86MonBrightnessUp"@);
    } else if i == 35 {
        lemma_keysym_nonempty("XF86MonBrightnessDown"@);
    } else if i == 36 {
        lemma_keysym_nonempty("XF86AudioPlay"@);
    } else if i == 37 {
        lemma_keysym_nonempty("XF86AudioNext"@);
    } else if i == 38 {
        lemma_keysym_nonempty("XF86AudioPrev"@);
    } else if i == 39 {
        lemma_keysym_nonempty("M-1"@);
    } else if i == 40 {
        lemma_keysym_nonempty("M-2"@);
    } else if i == 41 {
        lemma_keysym_nonempty("M-3"@);
    } else if i == 42 {
        lemma_keysym_nonempty("M-4"@);
    } else if i == 43 {
        lemma_keysym_nonempty("M-5"@);
    } else if i == 44 {
        lemma_keysym_nonempty("M-6"@);
    } else if i == 45 {
        lemma_keysym_nonempty("M-7"@);
    } else if i == 46 {
        lemma_keysym_nonempty("M-8"@);
    } else if i == 47 {
        lemma_keysym_nonempty("M-9"@);
    } else if i == 48 {
        lemma_keysym_nonempty("M-S-1"@);
    } else if i == 49 {
        lemma_keysym_nonempty("M-S-2"@);
    } else if i == 50 {
        lemma_keysym_nonempty("M-S-3"@);
    } else if i == 51 {
        lemma_keysym_nonempty("M-S-4"@);
    } else if i == 52 {
        lemma_keysym_nonempty("M-S-5"@);
    } else if i == 53 {
        lemma_keysym_nonempty("M-S-6"@);
    } else if i == 54 {
        lemma_keysym_nonempty("M-S-7"@);
    } else if i == 55 {
        lemma_keysym_nonempty("M-S-8"@);
    } else if i == 56 {
        lemma_keysym_nonempty("M-S-9"@);
    } else {
    }
}

/// Entry `i` of the stock table, as a value.
fn stock_entry(i: usize) -> (e: (String, Action))
    requires
        i < RAW_KEY_BINDING_COUNT,
    ensures
        e.0@ == stock_chord(i as int),
        stock_action_is(i as int, e.1),
{
    if i == 0 {
        ("M-Left".to_owned(), Action::FocusUp)
    } else if i == 1 {
        ("M-Up".to_owned(), Action::FocusUp)
    } else if i == 2 {
        ("M-Right".to_owned(), Action::FocusDown)
    } else if i == 3 {
        ("M-Down".to_owned(), Action::FocusDown)
    } else if i == 4 {
        ("M-S-k".to_owned(), Action::SwapDown)
    } else if i == 5 {
        ("M-S-j".to_owned(), Action::SwapUp)
    } else if i == 6 {
        ("M-q".to_owned(), Action::KillFocused)
    } else if i == 7 {
        ("M-Tab".to_owned(), Action::ToggleTag)
    } else if i == 8 {
        ("M-bracketright".to_owned(), Action::NextScreen)
    } else if i == 9 {
        ("M-bracketleft".to_owned(), Action::PreviousScreen)
    } else if i == 10 {
        ("M-S-Tab".to_owned(), Action::PullOtherScreenTag)
    } else if i == 11 {
        ("M-grave".to_owned(), Action::NextLayout)
    } else if i == 12 {
        ("M-S-grave".to_owned(), Action::PreviousLayout)
    } else if i == 13 {
        ("M-S-Up".to_owned(), Action::SendLayout(Message::IncMain(1)))
    } else if i == 14 {
        ("M-S-Down".to_owned(), Action::SendLayout(Message::IncMain(-1)))
    } else if i == 15 {
        ("M-S-Right".to_owned(), Action::SendLayout(Message::ExpandMain))
    } else if i == 16 {
        ("M-S-Left".to_owned(), Action::SendLayout(Message::ShrinkMain))
    } else if i == 17 {
        ("M-f".to_owned(), Action::ToggleFullscreen)
    } else if i == 18 {
        ("M-space".to_owned(), Action::ToggleFloating)
    } else if i == 19 {
        ("M-S-q".to_owned(), Action::Exit)
    } else if i == 20 {
        ("M-p".to_owned(), Action::Spawn("dmenu_run".to_owned()))
    } else if i == 21 {
        ("M-c".to_owned(), Action::Spawn("emacsclient -c".to_owned()))
    } else if i == 22 {
        ("M-Return".to_owned(), Action::Spawn("starteshell".to_owned()))
    } else if i == 23 {
        ("M-d".to_owned(), Action::Spawn("startdired".to_owned()))
    } else if i == 24 {
        ("M-b".to_owned(), Action::Spawn("thorium".to_owned()))
    } else if i == 25 {
        ("M-v".to_owned(), Action::Spawn("code".to_owned()))
    } else if i == 26 {
        ("M-l".to_owned(), Action::Spawn("xsecurelock".to_owned()))
    } else if i == 27 {
        ("M-S-s".to_owned(), Action::Spawn("flameshot gui".to_owned()))
    } else if i == 28 {
        ("Print".to_owned(), Action::Spawn("flameshot screen".to_owned()))
    } else if i == 29 {
        ("M-S-c".to_owned(), Action::Spawn("xcolor -s clipboard".to_owned()))
    } else if i == 30 {
        ("M-s".to_owned(), Action::FocusOrSpawn("spotify".to_owned(), "spotify".to_owned()))
    } else if i == 31 {
        ("XF86AudioRaiseVolume".to_owned(), Action::Spawn("pactl set-sink-volume @DEFAULT_SINK@ +5%".to_owned()))
    } else if i == 32 {
        ("XF86AudioLowerVolume".to_owned(), Action::Spawn("pactl set-sink-volume @DEFAULT_SINK@ -5%".to_owned()))
    } else if i == 33 {
        ("XF86AudioMute".to_owned(), Action::Spawn("pamixer -t".to_owned()))
    } else if i == 34 {
        ("XF86MonBrightnessUp".to_owned(), Action::Spawn("light -A 5".to_owned()))
    } else if i == 35 {
        ("XF86MonBrightnessDown".to_owned(), Action::Spawn("light -U 5".to_owned()))
    } else if i == 36 {
        ("XF86AudioPlay".to_owned(), Action::Spawn("dbus-send --print-reply --dest=org.mpris.MediaPlayer2.spotify /org/mpris/MediaPlayer2 org.mpris.MediaPlayer2.Player.PlayPause".to_owned()))
    } else if i == 37 {
        ("XF86AudioNext".to_owned(), Action::Spawn("dbus-send --print-reply --dest=org.mpris.MediaPlayer2.spotify /org/mpris/MediaPlayer2 org.mpris.MediaPlayer2.Player.Next".to_owned()))
    } else if i == 38 {
        ("XF86AudioPrev".to_owned(), Action::Spawn("dbus-send --print-reply --dest=org.mpris.MediaPlayer2.spotify /org/mpris/MediaPlayer2 org.mpris.MediaPlayer2.Player.Previous".to_owned()))
    } else if i == 39 {
        ("M-1".to_owned(), Action::FocusTag("1".to_owned()))
    } else if i == 40 {
        ("M-2".to_owned(), Action::FocusTag("2".to_owned()))
    } else if i == 41 {
        ("M-3".to_owned(), Action::FocusTag("3".to_owned()))
    } else if i == 42 {
        ("M-4".to_owned(), Action::FocusTag("4".to_owned()))
    } else if i == 43 {
        ("M-5".to_owned(), Action::FocusTag("5".to_owned()))
    } else if i == 44 {
        ("M-6".to_owned(), Action::FocusTag("6".to_owned()))
    } else if i == 45 {
        ("M-7".to_owned(), Action::FocusTag("7".to_owned()))
    } else if i == 46 {
        ("M-8".to_owned(), Action::FocusTag("8".to_owned()))
    } else if i == 47 {
        ("M-9".to_owned(), Action::FocusTag("9".to_owned()))
    } else if i == 48 {
        ("M-S-1".to_owned(), Action::MoveFocusedToTag("1".to_owned()))
    } else if i == 49 {
        ("M-S-2".to_owned(), Action::MoveFocusedToTag("2".to_owned()))
    } else if i == 50 {
        ("M-S-3".to_owned(), Action::MoveFocusedToTag("3".to_owned()))
    } else if i == 51 {
        ("M-S-4".to_owned(), Action::MoveFocusedToTag("4".to_owned()))
    } else if i == 52 {
        ("M-S-5".to_owned(), Action::MoveFocusedToTag("5".to_owned()))
    } else if i == 53 {
        ("M-S-6".to_owned(), Action::MoveFocusedToTag("6".to_owned()))
    } else if i == 54 {
        ("M-S-7".to_owned(), Action::MoveFocusedToTag("7".to_owned()))
    } else if i == 55 {
        ("M-S-8".to_owned(), Action::MoveFocusedToTag("8".to_owned()))
    } else {
        ("M-S-9".to_owned(), Action::MoveFocusedToTag("9".to_owned()))
    }
}

/// The stock key bindings, as raw (chord string, action) pairs: window and
/// screen focus movement, window swaps, tag switching, layout control,
/// program launchers and media keys, and per-tag focus/move bindings for the
/// tags `"1"` to `"9"`. Entry `i` binds the chord `stock_chord(i)` to the
/// action `stock_action_is(i, _)` describes; chords are pairwise distinct
/// and all follow the chord grammar.
pub fn raw_key_bindings() -> (r: Vec<(String, Action)>)
    ensures
        r@.len() == RAW_KEY_BINDING_COUNT,
        forall|i: int| 0 <= i < r@.len() ==> (#[trigger] r@[i]).0@ == stock_chord(i),
        forall|i: int| 0 <= i < r@.len() ==> stock_action_is(i, (#[trigger] r@[i]).1),
        forall|i: int| 0 <= i < r@.len() ==> valid_chord((#[trigger] r@[i]).0@),
        forall|i: int, j: int|
            0 <= i < r@.len() && 0 <= j < r@.len() && i != j ==> (#[trigger] r@[i]).0@ != (
            #[trigger] r@[j]).0@,
{
    let mut r: Vec<(String, Action)> = Vec::new();
    let mut i: usize = 0;
    while i < RAW_KEY_BINDING_COUNT
        invariant
            i <= RAW_KEY_BINDING_COUNT,
            r@.len() == i as int,
            forall|j: int| 0 <= j < i as int ==> (#[trigger] r@[j]).0@ == stock_chord(j),
            forall|j: int| 0 <= j < i as int ==> stock_action_is(j, (#[trigger] r@[j]).1),
        decreases RAW_KEY_BINDING_COUNT - i,
    {
        let e = stock_entry(i);
        r.push(e);
        i += 1;
    }
    proof {
        assert forall|i: int| 0 <= i < r@.len() implies valid_chord(
            (#[trigger] r@[i]).0@,
        ) by {
            lemma_stock_chord_facts(i);
        }
        assert forall|i: int, j: int|
            0 <= i < r@.len() && 0 <= j < r@.len() && i != j implies (#[trigger] r@[i]).0@ != (
        #[trigger] r@[j]).0@ by {
            lemma_stock_chord_facts(i);
            lemma_stock_chord_facts(j);
        }
    }
    r
}

/// The stock mouse bindings: meta+shift with the left button drags a window,
/// with the right button resizes it, with the middle button sinks it back
/// into the tiled layer.
pub fn mouse_bindings() -> (r: Vec<(MouseState, MouseAction)>)
    ensures
        r@ == seq![
            (
                MouseState { button: 1u8, mods: shift_meta() },
                MouseAction::DragMove,
            ),
            (
                MouseState { button: 3u8, mods: shift_meta() },
                MouseAction::DragResize,
            ),
            (
                MouseState { button: 2u8, mods: shift_meta() },
                MouseAction::SinkFocused,
            ),
        ],
{
    let mut r: Vec<(MouseState, MouseAction)> = Vec::new();
    let sm = ModSet { meta: true, shift: true, alt: false, ctrl: false };
    r.push((MouseState { button: 1, mods: sm }, MouseAction::DragMove));
    r.push((MouseState { button: 3, mods: sm }, MouseAction::DragResize));
    r.push((MouseState { button: 2, mods: sm }, MouseAction::SinkFocused));
    proof {
        assert(r@ =~= seq![
            (
                MouseState { button: 1u8, mods: shift_meta() },
                MouseAction::DragMove,
            ),
            (
                MouseState { button: 3u8, mods: shift_meta() },
                MouseAction::DragResize,
            ),
            (
                MouseState { button: 2u8, mods: shift_meta() },
                MouseAction::SinkFocused,
            ),
        ]);
    }
    r
}

/// Shift and meta held together.
pub open spec fn shift_meta() -> ModSet {
    ModSet { meta: true, shift: true, alt: false, ctrl: false }
}

/// The stock layout stack: a main-and-stack split (one main window, sixty
/// percent of the width, stepping by ten) and a monocle layout, each wrapped
/// in a ten-pixel gap decorator. The split layout starts active.
pub fn layouts() -> (r: LayoutStack)
    ensures
        r.wf(),
        r.cursor == 0,
        r.layouts@.len() == 2,
        (r.layouts@[0] matches Layout::Gaps { inner, gap } && gap == 10 && *inner == (
        Layout::MainAndStack { max_main: 1u32, ratio: 60u32, ratio_step: 10u32 })),
        (r.layouts@[1] matches Layout::Gaps { inner, gap } && gap == 10 && *inner
            == Layout::Monocle),
{
    let main = Layout::Gaps {
        inner: Box::new(Layout::MainAndStack { max_main: 1, ratio: 60, ratio_step: 10 }),
        gap: 10,
    };
    let mono = Layout::Gaps { inner: Box::new(Layout::Monocle), gap: 10 };
    let mut ls: Vec<Layout> = Vec::new();
    ls.push(main);
    ls.push(mono);
    proof {
        assert((Layout::MainAndStack { max_main: 1u32, ratio: 60u32, ratio_step: 10u32 }).wf());
        assert((Layout::Monocle).wf());
        assert(ls@[0].wf());
        assert(ls@[1].wf());
        assert(forall|i: int| 0 <= i < ls@.len() ==> (#[trigger] ls@[i]).wf());
    }
    LayoutStack::from_vec(ls)
}

} // verus!
