//! Chord parsing, key-symbol resolution and binding-table behaviour.

use wmcore::bindings::{Action, BindingTable, ConfigError, ModSet, parse_chord};
use wmcore::defaults::raw_key_bindings;

/// A resolver covering every key symbol the stock bindings use, mapping each
/// name to a distinct key code.
fn full_resolver() -> Vec<(String, u8)> {
    let names = [
        "Left", "Up", "Right", "Down", "k", "j", "q", "Tab", "bracketright", "bracketleft",
        "grave", "f", "space", "p", "c", "Return", "d", "b", "v", "l", "s", "Print",
        "XF86AudioRaiseVolume", "XF86AudioLowerVolume", "XF86AudioMute", "XF86MonBrightnessUp",
        "XF86MonBrightnessDown", "XF86AudioPlay", "XF86AudioNext", "XF86AudioPrev", "1", "2", "3",
        "4", "5", "6", "7", "8", "9",
    ];
    let mut r = Vec::new();
    let mut code: u8 = 10;
    for n in names.iter() {
        r.push((n.to_string(), code));
        code += 1;
    }
    r
}

#[test]
fn stock_table_contents_are_exact() {
    let r = raw_key_bindings();
    assert_eq!(r.len(), 57);
    assert_eq!(r[0], ("M-Left".to_string(), Action::FocusUp));
    assert_eq!(r[6], ("M-q".to_string(), Action::KillFocused));
    assert_eq!(r[10], ("M-S-Tab".to_string(), Action::PullOtherScreenTag));
    assert_eq!(r[19], ("M-S-q".to_string(), Action::Exit));
    assert_eq!(r[20], ("M-p".to_string(), Action::Spawn("dmenu_run".to_string())));
    assert_eq!(
        r[30],
        ("M-s".to_string(), Action::FocusOrSpawn("spotify".to_string(), "spotify".to_string()))
    );
    assert_eq!(r[39], ("M-1".to_string(), Action::FocusTag("1".to_string())));
    assert_eq!(r[47], ("M-9".to_string(), Action::FocusTag("9".to_string())));
    assert_eq!(r[48], ("M-S-1".to_string(), Action::MoveFocusedToTag("1".to_string())));
    assert_eq!(r[56], ("M-S-9".to_string(), Action::MoveFocusedToTag("9".to_string())));
    // no chord occurs twice
    for i in 0..r.len() {
        for j in 0..i {
            assert_ne!(r[i].0, r[j].0);
        }
    }
    // every chord follows the grammar
    for (chord, _) in r.iter() {
        assert!(parse_chord(chord).is_ok());
    }
}

#[test]
fn bindings_parse_correctly_with_xmodmap() {
    let res = BindingTable::build(raw_key_bindings(), &full_resolver());

    if let Err(e) = res {
        panic!("{e:?}");
    }
}

#[test]
fn parse_chord_splits_modifiers_and_symbol() {
    let (mods, keysym) = parse_chord("M-S-Tab").unwrap();
    assert_eq!(
        mods,
        ModSet { meta: true, shift: true, alt: false, ctrl: false }
    );
    assert_eq!(keysym, "Tab");
}

#[test]
fn parse_chord_plain_symbol_has_no_modifiers() {
    let (mods, keysym) = parse_chord("Print").unwrap();
    assert_eq!(
        mods,
        ModSet { meta: false, shift: false, alt: false, ctrl: false }
    );
    assert_eq!(keysym, "Print");
}

#[test]
fn parse_chord_symbol_may_be_a_modifier_letter() {
    let (mods, keysym) = parse_chord("M-M").unwrap();
    assert!(mods.meta);
    assert_eq!(keysym, "M");
}

#[test]
fn parse_chord_all_four_modifiers() {
    let (mods, keysym) = parse_chord("M-S-A-C-x").unwrap();
    assert_eq!(
        mods,
        ModSet { meta: true, shift: true, alt: true, ctrl: true }
    );
    assert_eq!(keysym, "x");
}

#[test]
fn empty_symbol_is_malformed() {
    assert!(matches!(
        parse_chord("M-"),
        Err(ConfigError::MalformedChord(_))
    ));
    assert!(matches!(parse_chord(""), Err(ConfigError::MalformedChord(_))));
}

#[test]
fn non_ascii_chord_is_malformed() {
    assert!(matches!(
        parse_chord("M-ä"),
        Err(ConfigError::MalformedChord(_))
    ));
}

#[test]
fn unresolved_symbol_fails_the_build() {
    let raw = vec![("M-x".to_string(), Action::Exit)];
    let resolver = vec![("y".to_string(), 3u8)];
    let res = BindingTable::build(raw, &resolver);
    match res {
        Err(ConfigError::UnresolvedKeysym(sym)) => assert_eq!(sym, "x"),
        Err(other) => panic!("expected an unresolved-symbol error, got {other:?}"),
        Ok(_) => panic!("expected an unresolved-symbol error, got a table"),
    }
}

#[test]
fn later_binding_replaces_earlier_for_same_chord() {
    let raw = vec![
        ("M-a".to_string(), Action::Spawn("one".to_string())),
        ("M-a".to_string(), Action::Spawn("two".to_string())),
    ];
    let resolver = vec![("a".to_string(), 38u8)];
    let table = BindingTable::build(raw, &resolver).unwrap();
    assert_eq!(table.entries.len(), 1);
    let meta = ModSet { meta: true, shift: false, alt: false, ctrl: false };
    let found = table.lookup(meta, 38).unwrap();
    assert_eq!(*found, Action::Spawn("two".to_string()));
}

#[test]
fn unmatched_chord_finds_nothing() {
    let raw = vec![("M-a".to_string(), Action::Exit)];
    let resolver = vec![("a".to_string(), 38u8)];
    let table = BindingTable::build(raw, &resolver).unwrap();
    let shift = ModSet { meta: false, shift: true, alt: false, ctrl: false };
    assert!(table.lookup(shift, 38).is_none());
    let meta = ModSet { meta: true, shift: false, alt: false, ctrl: false };
    assert!(table.lookup(meta, 39).is_none());
}
