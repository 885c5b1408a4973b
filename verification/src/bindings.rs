//! The key-binding table: chord strings parsed against a fixed grammar,
//! key symbols resolved to hardware key codes through a caller-supplied
//! resolver, and exact-match dispatch.
//!
//! A chord string is a run of modifier tokens (`M`, `S`, `A`, `C`), each
//! followed by `-`, terminated by a key-symbol name: `M-S-Tab` holds meta and
//! shift and the symbol `Tab`. Resolution happens once, at startup, and fails
//! the whole build when any symbol is unknown to the resolver — a fatal
//! configuration error, never a runtime one. Within the table a chord is
//! unique: a later binding for the same chord replaces the earlier one.

use vstd::prelude::*;
use vstd::string::StrSliceExecFns;
use crate::layout::Message;

verus! {

/// A set of modifier keys held together with a key.
#[derive(Clone, Copy, Debug, PartialEq, Eq, Structural)]
pub struct ModSet {
    pub meta: bool,
    pub shift: bool,
    pub alt: bool,
    pub ctrl: bool,
}

impl ModSet {
    /// No modifier held.
    pub fn empty() -> (r: ModSet)
        ensures
            r == no_mods(),
    {
        ModSet { meta: false, shift: false, alt: false, ctrl: false }
    }
}

/// A fully resolved key chord: modifiers plus a hardware key code.
#[derive(Clone, Copy, Debug, PartialEq, Eq, Structural)]
pub struct Chord {
    pub mods: ModSet,
    pub keycode: u8,
}

/// What a key press is bound to.
#[derive(Debug, PartialEq, Eq)]
pub enum Action {
    FocusUp,
    FocusDown,
    SwapUp,
    SwapDown,
    KillFocused,
    ToggleTag,
    NextScreen,
    PreviousScreen,
    /// Pull the tag shown on the first other screen onto the focused screen.
    PullOtherScreenTag,
    NextLayout,
    PreviousLayout,
    SendLayout(Message),
    ToggleFullscreen,
    ToggleFloating,
    SinkFocused,
    Exit,
    Spawn(String),
    /// Focus the window whose class matches the first string, spawning the
    /// second command when none does.
    FocusOrSpawn(String, String),
    FocusTag(String),
    MoveFocusedToTag(String),
}

/// A fatal configuration error found at startup, before any window is
/// managed.
#[derive(Debug, PartialEq, Eq)]
pub enum ConfigError {
    /// The chord string does not follow the grammar (its key symbol is
    /// empty, or it holds a character outside ASCII).
    MalformedChord(String),
    /// The active keyboard layout gives no key code for this symbol.
    UnresolvedKeysym(String),
    /// The monitor geometry is invalid: no screens, or a region that leaves
    /// the coordinate space.
    InvalidGeometry,
    /// The tag list cannot seat the screens: too few tags, a tag that is not
    /// empty and well-formed, or two tags under one name.
    InvalidTags,
}

/// The empty modifier set.
pub open spec fn no_mods() -> ModSet {
    ModSet { meta: false, shift: false, alt: false, ctrl: false }
}

/// The characters that name a modifier in a chord string.
pub open spec fn is_mod_char(c: char) -> bool {
    c == 'M' || c == 'S' || c == 'A' || c == 'C'
}

/// `m` with the flag named by `c` set.
pub open spec fn mod_added(m: ModSet, c: char) -> ModSet {
    ModSet {
        meta: m.meta || c == 'M',
        shift: m.shift || c == 'S',
        alt: m.alt || c == 'A',
        ctrl: m.ctrl || c == 'C',
    }
}

/// The union of two modifier sets.
pub open spec fn mod_union(a: ModSet, b: ModSet) -> ModSet {
    ModSet {
        meta: a.meta || b.meta,
        shift: a.shift || b.shift,
        alt: a.alt || b.alt,
        ctrl: a.ctrl || b.ctrl,
    }
}

/// How many leading characters of `s` belong to modifier tokens: the longest
/// prefix of the shape (modifier, `-`) repeated.
pub open spec fn mods_len(s: Seq<char>) -> int
    decreases s.len(),
{
    if s.len() >= 2 && is_mod_char(s[0]) && s[1] == '-' {
        2 + mods_len(s.skip(2))
    } else {
        0
    }
}

/// The modifier set a chord string's prefix names.
pub open spec fn mods_of(s: Seq<char>) -> ModSet
    decreases s.len(),
{
    if s.len() >= 2 && is_mod_char(s[0]) && s[1] == '-' {
        mod_added(mods_of(s.skip(2)), s[0])
    } else {
        no_mods()
    }
}

/// The key-symbol name of a chord string: everything after the modifiers.
pub open spec fn keysym_of(s: Seq<char>) -> Seq<char> {
    s.skip(mods_len(s))
}

/// A chord string follows the grammar: ASCII throughout, with a non-empty
/// key-symbol name after the modifier tokens.
pub open spec fn valid_chord(s: Seq<char>) -> bool {
    &&& vstd::utf8::is_ascii_chars(s)
    &&& keysym_of(s).len() > 0
}

proof fn lemma_mods_len_bounds(s: Seq<char>)
    ensures
        0 <= mods_len(s) <= s.len(),
    decreases s.len(),
{
    if s.len() >= 2 && is_mod_char(s[0]) && s[1] == '-' {
        lemma_mods_len_bounds(s.skip(2));
    }
}

/// A string that does not end in the separator keeps a non-empty key
/// symbol: the modifier prefix can never swallow it whole.
pub proof fn lemma_keysym_nonempty(s: Seq<char>)
    requires
        s.len() > 0,
        s[s.len() - 1] != '-',
    ensures
        keysym_of(s).len() > 0,
    decreases s.len(),
{
    lemma_mods_len_bounds(s);
    if s.len() >= 2 && is_mod_char(s[0]) && s[1] == '-' {
        assert(s.skip(2)[s.len() - 3] == s[s.len() - 1]);
        lemma_keysym_nonempty(s.skip(2));
        lemma_mods_len_bounds(s.skip(2));
    }
}

/// Parse a chord string: its modifier set and its key-symbol name.
/// Returns the malformed-chord error exactly when the string does not follow
/// the grammar.
pub fn parse_chord(s: &str) -> (r: Result<(ModSet, String), ConfigError>)
    ensures
        match r {
            Ok(p) => valid_chord(s@) && p.0 == mods_of(s@) && p.1@ == keysym_of(s@),
            Err(e) => !valid_chord(s@) && (e matches ConfigError::MalformedChord(c) && c@ == s@),
        },
{
    if !s.is_ascii() {
        return Err(ConfigError::MalformedChord(s.to_owned()));
    }
    let n = s.unicode_len();
    let mut i: usize = 0;
    let mut mods = ModSet::empty();
    proof {
        lemma_mods_len_bounds(s@);
        assert(s@.skip(0) =~= s@);
    }
    while i < n && i + 1 < n && is_mod_byte(s.get_ascii(i)) && s.get_ascii(i + 1) == 45u8
        invariant
            s.is_ascii(),
            n == s@.len(),
            i <= n,
            mods_len(s@) == i + mods_len(s@.skip(i as int)),
            mods_of(s@) == mod_union(mods, mods_of(s@.skip(i as int))),
        decreases n - i,
    {
        let c = s.get_ascii(i);
        proof {
            let rest = s@.skip(i as int);
            assert(rest[0] == s@[i as int]);
            assert(rest[1] == s@[i as int + 1]);
            lemma_ascii_char_from_byte(s@, i as int);
            lemma_ascii_char_from_byte(s@, i as int + 1);
            assert(is_mod_char(rest[0]));
            assert(rest[1] == '-');
            assert(s@.skip(i as int + 2) =~= rest.skip(2));
            lemma_mods_len_bounds(s@.skip(i as int + 2));
        }
        mods = ModSet {
            meta: mods.meta || c == 77u8,
            shift: mods.shift || c == 83u8,
            alt: mods.alt || c == 65u8,
            ctrl: mods.ctrl || c == 67u8,
        };
        i = i + 2;
    }
    proof {
        let rest = s@.skip(i as int);
        if rest.len() >= 2 && is_mod_char(rest[0]) && rest[1] == '-' {
            assert(i + 1 < n);
            lemma_ascii_char_from_byte(s@, i as int);
            lemma_ascii_char_from_byte(s@, i as int + 1);
            assert(s@[i as int] as u8 == 77u8 || s@[i as int] as u8 == 83u8 || s@[i as int] as u8
                == 65u8 || s@[i as int] as u8 == 67u8);
            assert(s@[i as int + 1] as u8 == 45u8);
            assert(false);
        }
        assert(mods_len(s@) == i as int);
        assert(mods_of(s@) == mods);
    }
    if i == n {
        proof {
            assert(keysym_of(s@).len() == 0);
        }
        return Err(ConfigError::MalformedChord(s.to_owned()));
    }
    let key = s.substring_ascii(i, n).to_owned();
    proof {
        assert(key@ =~= keysym_of(s@));
    }
    Ok((mods, key))
}

/// What the resolver maps a key-symbol name to: the first entry whose name
/// matches, if any.
pub open spec fn resolver_lookup(r: Seq<(String, u8)>, name: Seq<char>) -> Option<u8>
    decreases r.len(),
{
    if r.len() == 0 {
        None
    } else if r[0].0@ == name {
        Some(r[0].1)
    } else {
        resolver_lookup(r.skip(1), name)
    }
}

/// A binding table entry list with `(c, a)` inserted: the first entry for
/// the same chord is replaced, otherwise the entry goes to the back.
pub open spec fn insert_entry(t: Seq<(Chord, Action)>, c: Chord, a: Action) -> Seq<(Chord, Action)>
    decreases t.len(),
{
    if t.len() == 0 {
        seq![(c, a)]
    } else if t[0].0 == c {
        seq![(c, a)] + t.skip(1)
    } else {
        seq![t[0]] + insert_entry(t.skip(1), c, a)
    }
}

/// What the table maps a chord to: the entry for it, if any.
pub open spec fn table_lookup(t: Seq<(Chord, Action)>, c: Chord) -> Option<Action>
    decreases t.len(),
{
    if t.len() == 0 {
        None
    } else if t[0].0 == c {
        Some(t[0].1)
    } else {
        table_lookup(t.skip(1), c)
    }
}

/// The chord a raw entry resolves to, where it parses and resolves.
pub open spec fn resolved_chord(s: Seq<char>, resolver: Seq<(String, u8)>) -> Chord {
    Chord { mods: mods_of(s), keycode: resolver_lookup(resolver, keysym_of(s))->Some_0 }
}

/// A raw entry parses and its key symbol resolves.
pub open spec fn entry_resolvable(s: Seq<char>, resolver: Seq<(String, u8)>) -> bool {
    valid_chord(s) && resolver_lookup(resolver, keysym_of(s)) is Some
}

/// The table the raw binding list builds to, entry by entry, later entries
/// for a chord replacing earlier ones.
pub open spec fn build_spec(
    raw: Seq<(String, Action)>,
    resolver: Seq<(String, u8)>,
) -> Seq<(Chord, Action)>
    decreases raw.len(),
{
    if raw.len() == 0 {
        Seq::empty()
    } else {
        insert_entry(
            build_spec(raw.drop_last(), resolver),
            resolved_chord(raw.last().0@, resolver),
            raw.last().1,
        )
    }
}

/// The resolved key-binding table: chord-unique entries, built once at
/// startup.
pub struct BindingTable {
    pub entries: Vec<(Chord, Action)>,
}

impl BindingTable {
    /// Look up the action bound to an exact (modifier set, key code) pair.
    /// Unmatched chords yield nothing (the event passes through).
    pub fn lookup(&self, mods: ModSet, keycode: u8) -> (r: Option<&Action>)
        ensures
            match r {
                Some(a) => table_lookup(self.entries@, Chord { mods, keycode }) == Some(*a),
                None => table_lookup(self.entries@, Chord { mods, keycode }) is None,
            },
    {
        let c = Chord { mods, keycode };
        let mut i: usize = 0;
        proof {
            assert(self.entries@.skip(0) =~= self.entries@);
        }
        while i < self.entries.len()
            invariant
                c == (Chord { mods, keycode }),
                i <= self.entries@.len(),
                table_lookup(self.entries@, c) == table_lookup(self.entries@.skip(i as int), c),
            decreases self.entries@.len() - i,
        {
            proof {
                assert(self.entries@.skip(i as int)[0] == self.entries@[i as int]);
                assert(self.entries@.skip(i as int).skip(1) =~= self.entries@.skip(i as int + 1));
            }
            if self.entries[i].0 == c {
                return Some(&self.entries[i].1);
            }
            i += 1;
        }
        None
    }

    /// Build the table from raw (chord string, action) pairs and a resolver
    /// from key-symbol names to key codes. Fails — with the offending chord
    /// or symbol, and without producing any table — exactly when some chord
    /// is malformed or some symbol does not resolve.
    pub fn build(raw: Vec<(String, Action)>, resolver: &Vec<(String, u8)>) -> (r: Result<
        BindingTable,
        ConfigError,
    >)
        ensures
            match r {
                Ok(table) => {
                    &&& forall|i: int|
                        0 <= i < raw@.len() ==> entry_resolvable(
                            (#[trigger] raw@[i]).0@,
                            resolver@,
                        )
                    &&& table.entries@ == build_spec(raw@, resolver@)
                },
                Err(e) => (e is MalformedChord || e is UnresolvedKeysym) && exists|i: int|
                    0 <= i < raw@.len() && !entry_resolvable((#[trigger] raw@[i]).0@, resolver@),
            },
    {
        let ghost all = raw@;
        let raw_len = raw.len();
        proof {
            assert(all.len() == raw_len);
        }
        let mut rest = raw;
        let mut table = BindingTable { entries: Vec::new() };
        let mut k: usize = 0;
        proof {
            assert(all.take(0) =~= Seq::<(String, Action)>::empty());
            assert(all.skip(0) =~= all);
        }
        while rest.len() > 0
            invariant
                all == raw@,
                all.len() <= usize::MAX,
                k as int + rest@.len() == all.len(),
                rest@ == all.skip(k as int),
                table.entries@ == build_spec(all.take(k as int), resolver@),
                forall|i: int|
                    0 <= i < k as int ==> entry_resolvable((#[trigger] all[i]).0@, resolver@),
            decreases rest@.len(),
        {
            let (s, a) = rest.remove(0);
            proof {
                assert(all.skip(k as int)[0] == all[k as int]);
                assert(rest@ =~= all.skip(k as int + 1));
            }
            let (mods, keysym) = match parse_chord(s.as_str()) {
                Ok(p) => p,
                Err(e) => {
                    proof {
                        assert(!entry_resolvable(all[k as int].0@, resolver@));
                        assert(exists|i: int|
                            0 <= i < all.len() && !entry_resolvable(
                                (#[trigger] all[i]).0@,
                                resolver@,
                            ));
                    }
                    return Err(e);
                },
            };
            let keycode = match resolve_keysym(resolver, keysym.as_str()) {
                Some(kc) => kc,
                None => {
                    proof {
                        assert(!entry_resolvable(all[k as int].0@, resolver@));
                        assert(exists|i: int|
                            0 <= i < all.len() && !entry_resolvable(
                                (#[trigger] all[i]).0@,
                                resolver@,
                            ));
                    }
                    return Err(ConfigError::UnresolvedKeysym(keysym));
                },
            };
            let c = Chord { mods, keycode };
            proof {
                assert(c == resolved_chord(all[k as int].0@, resolver@));
                assert(all.take(k as int + 1).drop_last() =~= all.take(k as int));
                assert(all.take(k as int + 1).last() == all[k as int]);
            }
            table.insert(c, a);
            k += 1;
        }
        proof {
            assert(all.take(k as int) =~= all);
        }
        Ok(table)
    }

    /// Insert a binding, replacing the entry for the same chord if one is
    /// there.
    fn insert(&mut self, c: Chord, a: Action)
        ensures
            final(self).entries@ == insert_entry(old(self).entries@, c, a),
    {
        let mut i: usize = 0;
        while i < self.entries.len()
            invariant
                i <= self.entries@.len(),
                self.entries@ == old(self).entries@,
                forall|j: int| 0 <= j < i as int ==> (#[trigger] old(self).entries@[j]).0 != c,
            decreases self.entries@.len() - i,
        {
            if self.entries[i].0 == c {
                self.entries[i] = (c, a);
                proof {
                    lemma_insert_entry_at(old(self).entries@, c, a, i as int);
                }
                return ;
            }
            i += 1;
        }
        self.entries.push((c, a));
        proof {
            lemma_insert_entry_absent(old(self).entries@, c, a);
        }
    }
}

/// Resolve a key-symbol name to a key code: the first resolver entry whose
/// name matches.
fn resolve_keysym(resolver: &Vec<(String, u8)>, name: &str) -> (r: Option<u8>)
    ensures
        r == resolver_lookup(resolver@, name@),
{
    let mut i: usize = 0;
    proof {
        assert(resolver@.skip(0) =~= resolver@);
    }
    while i < resolver.len()
        invariant
            i <= resolver@.len(),
            resolver_lookup(resolver@, name@) == resolver_lookup(resolver@.skip(i as int), name@),
        decreases resolver@.len() - i,
    {
        proof {
            assert(resolver@.skip(i as int)[0] == resolver@[i as int]);
            assert(resolver@.skip(i as int).skip(1) =~= resolver@.skip(i as int + 1));
        }
        if crate::strutil::str_eq(resolver[i].0.as_str(), name) {
            return Some(resolver[i].1);
        }
        i += 1;
    }
    None
}

/// Where an entry for `c` sits at position `i` (and nowhere earlier),
/// replacing it in place is what `insert_entry` does.
proof fn lemma_insert_entry_at(t: Seq<(Chord, Action)>, c: Chord, a: Action, i: int)
    requires
        0 <= i < t.len(),
        t[i].0 == c,
        forall|j: int| 0 <= j < i ==> (#[trigger] t[j]).0 != c,
    ensures
        insert_entry(t, c, a) == t.update(i, (c, a)),
    decreases i,
{
    if i == 0 {
        assert(insert_entry(t, c, a) =~= t.update(0, (c, a)));
    } else {
        assert(forall|j: int| 0 <= j < i - 1 ==> (#[trigger] t.skip(1)[j]).0 != c);
        lemma_insert_entry_at(t.skip(1), c, a, i - 1);
        assert(insert_entry(t, c, a) =~= t.update(i, (c, a)));
    }
}

/// Where no entry for `c` exists, `insert_entry` appends at the back.
proof fn lemma_insert_entry_absent(t: Seq<(Chord, Action)>, c: Chord, a: Action)
    requires
        forall|j: int| 0 <= j < t.len() ==> (#[trigger] t[j]).0 != c,
    ensures
        insert_entry(t, c, a) == t.push((c, a)),
    decreases t.len(),
{
    if t.len() == 0 {
        assert(insert_entry(t, c, a) =~= t.push((c, a)));
    } else {
        assert(forall|j: int| 0 <= j < t.len() - 1 ==> (#[trigger] t.skip(1)[j]).0 != c);
        lemma_insert_entry_absent(t.skip(1), c, a);
        assert(insert_entry(t, c, a) =~= t.push((c, a)));
    }
}

/// Later bindings replace earlier ones: after inserting `(c, a)` the table
/// maps `c` to `a`, and every other chord to what it mapped to before.
pub proof fn lemma_insert_entry_lookup(t: Seq<(Chord, Action)>, c: Chord, a: Action, c2: Chord)
    ensures
        table_lookup(insert_entry(t, c, a), c) == Some(a),
        c2 != c ==> table_lookup(insert_entry(t, c, a), c2) == table_lookup(t, c2),
    decreases t.len(),
{
    let r = insert_entry(t, c, a);
    if t.len() == 0 {
        assert(r[0] == (c, a));
        assert(r.skip(1) =~= Seq::<(Chord, Action)>::empty());
        if c2 != c {
            assert(table_lookup(r, c2) == table_lookup(r.skip(1), c2));
            assert(table_lookup(r.skip(1), c2) is None);
        }
    } else if t[0].0 == c {
        assert(r[0] == (c, a));
        assert(r.skip(1) =~= t.skip(1));
        if c2 != c {
            assert(table_lookup(r, c2) == table_lookup(t.skip(1), c2));
            assert(table_lookup(t, c2) == table_lookup(t.skip(1), c2));
        }
    } else {
        lemma_insert_entry_lookup(t.skip(1), c, a, c2);
        assert(r[0] == t[0]);
        assert(r.skip(1) =~= insert_entry(t.skip(1), c, a));
        if c2 != c {
            if t[0].0 == c2 {
                assert(table_lookup(r, c2) == Some(t[0].1));
                assert(table_lookup(t, c2) == Some(t[0].1));
            } else {
                assert(table_lookup(r, c2) == table_lookup(insert_entry(t.skip(1), c, a), c2));
                assert(table_lookup(t, c2) == table_lookup(t.skip(1), c2));
            }
        }
        assert(table_lookup(r, c) == table_lookup(insert_entry(t.skip(1), c, a), c));
    }
}

/// The bytes of the modifier characters, as the parser sees them.
fn is_mod_byte(b: u8) -> (r: bool)
    ensures
        r == (b == 77u8 || b == 83u8 || b == 65u8 || b == 67u8),
{
    b == 77 || b == 83 || b == 65 || b == 67
}

/// In an ASCII string a character is determined by its byte: equality with a
/// modifier byte or the separator byte carries over to the character.
proof fn lemma_ascii_char_from_byte(s: Seq<char>, i: int)
    requires
        vstd::utf8::is_ascii_chars(s),
        0 <= i < s.len(),
    ensures
        (s[i] as u8 == 77u8) == (s[i] == 'M'),
        (s[i] as u8 == 83u8) == (s[i] == 'S'),
        (s[i] as u8 == 65u8) == (s[i] == 'A'),
        (s[i] as u8 == 67u8) == (s[i] == 'C'),
        (s[i] as u8 == 45u8) == (s[i] == '-'),
{
    assert('\0' <= s[i] <= '\u{7f}');
}

} // verus!
