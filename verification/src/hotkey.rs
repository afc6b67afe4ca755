//! The global hotkey: its text form (modifier glyphs and a letter) and its parsed value.
use vstd::prelude::*;
use vstd::string::*;

verus! {

/// A letter key of the keyboard.
#[derive(Clone, Copy, PartialEq, Eq, Structural, Debug)]
pub enum LetterKey {
    A,
    B,
    C,
    D,
    E,
    F,
    G,
    H,
    I,
    J,
    K,
    L,
    M,
    N,
    O,
    P,
    Q,
    R,
    S,
    T,
    U,
    V,
    W,
    X,
    Y,
    Z,
}

/// Which modifier keys a hotkey holds down.
#[derive(Clone, Copy, PartialEq, Eq, Structural, Debug)]
pub struct HotkeyModifiers {
    pub super_key: bool,
    pub shift: bool,
    pub control: bool,
    pub alt: bool,
}

/// A hotkey: modifiers and one letter.
#[derive(Clone, Copy, PartialEq, Eq, Structural, Debug)]
pub struct Hotkey {
    pub modifiers: HotkeyModifiers,
    pub key: LetterKey,
}

/// The glyph that names the Command (super) modifier.
pub const COMMAND_GLYPH: char = '⌘';

/// The glyph that names the Shift modifier.
pub const SHIFT_GLYPH: char = '⇧';

/// The glyph that names the Control modifier.
pub const CONTROL_GLYPH: char = '⌃';

/// The glyph that names the Option (alt) modifier.
pub const OPTION_GLYPH: char = '⌥';

/// The letter at position `i` of the alphabet (Z for any `i` outside 0 to 24).
pub open spec fn letter_at(i: int) -> LetterKey {
    if i == 0 {
        LetterKey::A
    } else if i == 1 {
        LetterKey::B
    } else if i == 2 {
        LetterKey::C
    } else if i == 3 {
        LetterKey::D
    } else if i == 4 {
        LetterKey::E
    } else if i == 5 {
        LetterKey::F
    } else if i == 6 {
        LetterKey::G
    } else if i == 7 {
        LetterKey::H
    } else if i == 8 {
        LetterKey::I
    } else if i == 9 {
        LetterKey::J
    } else if i == 10 {
        LetterKey::K
    } else if i == 11 {
        LetterKey::L
    } else if i == 12 {
        LetterKey::M
    } else if i == 13 {
        LetterKey::N
    } else if i == 14 {
        LetterKey::O
    } else if i == 15 {
        LetterKey::P
    } else if i == 16 {
        LetterKey::Q
    } else if i == 17 {
        LetterKey::R
    } else if i == 18 {
        LetterKey::S
    } else if i == 19 {
        LetterKey::T
    } else if i == 20 {
        LetterKey::U
    } else if i == 21 {
        LetterKey::V
    } else if i == 22 {
        LetterKey::W
    } else if i == 23 {
        LetterKey::X
    } else if i == 24 {
        LetterKey::Y
    } else {
        LetterKey::Z
    }
}

/// An ASCII letter, in either case.
pub open spec fn is_ascii_letter(c: char) -> bool {
    ('a' <= c && c <= 'z') || ('A' <= c && c <= 'Z')
}

/// The position in the alphabet of an ASCII letter, whatever its case.
pub open spec fn alphabet_position(c: char) -> int {
    if 'a' <= c && c <= 'z' {
        c as int - 'a' as int
    } else {
        c as int - 'A' as int
    }
}

/// The upper-case form of an ASCII letter; any other character as it is.
pub open spec fn ascii_upper(c: char) -> char {
    if 'a' <= c && c <= 'z' {
        ((c as int) - 32) as char
    } else {
        c
    }
}

/// The key of the last ASCII letter in `s`, if there is one.
pub open spec fn last_letter_key(s: Seq<char>) -> Option<LetterKey>
    decreases s.len(),
{
    if s.len() == 0 {
        None
    } else if is_ascii_letter(s.last()) {
        Some(letter_at(alphabet_position(s.last())))
    } else {
        last_letter_key(s.drop_last())
    }
}

/// The modifiers whose glyphs occur in `s`.
pub open spec fn modifiers_in(s: Seq<char>) -> HotkeyModifiers {
    HotkeyModifiers {
        super_key: s.contains(COMMAND_GLYPH),
        shift: s.contains(SHIFT_GLYPH),
        control: s.contains(CONTROL_GLYPH),
        alt: s.contains(OPTION_GLYPH),
    }
}

/// The hotkey that the text `s` names: the modifiers whose glyphs occur in it and the
/// last ASCII letter in it; none where it holds no ASCII letter. Other characters are
/// ignored.
pub open spec fn parsed_hotkey(s: Seq<char>) -> Option<Hotkey> {
    match last_letter_key(s) {
        Some(k) => Some(Hotkey { modifiers: modifiers_in(s), key: k }),
        None => None,
    }
}

/// The hotkey registered where the configured text names none: Control, Option, H.
pub open spec fn fallback_hotkey() -> Hotkey {
    Hotkey {
        modifiers: HotkeyModifiers { super_key: false, shift: false, control: true, alt: true },
        key: LetterKey::H,
    }
}

/// The key of an ASCII letter, upper or lower case; `None` for any other character.
pub fn letter_key(c: char) -> (k: Option<LetterKey>)
    ensures
        k is Some <==> is_ascii_letter(c),
        is_ascii_letter(c) ==> k == Some(letter_at(alphabet_position(c))),
        k matches Some(key) ==> letter_char(key) == ascii_upper(c),
{
    match c {
        'A' | 'a' => Some(LetterKey::A),
        'B' | 'b' => Some(LetterKey::B),
        'C' | 'c' => Some(LetterKey::C),
        'D' | 'd' => Some(LetterKey::D),
        'E' | 'e' => Some(LetterKey::E),
        'F' | 'f' => Some(LetterKey::F),
        'G' | 'g' => Some(LetterKey::G),
        'H' | 'h' => Some(LetterKey::H),
        'I' | 'i' => Some(LetterKey::I),
        'J' | 'j' => Some(LetterKey::J),
        'K' | 'k' => Some(LetterKey::K),
        'L' | 'l' => Some(LetterKey::L),
        'M' | 'm' => Some(LetterKey::M),
        'N' | 'n' => Some(LetterKey::N),
        'O' | 'o' => Some(LetterKey::O),
        'P' | 'p' => Some(LetterKey::P),
        'Q' | 'q' => Some(LetterKey::Q),
        'R' | 'r' => Some(LetterKey::R),
        'S' | 's' => Some(LetterKey::S),
        'T' | 't' => Some(LetterKey::T),
        'U' | 'u' => Some(LetterKey::U),
        'V' | 'v' => Some(LetterKey::V),
        'W' | 'w' => Some(LetterKey::W),
        'X' | 'x' => Some(LetterKey::X),
        'Y' | 'y' => Some(LetterKey::Y),
        'Z' | 'z' => Some(LetterKey::Z),
        _ => None,
    }
}

/// The hotkey that the text `s` names (see [`parsed_hotkey`]).
pub fn parse_hotkey(s: &str) -> (h: Option<Hotkey>)
    ensures
        h == parsed_hotkey(s@),
{
    let mut mods = HotkeyModifiers { super_key: false, shift: false, control: false, alt: false };
    let mut code: Option<LetterKey> = None;
    let n = s.unicode_len();
    let mut i: usize = 0;
    while i < n
        invariant
            n == s@.len(),
            i <= n,
            mods == modifiers_in(s@.take(i as int)),
            code == last_letter_key(s@.take(i as int)),
        decreases n - i,
    {
        let ch = s.get_char(i);
        let ghost before = s@.take(i as int);
        assert(s@.take(i + 1) =~= before.push(ch));
        assert(s@.take(i + 1).drop_last() =~= before);
        if ch == COMMAND_GLYPH {
            mods.super_key = true;
        } else if ch == SHIFT_GLYPH {
            mods.shift = true;
        } else if ch == CONTROL_GLYPH {
            mods.control = true;
        } else if ch == OPTION_GLYPH {
            mods.alt = true;
        } else {
            let k = letter_key(ch);
            if k.is_some() {
                code = k;
            }
        }
        proof {
            lemma_push_contains(before, ch, COMMAND_GLYPH);
            lemma_push_contains(before, ch, SHIFT_GLYPH);
            lemma_push_contains(before, ch, CONTROL_GLYPH);
            lemma_push_contains(before, ch, OPTION_GLYPH);
        }
        i = i + 1;
    }
    assert(s@.take(n as int) =~= s@);
    match code {
        Some(k) => Some(Hotkey { modifiers: mods, key: k }),
        None => None,
    }
}

/// The hotkey to register for the configured text: the one it names, or the fallback
/// (Control, Option, H) where it names none.
pub fn hotkey_to_register(s: &str) -> (h: Hotkey)
    ensures
        h == match parsed_hotkey(s@) {
            Some(k) => k,
            None => fallback_hotkey(),
        },
{
    match parse_hotkey(s) {
        Some(k) => k,
        None => Hotkey {
            modifiers: HotkeyModifiers { super_key: false, shift: false, control: true, alt: true },
            key: LetterKey::H,
        },
    }
}

/// Pushing `c` onto `s` adds exactly `c` to what it contains.
proof fn lemma_push_contains(s: Seq<char>, c: char, x: char)
    ensures
        s.push(c).contains(x) == (s.contains(x) || c == x),
{
    if s.contains(x) {
        let j = choose|j: int| 0 <= j < s.len() && s[j] == x;
        assert(s.push(c)[j] == x);
    }
    if c == x {
        assert(s.push(c)[s.len() as int] == x);
    }
    if s.push(c).contains(x) {
        let j = choose|j: int| 0 <= j < s.len() + 1 && s.push(c)[j] == x;
        if j < s.len() {
            assert(s[j] == x);
        }
    }
}

/// A text names a hotkey exactly when it holds an ASCII letter.
pub proof fn law_named_iff_letter(s: Seq<char>)
    ensures
        parsed_hotkey(s) is Some <==> exists|i: int| 0 <= i < s.len() && is_ascii_letter(#[trigger] s[i]),
    decreases s.len(),
{
    if s.len() > 0 {
        law_named_iff_letter(s.drop_last());
        if is_ascii_letter(s.last()) {
            assert(is_ascii_letter(s[s.len() - 1]));
        } else {
            assert forall|i: int| 0 <= i < s.len() - 1 implies s.drop_last()[i] == s[i] by {}
            if exists|i: int| 0 <= i < s.len() && is_ascii_letter(#[trigger] s[i]) {
                let i = choose|i: int| 0 <= i < s.len() && is_ascii_letter(#[trigger] s[i]);
                assert(i < s.len() - 1);
                assert(is_ascii_letter(s.drop_last()[i]));
            }
        }
    }
}

/// The key named by two texts one after the other is the second's key where it names
/// one, else the first's: the last letter wins.
pub proof fn law_last_letter_wins(s: Seq<char>, t: Seq<char>)
    ensures
        last_letter_key(s + t) == match last_letter_key(t) {
            Some(k) => Some(k),
            None => last_letter_key(s),
        },
    decreases t.len(),
{
    if t.len() == 0 {
        assert(s + t =~= s);
    } else {
        assert((s + t).drop_last() =~= s + t.drop_last());
        assert((s + t).last() == t.last());
        law_last_letter_wins(s, t.drop_last());
    }
}

/// The modifiers named by two texts one after the other are those named by either: the
/// order and repetition of modifier glyphs do not matter.
pub proof fn law_modifiers_combine(s: Seq<char>, t: Seq<char>)
    ensures
        modifiers_in(s + t) == (HotkeyModifiers {
            super_key: modifiers_in(s).super_key || modifiers_in(t).super_key,
            shift: modifiers_in(s).shift || modifiers_in(t).shift,
            control: modifiers_in(s).control || modifiers_in(t).control,
            alt: modifiers_in(s).alt || modifiers_in(t).alt,
        }),
{
    lemma_concat_contains(s, t, COMMAND_GLYPH);
    lemma_concat_contains(s, t, SHIFT_GLYPH);
    lemma_concat_contains(s, t, CONTROL_GLYPH);
    lemma_concat_contains(s, t, OPTION_GLYPH);
}

/// A character occurs in two texts one after the other exactly when it occurs in either.
proof fn lemma_concat_contains(s: Seq<char>, t: Seq<char>, x: char)
    ensures
        (s + t).contains(x) == (s.contains(x) || t.contains(x)),
{
    if s.contains(x) {
        let j = choose|j: int| 0 <= j < s.len() && s[j] == x;
        assert((s + t)[j] == x);
    }
    if t.contains(x) {
        let j = choose|j: int| 0 <= j < t.len() && t[j] == x;
        assert((s + t)[s.len() + j] == x);
    }
    if (s + t).contains(x) {
        let j = choose|j: int| 0 <= j < (s + t).len() && (s + t)[j] == x;
        if j < s.len() {
            assert(s[j] == x);
        } else {
            assert(t[j - s.len()] == x);
        }
    }
}

/// A lower-case letter names the same key as its upper-case form.
pub proof fn law_case_insensitive(c: char)
    requires
        'a' <= c <= 'z',
    ensures
        ({
            let upper = ((c as int) - 32) as char;
            &&& is_ascii_letter(upper)
            &&& letter_at(alphabet_position(c)) == letter_at(alphabet_position(upper))
        }),
{
}

/// The position of a letter in the alphabet, from 0 for A to 25 for Z.
pub open spec fn letter_position(k: LetterKey) -> int {
    match k {
        LetterKey::A => 0,
        LetterKey::B => 1,
        LetterKey::C => 2,
        LetterKey::D => 3,
        LetterKey::E => 4,
        LetterKey::F => 5,
        LetterKey::G => 6,
        LetterKey::H => 7,
        LetterKey::I => 8,
        LetterKey::J => 9,
        LetterKey::K => 10,
        LetterKey::L => 11,
        LetterKey::M => 12,
        LetterKey::N => 13,
        LetterKey::O => 14,
        LetterKey::P => 15,
        LetterKey::Q => 16,
        LetterKey::R => 17,
        LetterKey::S => 18,
        LetterKey::T => 19,
        LetterKey::U => 20,
        LetterKey::V => 21,
        LetterKey::W => 22,
        LetterKey::X => 23,
        LetterKey::Y => 24,
        LetterKey::Z => 25,
    }
}

/// The upper-case character of a letter key.
pub open spec fn letter_char(k: LetterKey) -> char {
    ('A' as int + letter_position(k)) as char
}

/// The upper-case text of a letter key.
pub fn letter_text(k: LetterKey) -> (s: &'static str)
    ensures
        s@ == seq![letter_char(k)],
{
    match k {
        LetterKey::A => {
            proof {
                reveal_strlit("A");
            }
            "A"
        },
        LetterKey::B => {
            proof {
                reveal_strlit("B");
            }
            "B"
        },
        LetterKey::C => {
            proof {
                reveal_strlit("C");
            }
            "C"
        },
        LetterKey::D => {
            proof {
                reveal_strlit("D");
            }
            "D"
        },
        LetterKey::E => {
            proof {
                reveal_strlit("E");
            }
            "E"
        },
        LetterKey::F => {
            proof {
                reveal_strlit("F");
            }
            "F"
        },
        LetterKey::G => {
            proof {
                reveal_strlit("G");
            }
            "G"
        },
        LetterKey::H => {
            proof {
                reveal_strlit("H");
            }
            "H"
        },
        LetterKey::I => {
            proof {
                reveal_strlit("I");
            }
            "I"
        },
        LetterKey::J => {
            proof {
                reveal_strlit("J");
            }
            "J"
        },
        LetterKey::K => {
            proof {
                reveal_strlit("K");
            }
            "K"
        },
        LetterKey::L => {
            proof {
                reveal_strlit("L");
            }
            "L"
        },
        LetterKey::M => {
            proof {
                reveal_strlit("M");
            }
            "M"
        },
        LetterKey::N => {
            proof {
                reveal_strlit("N");
            }
            "N"
        },
        LetterKey::O => {
            proof {
                reveal_strlit("O");
            }
            "O"
        },
        LetterKey::P => {
            proof {
                reveal_strlit("P");
            }
            "P"
        },
        LetterKey::Q => {
            proof {
                reveal_strlit("Q");
            }
            "Q"
        },
        LetterKey::R => {
            proof {
                reveal_strlit("R");
            }
            "R"
        },
        LetterKey::S => {
            proof {
                reveal_strlit("S");
            }
            "S"
        },
        LetterKey::T => {
            proof {
                reveal_strlit("T");
            }
            "T"
        },
        LetterKey::U => {
            proof {
                reveal_strlit("U");
            }
            "U"
        },
        LetterKey::V => {
            proof {
                reveal_strlit("V");
            }
            "V"
        },
        LetterKey::W => {
            proof {
                reveal_strlit("W");
            }
            "W"
        },
        LetterKey::X => {
            proof {
                reveal_strlit("X");
            }
            "X"
        },
        LetterKey::Y => {
            proof {
                reveal_strlit("Y");
            }
            "Y"
        },
        LetterKey::Z => {
            proof {
                reveal_strlit("Z");
            }
            "Z"
        },
    }
}

/// The menu accelerator that shows a hotkey: "Cmd+", "Shift+", "Ctrl+" and "Alt+" for
/// the modifiers it holds, in that order, then its letter.
pub open spec fn accelerator_text(h: Hotkey) -> Seq<char> {
    (if h.modifiers.super_key { "Cmd+"@ } else { Seq::<char>::empty() })
        + (if h.modifiers.shift { "Shift+"@ } else { Seq::<char>::empty() })
        + (if h.modifiers.control { "Ctrl+"@ } else { Seq::<char>::empty() })
        + (if h.modifiers.alt { "Alt+"@ } else { Seq::<char>::empty() })
        + seq![letter_char(h.key)]
}

/// The menu accelerator that shows the hotkey `h` (see [`accelerator_text`]).
pub fn accelerator(h: Hotkey) -> (s: String)
    ensures
        s@ == accelerator_text(h),
{
    let mut s = String::new();
    let ghost e = Seq::<char>::empty();
    assert(s@ == e + e + e + e);
    if h.modifiers.super_key {
        s.append("Cmd+");
    }
    if h.modifiers.shift {
        s.append("Shift+");
    }
    if h.modifiers.control {
        s.append("Ctrl+");
    }
    if h.modifiers.alt {
        s.append("Alt+");
    }
    s.append(letter_text(h.key));
    assert(s@ =~= accelerator_text(h));
    s
}

/// Each position of the alphabet names its own letter: the letter at position `i` is
/// the `i`-th, counting from A at 0.
pub proof fn law_letter_at_position(i: int)
    requires
        0 <= i < 26,
    ensures
        letter_position(letter_at(i)) == i,
        letter_char(letter_at(i)) == ('A' as int + i) as char,
{
}

/// The key an ASCII letter names is that letter itself, in upper case: 'j' and 'J' both
/// name J, and no letter names its neighbour.
pub proof fn law_letter_names_itself(c: char)
    requires
        is_ascii_letter(c),
    ensures
        letter_char(letter_at(alphabet_position(c))) == ascii_upper(c),
        'A' <= ascii_upper(c) <= 'Z',
        letter_position(letter_at(alphabet_position(c))) == ascii_upper(c) as int - 'A' as int,
{
    law_letter_at_position(alphabet_position(c));
}

/// The key of a parsed hotkey is the last ASCII letter of the text, in upper case.
pub proof fn law_parsed_key_is_last_letter(s: Seq<char>)
    ensures
        parsed_hotkey(s) matches Some(h) ==> exists|i: int|
            0 <= i < s.len() && is_ascii_letter(#[trigger] s[i]) && letter_char(h.key)
                == ascii_upper(s[i]) && forall|j: int| i < j < s.len() ==> !is_ascii_letter(
                #[trigger] s[j],
            ),
    decreases s.len(),
{
    if s.len() > 0 {
        let last = s.len() - 1;
        if is_ascii_letter(s.last()) {
            law_letter_names_itself(s.last());
            assert(is_ascii_letter(s[last]));
        } else {
            law_parsed_key_is_last_letter(s.drop_last());
            if let Some(h) = parsed_hotkey(s) {
                assert(parsed_hotkey(s.drop_last()) is Some);
                let h2 = parsed_hotkey(s.drop_last()).unwrap();
                assert(h2.key == h.key);
                let i = choose|i: int|
                    0 <= i < s.drop_last().len() && is_ascii_letter(#[trigger] s.drop_last()[i])
                        && letter_char(h2.key) == ascii_upper(s.drop_last()[i]) && forall|j: int|
                        i < j < s.drop_last().len() ==> !is_ascii_letter(#[trigger] s.drop_last()[j]);
                assert(s.drop_last()[i] == s[i]);
                assert forall|j: int| i < j < s.len() implies !is_ascii_letter(#[trigger] s[j]) by {
                    if j < last {
                        assert(s.drop_last()[j] == s[j]);
                    }
                }
                assert(is_ascii_letter(s[i]));
            }
        }
    }
}

/// Each modifier glyph turns on its own modifier and no other: ⌘ the Command (super)
/// key, ⇧ Shift, ⌃ Control and ⌥ Option (alt).
pub proof fn law_modifier_glyphs(s: Seq<char>)
    ensures
        modifiers_in(s).super_key <==> s.contains('\u{2318}'),
        modifiers_in(s).shift <==> s.contains('\u{21E7}'),
        modifiers_in(s).control <==> s.contains('\u{2303}'),
        modifiers_in(s).alt <==> s.contains('\u{2325}'),
{
}

} // verus!
