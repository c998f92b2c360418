//! Key strokes and the grammar of key bindings.
//!
//! A binding is a whitespace-separated list of tokens. A token is a chord
//! (`ctrl+r`, `shift+tab`, a named key such as `escape` or `f12`, or a
//! single character), several chords joined by `+` (`a+b`), or a compact
//! run of characters (`gg`). Strokes are kept normalized: shift with a
//! letter becomes the uppercase letter, and shift with tab becomes backtab.
use vstd::prelude::*;

use crate::editor::rows::rows;
use crate::text::{chars_equal, chars_of, string_of, sub_chars};

verus! {

/// A key, as the bindings name it.
#[derive(Debug, Clone, Copy, PartialEq, Eq, Structural)]
pub enum KeyCode {
    Char(char),
    F(u8),
    Enter,
    Tab,
    BackTab,
    Backspace,
    Esc,
    Up,
    Down,
    Left,
    Right,
    Home,
    End,
    PageUp,
    PageDown,
    Delete,
    Insert,
}

/// The modifier keys held with a key. Bindings name the first four; the
/// other two only come from terminals that report them.
#[derive(Debug, Clone, Copy, PartialEq, Eq, Structural)]
pub struct KeyModifiers {
    pub ctrl: bool,
    pub alt: bool,
    pub shift: bool,
    pub super_key: bool,
    pub hyper: bool,
    pub meta: bool,
}

/// A key with its modifiers.
#[derive(Debug, Clone, Copy, PartialEq, Eq, Structural)]
pub struct KeyStroke {
    pub code: KeyCode,
    pub modifiers: KeyModifiers,
}

/// Why a binding could not be read.
#[derive(Debug, Clone, PartialEq, Eq)]
pub enum ParseKeyError {
    /// The binding, or one of its chords, is empty.
    Empty,
    /// A token names no key; the token is given.
    UnknownKey(String),
}

/// What reading a binding (or a part of one) comes to.
pub enum Parsed {
    Strokes(Seq<KeyStroke>),
    Empty,
    Unknown(Seq<char>),
}

/// The outcome of a parse result.
pub open spec fn parsed_of(r: Result<Vec<KeyStroke>, ParseKeyError>) -> Parsed {
    match r {
        Ok(v) => Parsed::Strokes(v@),
        Err(ParseKeyError::Empty) => Parsed::Empty,
        Err(ParseKeyError::UnknownKey(t)) => Parsed::Unknown(t@),
    }
}

/// The outcome of reading a single stroke.
pub open spec fn stroke_parsed(r: Result<KeyStroke, ParseKeyError>) -> Parsed {
    match r {
        Ok(k) => Parsed::Strokes(seq![k]),
        Err(ParseKeyError::Empty) => Parsed::Empty,
        Err(ParseKeyError::UnknownKey(t)) => Parsed::Unknown(t@),
    }
}

/// No modifier held.
pub open spec fn no_modifiers() -> KeyModifiers {
    KeyModifiers { ctrl: false, alt: false, shift: false, super_key: false, hyper: false, meta: false }
}

/// Whitespace, as Unicode defines it.
pub open spec fn is_space(c: char) -> bool {
    ||| '\t' <= c <= '\r'
    ||| c == ' '
    ||| c == '\u{85}'
    ||| c == '\u{a0}'
    ||| c == '\u{1680}'
    ||| '\u{2000}' <= c <= '\u{200a}'
    ||| c == '\u{2028}'
    ||| c == '\u{2029}'
    ||| c == '\u{202f}'
    ||| c == '\u{205f}'
    ||| c == '\u{3000}'
}

/// `c` with ASCII letters lowercased.
pub open spec fn ascii_lower(c: char) -> char {
    if 'A' <= c <= 'Z' {
        ((c as u32) + 32) as char
    } else {
        c
    }
}

/// `c` with ASCII letters uppercased.
pub open spec fn ascii_upper(c: char) -> char {
    if 'a' <= c <= 'z' {
        ((c as u32) - 32) as char
    } else {
        c
    }
}

/// `s` with ASCII letters lowercased.
pub open spec fn lower_seq(s: Seq<char>) -> Seq<char> {
    Seq::new(s.len(), |i: int| ascii_lower(s[i]))
}

/// The modifiers a modifier name adds.
#[derive(Debug, Clone, Copy, PartialEq, Eq, Structural)]
pub enum ModifierBit {
    Ctrl,
    Alt,
    Shift,
    Super,
}

/// The modifier a name (in any ASCII case) stands for.
pub open spec fn modifier_bit(s: Seq<char>) -> Option<ModifierBit> {
    let l = lower_seq(s);
    if l == "ctrl"@ || l == "control"@ || l == "c"@ {
        Some(ModifierBit::Ctrl)
    } else if l == "alt"@ || l == "meta"@ || l == "m"@ {
        Some(ModifierBit::Alt)
    } else if l == "shift"@ || l == "s"@ {
        Some(ModifierBit::Shift)
    } else if l == "super"@ || l == "cmd"@ {
        Some(ModifierBit::Super)
    } else {
        None
    }
}

/// `m` with the modifier `b` added.
pub open spec fn add_modifier(m: KeyModifiers, b: ModifierBit) -> KeyModifiers {
    match b {
        ModifierBit::Ctrl => KeyModifiers { ctrl: true, ..m },
        ModifierBit::Alt => KeyModifiers { alt: true, ..m },
        ModifierBit::Shift => KeyModifiers { shift: true, ..m },
        ModifierBit::Super => KeyModifiers { super_key: true, ..m },
    }
}

/// The first `+` at or after `i` in `t`, or the length of `t`.
pub open spec fn plus_index(t: Seq<char>, i: int) -> int
    decreases t.len() - i,
{
    if i >= t.len() || t[i] == '+' {
        i
    } else {
        plus_index(t, i + 1)
    }
}

/// `plus_index` lies between `i` and the end, finds a `+`, and skips none.
pub proof fn lemma_plus_index(t: Seq<char>, i: int)
    requires
        0 <= i <= t.len(),
    ensures
        i <= plus_index(t, i) <= t.len(),
        plus_index(t, i) < t.len() ==> t[plus_index(t, i)] == '+',
        forall|k: int| i <= k < plus_index(t, i) ==> t[k] != '+',
    decreases t.len() - i,
{
    if i < t.len() && t[i] != '+' {
        lemma_plus_index(t, i + 1);
    }
}

/// The first position at or after `i` that is not whitespace.
pub open spec fn lead(s: Seq<char>, i: int) -> int
    decreases s.len() - i,
{
    if 0 <= i < s.len() && is_space(s[i]) {
        lead(s, i + 1)
    } else {
        i
    }
}

/// The end of `s` once trailing whitespace down to `lo` is dropped.
pub open spec fn trail(s: Seq<char>, j: int, lo: int) -> int
    decreases j - lo,
{
    if j > lo && is_space(s[j - 1]) {
        trail(s, j - 1, lo)
    } else {
        j
    }
}

/// `s` without leading and trailing whitespace.
pub open spec fn trim(s: Seq<char>) -> Seq<char> {
    let a = lead(s, 0);
    s.subrange(a, trail(s, s.len() as int, a))
}

/// The key left once the leading `modifier+` prefixes are taken off, and
/// the modifiers they add to `m`.
pub open spec fn strip_mods(key: Seq<char>, m: KeyModifiers) -> (Seq<char>, KeyModifiers)
    decreases key.len(),
{
    let k = plus_index(key, 0);
    if k < key.len() && modifier_bit(key.subrange(0, k)) is Some {
        proof {
            lemma_plus_index(key, 0);
        }
        strip_mods(key.subrange(k + 1, key.len() as int), add_modifier(m, modifier_bit(key.subrange(0, k))->0))
    } else {
        (key, m)
    }
}

/// The value of a run of decimal digits.
pub open spec fn digits_value(s: Seq<char>) -> int
    decreases s.len(),
{
    if s.len() == 0 {
        0
    } else {
        digits_value(s.drop_last()) * 10 + (s.last() as int - '0' as int)
    }
}

/// Whether every character of `s` is a decimal digit.
pub open spec fn all_digits(s: Seq<char>) -> bool {
    forall|i: int| 0 <= i < s.len() ==> '0' <= #[trigger] s[i] <= '9'
}

/// A byte read from decimal text: an optional `+` and at least one digit,
/// worth at most 255.
pub open spec fn parse_u8(s: Seq<char>) -> Option<u8> {
    let d = if s.len() > 0 && s[0] == '+' {
        s.drop_first()
    } else {
        s
    };
    if d.len() > 0 && all_digits(d) && digits_value(d) <= 255 {
        Some(digits_value(d) as u8)
    } else {
        None
    }
}

/// The key a key name (in any ASCII case) stands for: a named key,
/// `f` with a number, or a single character as it is.
pub open spec fn key_code(key: Seq<char>) -> Option<KeyCode> {
    let l = lower_seq(key);
    if l == "enter"@ || l == "return"@ {
        Some(KeyCode::Enter)
    } else if l == "tab"@ {
        Some(KeyCode::Tab)
    } else if l == "backtab"@ {
        Some(KeyCode::BackTab)
    } else if l == "esc"@ || l == "escape"@ {
        Some(KeyCode::Esc)
    } else if l == "backspace"@ || l == "bs"@ {
        Some(KeyCode::Backspace)
    } else if l == "space"@ {
        Some(KeyCode::Char(' '))
    } else if l == "up"@ {
        Some(KeyCode::Up)
    } else if l == "down"@ {
        Some(KeyCode::Down)
    } else if l == "left"@ {
        Some(KeyCode::Left)
    } else if l == "right"@ {
        Some(KeyCode::Right)
    } else if l == "home"@ {
        Some(KeyCode::Home)
    } else if l == "end"@ {
        Some(KeyCode::End)
    } else if l == "pageup"@ || l == "page_up"@ {
        Some(KeyCode::PageUp)
    } else if l == "pagedown"@ || l == "page_down"@ {
        Some(KeyCode::PageDown)
    } else if l == "delete"@ || l == "del"@ {
        Some(KeyCode::Delete)
    } else if l == "insert"@ || l == "ins"@ {
        Some(KeyCode::Insert)
    } else if l.len() > 1 && l[0] == 'f' {
        match parse_u8(l.drop_first()) {
            Some(n) => Some(KeyCode::F(n)),
            None => None,
        }
    } else if key.len() == 1 {
        Some(KeyCode::Char(key[0]))
    } else {
        None
    }
}

/// Every key name reads as its key, in any letter case: `"enter"` and
/// `"return"` as Enter, `"esc"` and `"escape"` as Esc, `"backspace"` and
/// `"bs"` as Backspace, `"delete"` and `"del"` as Delete, `"insert"` and
/// `"ins"` as Insert, and so on for each documented name; a single
/// character is that character's key, as written.
pub proof fn lemma_key_name_aliases(s: Seq<char>)
    ensures
        (lower_seq(s) == "enter"@ || lower_seq(s) == "return"@) ==> key_code(s) == Some(KeyCode::Enter),
        (lower_seq(s) == "tab"@) ==> key_code(s) == Some(KeyCode::Tab),
        (lower_seq(s) == "backtab"@) ==> key_code(s) == Some(KeyCode::BackTab),
        (lower_seq(s) == "esc"@ || lower_seq(s) == "escape"@) ==> key_code(s) == Some(KeyCode::Esc),
        (lower_seq(s) == "backspace"@ || lower_seq(s) == "bs"@) ==> key_code(s) == Some(KeyCode::Backspace),
        (lower_seq(s) == "space"@) ==> key_code(s) == Some(KeyCode::Char(' ')),
        (lower_seq(s) == "up"@) ==> key_code(s) == Some(KeyCode::Up),
        (lower_seq(s) == "down"@) ==> key_code(s) == Some(KeyCode::Down),
        (lower_seq(s) == "left"@) ==> key_code(s) == Some(KeyCode::Left),
        (lower_seq(s) == "right"@) ==> key_code(s) == Some(KeyCode::Right),
        (lower_seq(s) == "home"@) ==> key_code(s) == Some(KeyCode::Home),
        (lower_seq(s) == "end"@) ==> key_code(s) == Some(KeyCode::End),
        (lower_seq(s) == "pageup"@ || lower_seq(s) == "page_up"@) ==> key_code(s) == Some(KeyCode::PageUp),
        (lower_seq(s) == "pagedown"@ || lower_seq(s) == "page_down"@) ==> key_code(s) == Some(KeyCode::PageDown),
        (lower_seq(s) == "delete"@ || lower_seq(s) == "del"@) ==> key_code(s) == Some(KeyCode::Delete),
        (lower_seq(s) == "insert"@ || lower_seq(s) == "ins"@) ==> key_code(s) == Some(KeyCode::Insert),
        s.len() == 1 ==> key_code(s) == Some(KeyCode::Char(s[0])),
{
    reveal_strlit("enter");
    assert("enter"@ =~= seq!['e', 'n', 't', 'e', 'r']);
    reveal_strlit("return");
    assert("return"@ =~= seq!['r', 'e', 't', 'u', 'r', 'n']);
    reveal_strlit("tab");
    assert("tab"@ =~= seq!['t', 'a', 'b']);
    reveal_strlit("backtab");
    assert("backtab"@ =~= seq!['b', 'a', 'c', 'k', 't', 'a', 'b']);
    reveal_strlit("esc");
    assert("esc"@ =~= seq!['e', 's', 'c']);
    reveal_strlit("escape");
    assert("escape"@ =~= seq!['e', 's', 'c', 'a', 'p', 'e']);
    reveal_strlit("backspace");
    assert("backspace"@ =~= seq!['b', 'a', 'c', 'k', 's', 'p', 'a', 'c', 'e']);
    reveal_strlit("bs");
    assert("bs"@ =~= seq!['b', 's']);
    reveal_strlit("space");
    assert("space"@ =~= seq!['s', 'p', 'a', 'c', 'e']);
    reveal_strlit("up");
    assert("up"@ =~= seq!['u', 'p']);
    reveal_strlit("down");
    assert("down"@ =~= seq!['d', 'o', 'w', 'n']);
    reveal_strlit("left");
    assert("left"@ =~= seq!['l', 'e', 'f', 't']);
    reveal_strlit("right");
    assert("right"@ =~= seq!['r', 'i', 'g', 'h', 't']);
    reveal_strlit("home");
    assert("home"@ =~= seq!['h', 'o', 'm', 'e']);
    reveal_strlit("end");
    assert("end"@ =~= seq!['e', 'n', 'd']);
    reveal_strlit("pageup");
    assert("pageup"@ =~= seq!['p', 'a', 'g', 'e', 'u', 'p']);
    reveal_strlit("page_up");
    assert("page_up"@ =~= seq!['p', 'a', 'g', 'e', '_', 'u', 'p']);
    reveal_strlit("pagedown");
    assert("pagedown"@ =~= seq!['p', 'a', 'g', 'e', 'd', 'o', 'w', 'n']);
    reveal_strlit("page_down");
    assert("page_down"@ =~= seq!['p', 'a', 'g', 'e', '_', 'd', 'o', 'w', 'n']);
    reveal_strlit("delete");
    assert("delete"@ =~= seq!['d', 'e', 'l', 'e', 't', 'e']);
    reveal_strlit("del");
    assert("del"@ =~= seq!['d', 'e', 'l']);
    reveal_strlit("insert");
    assert("insert"@ =~= seq!['i', 'n', 's', 'e', 'r', 't']);
    reveal_strlit("ins");
    assert("ins"@ =~= seq!['i', 'n', 's']);
}

/// Whether `c` is an ASCII letter.
pub open spec fn is_ascii_alpha(c: char) -> bool {
    ('a' <= c <= 'z') || ('A' <= c <= 'Z')
}

/// The normal form of a stroke: shift with tab (or backtab) is backtab,
/// shift with an ASCII letter is the uppercase letter.
pub open spec fn normalize(s: KeyStroke) -> KeyStroke {
    if s.code == KeyCode::BackTab || (s.code == KeyCode::Tab && s.modifiers.shift) {
        KeyStroke { code: KeyCode::BackTab, modifiers: KeyModifiers { shift: false, ..s.modifiers } }
    } else {
        match s.code {
            KeyCode::Char(ch) => if s.modifiers.shift && is_ascii_alpha(ch) {
                KeyStroke {
                    code: KeyCode::Char(ascii_upper(ch)),
                    modifiers: KeyModifiers { shift: false, ..s.modifiers },
                }
            } else {
                s
            },
            _ => s,
        }
    }
}

/// A chord: modifier prefixes and a key, read after trimming.
pub open spec fn chord(token: Seq<char>) -> Parsed {
    let t = trim(token);
    if t.len() == 0 {
        Parsed::Empty
    } else {
        let (key, m) = strip_mods(t, no_modifiers());
        match key_code(key) {
            Some(code) => Parsed::Strokes(seq![normalize(KeyStroke { code, modifiers: m })]),
            None => Parsed::Unknown(t),
        }
    }
}

/// The `+`-separated parts of `t` from position `i` on.
pub open spec fn segments(t: Seq<char>, i: int) -> Seq<Seq<char>>
    decreases t.len() - i,
{
    let k = plus_index(t, i);
    if i < 0 || i > t.len() {
        Seq::empty()
    } else if k >= t.len() {
        seq![t.subrange(i, t.len() as int)]
    } else {
        proof {
            lemma_plus_index(t, i);
        }
        seq![t.subrange(i, k)] + segments(t, k + 1)
    }
}

/// The strokes of `parts` read as one chord each, when every part is one.
pub open spec fn parts_strokes(parts: Seq<Seq<char>>) -> Option<Seq<KeyStroke>>
    decreases parts.len(),
{
    if parts.len() == 0 {
        Some(Seq::empty())
    } else {
        match (chord(parts[0]), parts_strokes(parts.drop_first())) {
            (Parsed::Strokes(a), Some(b)) => Some(a + b),
            _ => None,
        }
    }
}

/// A run of characters read one stroke per character.
pub open spec fn char_strokes(t: Seq<char>) -> Seq<KeyStroke>
    decreases t.len(),
{
    if t.len() == 0 {
        Seq::empty()
    } else {
        char_strokes(t.drop_last()).push(
            KeyStroke { code: KeyCode::Char(t.last()), modifiers: no_modifiers() },
        )
    }
}

/// A token: a chord; parts joined by `+` (a chord when all but the last
/// part are modifiers); or, when it names no key, a run of characters.
pub open spec fn token(t: Seq<char>) -> Parsed {
    let parts = segments(t, 0);
    if parts.len() > 1 {
        if forall|j: int| 0 <= j < parts.len() - 1 ==> modifier_bit(#[trigger] parts[j]) is Some {
            chord(t)
        } else {
            match parts_strokes(parts) {
                Some(v) => Parsed::Strokes(v),
                None => Parsed::Unknown(trim(t)),
            }
        }
    } else {
        match chord(t) {
            Parsed::Unknown(u) => if t.len() > 1 {
                Parsed::Strokes(char_strokes(t))
            } else {
                Parsed::Unknown(u)
            },
            other => other,
        }
    }
}

/// The end of the token that starts at `i`.
pub open spec fn token_end(s: Seq<char>, i: int) -> int
    decreases s.len() - i,
{
    if i >= s.len() || is_space(s[i]) {
        i
    } else {
        token_end(s, i + 1)
    }
}

/// `token_end` lies between `i` and the end, and skips no whitespace.
pub proof fn lemma_token_end(s: Seq<char>, i: int)
    requires
        0 <= i <= s.len(),
    ensures
        i <= token_end(s, i) <= s.len(),
        token_end(s, i) < s.len() ==> is_space(s[token_end(s, i)]),
        forall|k: int| i <= k < token_end(s, i) ==> !is_space(s[k]),
    decreases s.len() - i,
{
    if i < s.len() && !is_space(s[i]) {
        lemma_token_end(s, i + 1);
    }
}

/// Reads the binding `s` from position `i` on, after the strokes `acc`.
pub open spec fn binding_from(s: Seq<char>, i: int, acc: Seq<KeyStroke>) -> Parsed
    decreases s.len() - i,
{
    if i < 0 || i >= s.len() {
        if acc.len() == 0 {
            Parsed::Empty
        } else {
            Parsed::Strokes(acc)
        }
    } else if is_space(s[i]) {
        binding_from(s, i + 1, acc)
    } else {
        let j = token_end(s, i);
        proof {
            lemma_token_end(s, i);
        }
        if j <= i {
            Parsed::Empty
        } else {
            match token(s.subrange(i, j)) {
                Parsed::Strokes(v) => binding_from(s, j, acc + v),
                other => other,
            }
        }
    }
}

/// Reads a whole binding.
pub open spec fn parsed_binding(s: Seq<char>) -> Parsed {
    binding_from(s, 0, Seq::empty())
}

/// A binding that reads has at least one stroke.
pub proof fn lemma_binding_has_strokes(s: Seq<char>, i: int, acc: Seq<KeyStroke>)
    ensures
        binding_from(s, i, acc) matches Parsed::Strokes(v) ==> v.len() > 0,
    decreases s.len() - i,
{
    if 0 <= i < s.len() {
        if is_space(s[i]) {
            lemma_binding_has_strokes(s, i + 1, acc);
        } else {
            let j = token_end(s, i);
            lemma_token_end(s, i);
            if j > i {
                if let Parsed::Strokes(v) = token(s.subrange(i, j)) {
                    lemma_binding_has_strokes(s, j, acc + v);
                }
            }
        }
    }
}

/// The value of an all-digit run is at least that of any of its prefixes.
proof fn lemma_digits_monotone(s: Seq<char>, i: int)
    requires
        0 <= i <= s.len(),
        all_digits(s),
    ensures
        digits_value(s.take(i)) <= digits_value(s),
        digits_value(s) >= 0,
    decreases s.len(),
{
    if s.len() == 0 {
        assert(s.take(i) =~= s);
    } else {
        assert(all_digits(s.drop_last()));
        if i == s.len() {
            assert(s.take(i) =~= s);
            lemma_digits_monotone(s.drop_last(), 0);
        } else {
            lemma_digits_monotone(s.drop_last(), i);
            assert(s.drop_last().take(i) =~= s.take(i));
        }
        assert('0' <= s[s.len() - 1] <= '9');
    }
}

/// Whether `c` is whitespace.
pub fn is_space_char(c: char) -> (res: bool)
    ensures
        res == is_space(c),
{
    ('\t' <= c && c <= '\r') || c == ' ' || c == '\u{85}' || c == '\u{a0}' || c == '\u{1680}'
        || ('\u{2000}' <= c && c <= '\u{200a}') || c == '\u{2028}' || c == '\u{2029}'
        || c == '\u{202f}' || c == '\u{205f}' || c == '\u{3000}'
}

/// `c` with ASCII letters lowercased.
pub fn lower_char(c: char) -> (res: char)
    ensures
        res == ascii_lower(c),
{
    if 'A' <= c && c <= 'Z' {
        let n: u32 = (c as u32) + 32;
        let b: u8 = n as u8;
        let r = b as char;
        assert(b == n);
        assert(r as u32 == n);
        r
    } else {
        c
    }
}

/// `c` with ASCII letters uppercased.
pub fn upper_char(c: char) -> (res: char)
    ensures
        res == ascii_upper(c),
{
    if 'a' <= c && c <= 'z' {
        let n: u32 = (c as u32) - 32;
        let b: u8 = n as u8;
        let r = b as char;
        assert(b == n);
        assert(r as u32 == n);
        r
    } else {
        c
    }
}

/// `v` with ASCII letters lowercased.
fn lower_chars(v: &Vec<char>) -> (res: Vec<char>)
    ensures
        res@ == lower_seq(v@),
{
    let mut out: Vec<char> = Vec::new();
    let mut i: usize = 0;
    while i < v.len()
        invariant
            i <= v@.len(),
            out@.len() == i,
            forall|k: int| 0 <= k < i ==> out@[k] == ascii_lower(v@[k]),
        decreases v@.len() - i,
    {
        out.push(lower_char(v[i]));
        i += 1;
    }
    proof {
        assert(out@ =~= lower_seq(v@));
    }
    out
}

/// Whether `v` holds exactly the characters of `lit`.
fn chars_is(v: &Vec<char>, lit: &str) -> (res: bool)
    ensures
        res == (v@ == lit@),
{
    let l = chars_of(lit);
    chars_equal(v, &l)
}

/// The modifier a name stands for.
fn modifier_bit_exec(v: &Vec<char>) -> (res: Option<ModifierBit>)
    ensures
        res == modifier_bit(v@),
{
    let l = lower_chars(v);
    if chars_is(&l, "ctrl") || chars_is(&l, "control") || chars_is(&l, "c") {
        Some(ModifierBit::Ctrl)
    } else if chars_is(&l, "alt") || chars_is(&l, "meta") || chars_is(&l, "m") {
        Some(ModifierBit::Alt)
    } else if chars_is(&l, "shift") || chars_is(&l, "s") {
        Some(ModifierBit::Shift)
    } else if chars_is(&l, "super") || chars_is(&l, "cmd") {
        Some(ModifierBit::Super)
    } else {
        None
    }
}

/// `m` with the modifier `b` added.
fn add_modifier_exec(m: KeyModifiers, b: ModifierBit) -> (res: KeyModifiers)
    ensures
        res == add_modifier(m, b),
{
    match b {
        ModifierBit::Ctrl => KeyModifiers { ctrl: true, ..m },
        ModifierBit::Alt => KeyModifiers { alt: true, ..m },
        ModifierBit::Shift => KeyModifiers { shift: true, ..m },
        ModifierBit::Super => KeyModifiers { super_key: true, ..m },
    }
}

/// The first `+` at or after `i`, or the length.
fn plus_index_exec(v: &Vec<char>, i: usize) -> (res: usize)
    requires
        i <= v@.len(),
    ensures
        res == plus_index(v@, i as int),
{
    let mut k = i;
    while k < v.len() && v[k] != '+'
        invariant
            i <= k <= v@.len(),
            plus_index(v@, k as int) == plus_index(v@, i as int),
        decreases v@.len() - k,
    {
        k += 1;
    }
    k
}

/// `v` without leading and trailing whitespace.
fn trim_chars(v: &Vec<char>) -> (res: Vec<char>)
    ensures
        res@ == trim(v@),
{
    let mut a: usize = 0;
    while a < v.len() && is_space_char(v[a])
        invariant
            a <= v@.len(),
            lead(v@, a as int) == lead(v@, 0),
        decreases v@.len() - a,
    {
        a += 1;
    }
    let mut b: usize = v.len();
    while b > a && is_space_char(v[b - 1])
        invariant
            a <= b <= v@.len(),
            a == lead(v@, 0),
            trail(v@, b as int, a as int) == trail(v@, v@.len() as int, a as int),
        decreases b - a,
    {
        b -= 1;
    }
    sub_chars(v, a, b)
}

/// Takes the leading `modifier+` prefixes off `key`.
fn strip_mods_exec(key: &Vec<char>) -> (res: (Vec<char>, KeyModifiers))
    ensures
        (res.0@, res.1) == strip_mods(key@, no_modifiers()),
{
    let mut cur = copy_key(key);
    let mut m = KeyModifiers { ctrl: false, alt: false, shift: false, super_key: false, hyper: false, meta: false };
    loop
        invariant
            strip_mods(cur@, m) == strip_mods(key@, no_modifiers()),
        decreases cur@.len(),
    {
        let k = plus_index_exec(&cur, 0);
        proof {
            lemma_plus_index(cur@, 0);
        }
        if k >= cur.len() {
            return (cur, m);
        }
        let prefix = sub_chars(&cur, 0, k);
        match modifier_bit_exec(&prefix) {
            Some(b) => {
                m = add_modifier_exec(m, b);
                cur = sub_chars(&cur, k + 1, cur.len());
            },
            None => {
                return (cur, m);
            },
        }
    }
}

/// A copy of `v`.
fn copy_key(v: &Vec<char>) -> (res: Vec<char>)
    ensures
        res@ == v@,
{
    sub_chars(v, 0, v.len())
}

/// A byte read from the decimal text `s`.
fn parse_u8_exec(s: &Vec<char>) -> (res: Option<u8>)
    ensures
        res == parse_u8(s@),
{
    let start: usize = if s.len() > 0 && s[0] == '+' {
        1
    } else {
        0
    };
    let d = sub_chars(s, start, s.len());
    let ghost dd = if s@.len() > 0 && s@[0] == '+' {
        s@.drop_first()
    } else {
        s@
    };
    proof {
        if start == 1 {
            assert(d@ =~= s@.drop_first());
        } else {
            assert(d@ =~= s@);
        }
        assert(d@ == dd);
    }
    if d.len() == 0 {
        return None;
    }
    let mut value: u32 = 0;
    let mut i: usize = 0;
    while i < d.len()
        invariant
            d@ == dd,
            parse_u8(s@) == (if dd.len() > 0 && all_digits(dd) && digits_value(dd) <= 255 {
                Some(digits_value(dd) as u8)
            } else {
                None
            }),
            i <= d@.len(),
            all_digits(d@.take(i as int)),
            value == digits_value(d@.take(i as int)),
            value <= 255,
        decreases d@.len() - i,
    {
        let c = d[i];
        if !('0' <= c && c <= '9') {
            proof {
                assert(!('0' <= d@[i as int] <= '9'));
                assert(!all_digits(d@));
            }
            return None;
        }
        proof {
            assert(d@.take(i + 1).drop_last() =~= d@.take(i as int));
            assert(all_digits(d@.take(i + 1)));
        }
        value = value * 10 + ((c as u32) - ('0' as u32));
        i += 1;
        if value > 255 {
            proof {
                if all_digits(d@) {
                    lemma_digits_monotone(d@, i as int);
                }
            }
            return None;
        }
    }
    proof {
        assert(d@.take(d@.len() as int) =~= d@);
    }
    Some(value as u8)
}

/// The key a key name stands for.
fn key_code_exec(key: &Vec<char>) -> (res: Option<KeyCode>)
    ensures
        res == key_code(key@),
{
    let l = lower_chars(key);
    if chars_is(&l, "enter") || chars_is(&l, "return") {
        Some(KeyCode::Enter)
    } else if chars_is(&l, "tab") {
        Some(KeyCode::Tab)
    } else if chars_is(&l, "backtab") {
        Some(KeyCode::BackTab)
    } else if chars_is(&l, "esc") || chars_is(&l, "escape") {
        Some(KeyCode::Esc)
    } else if chars_is(&l, "backspace") || chars_is(&l, "bs") {
        Some(KeyCode::Backspace)
    } else if chars_is(&l, "space") {
        Some(KeyCode::Char(' '))
    } else if chars_is(&l, "up") {
        Some(KeyCode::Up)
    } else if chars_is(&l, "down") {
        Some(KeyCode::Down)
    } else if chars_is(&l, "left") {
        Some(KeyCode::Left)
    } else if chars_is(&l, "right") {
        Some(KeyCode::Right)
    } else if chars_is(&l, "home") {
        Some(KeyCode::Home)
    } else if chars_is(&l, "end") {
        Some(KeyCode::End)
    } else if chars_is(&l, "pageup") || chars_is(&l, "page_up") {
        Some(KeyCode::PageUp)
    } else if chars_is(&l, "pagedown") || chars_is(&l, "page_down") {
        Some(KeyCode::PageDown)
    } else if chars_is(&l, "delete") || chars_is(&l, "del") {
        Some(KeyCode::Delete)
    } else if chars_is(&l, "insert") || chars_is(&l, "ins") {
        Some(KeyCode::Insert)
    } else if l.len() > 1 && l[0] == 'f' {
        let rest = sub_chars(&l, 1, l.len());
        proof {
            assert(rest@ =~= lower_seq(key@).drop_first());
        }
        match parse_u8_exec(&rest) {
            Some(n) => Some(KeyCode::F(n)),
            None => None,
        }
    } else if key.len() == 1 {
        Some(KeyCode::Char(key[0]))
    } else {
        None
    }
}

/// The normal form of a stroke: shift with tab (or backtab) is backtab,
/// shift with an ASCII letter is the uppercase letter.
pub fn normalize_stroke(stroke: KeyStroke) -> (res: KeyStroke)
    ensures
        res == normalize(stroke),
{
    let is_backtab = match stroke.code {
        KeyCode::BackTab => true,
        KeyCode::Tab => stroke.modifiers.shift,
        _ => false,
    };
    if is_backtab {
        return KeyStroke {
            code: KeyCode::BackTab,
            modifiers: KeyModifiers { shift: false, ..stroke.modifiers },
        };
    }
    match stroke.code {
        KeyCode::Char(ch) => {
            if stroke.modifiers.shift && (('a' <= ch && ch <= 'z') || ('A' <= ch && ch <= 'Z')) {
                KeyStroke {
                    code: KeyCode::Char(upper_char(ch)),
                    modifiers: KeyModifiers { shift: false, ..stroke.modifiers },
                }
            } else {
                stroke
            }
        },
        _ => stroke,
    }
}

/// Reads a chord: modifier prefixes and a key, after trimming.
fn chord_exec(token: &Vec<char>) -> (res: Result<KeyStroke, ParseKeyError>)
    ensures
        stroke_parsed(res) == chord(token@),
{
    let t = trim_chars(token);
    if t.len() == 0 {
        return Err(ParseKeyError::Empty);
    }
    let (key, m) = strip_mods_exec(&t);
    match key_code_exec(&key) {
        Some(code) => Ok(normalize_stroke(KeyStroke { code, modifiers: m })),
        None => Err(ParseKeyError::UnknownKey(string_of(t.as_slice()))),
    }
}

/// The `+`-separated parts of `t`.
fn segments_exec(t: &Vec<char>) -> (res: Vec<Vec<char>>)
    ensures
        rows(res@) == segments(t@, 0),
{
    let mut out: Vec<Vec<char>> = Vec::new();
    let mut i: usize = 0;
    proof {
        assert(rows(out@) + segments(t@, 0) =~= segments(t@, 0));
    }
    loop
        invariant
            i <= t@.len(),
            rows(out@) + segments(t@, i as int) == segments(t@, 0),
        decreases t@.len() - i,
    {
        let k = plus_index_exec(t, i);
        proof {
            lemma_plus_index(t@, i as int);
        }
        let seg = sub_chars(t, i, k);
        let ghost prev = out@;
        out.push(seg);
        proof {
            assert(rows(out@) =~= rows(prev).push(seg@));
        }
        if k >= t.len() {
            proof {
                assert(rows(out@) =~= segments(t@, 0));
            }
            return out;
        }
        proof {
            assert(rows(out@) + segments(t@, k + 1) =~= rows(prev) + segments(t@, i as int));
        }
        i = k + 1;
    }
}

/// The strokes `acc` followed by those of `o`, if any.
pub open spec fn then_strokes(acc: Seq<KeyStroke>, o: Option<Seq<KeyStroke>>) -> Option<Seq<KeyStroke>> {
    match o {
        Some(b) => Some(acc + b),
        None => None,
    }
}

/// The stroke of a character without modifiers.
fn char_stroke(c: char) -> (res: KeyStroke)
    ensures
        res == (KeyStroke { code: KeyCode::Char(c), modifiers: no_modifiers() }),
{
    KeyStroke {
        code: KeyCode::Char(c),
        modifiers: KeyModifiers { ctrl: false, alt: false, shift: false, super_key: false, hyper: false, meta: false },
    }
}

/// One stroke per character, without modifiers.
fn char_strokes_exec(t: &Vec<char>) -> (res: Vec<KeyStroke>)
    ensures
        res@ == char_strokes(t@),
{
    let mut v: Vec<KeyStroke> = Vec::new();
    let mut i: usize = 0;
    proof {
        assert(t@.take(0) =~= Seq::<char>::empty());
    }
    while i < t.len()
        invariant
            i <= t@.len(),
            v@ == char_strokes(t@.take(i as int)),
        decreases t@.len() - i,
    {
        let ks = char_stroke(t[i]);
        v.push(ks);
        proof {
            assert(t@.take(i + 1).drop_last() =~= t@.take(i as int));
            assert(t@.take(i + 1).last() == t@[i as int]);
        }
        i += 1;
    }
    proof {
        assert(t@.take(t@.len() as int) =~= t@);
    }
    v
}

/// Reads a token; see `token`.
fn token_exec(t: &Vec<char>) -> (res: Result<Vec<KeyStroke>, ParseKeyError>)
    ensures
        parsed_of(res) == token(t@),
{
    let parts = segments_exec(t);
    let ghost p = rows(parts@);
    proof {
        assert(p.len() == parts@.len());
    }
    if parts.len() > 1 {
        let last = parts.len() - 1;
        let mut all = true;
        let mut j: usize = 0;
        while j < last
            invariant
                last == parts@.len() - 1,
                p == rows(parts@),
                j <= last,
                all == forall|q: int| 0 <= q < j ==> modifier_bit(#[trigger] p[q]) is Some,
            decreases last - j,
        {
            let b = modifier_bit_exec(&parts[j]);
            proof {
                assert(p[j as int] == parts@[j as int]@);
            }
            if b.is_none() {
                all = false;
            }
            j += 1;
        }
        if all {
            return match chord_exec(t) {
                Ok(k) => {
                    let mut v: Vec<KeyStroke> = Vec::new();
                    v.push(k);
                    proof {
                        assert(v@ =~= seq![k]);
                    }
                    Ok(v)
                },
                Err(e) => Err(e),
            };
        }
        let mut out: Vec<KeyStroke> = Vec::new();
        let mut q: usize = 0;
        proof {
            assert(p.skip(0) =~= p);
            match parts_strokes(p) {
                Some(b) => {
                    assert(Seq::<KeyStroke>::empty() + b =~= b);
                },
                None => {},
            }
        }
        while q < parts.len()
            invariant
                p == rows(parts@),
                p == segments(t@, 0),
                p.len() == parts@.len(),
                p.len() > 1,
                !(forall|j: int| 0 <= j < p.len() - 1 ==> modifier_bit(#[trigger] p[j]) is Some),
                q <= parts@.len(),
                parts_strokes(p) == then_strokes(out@, parts_strokes(p.skip(q as int))),
            decreases parts@.len() - q,
        {
            proof {
                assert(p.skip(q as int)[0] == p[q as int]);
                assert(p.skip(q as int).drop_first() =~= p.skip(q + 1));
                assert(p[q as int] == parts@[q as int]@);
            }
            match chord_exec(&parts[q]) {
                Ok(k) => {
                    let ghost prev = out@;
                    out.push(k);
                    proof {
                        assert(prev + seq![k] =~= out@);
                        match parts_strokes(p.skip(q + 1)) {
                            Some(b) => {
                                assert(prev + (seq![k] + b) =~= out@ + b);
                            },
                            None => {},
                        }
                    }
                },
                Err(_) => {
                    let tt = trim_chars(t);
                    return Err(ParseKeyError::UnknownKey(string_of(tt.as_slice())));
                },
            }
            q += 1;
        }
        proof {
            assert(p.skip(p.len() as int) =~= Seq::<Seq<char>>::empty());
        }
        Ok(out)
    } else {
        match chord_exec(t) {
            Ok(k) => {
                let mut v: Vec<KeyStroke> = Vec::new();
                v.push(k);
                proof {
                    assert(v@ =~= seq![k]);
                }
                Ok(v)
            },
            Err(ParseKeyError::Empty) => Err(ParseKeyError::Empty),
            Err(ParseKeyError::UnknownKey(u)) => {
                if t.len() > 1 {
                    Ok(char_strokes_exec(t))
                } else {
                    Err(ParseKeyError::UnknownKey(u))
                }
            },
        }
    }
}

/// Reads a binding: its whitespace-separated tokens, one after the other.
/// An empty binding, or a token that names no key, is an error.
pub fn try_parse_binding(binding: &str) -> (res: Result<Vec<KeyStroke>, ParseKeyError>)
    ensures
        parsed_of(res) == parsed_binding(binding@),
{
    let s = chars_of(binding);
    let mut acc: Vec<KeyStroke> = Vec::new();
    let mut i: usize = 0;
    while i < s.len()
        invariant
            s@ == binding@,
            i <= s@.len(),
            parsed_binding(s@) == binding_from(s@, i as int, acc@),
        decreases s@.len() - i,
    {
        if is_space_char(s[i]) {
            i += 1;
        } else {
            let mut j = i;
            while j < s.len() && !is_space_char(s[j])
                invariant
                    i <= j <= s@.len(),
                    token_end(s@, j as int) == token_end(s@, i as int),
                decreases s@.len() - j,
            {
                j += 1;
            }
            proof {
                lemma_token_end(s@, i as int);
            }
            let tok = sub_chars(&s, i, j);
            match token_exec(&tok) {
                Ok(v) => {
                    let ghost prev = acc@;
                    let mut k: usize = 0;
                    while k < v.len()
                        invariant
                            k <= v@.len(),
                            acc@ == prev + v@.take(k as int),
                        decreases v@.len() - k,
                    {
                        acc.push(v[k]);
                        k += 1;
                        proof {
                            assert(acc@ =~= prev + v@.take(k as int));
                        }
                    }
                    proof {
                        assert(v@.take(v@.len() as int) =~= v@);
                    }
                },
                Err(e) => {
                    return Err(e);
                },
            }
            i = j;
        }
    }
    if acc.len() == 0 {
        Err(ParseKeyError::Empty)
    } else {
        Ok(acc)
    }
}

/// Reads a binding; `None` when it cannot be read.
pub fn parse_binding(binding: &str) -> (res: Option<Vec<KeyStroke>>)
    ensures
        match parsed_binding(binding@) {
            Parsed::Strokes(v) => res matches Some(w) && w@ == v,
            _ => res is None,
        },
{
    match try_parse_binding(binding) {
        Ok(v) => Some(v),
        Err(_) => None,
    }
}

/// Reads one chord, such as `ctrl+r` or `f12`.
pub fn try_parse_key(token: &str) -> (res: Result<KeyStroke, ParseKeyError>)
    ensures
        stroke_parsed(res) == chord(token@),
{
    let t = chars_of(token);
    chord_exec(&t)
}

/// The normal form of each stroke.
pub fn normalize_binding(sequence: &[KeyStroke]) -> (res: Vec<KeyStroke>)
    ensures
        res@ == sequence@.map_values(|k: KeyStroke| normalize(k)),
{
    let mut out: Vec<KeyStroke> = Vec::new();
    let mut i: usize = 0;
    while i < sequence.len()
        invariant
            i <= sequence@.len(),
            out@.len() == i,
            forall|k: int| 0 <= k < i ==> out@[k] == normalize(sequence@[k]),
        decreases sequence@.len() - i,
    {
        out.push(normalize_stroke(sequence[i]));
        i += 1;
    }
    proof {
        assert(out@ =~= sequence@.map_values(|k: KeyStroke| normalize(k)));
    }
    out
}

/// The decimal digit `d`.
pub open spec fn digit_char(d: int) -> char {
    (('0' as u32) + d) as char
}

/// The decimal digits of `n`.
pub open spec fn decimal(n: u8) -> Seq<char> {
    if n < 10 {
        seq![digit_char(n as int)]
    } else if n < 100 {
        seq![digit_char(n as int / 10), digit_char(n as int % 10)]
    } else {
        seq![digit_char(n as int / 100), digit_char((n as int / 10) % 10), digit_char(n as int % 10)]
    }
}

/// The name a key is written with.
pub open spec fn key_name(code: KeyCode) -> Seq<char> {
    match code {
        KeyCode::Char(c) => if c == ' ' {
            "Space"@
        } else {
            seq![c]
        },
        KeyCode::F(n) => seq!['F'] + decimal(n),
        KeyCode::Enter => "Enter"@,
        KeyCode::Tab => "Tab"@,
        KeyCode::BackTab => "BackTab"@,
        KeyCode::Backspace => "Backspace"@,
        KeyCode::Esc => "Esc"@,
        KeyCode::Up => "Up"@,
        KeyCode::Down => "Down"@,
        KeyCode::Left => "Left"@,
        KeyCode::Right => "Right"@,
        KeyCode::Home => "Home"@,
        KeyCode::End => "End"@,
        KeyCode::PageUp => "PageUp"@,
        KeyCode::PageDown => "PageDown"@,
        KeyCode::Delete => "Delete"@,
        KeyCode::Insert => "Insert"@,
    }
}

/// How a stroke is written: its normal form, with the held modifiers as
/// `Ctrl+`, `Alt+`, `Shift+`, `Super+` prefixes (in that order) before the
/// key's name.
pub open spec fn stroke_text(s: KeyStroke) -> Seq<char> {
    let k = normalize(s);
    (if k.modifiers.ctrl {
        "Ctrl+"@
    } else {
        Seq::empty()
    }) + (if k.modifiers.alt {
        "Alt+"@
    } else {
        Seq::empty()
    }) + (if k.modifiers.shift {
        "Shift+"@
    } else {
        Seq::empty()
    }) + (if k.modifiers.super_key {
        "Super+"@
    } else {
        Seq::empty()
    }) + key_name(k.code)
}

/// How a sequence of strokes is written: the strokes, separated by spaces.
pub open spec fn binding_text(seq: Seq<KeyStroke>) -> Seq<char>
    decreases seq.len(),
{
    if seq.len() == 0 {
        Seq::empty()
    } else if seq.len() == 1 {
        stroke_text(seq[0])
    } else {
        binding_text(seq.drop_last()) + seq![' '] + stroke_text(seq.last())
    }
}

/// Appends the characters of `lit` to `out`.
pub(crate) fn push_lit(out: &mut Vec<char>, lit: &str)
    ensures
        final(out)@ == old(out)@ + lit@,
{
    let l = chars_of(lit);
    let mut i: usize = 0;
    while i < l.len()
        invariant
            i <= l@.len(),
            l@ == lit@,
            out@ == old(out)@ + l@.take(i as int),
        decreases l@.len() - i,
    {
        out.push(l[i]);
        i += 1;
        proof {
            assert(out@ =~= old(out)@ + l@.take(i as int));
        }
    }
    proof {
        assert(l@.take(l@.len() as int) =~= l@);
    }
}

/// The decimal digit `d`.
pub(crate) fn digit_exec(d: u8) -> (res: char)
    requires
        d < 10,
    ensures
        res == digit_char(d as int),
{
    let n: u32 = ('0' as u32) + (d as u32);
    let b: u8 = n as u8;
    assert(b == n);
    let r = b as char;
    assert(r as u32 == n);
    r
}

/// Appends the name of `code` to `out`.
fn push_key_name(out: &mut Vec<char>, code: KeyCode)
    ensures
        final(out)@ == old(out)@ + key_name(code),
{
    match code {
        KeyCode::Char(c) => {
            if c == ' ' {
                push_lit(out, "Space");
            } else {
                out.push(c);
                proof {
                    assert(out@ =~= old(out)@ + seq![c]);
                }
            }
        },
        KeyCode::F(n) => {
            out.push('F');
            if n < 10 {
                out.push(digit_exec(n));
            } else if n < 100 {
                out.push(digit_exec(n / 10));
                out.push(digit_exec(n % 10));
            } else {
                out.push(digit_exec(n / 100));
                out.push(digit_exec((n / 10) % 10));
                out.push(digit_exec(n % 10));
            }
            proof {
                assert(out@ =~= old(out)@ + (seq!['F'] + decimal(n)));
            }
        },
        KeyCode::Enter => push_lit(out, "Enter"),
        KeyCode::Tab => push_lit(out, "Tab"),
        KeyCode::BackTab => push_lit(out, "BackTab"),
        KeyCode::Backspace => push_lit(out, "Backspace"),
        KeyCode::Esc => push_lit(out, "Esc"),
        KeyCode::Up => push_lit(out, "Up"),
        KeyCode::Down => push_lit(out, "Down"),
        KeyCode::Left => push_lit(out, "Left"),
        KeyCode::Right => push_lit(out, "Right"),
        KeyCode::Home => push_lit(out, "Home"),
        KeyCode::End => push_lit(out, "End"),
        KeyCode::PageUp => push_lit(out, "PageUp"),
        KeyCode::PageDown => push_lit(out, "PageDown"),
        KeyCode::Delete => push_lit(out, "Delete"),
        KeyCode::Insert => push_lit(out, "Insert"),
    }
}

/// Appends how `stroke` is written to `out`.
fn push_stroke_text(out: &mut Vec<char>, stroke: KeyStroke)
    ensures
        final(out)@ == old(out)@ + stroke_text(stroke),
{
    let k = normalize_stroke(stroke);
    if k.modifiers.ctrl {
        push_lit(out, "Ctrl+");
    }
    let ghost a = out@;
    if k.modifiers.alt {
        push_lit(out, "Alt+");
    }
    let ghost b = out@;
    if k.modifiers.shift {
        push_lit(out, "Shift+");
    }
    let ghost c = out@;
    if k.modifiers.super_key {
        push_lit(out, "Super+");
    }
    let ghost d = out@;
    push_key_name(out, k.code);
    proof {
        let p1 = if k.modifiers.ctrl {
            "Ctrl+"@
        } else {
            Seq::<char>::empty()
        };
        let p2 = if k.modifiers.alt {
            "Alt+"@
        } else {
            Seq::<char>::empty()
        };
        let p3 = if k.modifiers.shift {
            "Shift+"@
        } else {
            Seq::<char>::empty()
        };
        let p4 = if k.modifiers.super_key {
            "Super+"@
        } else {
            Seq::<char>::empty()
        };
        assert(a =~= old(out)@ + p1);
        assert(b =~= a + p2);
        assert(c =~= b + p3);
        assert(d =~= c + p4);
        assert(out@ =~= old(out)@ + (p1 + p2 + p3 + p4 + key_name(k.code)));
    }
}

impl KeyStroke {
    /// How the stroke is written, for example `Ctrl+r`, `BackTab` or `F12`.
    pub fn display_string(&self) -> (res: String)
        ensures
            res@ == stroke_text(*self),
    {
        let mut out: Vec<char> = Vec::new();
        push_stroke_text(&mut out, *self);
        proof {
            assert(out@ =~= stroke_text(*self));
        }
        string_of(out.as_slice())
    }
}

/// How a sequence of strokes is written: the strokes, separated by spaces.
pub fn display_binding(sequence: &[KeyStroke]) -> (res: String)
    ensures
        res@ == binding_text(sequence@),
{
    let mut out: Vec<char> = Vec::new();
    let mut i: usize = 0;
    while i < sequence.len()
        invariant
            i <= sequence@.len(),
            out@ == binding_text(sequence@.take(i as int)),
        decreases sequence@.len() - i,
    {
        let ghost before = out@;
        if i > 0 {
            out.push(' ');
        }
        push_stroke_text(&mut out, sequence[i]);
        proof {
            let t = sequence@.take(i + 1);
            assert(t.drop_last() =~= sequence@.take(i as int));
            assert(t.last() == sequence@[i as int]);
            if i == 0 {
                assert(out@ =~= before + stroke_text(sequence@[0]));
                assert(before =~= Seq::<char>::empty());
                assert(out@ =~= stroke_text(t[0]));
            } else {
                assert(out@ =~= before + seq![' '] + stroke_text(t.last()));
            }
        }
        i += 1;
    }
    proof {
        assert(sequence@.take(sequence@.len() as int) =~= sequence@);
    }
    string_of(out.as_slice())
}

impl KeyModifiers {
    /// No modifier held.
    pub fn empty() -> (res: Self)
        ensures
            res == no_modifiers(),
    {
        KeyModifiers { ctrl: false, alt: false, shift: false, super_key: false, hyper: false, meta: false }
    }

    /// These modifiers and control.
    pub fn with_ctrl(self) -> (res: Self)
        ensures
            res == (KeyModifiers { ctrl: true, ..self }),
    {
        KeyModifiers { ctrl: true, ..self }
    }

    /// These modifiers and alt.
    pub fn with_alt(self) -> (res: Self)
        ensures
            res == (KeyModifiers { alt: true, ..self }),
    {
        KeyModifiers { alt: true, ..self }
    }

    /// These modifiers and shift.
    pub fn with_shift(self) -> (res: Self)
        ensures
            res == (KeyModifiers { shift: true, ..self }),
    {
        KeyModifiers { shift: true, ..self }
    }

    /// These modifiers and super.
    pub fn with_super(self) -> (res: Self)
        ensures
            res == (KeyModifiers { super_key: true, ..self }),
    {
        KeyModifiers { super_key: true, ..self }
    }
}

/// Whether a key is pressed, repeated or released.
#[derive(Debug, Clone, Copy, PartialEq, Eq, Structural)]
pub enum KeyEventKind {
    Press,
    Repeat,
    Release,
}

/// A key event: the stroke and whether it is a press.
#[derive(Debug, Clone, Copy, PartialEq, Eq, Structural)]
pub struct KeyInput {
    pub code: KeyCode,
    pub modifiers: KeyModifiers,
    pub kind: KeyEventKind,
}

impl KeyInput {
    /// A key press.
    pub fn press(code: KeyCode, modifiers: KeyModifiers) -> (res: Self)
        ensures
            res == (KeyInput { code, modifiers, kind: KeyEventKind::Press }),
    {
        KeyInput { code, modifiers, kind: KeyEventKind::Press }
    }
}

/// Whether no modifier is held.
pub open spec fn is_plain(m: KeyModifiers) -> bool {
    m == no_modifiers()
}

/// Whether control alone is held.
pub open spec fn is_ctrl_only(m: KeyModifiers) -> bool {
    m == KeyModifiers { ctrl: true, ..no_modifiers() }
}

/// Whether alt alone is held.
pub open spec fn is_alt_only(m: KeyModifiers) -> bool {
    m == KeyModifiers { alt: true, ..no_modifiers() }
}

impl KeyModifiers {
    /// Whether no modifier is held.
    pub fn is_empty(&self) -> (res: bool)
        ensures
            res == is_plain(*self),
    {
        !self.ctrl && !self.alt && !self.shift && !self.super_key && !self.hyper && !self.meta
    }

    /// Whether control alone is held.
    pub fn is_ctrl_only(&self) -> (res: bool)
        ensures
            res == is_ctrl_only(*self),
    {
        self.ctrl && !self.alt && !self.shift && !self.super_key && !self.hyper && !self.meta
    }

    /// Whether alt alone is held.
    pub fn is_alt_only(&self) -> (res: bool)
        ensures
            res == is_alt_only(*self),
    {
        !self.ctrl && self.alt && !self.shift && !self.super_key && !self.hyper && !self.meta
    }
}

} // verus!
