//! Writing a key sequence and reading it back gives its normal form.
use vstd::prelude::*;

use crate::keybindings::key_sequence::{
    add_modifier, all_digits, ascii_lower, binding_from, binding_text, chord, decimal, digit_char, digits_value,
    is_space, key_code, key_name, lead, lemma_plus_index, lower_seq, modifier_bit, no_modifiers, normalize,
    parse_u8, parsed_binding, plus_index, segments, strip_mods, stroke_text, token, token_end, trail, trim,
    KeyCode, KeyModifiers, KeyStroke, ModifierBit, Parsed,
};

verus! {

/// Whether the key `code` is written with a name that reads back as it:
/// every key but a character key that is whitespace (other than the space,
/// written `Space`) or `+`.
pub open spec fn writable_key(code: KeyCode) -> bool {
    match code {
        KeyCode::Char(c) => c == ' ' || (!is_space(c) && c != '+'),
        _ => true,
    }
}

/// Whether `s` holds no whitespace and no `+`.
pub open spec fn plain_word(s: Seq<char>) -> bool {
    forall|i: int| 0 <= i < s.len() ==> !is_space(#[trigger] s[i]) && s[i] != '+'
}

/// Decimal digits read back as the number they write.
proof fn lemma_decimal_reads(n: u8)
    ensures
        parse_u8(decimal(n)) == Some(n),
        decimal(n).len() > 0,
        plain_word(decimal(n)),
        forall|i: int| 0 <= i < decimal(n).len() ==> ascii_lower(#[trigger] decimal(n)[i]) == decimal(n)[i],
        decimal(n)[0] != 'f',
{
    let d = decimal(n);
    assert forall|k: int| 0 <= k < 10 implies '0' <= #[trigger] digit_char(k) <= '9' && digit_char(k) as int - '0' as int
        == k by {
        assert(('0' as u32) + k < 0xD800);
    }
    assert(all_digits(d));
    if n < 10 {
        assert(d.drop_last() =~= Seq::<char>::empty());
        assert(digits_value(d) == digits_value(d.drop_last()) * 10 + (d.last() as int - '0' as int));
    } else if n < 100 {
        let e = d.drop_last();
        assert(e =~= seq![digit_char(n as int / 10)]);
        assert(e.drop_last() =~= Seq::<char>::empty());
        assert(digits_value(e.drop_last()) == 0);
        assert(digits_value(e) == digits_value(e.drop_last()) * 10 + (e.last() as int - '0' as int));
        assert(e.last() as int - '0' as int == n as int / 10);
        assert(digits_value(d.drop_last()) == n as int / 10);
        assert(digits_value(d) == digits_value(d.drop_last()) * 10 + (d.last() as int - '0' as int));
    } else {
        assert(d.drop_last() =~= seq![digit_char(n as int / 100), digit_char((n as int / 10) % 10)]);
        assert(d.drop_last().drop_last() =~= seq![digit_char(n as int / 100)]);
        let e = d.drop_last().drop_last();
        assert(e.drop_last() =~= Seq::<char>::empty());
        assert(digits_value(e.drop_last()) == 0);
        assert(digits_value(e) == digits_value(e.drop_last()) * 10 + (e.last() as int - '0' as int));
        assert(e.last() as int - '0' as int == n as int / 100);
        assert(digits_value(d.drop_last().drop_last()) == n as int / 100);
        let f = d.drop_last();
        assert(digits_value(f) == digits_value(f.drop_last()) * 10 + (f.last() as int - '0' as int));
        assert(f.last() as int - '0' as int == (n as int / 10) % 10);
        assert(digits_value(d.drop_last()) == (n as int / 100) * 10 + (n as int / 10) % 10);
        assert(digits_value(d) == digits_value(d.drop_last()) * 10 + (d.last() as int - '0' as int));
    }
}

/// A key's name holds no whitespace and no `+`, and reads back as the key.
pub proof fn lemma_key_name_reads(code: KeyCode)
    requires
        writable_key(code),
    ensures
        key_code(key_name(code)) == Some(code),
        key_name(code).len() > 0,
        plain_word(key_name(code)),
{
    reveal_strlit("enter");
    reveal_strlit("return");
    reveal_strlit("tab");
    reveal_strlit("backtab");
    reveal_strlit("esc");
    reveal_strlit("escape");
    reveal_strlit("backspace");
    reveal_strlit("bs");
    reveal_strlit("space");
    reveal_strlit("up");
    reveal_strlit("down");
    reveal_strlit("left");
    reveal_strlit("right");
    reveal_strlit("home");
    reveal_strlit("end");
    reveal_strlit("pageup");
    reveal_strlit("page_up");
    reveal_strlit("pagedown");
    reveal_strlit("page_down");
    reveal_strlit("delete");
    reveal_strlit("del");
    reveal_strlit("insert");
    reveal_strlit("ins");
    let name = key_name(code);
    let l = lower_seq(name);
    match code {
        KeyCode::Char(c) => {
            if c == ' ' {
                reveal_strlit("Space");
                assert(l =~= "space"@);
                assert(l != "enter"@ && l != "return"@ && l != "tab"@ && l != "backtab"@);
                assert(l != "esc"@ && l != "escape"@ && l != "backspace"@ && l != "bs"@);
                assert(key_code(name) == Some(code));
            } else {
                assert(l.len() == 1);
                assert(l != "enter"@ && l != "return"@ && l != "tab"@ && l != "backtab"@);
                assert(l != "esc"@ && l != "escape"@ && l != "backspace"@ && l != "bs"@);
                assert(l != "space"@ && l != "up"@ && l != "down"@ && l != "left"@);
                assert(l != "right"@ && l != "home"@ && l != "end"@ && l != "pageup"@);
                assert(l != "page_up"@ && l != "pagedown"@ && l != "page_down"@ && l != "delete"@);
                assert(l != "del"@ && l != "insert"@ && l != "ins"@);
                assert(name.len() == 1 && name[0] == c);
                assert(!(l.len() > 1));
                assert(key_code(name) == Some(code));
            }
        },
        KeyCode::F(n) => {
            lemma_decimal_reads(n);
            assert(l =~= seq!['f'] + decimal(n));
            assert(l.drop_first() =~= decimal(n));
            assert(key_code(name) == Some(code));
        },
        KeyCode::Enter => {
            reveal_strlit("Enter");
            assert(l =~= "enter"@);
            assert(key_code(name) == Some(code));
        },
        KeyCode::Tab => {
            reveal_strlit("Tab");
            assert(l =~= "tab"@);
            assert(key_code(name) == Some(code));
        },
        KeyCode::BackTab => {
            reveal_strlit("BackTab");
            assert(l =~= "backtab"@);
            assert(key_code(name) == Some(code));
        },
        KeyCode::Backspace => {
            reveal_strlit("Backspace");
            assert(l =~= "backspace"@);
            assert(key_code(name) == Some(code));
        },
        KeyCode::Esc => {
            reveal_strlit("Esc");
            assert(l =~= "esc"@);
            assert(l[0] != "tab"@[0]);
            assert(key_code(name) == Some(code));
        },
        KeyCode::Up => {
            reveal_strlit("Up");
            assert(l =~= "up"@);
            assert(l[0] != "bs"@[0]);
            assert(key_code(name) == Some(code));
        },
        KeyCode::Down => {
            reveal_strlit("Down");
            assert(l =~= "down"@);
            assert(key_code(name) == Some(code));
        },
        KeyCode::Left => {
            reveal_strlit("Left");
            assert(l =~= "left"@);
            assert(l[0] != "down"@[0]);
            assert(key_code(name) == Some(code));
        },
        KeyCode::Right => {
            reveal_strlit("Right");
            assert(l =~= "right"@);
            assert(l[0] != "enter"@[0]);
            assert(l[0] != "space"@[0]);
            assert(key_code(name) == Some(code));
        },
        KeyCode::Home => {
            reveal_strlit("Home");
            assert(l =~= "home"@);
            assert(l[0] != "down"@[0] && l[0] != "left"@[0]);
            assert(l != "down"@ && l != "left"@);
            assert(key_code(name) == Some(code));
        },
        KeyCode::End => {
            reveal_strlit("End");
            assert(l =~= "end"@);
            assert(l[0] != "tab"@[0]);
            assert(l[1] != "esc"@[1]);
            assert(key_code(name) == Some(code));
        },
        KeyCode::PageUp => {
            reveal_strlit("PageUp");
            assert(l =~= "pageup"@);
            assert(l[0] != "return"@[0]);
            assert(l[0] != "escape"@[0]);
            assert(key_code(name) == Some(code));
        },
        KeyCode::PageDown => {
            reveal_strlit("PageDown");
            assert(l =~= "pagedown"@);
            assert(key_code(name) == Some(code));
        },
        KeyCode::Delete => {
            reveal_strlit("Delete");
            assert(l =~= "delete"@);
            assert(l[0] != "return"@[0]);
            assert(l[0] != "escape"@[0]);
            assert(l[0] != "pageup"@[0]);
            assert(key_code(name) == Some(code));
        },
        KeyCode::Insert => {
            reveal_strlit("Insert");
            assert(l =~= "insert"@);
            assert(l[0] != "return"@[0]);
            assert(l[0] != "escape"@[0]);
            assert(l[0] != "pageup"@[0]);
            assert(l[0] != "delete"@[0]);
            assert(key_code(name) == Some(code));
        },
    }
}

/// Whether `s` holds no whitespace.
pub open spec fn spaceless(s: Seq<char>) -> bool {
    forall|i: int| 0 <= i < s.len() ==> !is_space(#[trigger] s[i])
}

/// `rest` after `w` and a `+`, when `on`.
pub open spec fn with_prefix(on: bool, w: Seq<char>, rest: Seq<char>) -> Seq<char> {
    if on {
        w + seq!['+'] + rest
    } else {
        rest
    }
}

/// With no `+` from `i` to `j` and one at `j`, the first `+` from `i` is at `j`.
proof fn lemma_plus_at(t: Seq<char>, i: int, j: int)
    requires
        0 <= i <= j < t.len(),
        t[j] == '+',
        forall|k: int| i <= k < j ==> t[k] != '+',
    ensures
        plus_index(t, i) == j,
    decreases j - i,
{
    if i < j {
        lemma_plus_at(t, i + 1, j);
    }
}

/// With no `+` from `i` on, the first `+` from `i` is the end.
proof fn lemma_plus_none(t: Seq<char>, i: int)
    requires
        0 <= i <= t.len(),
        forall|k: int| i <= k < t.len() ==> t[k] != '+',
    ensures
        plus_index(t, i) == t.len(),
    decreases t.len() - i,
{
    if i < t.len() {
        lemma_plus_none(t, i + 1);
    }
}

/// Finding `+` in `b` after `a` is finding it in `b`, shifted.
proof fn lemma_plus_shift(a: Seq<char>, b: Seq<char>, i: int)
    requires
        0 <= i <= b.len(),
    ensures
        plus_index(a + b, a.len() + i) == a.len() + plus_index(b, i),
    decreases b.len() - i,
{
    if i < b.len() {
        assert((a + b)[a.len() + i] == b[i]);
        if b[i] != '+' {
            lemma_plus_shift(a, b, i + 1);
        }
    }
}

/// The `+`-separated parts of `b` after `a` are those of `b`.
proof fn lemma_segments_shift(a: Seq<char>, b: Seq<char>, i: int)
    requires
        0 <= i <= b.len(),
    ensures
        segments(a + b, a.len() + i) == segments(b, i),
    decreases b.len() - i,
{
    let t = a + b;
    lemma_plus_shift(a, b, i);
    lemma_plus_index(b, i);
    let k = plus_index(b, i);
    if k >= b.len() {
        assert(t.subrange(a.len() + i, t.len() as int) =~= b.subrange(i, b.len() as int));
    } else {
        assert(t.subrange(a.len() + i, a.len() + k) =~= b.subrange(i, k));
        lemma_segments_shift(a, b, k + 1);
    }
}

/// The parts of a word with no `+` are the word.
proof fn lemma_segments_word(w: Seq<char>)
    requires
        plain_word(w),
    ensures
        segments(w, 0) == seq![w],
{
    lemma_plus_none(w, 0);
    assert(w.subrange(0, w.len() as int) =~= w);
}

/// The parts of a prefixed text are the prefix's word, then the parts of
/// the rest.
proof fn lemma_segments_prefix(on: bool, w: Seq<char>, rest: Seq<char>)
    requires
        plain_word(w),
    ensures
        segments(with_prefix(on, w, rest), 0) == (if on {
            seq![w]
        } else {
            Seq::<Seq<char>>::empty()
        }) + segments(rest, 0),
{
    if on {
        let t = w + seq!['+'] + rest;
        assert(t[w.len() as int] == '+');
        assert forall|k: int| 0 <= k < w.len() implies t[k] != '+' by {
            assert(t[k] == w[k]);
        }
        lemma_plus_at(t, 0, w.len() as int);
        assert(t.subrange(0, w.len() as int) =~= w);
        assert(t =~= (w + seq!['+']) + rest);
        lemma_segments_shift(w + seq!['+'], rest, 0);
    } else {
        assert(Seq::<Seq<char>>::empty() + segments(rest, 0) =~= segments(rest, 0));
    }
}

/// Taking a modifier prefix off adds its modifier.
proof fn lemma_strip_prefix(on: bool, w: Seq<char>, rest: Seq<char>, m: KeyModifiers)
    requires
        plain_word(w),
        modifier_bit(w) is Some,
    ensures
        strip_mods(with_prefix(on, w, rest), m) == strip_mods(
            rest,
            if on {
                add_modifier(m, modifier_bit(w)->0)
            } else {
                m
            },
        ),
{
    if on {
        let t = w + seq!['+'] + rest;
        assert(t[w.len() as int] == '+');
        assert forall|k: int| 0 <= k < w.len() implies t[k] != '+' by {
            assert(t[k] == w[k]);
        }
        lemma_plus_at(t, 0, w.len() as int);
        assert(t.subrange(0, w.len() as int) =~= w);
        assert(t.subrange(w.len() as int + 1, t.len() as int) =~= rest);
    }
}

/// A word with no `+` has no modifier prefix to take off.
proof fn lemma_strip_word(w: Seq<char>, m: KeyModifiers)
    requires
        plain_word(w),
    ensures
        strip_mods(w, m) == (w, m),
{
    lemma_plus_none(w, 0);
}

/// Text with no whitespace is its own trim.
proof fn lemma_trim_spaceless(t: Seq<char>)
    requires
        spaceless(t),
    ensures
        trim(t) == t,
{
    assert(lead(t, 0) == 0);
    assert(trail(t, t.len() as int, 0) == t.len());
    assert(t.subrange(0, t.len() as int) =~= t);
}

/// The modifier names, as a stroke is written with them.
proof fn lemma_modifier_names()
    ensures
        modifier_bit("Ctrl"@) == Some(ModifierBit::Ctrl),
        modifier_bit("Alt"@) == Some(ModifierBit::Alt),
        modifier_bit("Shift"@) == Some(ModifierBit::Shift),
        modifier_bit("Super"@) == Some(ModifierBit::Super),
        plain_word("Ctrl"@),
        plain_word("Alt"@),
        plain_word("Shift"@),
        plain_word("Super"@),
        "Ctrl+"@ == "Ctrl"@ + seq!['+'],
        "Alt+"@ == "Alt"@ + seq!['+'],
        "Shift+"@ == "Shift"@ + seq!['+'],
        "Super+"@ == "Super"@ + seq!['+'],
{
    reveal_strlit("Ctrl");
    reveal_strlit("Alt");
    reveal_strlit("Shift");
    reveal_strlit("Super");
    reveal_strlit("Ctrl+");
    reveal_strlit("Alt+");
    reveal_strlit("Shift+");
    reveal_strlit("Super+");
    reveal_strlit("ctrl");
    reveal_strlit("control");
    reveal_strlit("c");
    reveal_strlit("alt");
    reveal_strlit("meta");
    reveal_strlit("m");
    reveal_strlit("shift");
    reveal_strlit("s");
    reveal_strlit("super");
    reveal_strlit("cmd");
    assert(lower_seq("Ctrl"@) =~= "ctrl"@);
    assert(lower_seq("Alt"@) =~= "alt"@);
    assert(lower_seq("Shift"@) =~= "shift"@);
    assert(lower_seq("Super"@) =~= "super"@);
    assert("super"@[1] != "shift"@[1]);
    assert("super"@ != "shift"@);
    assert("Ctrl+"@ =~= "Ctrl"@ + seq!['+']);
    assert("Alt+"@ =~= "Alt"@ + seq!['+']);
    assert("Shift+"@ =~= "Shift"@ + seq!['+']);
    assert("Super+"@ =~= "Super"@ + seq!['+']);
}

/// Whether a stroke is written so that it reads back: its key is written
/// with a name that reads back, and it holds neither the hyper nor the meta
/// modifier, which are not written.
pub open spec fn writable(s: KeyStroke) -> bool {
    writable_key(s.code) && !s.modifiers.hyper && !s.modifiers.meta
}

/// Normalizing twice is normalizing once.
pub proof fn lemma_normalize_idempotent(s: KeyStroke)
    ensures
        normalize(normalize(s)) == normalize(s),
{
}

/// The normal form of a writable stroke is writable.
proof fn lemma_normalize_writable(s: KeyStroke)
    requires
        writable(s),
    ensures
        writable(normalize(s)),
{
    if let KeyCode::Char(c) = normalize(s).code {
        if s.code != KeyCode::Char(c) {
            assert('A' <= c <= 'Z');
        }
    }
}

/// Adding the written modifiers of `m`, in order, to none gives `m` back
/// when it holds neither hyper nor meta.
proof fn lemma_modifiers_rebuilt(m: KeyModifiers)
    requires
        !m.hyper,
        !m.meta,
    ensures
        ({
            let m1 = if m.ctrl {
                add_modifier(no_modifiers(), ModifierBit::Ctrl)
            } else {
                no_modifiers()
            };
            let m2 = if m.alt {
                add_modifier(m1, ModifierBit::Alt)
            } else {
                m1
            };
            let m3 = if m.shift {
                add_modifier(m2, ModifierBit::Shift)
            } else {
                m2
            };
            let m4 = if m.super_key {
                add_modifier(m3, ModifierBit::Super)
            } else {
                m3
            };
            m4 == m
        }),
{
}

/// A writable stroke is written as one token with no whitespace, and that
/// token reads back as the stroke's normal form.
pub proof fn lemma_stroke_reads(s: KeyStroke)
    requires
        writable(s),
    ensures
        token(stroke_text(s)) == Parsed::Strokes(seq![normalize(s)]),
        stroke_text(s).len() > 0,
        spaceless(stroke_text(s)),
{
    let k = normalize(s);
    let m = k.modifiers;
    lemma_normalize_writable(s);
    lemma_normalize_idempotent(s);
    let name = key_name(k.code);
    lemma_key_name_reads(k.code);
    lemma_modifier_names();
    reveal_strlit("Ctrl");
    reveal_strlit("Alt");
    reveal_strlit("Shift");
    reveal_strlit("Super");
    let t4 = with_prefix(m.super_key, "Super"@, name);
    let t3 = with_prefix(m.shift, "Shift"@, t4);
    let t2 = with_prefix(m.alt, "Alt"@, t3);
    let t1 = with_prefix(m.ctrl, "Ctrl"@, t2);
    let t = stroke_text(s);
    assert(t =~= t1);
    assert(spaceless(t)) by {
        assert(spaceless(name));
        assert(spaceless(t4));
        assert(spaceless(t3));
        assert(spaceless(t2));
        assert(spaceless(t1));
    }
    assert(t.len() > 0);
    // Reading the chord.
    lemma_trim_spaceless(t);
    let b1 = modifier_bit("Ctrl"@)->0;
    let b2 = modifier_bit("Alt"@)->0;
    let b3 = modifier_bit("Shift"@)->0;
    let b4 = modifier_bit("Super"@)->0;
    let m1 = if m.ctrl {
        add_modifier(no_modifiers(), b1)
    } else {
        no_modifiers()
    };
    let m2 = if m.alt {
        add_modifier(m1, b2)
    } else {
        m1
    };
    let m3 = if m.shift {
        add_modifier(m2, b3)
    } else {
        m2
    };
    let m4 = if m.super_key {
        add_modifier(m3, b4)
    } else {
        m3
    };
    lemma_strip_prefix(m.ctrl, "Ctrl"@, t2, no_modifiers());
    lemma_strip_prefix(m.alt, "Alt"@, t3, m1);
    lemma_strip_prefix(m.shift, "Shift"@, t4, m2);
    lemma_strip_prefix(m.super_key, "Super"@, name, m3);
    lemma_strip_word(name, m4);
    lemma_modifiers_rebuilt(m);
    assert(strip_mods(t, no_modifiers()) == (name, m));
    assert(KeyStroke { code: k.code, modifiers: m } == k);
    assert(chord(t) == Parsed::Strokes(seq![normalize(s)]));
    // Reading the token.
    lemma_segments_word(name);
    lemma_segments_prefix(m.super_key, "Super"@, name);
    lemma_segments_prefix(m.shift, "Shift"@, t4);
    lemma_segments_prefix(m.alt, "Alt"@, t3);
    lemma_segments_prefix(m.ctrl, "Ctrl"@, t2);
    let parts = segments(t, 0);
    assert(parts.last() == name);
    assert forall|j: int| 0 <= j < parts.len() - 1 implies modifier_bit(#[trigger] parts[j]) is Some by {
        assert(parts[j] == "Ctrl"@ || parts[j] == "Alt"@ || parts[j] == "Shift"@ || parts[j] == "Super"@);
    }
}

/// With no whitespace from `i` to `j`, and the end or whitespace at `j`,
/// the token that starts at `i` ends at `j`.
proof fn lemma_token_end_at(s: Seq<char>, i: int, j: int)
    requires
        0 <= i <= j <= s.len(),
        forall|k: int| i <= k < j ==> !is_space(#[trigger] s[k]),
        j == s.len() || is_space(s[j]),
    ensures
        token_end(s, i) == j,
    decreases j - i,
{
    if i < j {
        lemma_token_end_at(s, i + 1, j);
    }
}

/// The normal forms of the strokes of `seq`.
pub open spec fn normal_forms(seq: Seq<KeyStroke>) -> Seq<KeyStroke> {
    seq.map_values(|k: KeyStroke| normalize(k))
}

/// Reading a written sequence, followed by nothing or by whitespace, takes
/// the normal forms of its strokes and stops just after it.
proof fn lemma_binding_prefix(seq: Seq<KeyStroke>, suffix: Seq<char>, acc: Seq<KeyStroke>)
    requires
        seq.len() > 0,
        forall|i: int| 0 <= i < seq.len() ==> writable(#[trigger] seq[i]),
        suffix.len() == 0 || is_space(suffix[0]),
    ensures
        binding_from(binding_text(seq) + suffix, 0, acc) == binding_from(
            binding_text(seq) + suffix,
            binding_text(seq).len() as int,
            acc + normal_forms(seq),
        ),
    decreases seq.len(),
{
    let text = binding_text(seq);
    let s = text + suffix;
    let last = seq.last();
    let t = stroke_text(last);
    assert(writable(seq[seq.len() - 1]));
    lemma_stroke_reads(last);
    if seq.len() == 1 {
        assert(text == t);
        assert(s[0] == t[0]);
        assert forall|k: int| 0 <= k < t.len() implies !is_space(#[trigger] s[k]) by {
            assert(s[k] == t[k]);
        }
        lemma_token_end_at(s, 0, t.len() as int);
        assert(s.subrange(0, t.len() as int) =~= t);
        assert(acc + normal_forms(seq) =~= acc + seq![normalize(last)]);
    } else {
        let front = seq.drop_last();
        assert forall|i: int| 0 <= i < front.len() implies writable(#[trigger] front[i]) by {
            assert(front[i] == seq[i]);
        }
        let ftext = binding_text(front);
        let rest = seq![' '] + t + suffix;
        assert(text == ftext + seq![' '] + t);
        assert(s =~= ftext + rest);
        assert(rest[0] == ' ');
        lemma_binding_prefix(front, rest, acc);
        let p = ftext.len() as int;
        let acc1 = acc + normal_forms(front);
        assert(s[p] == ' ');
        assert(binding_from(s, p, acc1) == binding_from(s, p + 1, acc1));
        let q = p + 1 + t.len();
        assert(s[p + 1] == t[0]);
        assert forall|k: int| p + 1 <= k < q implies !is_space(#[trigger] s[k]) by {
            assert(s[k] == t[k - p - 1]);
        }
        if q < s.len() {
            assert(s[q] == suffix[0]);
        }
        lemma_token_end_at(s, p + 1, q);
        assert(s.subrange(p + 1, q) =~= t);
        assert(q == text.len());
        assert(acc1 + seq![normalize(last)] =~= acc + normal_forms(seq));
    }
}

/// Writing a sequence of writable strokes and reading it back gives the
/// normal forms of the strokes.
pub proof fn lemma_display_parse_round_trip(seq: Seq<KeyStroke>)
    requires
        seq.len() > 0,
        forall|i: int| 0 <= i < seq.len() ==> writable(#[trigger] seq[i]),
    ensures
        parsed_binding(binding_text(seq)) == Parsed::Strokes(normal_forms(seq)),
{
    let text = binding_text(seq);
    lemma_binding_prefix(seq, Seq::<char>::empty(), Seq::<KeyStroke>::empty());
    assert(text + Seq::<char>::empty() =~= text);
    assert(Seq::<KeyStroke>::empty() + normal_forms(seq) =~= normal_forms(seq));
}

} // verus!
