//! Word motions within one line of text.
//!
//! Characters fall into three classes: blanks, word characters (ASCII
//! letters, digits, `_`, and every non-ASCII character) and punctuation.
//! A *word* is a maximal run of non-blank characters of one class; a *WORD*
//! (the "big" motions) is a maximal run of non-blank characters.
use vstd::prelude::*;

verus! {

/// Whether `c` separates words.
pub open spec fn is_blank(c: char) -> bool {
    c == ' ' || c == '\t' || c == '\n' || c == '\r'
}

/// Whether `c` belongs to words (as opposed to punctuation).
pub open spec fn is_word_char(c: char) -> bool {
    ('a' <= c <= 'z') || ('A' <= c <= 'Z') || ('0' <= c <= '9') || c == '_' || (c as u32) > 127
}

/// The class of `c`: 0 for blanks, 1 for word characters (every non-blank
/// for WORDs), 2 for punctuation.
pub open spec fn char_class(c: char, big: bool) -> u8 {
    if is_blank(c) {
        0
    } else if big || is_word_char(c) {
        1
    } else {
        2
    }
}

/// ASCII letters, ASCII digits and `_` are all of one class, the class of
/// every non-ASCII character too; blanks and ASCII punctuation are of
/// other classes.
pub proof fn lemma_word_classes(c: char, big: bool)
    ensures
        ('a' <= c <= 'z' || 'A' <= c <= 'Z' || '0' <= c <= '9' || c == '_' || (c as u32) > 127)
            ==> char_class(c, big) == char_class('a', big) && char_class(c, big) != 0,
        (c == ' ' || c == '\t') ==> char_class(c, big) == 0,
        ((c as u32) < 128 && !('a' <= c <= 'z' || 'A' <= c <= 'Z' || '0' <= c <= '9' || c == '_')
            && c != ' ' && c != '\t' && c != '\n' && c != '\r' && !big) ==> char_class(c, big) != char_class('a', big)
            && char_class(c, big) != 0,
{
}

/// Within a run of ASCII letters, digits and `_`, no position after the
/// first starts or ends a word (word or WORD).
pub proof fn lemma_alnum_run_is_one_word(s: Seq<char>, j: int, big: bool)
    requires
        0 < j < s.len(),
        'a' <= s[j - 1] <= 'z' || 'A' <= s[j - 1] <= 'Z' || '0' <= s[j - 1] <= '9' || s[j - 1] == '_',
        'a' <= s[j] <= 'z' || 'A' <= s[j] <= 'Z' || '0' <= s[j] <= '9' || s[j] == '_',
    ensures
        !is_word_start(s, j, big),
        !is_word_end(s, j - 1, big),
{
    lemma_word_classes(s[j - 1], big);
    lemma_word_classes(s[j], big);
}

/// Which boundary a motion looks for.
#[derive(Debug, Clone, Copy, PartialEq, Eq, Structural)]
pub enum WordTarget {
    NextWordStart,
    PrevWordStart,
    NextWordEnd,
    PrevWordEnd,
}

impl WordTarget {
    /// Whether the motion moves right.
    pub open spec fn forward(self) -> bool {
        self is NextWordStart || self is NextWordEnd
    }

    /// Whether the motion stops on word ends (rather than word starts).
    pub open spec fn on_end(self) -> bool {
        self is NextWordEnd || self is PrevWordEnd
    }
}

/// Whether position `j` of `s` starts a word.
pub open spec fn is_word_start(s: Seq<char>, j: int, big: bool) -> bool {
    0 <= j < s.len() && char_class(s[j], big) != 0 && (j == 0 || char_class(s[j - 1], big)
        != char_class(s[j], big))
}

/// Whether position `j` of `s` ends a word.
pub open spec fn is_word_end(s: Seq<char>, j: int, big: bool) -> bool {
    0 <= j < s.len() && char_class(s[j], big) != 0 && (j + 1 == s.len() || char_class(
        s[j + 1],
        big,
    ) != char_class(s[j], big))
}

/// Whether position `j` of `s` is a start or an end of a word, as `on_end`
/// says.
pub open spec fn is_boundary(s: Seq<char>, j: int, on_end: bool, big: bool) -> bool {
    if on_end {
        is_word_end(s, j, big)
    } else {
        is_word_start(s, j, big)
    }
}

/// The nearest boundary strictly after `pos`, when one exists.
pub open spec fn first_boundary_after(s: Seq<char>, pos: int, on_end: bool, big: bool) -> int {
    choose|j: int|
        pos < j < s.len() && is_boundary(s, j, on_end, big) && forall|k: int|
            pos < k < j ==> !is_boundary(s, k, on_end, big)
}

/// The nearest boundary strictly before `pos`, when one exists.
pub open spec fn last_boundary_before(s: Seq<char>, pos: int, on_end: bool, big: bool) -> int {
    choose|j: int|
        0 <= j < pos && is_boundary(s, j, on_end, big) && forall|k: int|
            j < k < pos ==> !is_boundary(s, k, on_end, big)
}

/// The position a word motion from `pos` reaches in `s`: the nearest
/// boundary strictly after (or before) `pos`; with none, `fallback` for
/// forward motions and 0 for backward ones.
pub open spec fn word_motion_target(
    s: Seq<char>,
    pos: int,
    target: WordTarget,
    big: bool,
    fallback: int,
) -> int {
    if target.forward() {
        if exists|j: int| pos < j < s.len() && is_boundary(s, j, target.on_end(), big) {
            first_boundary_after(s, pos, target.on_end(), big)
        } else {
            fallback
        }
    } else {
        if exists|j: int| 0 <= j < pos && is_boundary(s, j, target.on_end(), big) {
            last_boundary_before(s, pos, target.on_end(), big)
        } else {
            0
        }
    }
}

fn class_of(c: char, big: bool) -> (res: u8)
    ensures
        res == char_class(c, big),
{
    if c == ' ' || c == '\t' || c == '\n' || c == '\r' {
        0
    } else if big || ('a' <= c && c <= 'z') || ('A' <= c && c <= 'Z') || ('0' <= c && c <= '9')
        || c == '_' || (c as u32) > 127 {
        1
    } else {
        2
    }
}

fn boundary_at(s: &Vec<char>, j: usize, on_end: bool, big: bool) -> (res: bool)
    requires
        j < s@.len(),
    ensures
        res == is_boundary(s@, j as int, on_end, big),
{
    let c = class_of(s[j], big);
    if c == 0 {
        return false;
    }
    if on_end {
        j == s.len() - 1 || class_of(s[j + 1], big) != c
    } else {
        j == 0 || class_of(s[j - 1], big) != c
    }
}

/// The position a word motion from `pos` reaches in `s`.
pub fn word_motion(s: &Vec<char>, pos: usize, target: WordTarget, big: bool, fallback: usize) -> (res:
    usize)
    ensures
        res == word_motion_target(s@, pos as int, target, big, fallback as int),
{
    let on_end = match target {
        WordTarget::NextWordEnd | WordTarget::PrevWordEnd => true,
        _ => false,
    };
    match target {
        WordTarget::NextWordStart | WordTarget::NextWordEnd => {
            let mut j: usize = pos;
            while j < s.len()
                invariant
                    pos <= j,
                    forall|k: int| pos < k <= j && k < s@.len() ==> !is_boundary(s@, k, on_end, big),
                    on_end == target.on_end(),
                    target.forward(),
                decreases s@.len() - j,
            {
                j += 1;
                if j < s.len() && boundary_at(s, j, on_end, big) {
                    proof {
                        lemma_first_forward(s@, pos as int, j as int, target.on_end(), big);
                        assert(is_boundary(s@, j as int, target.on_end(), big));
                    }
                    return j;
                }
            }
            fallback
        },
        _ => {
            let mut j: usize = pos;
            while j > 0
                invariant
                    j <= pos,
                    forall|k: int| j <= k < pos ==> !is_boundary(s@, k, on_end, big),
                    on_end == target.on_end(),
                    !target.forward(),
                decreases j,
            {
                j -= 1;
                if j < s.len() && boundary_at(s, j, on_end, big) {
                    proof {
                        lemma_last_backward(s@, pos as int, j as int, target.on_end(), big);
                        assert(is_boundary(s@, j as int, target.on_end(), big));
                    }
                    return j;
                }
            }
            0
        },
    }
}

/// The nearest boundary after `pos` is the one the forward motion picks.
proof fn lemma_first_forward(s: Seq<char>, pos: int, j: int, on_end: bool, big: bool)
    requires
        pos < j < s.len(),
        is_boundary(s, j, on_end, big),
        forall|k: int| pos < k < j ==> !is_boundary(s, k, on_end, big),
    ensures
        first_boundary_after(s, pos, on_end, big) == j,
{
    let p = |w: int|
        pos < w < s.len() && is_boundary(s, w, on_end, big) && forall|k: int|
            pos < k < w ==> !is_boundary(s, k, on_end, big);
    assert(p(j));
    let w = first_boundary_after(s, pos, on_end, big);
    assert(p(w));
    if w < j {
        assert(!is_boundary(s, w, on_end, big));
    } else if w > j {
        assert(!is_boundary(s, j, on_end, big));
    }
}

/// The nearest boundary before `pos` is the one the backward motion picks.
proof fn lemma_last_backward(s: Seq<char>, pos: int, j: int, on_end: bool, big: bool)
    requires
        0 <= j < pos,
        is_boundary(s, j, on_end, big),
        forall|k: int| j < k < pos ==> !is_boundary(s, k, on_end, big),
    ensures
        last_boundary_before(s, pos, on_end, big) == j,
{
    let p = |w: int|
        0 <= w < pos && is_boundary(s, w, on_end, big) && forall|k: int|
            w < k < pos ==> !is_boundary(s, k, on_end, big);
    assert(p(j));
    let w = last_boundary_before(s, pos, on_end, big);
    assert(p(w));
    if w < j {
        assert(!is_boundary(s, j, on_end, big));
    } else if w > j {
        assert(!is_boundary(s, w, on_end, big));
    }
}

} // verus!
