//! Display masks: user-defined visual patterns laid over raw field input.
//!
//! A pattern such as `"(###) ###-####"` marks input positions with an input
//! character (here `'#'`); every other pattern character is a visual
//! separator. Masks are visual only: the raw text is stored unmasked.
use vstd::prelude::*;
use vstd::utf8::encode_utf8;

use crate::text::{chars_of, string_of};

verus! {

/// How a mask is rendered when the raw input is shorter than the pattern.
#[derive(Debug, Clone, Copy, PartialEq, Eq)]
pub enum MaskDisplayMode {
    /// Only show separators as the user types: input that still fits in the
    /// first group of input positions shows as typed; beyond it, a separator
    /// appears once an input position after it is filled. With
    /// `"(###) ###-####"`, `""` shows as `""`, `"123"` as `"123"` and
    /// `"12345"` as `"(123) 45"`.
    Dynamic,
    /// Show the full template from the start, with `placeholder` at every
    /// input position that has no raw character yet. A placeholder that is
    /// also one of the pattern's separators blends with them: with no input
    /// at all, each run of input positions then shows a single placeholder
    /// (`"##-##"` with `'-'` shows `"---"` when empty).
    Template { placeholder: char },
}

impl Default for MaskDisplayMode {
    fn default() -> (res: Self)
        ensures
            res == MaskDisplayMode::Dynamic,
    {
        MaskDisplayMode::Dynamic
    }
}

/// Number of input positions among the first `n` pattern characters.
pub open spec fn count_inputs(pat: Seq<char>, ic: char, n: int) -> nat
    decreases n,
{
    if n <= 0 {
        0
    } else {
        count_inputs(pat, ic, n - 1) + if pat[n - 1] == ic { 1nat } else { 0nat }
    }
}

/// Dynamic rendering from pattern position `i` and raw position `r` on,
/// with the separators `pend` met since the last filled input position:
/// separators are held back until the next input position receives a raw
/// character, rendering stops at the first input position with no raw
/// character left (dropping the held separators), and once every input
/// position is filled the held separators and any raw characters beyond the
/// pattern are appended.
pub open spec fn dynamic_from(
    pat: Seq<char>,
    ic: char,
    raw: Seq<char>,
    i: int,
    r: int,
    pend: Seq<char>,
) -> Seq<char>
    decreases pat.len() - i,
{
    if i >= pat.len() {
        pend + raw.subrange(r, raw.len() as int)
    } else if pat[i] == ic {
        if r < raw.len() {
            pend + seq![raw[r]] + dynamic_from(pat, ic, raw, i + 1, r + 1, Seq::empty())
        } else {
            Seq::empty()
        }
    } else {
        dynamic_from(pat, ic, raw, i + 1, r, pend.push(pat[i]))
    }
}

/// Whether placeholder `ph` is also a separator of the pattern, so that
/// placeholders and separators look alike.
pub open spec fn blends(pat: Seq<char>, ic: char, ph: char) -> bool {
    ph != ic && pat.contains(ph)
}

/// Template rendering from pattern position `i` and raw position `r` on:
/// every separator is rendered; an input position takes the next raw
/// character, or `ph` once the raw input is used up. When the placeholder
/// blends with the separators (`merge`), a run of empty input positions
/// shows a single placeholder (`prev_empty`: the previous pattern position
/// was an empty input position). Raw characters beyond the pattern are
/// dropped.
pub open spec fn template_from(
    pat: Seq<char>,
    ic: char,
    ph: char,
    raw: Seq<char>,
    i: int,
    r: int,
    merge: bool,
    prev_empty: bool,
) -> Seq<char>
    decreases pat.len() - i,
{
    if i >= pat.len() {
        Seq::empty()
    } else if pat[i] == ic {
        if r < raw.len() {
            seq![raw[r]] + template_from(pat, ic, ph, raw, i + 1, r + 1, merge, false)
        } else if merge && prev_empty {
            template_from(pat, ic, ph, raw, i + 1, r, merge, true)
        } else {
            seq![ph] + template_from(pat, ic, ph, raw, i + 1, r, merge, true)
        }
    } else {
        seq![pat[i]] + template_from(pat, ic, ph, raw, i + 1, r, merge, false)
    }
}

/// The first input position at or after `i` (the pattern's length when there
/// is none).
pub open spec fn first_input_from(pat: Seq<char>, ic: char, i: int) -> int
    decreases pat.len() - i,
{
    if i >= pat.len() {
        pat.len() as int
    } else if pat[i] == ic {
        i
    } else {
        first_input_from(pat, ic, i + 1)
    }
}

/// The number of consecutive input positions from position `i` on.
pub open spec fn input_run(pat: Seq<char>, ic: char, i: int) -> nat
    decreases pat.len() - i,
{
    if i < 0 || i >= pat.len() || pat[i] != ic {
        0
    } else {
        1 + input_run(pat, ic, i + 1)
    }
}

/// The number of input positions in the pattern's first group (the first
/// run of input positions).
pub open spec fn first_group(pat: Seq<char>, ic: char) -> nat {
    input_run(pat, ic, first_input_from(pat, ic, 0))
}

/// The rendering of `raw` under a mask with pattern `pat`, input character
/// `ic` and display mode `mode`. In dynamic mode, input that still fits in
/// the first group shows as typed, with no separators.
pub open spec fn masked_display(pat: Seq<char>, ic: char, mode: MaskDisplayMode, raw: Seq<char>) -> Seq<
    char,
> {
    match mode {
        MaskDisplayMode::Dynamic => if raw.len() <= first_group(pat, ic) {
            raw
        } else {
            dynamic_from(pat, ic, raw, 0, 0, Seq::empty())
        },
        MaskDisplayMode::Template { placeholder } => template_from(
            pat,
            ic,
            placeholder,
            raw,
            0,
            0,
            blends(pat, ic, placeholder) && raw.len() == 0,
            false,
        ),
    }
}

/// A user-defined display mask.
#[derive(Debug, PartialEq, Eq)]
pub struct DisplayMask {
    /// Mask pattern like `"##-##-####"`.
    pattern: String,
    /// The pattern's characters, kept beside it for indexed access.
    pattern_chars: Vec<char>,
    /// Character marking input positions (usually `'#'`).
    input_char: char,
    /// How the mask is rendered.
    display_mode: MaskDisplayMode,
}

impl DisplayMask {
    #[verifier::type_invariant]
    spec fn well_formed(self) -> bool {
        self.pattern_chars@ == self.pattern@
    }

    /// The pattern, as characters.
    pub closed spec fn pattern_view(self) -> Seq<char> {
        self.pattern@
    }

    /// The character that marks input positions.
    pub closed spec fn input_char_view(self) -> char {
        self.input_char
    }

    /// The display mode.
    pub closed spec fn mode_view(self) -> MaskDisplayMode {
        self.display_mode
    }

    /// Length of the pattern in UTF-8 bytes, as `str::len` reports it.
    pub open spec fn pattern_byte_len(self) -> usize {
        encode_utf8(self.pattern_view()).len() as usize
    }

    /// Number of input positions in the whole pattern.
    pub open spec fn input_count(self) -> nat {
        count_inputs(self.pattern_view(), self.input_char_view(), self.pattern_view().len() as int)
    }

    /// Whether pattern position `i` is an input position.
    pub open spec fn is_input_at(self, i: int) -> bool {
        0 <= i < self.pattern_view().len() && self.pattern_view()[i] == self.input_char_view()
    }

    /// A mask with pattern `pattern`, input character `input_char` and the
    /// dynamic display mode.
    pub fn new(pattern: &str, input_char: char) -> (res: Self)
        ensures
            res.pattern_view() == pattern@,
            res.input_char_view() == input_char,
            res.mode_view() == MaskDisplayMode::Dynamic,
    {
        DisplayMask {
            pattern: pattern.to_owned(),
            pattern_chars: chars_of(pattern),
            input_char,
            display_mode: MaskDisplayMode::Dynamic,
        }
    }

    /// This mask with display mode `mode`.
    pub fn with_mode(self, mode: MaskDisplayMode) -> (res: Self)
        ensures
            res.pattern_view() == self.pattern_view(),
            res.input_char_view() == self.input_char_view(),
            res.mode_view() == mode,
    {
        proof {
            use_type_invariant(&self);
        }
        DisplayMask { display_mode: mode, ..self }
    }

    /// This mask in template mode with placeholder `placeholder`.
    pub fn with_template(self, placeholder: char) -> (res: Self)
        ensures
            res.pattern_view() == self.pattern_view(),
            res.input_char_view() == self.input_char_view(),
            res.mode_view() == (MaskDisplayMode::Template { placeholder }),
    {
        self.with_mode(MaskDisplayMode::Template { placeholder })
    }

    /// Renders `raw_input` through the mask.
    pub fn apply_to_display(&self, raw_input: &str) -> (res: String)
        ensures
            res@ == masked_display(
                self.pattern_view(),
                self.input_char_view(),
                self.mode_view(),
                raw_input@,
            ),
    {
        let raw = chars_of(raw_input);
        let out = match self.display_mode {
            MaskDisplayMode::Dynamic => if raw.len() <= self.first_group_len() {
                raw
            } else {
                self.apply_dynamic(&raw)
            },
            MaskDisplayMode::Template { placeholder } => self.apply_template(&raw, placeholder),
        };
        string_of(out.as_slice())
    }

    /// The number of input positions in the pattern's first group.
    fn first_group_len(&self) -> (res: usize)
        ensures
            res == first_group(self.pattern_view(), self.input_char_view()),
    {
        proof {
            use_type_invariant(self);
        }
        let ghost pat = self.pattern_view();
        let ghost ic = self.input_char_view();
        let n = self.pattern_chars.len();
        let mut i: usize = 0;
        while i < n && self.pattern_chars[i] != self.input_char
            invariant
                pat == self.pattern_chars@,
                ic == self.input_char,
                n == pat.len(),
                i <= n,
                first_input_from(pat, ic, i as int) == first_input_from(pat, ic, 0),
            decreases n - i,
        {
            i += 1;
        }
        let ghost i0 = i as int;
        proof {
            assert(first_input_from(pat, ic, i as int) == i);
        }
        let mut cnt: usize = 0;
        while i < n && self.pattern_chars[i] == self.input_char
            invariant
                pat == self.pattern_chars@,
                ic == self.input_char,
                n == pat.len(),
                i0 <= i <= n,
                i == i0 + cnt,
                0 <= i0,
                input_run(pat, ic, i0) == cnt + input_run(pat, ic, i as int),
            decreases n - i,
        {
            i += 1;
            cnt += 1;
        }
        cnt
    }

    fn apply_dynamic(&self, raw: &Vec<char>) -> (res: Vec<char>)
        ensures
            res@ == dynamic_from(self.pattern_view(), self.input_char_view(), raw@, 0, 0, Seq::empty()),
    {
        proof {
            use_type_invariant(self);
        }
        let ghost pat = self.pattern_view();
        let ghost ic = self.input_char;
        let mut res: Vec<char> = Vec::new();
        let mut pending: Vec<char> = Vec::new();
        let mut i: usize = 0;
        let mut r: usize = 0;
        let n = self.pattern_chars.len();
        while i < n
            invariant
                n == pat.len(),
                pat == self.pattern_chars@,
                pat == self.pattern_view(),
                ic == self.input_char,
                ic == self.input_char_view(),
                i <= n,
                r <= raw@.len(),
                res@ + dynamic_from(pat, ic, raw@, i as int, r as int, pending@) == dynamic_from(
                    pat,
                    ic,
                    raw@,
                    0,
                    0,
                    Seq::empty(),
                ),
            decreases n - i,
        {
            let pc = self.pattern_chars[i];
            if pc == self.input_char {
                if r < raw.len() {
                    let ghost before = res@;
                    let mut j: usize = 0;
                    while j < pending.len()
                        invariant
                            j <= pending@.len(),
                            res@ == before + pending@.take(j as int),
                        decreases pending@.len() - j,
                    {
                        res.push(pending[j]);
                        j += 1;
                        proof {
                            assert(res@ =~= before + pending@.take(j as int));
                        }
                    }
                    proof {
                        assert(pending@.take(j as int) =~= pending@);
                        assert(res@.push(raw@[r as int]) + dynamic_from(
                            pat,
                            ic,
                            raw@,
                            i + 1,
                            r + 1,
                            Seq::empty(),
                        ) =~= before + dynamic_from(pat, ic, raw@, i as int, r as int, pending@));
                    }
                    res.push(raw[r]);
                    pending = Vec::new();
                    r += 1;
                } else {
                    proof {
                        assert(dynamic_from(pat, ic, raw@, i as int, r as int, pending@)
                            == Seq::<char>::empty());
                        assert(res@ + dynamic_from(pat, ic, raw@, i as int, r as int, pending@)
                            =~= res@);
                    }
                    return res;
                }
            } else {
                pending.push(pc);
            }
            i += 1;
        }
        let ghost before = res@;
        let mut j: usize = 0;
        while j < pending.len()
            invariant
                j <= pending@.len(),
                res@ == before + pending@.take(j as int),
            decreases pending@.len() - j,
        {
            res.push(pending[j]);
            j += 1;
            proof {
                assert(res@ =~= before + pending@.take(j as int));
            }
        }
        proof {
            assert(pending@.take(j as int) =~= pending@);
        }
        let ghost mid = res@;
        let ghost start = r;
        while r < raw.len()
            invariant
                start <= r <= raw@.len(),
                res@ == mid + raw@.subrange(start as int, r as int),
            decreases raw@.len() - r,
        {
            res.push(raw[r]);
            r += 1;
            proof {
                assert(res@ =~= mid + raw@.subrange(start as int, r as int));
            }
        }
        proof {
            assert(res@ =~= before + pending@ + raw@.subrange(start as int, raw@.len() as int));
        }
        res
    }

    fn apply_template(&self, raw: &Vec<char>, placeholder: char) -> (res: Vec<char>)
        ensures
            res@ == template_from(
                self.pattern_view(),
                self.input_char_view(),
                placeholder,
                raw@,
                0,
                0,
                blends(self.pattern_view(), self.input_char_view(), placeholder) && raw@.len() == 0,
                false,
            ),
    {
        proof {
            use_type_invariant(self);
        }
        let ghost pat = self.pattern_view();
        let ghost ic = self.input_char;
        let merge = raw.len() == 0 && self.placeholder_blends(placeholder);
        let mut res: Vec<char> = Vec::new();
        let mut i: usize = 0;
        let mut r: usize = 0;
        let mut prev_empty = false;
        let n = self.pattern_chars.len();
        while i < n
            invariant
                n == pat.len(),
                pat == self.pattern_chars@,
                pat == self.pattern_view(),
                ic == self.input_char,
                ic == self.input_char_view(),
                i <= n,
                r <= raw@.len(),
                res@ + template_from(pat, ic, placeholder, raw@, i as int, r as int, merge, prev_empty)
                    == template_from(pat, ic, placeholder, raw@, 0, 0, merge, false),
            decreases n - i,
        {
            let pc = self.pattern_chars[i];
            if pc == self.input_char {
                if r < raw.len() {
                    proof {
                        assert(res@.push(raw@[r as int]) + template_from(
                            pat,
                            ic,
                            placeholder,
                            raw@,
                            i + 1,
                            r + 1,
                            merge,
                            false,
                        ) =~= res@ + template_from(pat, ic, placeholder, raw@, i as int, r as int, merge, prev_empty));
                    }
                    res.push(raw[r]);
                    r += 1;
                    prev_empty = false;
                } else if merge && prev_empty {
                    prev_empty = true;
                } else {
                    proof {
                        assert(res@.push(placeholder) + template_from(
                            pat,
                            ic,
                            placeholder,
                            raw@,
                            i + 1,
                            r as int,
                            merge,
                            true,
                        ) =~= res@ + template_from(pat, ic, placeholder, raw@, i as int, r as int, merge, prev_empty));
                    }
                    res.push(placeholder);
                    prev_empty = true;
                }
            } else {
                proof {
                    assert(res@.push(pc) + template_from(pat, ic, placeholder, raw@, i + 1, r as int, merge, false)
                        =~= res@ + template_from(pat, ic, placeholder, raw@, i as int, r as int, merge, prev_empty));
                }
                res.push(pc);
                prev_empty = false;
            }
            i += 1;
        }
        proof {
            assert(res@ + template_from(pat, ic, placeholder, raw@, i as int, r as int, merge, prev_empty) =~= res@);
        }
        res
    }

    /// Whether `placeholder` is also a separator of the pattern.
    fn placeholder_blends(&self, placeholder: char) -> (res: bool)
        ensures
            res == blends(self.pattern_view(), self.input_char_view(), placeholder),
    {
        proof {
            use_type_invariant(self);
        }
        if placeholder == self.input_char {
            return false;
        }
        let mut i: usize = 0;
        while i < self.pattern_chars.len()
            invariant
                self.pattern_chars@ == self.pattern_view(),
                placeholder != self.input_char_view(),
                i <= self.pattern_chars@.len(),
                forall|k: int| 0 <= k < i ==> self.pattern_chars@[k] != placeholder,
            decreases self.pattern_chars@.len() - i,
        {
            if self.pattern_chars[i] == placeholder {
                proof {
                    assert(self.pattern_view()[i as int] == placeholder);
                    assert(self.pattern_view().contains(placeholder));
                }
                return true;
            }
            i += 1;
        }
        false
    }

    /// Whether display position `display_position` accepts input: an input
    /// position of the pattern, or any position beyond the pattern.
    pub fn is_input_position(&self, display_position: usize) -> (res: bool)
        ensures
            res == (display_position >= self.pattern_view().len() || self.is_input_at(
                display_position as int,
            )),
    {
        proof {
            use_type_invariant(self);
        }
        if display_position < self.pattern_chars.len() {
            self.pattern_chars[display_position] == self.input_char
        } else {
            true
        }
    }

    /// Maps a display position to a raw position: the number of input
    /// positions before it.
    pub fn display_pos_to_raw_pos(&self, display_pos: usize) -> (res: usize)
        ensures
            res == count_inputs(
                self.pattern_view(),
                self.input_char_view(),
                if display_pos < self.pattern_view().len() {
                    display_pos as int
                } else {
                    self.pattern_view().len() as int
                },
            ),
    {
        proof {
            use_type_invariant(self);
        }
        let ghost pat = self.pattern_view();
        let ghost ic = self.input_char;
        let n = self.pattern_chars.len();
        let mut raw_pos: usize = 0;
        let mut i: usize = 0;
        while i < n && i < display_pos
            invariant
                n == pat.len(),
                pat == self.pattern_chars@,
                pat == self.pattern_view(),
                ic == self.input_char,
                ic == self.input_char_view(),
                i <= n,
                i <= display_pos,
                raw_pos == count_inputs(pat, ic, i as int),
                raw_pos <= i,
            decreases n - i,
        {
            if self.pattern_chars[i] == self.input_char {
                raw_pos += 1;
            }
            i += 1;
        }
        raw_pos
    }

    /// Maps a raw position to a display position: the pattern position of the
    /// `raw_pos`-th input position, or, beyond the pattern's input positions,
    /// the pattern's byte length plus the number of raw positions left over.
    pub fn raw_pos_to_display_pos(&self, raw_pos: usize) -> (res: usize)
        requires
            raw_pos + self.pattern_byte_len() <= usize::MAX,
        ensures
            raw_pos < self.input_count() ==> self.is_input_at(res as int) && count_inputs(
                self.pattern_view(),
                self.input_char_view(),
                res as int,
            ) == raw_pos,
            raw_pos >= self.input_count() ==> res == self.pattern_byte_len() + raw_pos
                - self.input_count(),
    {
        proof {
            use_type_invariant(self);
        }
        let ghost pat = self.pattern_view();
        let ghost ic = self.input_char;
        let n = self.pattern_chars.len();
        let mut seen: usize = 0;
        let mut i: usize = 0;
        while i < n
            invariant
                n == pat.len(),
                pat == self.pattern_chars@,
                pat == self.pattern_view(),
                ic == self.input_char,
                ic == self.input_char_view(),
                i <= n,
                seen == count_inputs(pat, ic, i as int),
                seen <= raw_pos,
            decreases n - i,
        {
            if self.pattern_chars[i] == self.input_char {
                if seen == raw_pos {
                    proof {
                        assert(count_inputs(pat, ic, i as int + 1) == seen + 1);
                        lemma_count_inputs_monotone(pat, ic, i as int + 1, n as int);
                        assert(raw_pos < self.input_count());
                    }
                    return i;
                }
                seen += 1;
            }
            i += 1;
        }
        self.pattern.as_str().len() + (raw_pos - seen)
    }

    /// The first input position at or after `display_pos`; beyond the
    /// pattern's last input position, `display_pos` or the pattern's byte
    /// length, whichever is larger.
    pub fn next_input_position(&self, display_pos: usize) -> (res: usize)
        ensures
            (display_pos <= res && self.is_input_at(res as int) && forall|k: int|
                display_pos <= k < res ==> !#[trigger] self.is_input_at(k)) || ((forall|k: int|
                display_pos <= k < self.pattern_view().len() ==> !#[trigger] self.is_input_at(k))
                && res == if display_pos >= self.pattern_byte_len() {
                display_pos
            } else {
                self.pattern_byte_len()
            }),
    {
        proof {
            use_type_invariant(self);
        }
        let n = self.pattern_chars.len();
        let mut i: usize = display_pos;
        while i < n
            invariant
                n == self.pattern_view().len(),
                self.pattern_view() == self.pattern_chars@,
                display_pos <= i,
                forall|k: int| display_pos <= k < i ==> !#[trigger] self.is_input_at(k),
            decreases n - i,
        {
            if self.pattern_chars[i] == self.input_char {
                return i;
            }
            i += 1;
        }
        let bytes = self.pattern.as_str().len();
        if display_pos >= bytes {
            display_pos
        } else {
            bytes
        }
    }

    /// The last input position at or before `display_pos`, if any.
    pub fn prev_input_position(&self, display_pos: usize) -> (res: Option<usize>)
        ensures
            res matches Some(p) ==> p <= display_pos && self.is_input_at(p as int) && forall|k: int|
                p < k <= display_pos ==> !#[trigger] self.is_input_at(k),
            res is None ==> forall|k: int| 0 <= k <= display_pos ==> !#[trigger] self.is_input_at(k),
    {
        proof {
            use_type_invariant(self);
        }
        let n = self.pattern_chars.len();
        let mut i: usize = n;
        while i > 0
            invariant
                n == self.pattern_view().len(),
                self.pattern_view() == self.pattern_chars@,
                i <= n,
                forall|k: int| i <= k <= display_pos ==> !#[trigger] self.is_input_at(k),
            decreases i,
        {
            let j = i - 1;
            if j <= display_pos && self.pattern_chars[j] == self.input_char {
                return Some(j);
            }
            i = j;
        }
        None
    }

    /// The display mode.
    pub fn display_mode(&self) -> (res: &MaskDisplayMode)
        ensures
            *res == self.mode_view(),
    {
        &self.display_mode
    }

    /// Whether this mask renders in template mode.
    pub fn is_template_mode(&self) -> (res: bool)
        ensures
            res == (self.mode_view() is Template),
    {
        match self.display_mode {
            MaskDisplayMode::Template { .. } => true,
            MaskDisplayMode::Dynamic => false,
        }
    }

    /// The pattern.
    pub fn pattern(&self) -> (res: &str)
        ensures
            res@ == self.pattern_view(),
    {
        self.pattern.as_str()
    }

    /// The first input position of the pattern, or 0 when there is none.
    pub fn first_input_position(&self) -> (res: usize)
        ensures
            (self.is_input_at(res as int) && forall|k: int|
                0 <= k < res ==> !#[trigger] self.is_input_at(k)) || (res == 0 && forall|k: int|
                0 <= k < self.pattern_view().len() ==> !#[trigger] self.is_input_at(k)),
    {
        proof {
            use_type_invariant(self);
        }
        let n = self.pattern_chars.len();
        let mut i: usize = 0;
        while i < n
            invariant
                n == self.pattern_view().len(),
                self.pattern_view() == self.pattern_chars@,
                i <= n,
                forall|k: int| 0 <= k < i ==> !#[trigger] self.is_input_at(k),
            decreases n - i,
        {
            if self.pattern_chars[i] == self.input_char {
                return i;
            }
            i += 1;
        }
        0
    }
}

impl Clone for DisplayMask {
    fn clone(&self) -> (res: Self)
        ensures
            res.pattern_view() == self.pattern_view(),
            res.input_char_view() == self.input_char_view(),
            res.mode_view() == self.mode_view(),
    {
        proof {
            use_type_invariant(self);
        }
        DisplayMask {
            pattern: self.pattern.clone(),
            pattern_chars: crate::text::copy_chars(&self.pattern_chars),
            input_char: self.input_char,
            display_mode: self.display_mode,
        }
    }
}

impl Default for DisplayMask {
    fn default() -> (res: Self)
        ensures
            res.pattern_view() == Seq::<char>::empty(),
            res.input_char_view() == '#',
            res.mode_view() == MaskDisplayMode::Dynamic,
    {
        let empty = String::new();
        DisplayMask {
            pattern: empty,
            pattern_chars: Vec::new(),
            input_char: '#',
            display_mode: MaskDisplayMode::Dynamic,
        }
    }
}

/// Two input positions before which the same number of input positions
/// lie are the same position.
pub proof fn lemma_input_position_unique(pat: Seq<char>, ic: char, a: int, b: int)
    requires
        0 <= a < pat.len(),
        0 <= b < pat.len(),
        pat[a] == ic,
        pat[b] == ic,
        count_inputs(pat, ic, a) == count_inputs(pat, ic, b),
    ensures
        a == b,
{
    if a < b {
        lemma_count_inputs_monotone(pat, ic, a + 1, b);
        assert(count_inputs(pat, ic, a + 1) == count_inputs(pat, ic, a) + 1);
    } else if b < a {
        lemma_count_inputs_monotone(pat, ic, b + 1, a);
        assert(count_inputs(pat, ic, b + 1) == count_inputs(pat, ic, b) + 1);
    }
}

/// An input position of the pattern maps to a raw position below the number
/// of input positions, and it is the only input position that maps there:
/// so mapping it to a raw position and back gives it again.
pub proof fn lemma_position_round_trip(m: DisplayMask, d: int)
    requires
        m.is_input_at(d),
    ensures
        count_inputs(m.pattern_view(), m.input_char_view(), d) < m.input_count(),
        forall|d2: int|
            m.is_input_at(d2) && count_inputs(m.pattern_view(), m.input_char_view(), d2) == count_inputs(
                m.pattern_view(),
                m.input_char_view(),
                d,
            ) ==> d2 == d,
{
    let pat = m.pattern_view();
    let ic = m.input_char_view();
    lemma_count_inputs_monotone(pat, ic, d + 1, pat.len() as int);
    assert(count_inputs(pat, ic, d + 1) == count_inputs(pat, ic, d) + 1);
    assert forall|d2: int|
        m.is_input_at(d2) && count_inputs(pat, ic, d2) == count_inputs(pat, ic, d) implies d2 == d by {
        lemma_input_position_unique(pat, ic, d, d2);
    }
}

/// Counting input positions is monotone in the prefix length.
pub proof fn lemma_count_inputs_monotone(pat: Seq<char>, ic: char, a: int, b: int)
    requires
        0 <= a <= b,
    ensures
        count_inputs(pat, ic, a) <= count_inputs(pat, ic, b),
    decreases b - a,
{
    if a < b {
        lemma_count_inputs_monotone(pat, ic, a, b - 1);
    }
}

} // verus!
