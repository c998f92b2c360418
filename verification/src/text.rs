//! Character-sequence helpers shared by the editors and the validators.
//!
//! Text is modelled as a sequence of Unicode scalar values (`Seq<char>`),
//! which is also how vstd views `str` and `String`.
use vstd::prelude::*;

verus! {

broadcast use vstd::string::group_string_axioms;

/// Appends one character to a `String` (calls `String::push`).
///
/// Trusted: `String::push` appends the character to the end of the string,
/// as its documentation states.
#[verifier::external_body]
fn push_char(s: &mut String, c: char)
    ensures
        final(s)@ == old(s)@.push(c),
{
    s.push(c);
}

/// The characters of `s`, in order.
pub fn chars_of(s: &str) -> (res: Vec<char>)
    ensures
        res@ == s@,
{
    let mut res: Vec<char> = Vec::new();
    for c in iter: s.chars()
        invariant
            iter.seq() == s@,
            res@ == iter.seq().take(iter.index() as int),
    {
        res.push(c);
    }
    proof {
        assert(res@ =~= s@);
    }
    res
}

/// Builds a `String` holding exactly the characters of `v`.
pub fn string_of(v: &[char]) -> (res: String)
    ensures
        res@ == v@,
{
    let mut res = String::new();
    let mut i: usize = 0;
    while i < v.len()
        invariant
            i <= v@.len(),
            res@ == v@.take(i as int),
        decreases v@.len() - i,
    {
        push_char(&mut res, v[i]);
        i += 1;
        proof {
            assert(v@.take(i as int) =~= v@.take((i - 1) as int).push(v@[i - 1]));
        }
    }
    proof {
        assert(v@.take(i as int) =~= v@);
    }
    res
}

/// A fresh copy of a character vector.
pub fn copy_chars(v: &Vec<char>) -> (res: Vec<char>)
    ensures
        res@ == v@,
{
    let mut res: Vec<char> = Vec::new();
    let mut i: usize = 0;
    while i < v.len()
        invariant
            i <= v@.len(),
            res@ == v@.take(i as int),
        decreases v@.len() - i,
    {
        res.push(v[i]);
        i += 1;
        proof {
            assert(v@.take(i as int) =~= v@.take((i - 1) as int).push(v@[i - 1]));
        }
    }
    proof {
        assert(v@.take(i as int) =~= v@);
    }
    res
}

/// Whether two string slices hold the same characters.
pub fn str_equal(a: &str, b: &str) -> (res: bool)
    ensures
        res == (a@ == b@),
{
    let va = chars_of(a);
    let vb = chars_of(b);
    chars_equal(&va, &vb)
}

/// Whether two character vectors are equal.
pub fn chars_equal(a: &Vec<char>, b: &Vec<char>) -> (res: bool)
    ensures
        res == (a@ == b@),
{
    if a.len() != b.len() {
        return false;
    }
    let mut i: usize = 0;
    while i < a.len()
        invariant
            a@.len() == b@.len(),
            i <= a@.len(),
            forall|k: int| 0 <= k < i ==> a@[k] == b@[k],
        decreases a@.len() - i,
    {
        if a[i] != b[i] {
            return false;
        }
        i += 1;
    }
    proof {
        assert(a@ =~= b@);
    }
    true
}

/// The longest prefix of `s` that holds no line break (`'\n'` or `'\r'`).
pub open spec fn first_line(s: Seq<char>) -> Seq<char>
    decreases s.len(),
{
    if s.len() == 0 {
        s
    } else if s[0] == '\n' || s[0] == '\r' {
        Seq::empty()
    } else {
        seq![s[0]] + first_line(s.drop_first())
    }
}

/// Whether `c` is a line break character.
pub open spec fn is_line_break(c: char) -> bool {
    c == '\n' || c == '\r'
}

/// `s` with every line break (`'\n'` or `'\r'`) removed.
pub open spec fn without_line_breaks(s: Seq<char>) -> Seq<char>
    decreases s.len(),
{
    if s.len() == 0 {
        s
    } else if is_line_break(s.last()) {
        without_line_breaks(s.drop_last())
    } else {
        without_line_breaks(s.drop_last()).push(s.last())
    }
}

/// `first_line` is the prefix before the first line break.
pub proof fn lemma_first_line(s: Seq<char>, k: int)
    requires
        0 <= k <= s.len(),
        forall|j: int| 0 <= j < k ==> !is_line_break(#[trigger] s[j]),
        k == s.len() || is_line_break(s[k]),
    ensures
        first_line(s) == s.take(k),
    decreases s.len(),
{
    if s.len() == 0 {
        assert(s.take(k) =~= s);
    } else if k == 0 {
        assert(s.take(k) =~= Seq::<char>::empty());
    } else {
        assert forall|j: int| 0 <= j < k - 1 implies !is_line_break(#[trigger] s.drop_first()[j]) by {
            assert(s.drop_first()[j] == s[j + 1]);
        }
        lemma_first_line(s.drop_first(), k - 1);
        assert(s.take(k) =~= seq![s[0]] + s.drop_first().take(k - 1));
    }
}

/// Whether `s` holds no line break.
pub open spec fn is_single_line(s: Seq<char>) -> bool {
    forall|j: int| 0 <= j < s.len() ==> !is_line_break(#[trigger] s[j])
}

/// The first line of a text holds no line break, and a text without line
/// breaks is its own first line.
pub proof fn lemma_first_line_single(s: Seq<char>)
    ensures
        is_single_line(first_line(s)),
        is_single_line(s) ==> first_line(s) == s,
    decreases s.len(),
{
    if s.len() > 0 {
        lemma_first_line_single(s.drop_first());
        if !(s[0] == '\n' || s[0] == '\r') {
            let t = first_line(s.drop_first());
            assert forall|j: int| 0 <= j < first_line(s).len() implies !is_line_break(
                #[trigger] first_line(s)[j],
            ) by {
                if j > 0 {
                    assert(first_line(s)[j] == t[j - 1]);
                }
            }
            if is_single_line(s) {
                assert forall|j: int| 0 <= j < s.drop_first().len() implies !is_line_break(
                    #[trigger] s.drop_first()[j],
                ) by {
                    assert(s.drop_first()[j] == s[j + 1]);
                }
                assert(seq![s[0]] + s.drop_first() =~= s);
            }
        } else {
            assert(!is_single_line(s) ==> true);
            assert(is_line_break(s[0]));
        }
    } else {
        assert(first_line(s) =~= s);
    }
}

/// The first line of `v`: its characters before the first line break.
pub fn first_line_chars(v: &Vec<char>) -> (res: Vec<char>)
    ensures
        res@ == first_line(v@),
{
    let mut out: Vec<char> = Vec::new();
    let mut i: usize = 0;
    while i < v.len()
        invariant
            i <= v@.len(),
            out@ == v@.take(i as int),
            forall|j: int| 0 <= j < i ==> !is_line_break(#[trigger] v@[j]),
        decreases v@.len() - i,
    {
        if v[i] == '\n' || v[i] == '\r' {
            proof {
                lemma_first_line(v@, i as int);
            }
            return out;
        }
        out.push(v[i]);
        i += 1;
        proof {
            assert(out@ =~= v@.take(i as int));
        }
    }
    proof {
        lemma_first_line(v@, i as int);
    }
    out
}

/// `v` without its line breaks.
pub fn strip_line_breaks(v: &Vec<char>) -> (res: Vec<char>)
    ensures
        res@ == without_line_breaks(v@),
{
    let mut out: Vec<char> = Vec::new();
    let mut i: usize = 0;
    while i < v.len()
        invariant
            i <= v@.len(),
            out@ == without_line_breaks(v@.take(i as int)),
        decreases v@.len() - i,
    {
        proof {
            assert(v@.take(i + 1).drop_last() =~= v@.take(i as int));
            assert(v@.take(i + 1).last() == v@[i as int]);
        }
        if !(v[i] == '\n' || v[i] == '\r') {
            out.push(v[i]);
        }
        i += 1;
    }
    proof {
        assert(v@.take(i as int) =~= v@);
    }
    out
}

} // verus!

verus! {

/// `v` with positions `start..end` replaced by `ins`.
pub fn splice_chars(v: &Vec<char>, start: usize, end: usize, ins: &[char]) -> (res: Vec<char>)
    requires
        start <= end <= v@.len(),
    ensures
        res@ == v@.subrange(0, start as int) + ins@ + v@.subrange(end as int, v@.len() as int),
{
    let mut out: Vec<char> = Vec::new();
    let mut i: usize = 0;
    while i < start
        invariant
            start <= end <= v@.len(),
            i <= start,
            out@ == v@.subrange(0, i as int),
        decreases start - i,
    {
        out.push(v[i]);
        i += 1;
        proof {
            assert(out@ =~= v@.subrange(0, i as int));
        }
    }
    let mut j: usize = 0;
    while j < ins.len()
        invariant
            start <= end <= v@.len(),
            j <= ins@.len(),
            out@ == v@.subrange(0, start as int) + ins@.subrange(0, j as int),
        decreases ins@.len() - j,
    {
        out.push(ins[j]);
        j += 1;
        proof {
            assert(out@ =~= v@.subrange(0, start as int) + ins@.subrange(0, j as int));
        }
    }
    let mut k: usize = end;
    while k < v.len()
        invariant
            start <= end <= k <= v@.len(),
            out@ == v@.subrange(0, start as int) + ins@ + v@.subrange(end as int, k as int),
        decreases v@.len() - k,
    {
        proof {
            assert(ins@.subrange(0, ins@.len() as int) =~= ins@);
        }
        out.push(v[k]);
        k += 1;
        proof {
            assert(out@ =~= v@.subrange(0, start as int) + ins@ + v@.subrange(end as int, k as int));
        }
    }
    proof {
        assert(ins@.subrange(0, ins@.len() as int) =~= ins@);
    }
    out
}

/// The first `n` characters of `v` (all of them when `n` exceeds its length).
pub fn take_chars(v: &Vec<char>, n: usize) -> (res: Vec<char>)
    ensures
        res@ == if n <= v@.len() { v@.take(n as int) } else { v@ },
{
    let mut out: Vec<char> = Vec::new();
    let mut i: usize = 0;
    while i < n && i < v.len()
        invariant
            i <= v@.len(),
            i <= n,
            out@ == v@.take(i as int),
        decreases v@.len() - i,
    {
        out.push(v[i]);
        i += 1;
        proof {
            assert(out@ =~= v@.take(i as int));
        }
    }
    proof {
        if n > v@.len() {
            assert(v@.take(i as int) =~= v@);
        }
    }
    out
}

/// The characters of `v` at positions `start..end`.
pub fn sub_chars(v: &Vec<char>, start: usize, end: usize) -> (res: Vec<char>)
    requires
        start <= end <= v@.len(),
    ensures
        res@ == v@.subrange(start as int, end as int),
{
    let mut out: Vec<char> = Vec::new();
    let mut i: usize = start;
    while i < end
        invariant
            start <= i <= end <= v@.len(),
            out@ == v@.subrange(start as int, i as int),
        decreases end - i,
    {
        out.push(v[i]);
        i += 1;
        proof {
            assert(out@ =~= v@.subrange(start as int, i as int));
        }
    }
    out
}

/// The characters of `a` followed by those of `b`.
pub fn concat_chars(a: &Vec<char>, b: &Vec<char>) -> (res: Vec<char>)
    ensures
        res@ == a@ + b@,
{
    let r = splice_chars(a, a.len(), a.len(), b.as_slice());
    proof {
        assert(a@.subrange(0, a@.len() as int) =~= a@);
        assert(a@.subrange(a@.len() as int, a@.len() as int) =~= Seq::<char>::empty());
        assert(r@ =~= a@ + b@);
    }
    r
}

} // verus!
