//! Operations on the values of a list of fixed fields: clearing a range,
//! overwriting fields with lines, inserting text that spans several fields
//! and deleting a span of characters. None of them adds, removes or
//! reorders a field: what would spill past the last field is dropped.
use vstd::prelude::*;

use crate::editor::history::copy_values;
use crate::text::{concat_chars, copy_chars, sub_chars};

verus! {

/// The values of `v`, as character sequences.
pub open spec fn rows(v: Seq<Vec<char>>) -> Seq<Seq<char>> {
    v.map_values(|r: Vec<char>| r@)
}

/// `vals` with the fields `start..=end` emptied.
pub open spec fn cleared_rows(vals: Seq<Seq<char>>, start: int, end: int) -> Seq<Seq<char>> {
    Seq::new(vals.len(), |i: int| if start <= i <= end { Seq::empty() } else { vals[i] })
}

/// `vals` with `lines[k]` written into field `start + k`, for the lines
/// that have a field.
pub open spec fn written_rows(vals: Seq<Seq<char>>, start: int, lines: Seq<Seq<char>>) -> Seq<
    Seq<char>,
> {
    Seq::new(
        vals.len(),
        |i: int| if start <= i < start + lines.len() { lines[i - start] } else { vals[i] },
    )
}

/// `lines` repeated `count` times, one copy after the other.
pub open spec fn repeated_rows(lines: Seq<Seq<char>>, count: nat) -> Seq<Seq<char>>
    decreases count,
{
    if count == 0 {
        Seq::empty()
    } else {
        repeated_rows(lines, (count - 1) as nat) + lines
    }
}

/// The text `a` followed by the text `b`, both given as their lines: the
/// last line of `a` and the first of `b` become one line.
pub open spec fn joined_text(a: Seq<Seq<char>>, b: Seq<Seq<char>>) -> Seq<Seq<char>> {
    if a.len() == 0 {
        b
    } else if b.len() == 0 {
        a
    } else {
        a.drop_last().push(a.last() + b[0]) + b.drop_first()
    }
}

/// The text `lines` repeated `count` times.
pub open spec fn repeated_text(lines: Seq<Seq<char>>, count: nat) -> Seq<Seq<char>>
    decreases count,
{
    if count == 0 {
        Seq::empty()
    } else {
        joined_text(repeated_text(lines, (count - 1) as nat), lines)
    }
}

/// How many of `parts` lines have a field from field `field` on, among `n`
/// fields.
pub open spec fn fitting(n: int, field: int, parts: int) -> int {
    if parts < n - field {
        parts
    } else {
        n - field
    }
}

/// The values after inserting the text `parts` (its lines) at column `col`
/// of field `field`: the field keeps what stood before the column and
/// receives the first line, each further line overwrites the next field,
/// and what stood after the column follows the last line that has a field.
pub open spec fn inserted_rows(vals: Seq<Seq<char>>, field: int, col: int, parts: Seq<Seq<char>>) -> Seq<
    Seq<char>,
> {
    let m = fitting(vals.len() as int, field, parts.len() as int);
    Seq::new(
        vals.len(),
        |i: int|
            if field <= i < field + m {
                (if i == field {
                    vals[field].take(col)
                } else {
                    Seq::empty()
                }) + parts[i - field] + (if i == field + m - 1 {
                    vals[field].skip(col)
                } else {
                    Seq::empty()
                })
            } else {
                vals[i]
            },
    )
}

/// Where the inserted text of `inserted_rows` ends: the field of its last
/// line and the column after it.
pub open spec fn inserted_end(vals: Seq<Seq<char>>, field: int, col: int, parts: Seq<Seq<char>>) -> (
    int,
    int,
) {
    let m = fitting(vals.len() as int, field, parts.len() as int);
    if m == 1 {
        (field, col + parts[0].len())
    } else {
        (field + m - 1, parts[m - 1].len() as int)
    }
}

/// The values after deleting the characters from column `sc` of field `sf`
/// up to (not including) column `ec` of field `ef`: the first field keeps
/// what stands before the span, the last what stands after it, and the
/// fields between are emptied; no field is merged or removed.
pub open spec fn deleted_span(vals: Seq<Seq<char>>, sf: int, sc: int, ef: int, ec: int) -> Seq<
    Seq<char>,
> {
    Seq::new(
        vals.len(),
        |i: int|
            if i == sf {
                vals[sf].take(sc) + (if sf == ef {
                    vals[sf].skip(ec)
                } else {
                    Seq::empty()
                })
            } else if i == ef {
                vals[ef].skip(ec)
            } else if sf < i < ef {
                Seq::empty()
            } else {
                vals[i]
            },
    )
}

/// The text of the span of `deleted_span`, as its lines.
pub open spec fn span_text(vals: Seq<Seq<char>>, sf: int, sc: int, ef: int, ec: int) -> Seq<
    Seq<char>,
> {
    if sf == ef {
        seq![vals[sf].subrange(sc, ec)]
    } else {
        seq![vals[sf].skip(sc)] + vals.subrange(sf + 1, ef) + seq![vals[ef].take(ec)]
    }
}

/// `vals` with the fields `start..=end` emptied.
pub fn clear_rows(vals: &Vec<Vec<char>>, start: usize, end: usize) -> (res: Vec<Vec<char>>)
    ensures
        rows(res@) == cleared_rows(rows(vals@), start as int, end as int),
{
    let mut out: Vec<Vec<char>> = Vec::new();
    let mut i: usize = 0;
    while i < vals.len()
        invariant
            i <= vals@.len(),
            out@.len() == i,
            forall|k: int|
                0 <= k < i ==> (#[trigger] out@[k])@ == (if start <= k <= end {
                    Seq::empty()
                } else {
                    vals@[k]@
                }),
        decreases vals@.len() - i,
    {
        if start <= i && i <= end {
            out.push(Vec::new());
        } else {
            out.push(copy_chars(&vals[i]));
        }
        i += 1;
    }
    proof {
        assert(rows(out@) =~= cleared_rows(rows(vals@), start as int, end as int));
    }
    out
}

/// `vals` with `lines[k]` written into field `start + k`, for the lines
/// that have a field.
pub fn write_rows(vals: &Vec<Vec<char>>, start: usize, lines: &Vec<Vec<char>>) -> (res: Vec<
    Vec<char>,
>)
    ensures
        rows(res@) == written_rows(rows(vals@), start as int, rows(lines@)),
{
    let mut out: Vec<Vec<char>> = Vec::new();
    let mut i: usize = 0;
    while i < vals.len()
        invariant
            i <= vals@.len(),
            out@.len() == i,
            forall|k: int|
                0 <= k < i ==> (#[trigger] out@[k])@ == (if start <= k < start + lines@.len() {
                    lines@[k - start]@
                } else {
                    vals@[k]@
                }),
        decreases vals@.len() - i,
    {
        if start <= i && i - start < lines.len() {
            out.push(copy_chars(&lines[i - start]));
        } else {
            out.push(copy_chars(&vals[i]));
        }
        i += 1;
    }
    proof {
        assert(rows(out@) =~= written_rows(rows(vals@), start as int, rows(lines@)));
    }
    out
}

/// The fields `start..=end` of `vals` (those that exist).
pub fn row_range(vals: &Vec<Vec<char>>, start: usize, end: usize) -> (res: Vec<Vec<char>>)
    requires
        start <= end < vals@.len(),
    ensures
        rows(res@) == rows(vals@).subrange(start as int, end + 1),
{
    let n = vals.len();
    let stop = end + 1;
    let mut out: Vec<Vec<char>> = Vec::new();
    let mut i: usize = start;
    while i < stop
        invariant
            stop == end + 1,
            start <= i <= stop,
            stop <= vals@.len(),
            out@.len() == i - start,
            forall|k: int| 0 <= k < out@.len() ==> (#[trigger] out@[k])@ == vals@[start + k]@,
        decreases stop - i,
    {
        out.push(copy_chars(&vals[i]));
        i += 1;
    }
    proof {
        assert(rows(out@) =~= rows(vals@).subrange(start as int, end + 1));
    }
    out
}

/// `lines` repeated `count` times.
pub fn repeat_rows(lines: &Vec<Vec<char>>, count: usize) -> (res: Vec<Vec<char>>)
    ensures
        rows(res@) == repeated_rows(rows(lines@), count as nat),
{
    let mut out: Vec<Vec<char>> = Vec::new();
    let mut k: usize = 0;
    proof {
        assert(rows(out@) =~= repeated_rows(rows(lines@), 0));
    }
    while k < count
        invariant
            k <= count,
            rows(out@) == repeated_rows(rows(lines@), k as nat),
        decreases count - k,
    {
        let ghost before = out@;
        let mut j: usize = 0;
        while j < lines.len()
            invariant
                j <= lines@.len(),
                out@.len() == before.len() + j,
                forall|i: int| 0 <= i < before.len() ==> #[trigger] out@[i] == before[i],
                forall|i: int| 0 <= i < j ==> (#[trigger] out@[before.len() + i])@ == lines@[i]@,
            decreases lines@.len() - j,
        {
            out.push(copy_chars(&lines[j]));
            j += 1;
        }
        proof {
            assert(rows(out@) =~= rows(before) + rows(lines@)) by {
                assert forall|i: int| 0 <= i < out@.len() implies #[trigger] rows(out@)[i] == (rows(before) + rows(lines@))[i] by {
                    if i < before.len() {
                        assert(out@[i] == before[i]);
                    } else {
                        assert(out@[before.len() + (i - before.len())]@ == lines@[i - before.len()]@);
                    }
                }
            }
        }
        k += 1;
    }
    out
}

/// The text `a` followed by the text `b`, both given as their lines.
pub fn join_text(a: &Vec<Vec<char>>, b: &Vec<Vec<char>>) -> (res: Vec<Vec<char>>)
    ensures
        rows(res@) == joined_text(rows(a@), rows(b@)),
{
    if a.len() == 0 {
        return copy_values(b);
    }
    if b.len() == 0 {
        return copy_values(a);
    }
    let last = a.len() - 1;
    let mut out: Vec<Vec<char>> = Vec::new();
    let mut i: usize = 0;
    while i < last
        invariant
            last == a@.len() - 1,
            i <= last,
            out@.len() == i,
            forall|k: int| 0 <= k < i ==> (#[trigger] out@[k])@ == a@[k]@,
        decreases last - i,
    {
        out.push(copy_chars(&a[i]));
        i += 1;
    }
    out.push(concat_chars(&a[last], &b[0]));
    let mut j: usize = 1;
    while j < b.len()
        invariant
            last == a@.len() - 1,
            b@.len() > 0,
            1 <= j <= b@.len(),
            out@.len() == last + j,
            forall|k: int| 0 <= k < last ==> (#[trigger] out@[k])@ == a@[k]@,
            out@[last as int]@ == a@[last as int]@ + b@[0]@,
            forall|k: int| 1 <= k < j ==> (#[trigger] out@[last + k])@ == b@[k]@,
        decreases b@.len() - j,
    {
        out.push(copy_chars(&b[j]));
        j += 1;
    }
    proof {
        let r = joined_text(rows(a@), rows(b@));
        assert(rows(out@) =~= r) by {
            assert forall|k: int| 0 <= k < out@.len() implies #[trigger] rows(out@)[k] == r[k] by {
                if k < last {
                } else if k == last {
                } else {
                    assert(out@[last + (k - last)]@ == b@[k - last]@);
                }
            }
        }
    }
    out
}

/// The text `lines` repeated `count` times.
pub fn repeat_text(lines: &Vec<Vec<char>>, count: usize) -> (res: Vec<Vec<char>>)
    ensures
        rows(res@) == repeated_text(rows(lines@), count as nat),
{
    let mut out: Vec<Vec<char>> = Vec::new();
    let mut k: usize = 0;
    proof {
        assert(rows(out@) =~= repeated_text(rows(lines@), 0));
    }
    while k < count
        invariant
            k <= count,
            rows(out@) == repeated_text(rows(lines@), k as nat),
        decreases count - k,
    {
        out = join_text(&out, lines);
        k += 1;
    }
    out
}

/// Inserts the text `parts` (its lines) at column `col` of field `field`
/// (see `inserted_rows`); returns the new values and where the inserted
/// text ends.
pub fn insert_rows(vals: &Vec<Vec<char>>, field: usize, col: usize, parts: &Vec<Vec<char>>) -> (res: (
    Vec<Vec<char>>,
    usize,
    usize,
))
    requires
        field < vals@.len(),
        col <= vals@[field as int]@.len(),
        parts@.len() > 0,
    ensures
        rows(res.0@) == inserted_rows(rows(vals@), field as int, col as int, rows(parts@)),
        (res.1 as int, res.2 as int) == inserted_end(rows(vals@), field as int, col as int, rows(parts@)),
{
    let n = vals.len();
    let m = if parts.len() < n - field {
        parts.len()
    } else {
        n - field
    };
    let prefix = sub_chars(&vals[field], 0, col);
    let suffix = sub_chars(&vals[field], col, vals[field].len());
    let first = concat_chars(&prefix, &parts[0]);
    let first_len = first.len();
    let ghost v = rows(vals@);
    let ghost p = rows(parts@);
    let mut out: Vec<Vec<char>> = Vec::new();
    let mut i: usize = 0;
    while i < n
        invariant
            n == vals@.len(),
            v == rows(vals@),
            p == rows(parts@),
            field < n,
            col <= v[field as int].len(),
            m == fitting(n as int, field as int, parts@.len() as int),
            1 <= m <= parts@.len(),
            field + m <= n,
            prefix@ == v[field as int].take(col as int),
            suffix@ == v[field as int].skip(col as int),
            i <= n,
            out@.len() == i,
            forall|k: int|
                0 <= k < i ==> (#[trigger] out@[k])@ == inserted_rows(v, field as int, col as int, p)[k],
        decreases n - i,
    {
        if field <= i && i - field < m {
            let head = if i == field {
                copy_chars(&prefix)
            } else {
                Vec::new()
            };
            let mid = concat_chars(&head, &parts[i - field]);
            let row = if i - field == m - 1 {
                concat_chars(&mid, &suffix)
            } else {
                mid
            };
            out.push(row);
        } else {
            out.push(copy_chars(&vals[i]));
        }
        i += 1;
    }
    proof {
        assert(rows(out@) =~= inserted_rows(v, field as int, col as int, p));
    }
    if m == 1 {
        (out, field, first_len)
    } else {
        (out, field + m - 1, parts[m - 1].len())
    }
}

/// Deletes the characters from column `sc` of field `sf` up to (not
/// including) column `ec` of field `ef` (see `deleted_span`).
pub fn delete_span(vals: &Vec<Vec<char>>, sf: usize, sc: usize, ef: usize, ec: usize) -> (res: Vec<
    Vec<char>,
>)
    requires
        sf <= ef < vals@.len(),
        sc <= vals@[sf as int]@.len(),
        ec <= vals@[ef as int]@.len(),
        sf == ef ==> sc <= ec,
    ensures
        rows(res@) == deleted_span(rows(vals@), sf as int, sc as int, ef as int, ec as int),
{
    let ghost v = rows(vals@);
    let mut out: Vec<Vec<char>> = Vec::new();
    let mut i: usize = 0;
    while i < vals.len()
        invariant
            v == rows(vals@),
            sf <= ef < vals@.len(),
            sc <= v[sf as int].len(),
            ec <= v[ef as int].len(),
            sf == ef ==> sc <= ec,
            i <= vals@.len(),
            out@.len() == i,
            forall|k: int|
                0 <= k < i ==> (#[trigger] out@[k])@ == deleted_span(
                    v,
                    sf as int,
                    sc as int,
                    ef as int,
                    ec as int,
                )[k],
        decreases vals@.len() - i,
    {
        if i == sf {
            let head = sub_chars(&vals[sf], 0, sc);
            if sf == ef {
                let tail = sub_chars(&vals[sf], ec, vals[sf].len());
                out.push(concat_chars(&head, &tail));
            } else {
                let empty: Vec<char> = Vec::new();
                let row = concat_chars(&head, &empty);
                out.push(row);
            }
        } else if i == ef {
            out.push(sub_chars(&vals[ef], ec, vals[ef].len()));
        } else if sf < i && i < ef {
            out.push(Vec::new());
        } else {
            out.push(copy_chars(&vals[i]));
        }
        i += 1;
    }
    proof {
        assert(rows(out@) =~= deleted_span(v, sf as int, sc as int, ef as int, ec as int));
    }
    out
}

/// The text of the span of `delete_span`, as its lines.
pub fn span_lines(vals: &Vec<Vec<char>>, sf: usize, sc: usize, ef: usize, ec: usize) -> (res: Vec<
    Vec<char>,
>)
    requires
        sf <= ef < vals@.len(),
        sc <= vals@[sf as int]@.len(),
        ec <= vals@[ef as int]@.len(),
        sf == ef ==> sc <= ec,
    ensures
        rows(res@) == span_text(rows(vals@), sf as int, sc as int, ef as int, ec as int),
{
    let ghost v = rows(vals@);
    let mut out: Vec<Vec<char>> = Vec::new();
    if sf == ef {
        out.push(sub_chars(&vals[sf], sc, ec));
        proof {
            assert(rows(out@) =~= span_text(v, sf as int, sc as int, ef as int, ec as int));
        }
        return out;
    }
    out.push(sub_chars(&vals[sf], sc, vals[sf].len()));
    let mut i: usize = sf + 1;
    while i < ef
        invariant
            v == rows(vals@),
            sf < ef < vals@.len(),
            sf + 1 <= i <= ef,
            sc <= v[sf as int].len(),
            out@.len() == i - sf,
            out@[0]@ == v[sf as int].skip(sc as int),
            forall|k: int| 1 <= k < out@.len() ==> (#[trigger] out@[k])@ == v[sf + k],
        decreases ef - i,
    {
        out.push(copy_chars(&vals[i]));
        i += 1;
    }
    out.push(sub_chars(&vals[ef], 0, ec));
    proof {
        assert(rows(out@) =~= span_text(v, sf as int, sc as int, ef as int, ec as int));
    }
    out
}

} // verus!
