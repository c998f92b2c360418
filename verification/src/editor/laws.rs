//! Properties that relate several editing operations: undo and redo undo
//! each other, an edit is undone in one step, typing runs share a step,
//! the history stays within its limit, and the fixed-field operations keep
//! every field in its place.
use vstd::prelude::*;

use crate::data_provider::DataProvider;
use crate::editor::engine::EditorCore;
use crate::editor::history::{push_bounded, EditKind};
use crate::editor::rows::{cleared_rows, deleted_span, inserted_rows, written_rows};

verus! {

/// The newest element of a bounded push is the pushed one, when the bound
/// leaves room for one element.
proof fn lemma_push_bounded_last<T>(s: Seq<T>, x: T, limit: nat)
    requires
        limit > 0,
        s.len() <= limit,
    ensures
        push_bounded(s, x, limit).len() > 0,
        push_bounded(s, x, limit).last() == x,
        push_bounded(s, x, limit).drop_last() == if s.len() + 1 > limit {
            s.drop_first()
        } else {
            s
        },
{
    let t = s.push(x);
    if s.len() + 1 > limit {
        assert(t.drop_first().drop_last() =~= s.drop_first());
    } else {
        assert(t.drop_last() =~= s);
    }
}

/// Redoing right after an undo brings back the state before the undo, and
/// the redo stack is as it was.
pub proof fn lemma_redo_after_undo<D: DataProvider>(
    before: EditorCore<D>,
    undone: EditorCore<D>,
    redone: EditorCore<D>,
)
    requires
        undone.undone(before),
        redone.redone(undone),
    ensures
        redone.checkpoint() == before.checkpoint(),
        redone.history().redo_view() == before.history().redo_view(),
        redone.mode_of() == before.mode_of(),
{
    assert(undone.history().redo_view().drop_last() =~= before.history().redo_view());
}

/// Undoing right after a redo brings back the state before the redo, and
/// the redo stack is as it was, when the history keeps at least one step.
pub proof fn lemma_undo_after_redo<D: DataProvider>(
    before: EditorCore<D>,
    redone: EditorCore<D>,
    undone: EditorCore<D>,
)
    requires
        before.wf(),
        before.history().limit_view() > 0,
        redone.redone(before),
        undone.undone(redone),
    ensures
        undone.checkpoint() == before.checkpoint(),
        undone.history().redo_view() == before.history().redo_view(),
        undone.mode_of() == before.mode_of(),
{
    lemma_push_bounded_last(
        before.history().undo_view(),
        before.checkpoint(),
        before.history().limit_view(),
    );
    assert(redone.history().redo_view().push(redone.checkpoint()).drop_last()
        =~= redone.history().redo_view());
    assert(before.history().redo_view().drop_last().push(before.history().redo_view().last())
        =~= before.history().redo_view());
}

/// An edit that opens a new undo step (any edit but one that continues a
/// typing run) is undone by one undo, when the history keeps at least one
/// step: the values, current field and cursor before the edit come back.
pub proof fn lemma_undo_reverts_edit<D: DataProvider>(
    before: EditorCore<D>,
    kind: EditKind,
    values: Seq<Seq<char>>,
    col: nat,
    edited: EditorCore<D>,
    undone: EditorCore<D>,
)
    requires
        before.wf(),
        before.history().limit_view() > 0,
        !before.history().coalesces(kind),
        edited.edited(before, kind, values, col),
        undone.undone(edited),
    ensures
        undone.checkpoint() == before.checkpoint(),
        undone.values() == before.values(),
        undone.field_idx() == before.field_idx(),
        undone.cursor_at() == before.cursor_at(),
{
    lemma_push_bounded_last(
        before.history().undo_view(),
        before.checkpoint(),
        before.history().limit_view(),
    );
}

/// A change recorded as one step (the fixed-field operations of a form) is
/// undone by one undo, when the history keeps at least one step.
pub proof fn lemma_undo_reverts_commit<D: DataProvider>(
    before: EditorCore<D>,
    values: Seq<Seq<char>>,
    field: nat,
    col: nat,
    changed: EditorCore<D>,
    undone: EditorCore<D>,
)
    requires
        before.wf(),
        before.history().limit_view() > 0,
        changed.committed(before, values, field, col),
        undone.undone(changed),
    ensures
        undone.checkpoint() == before.checkpoint(),
{
    lemma_push_bounded_last(
        before.history().undo_view(),
        before.checkpoint(),
        before.history().limit_view(),
    );
}

/// Consecutive insertions (and consecutive deletions) share one undo step:
/// an edit that continues the open run adds no step.
pub proof fn lemma_typing_run_coalesces<D: DataProvider>(
    before: EditorCore<D>,
    kind: EditKind,
    values: Seq<Seq<char>>,
    col: nat,
    edited: EditorCore<D>,
)
    requires
        kind == EditKind::Insert || kind == EditKind::Delete,
        before.history().last_view() == kind,
        edited.edited(before, kind, values, col),
    ensures
        edited.history().undo_view() == before.history().undo_view(),
{
}

/// A well-formed editor keeps at most its limit of undo steps.
pub proof fn lemma_history_bounded<D: DataProvider>(e: EditorCore<D>)
    requires
        e.wf(),
    ensures
        e.history().undo_view().len() <= e.history().limit_view(),
{
}

/// The fixed-field operations never add or remove a field.
pub proof fn lemma_row_ops_keep_field_count(
    vals: Seq<Seq<char>>,
    a: int,
    b: int,
    c: int,
    d: int,
    lines: Seq<Seq<char>>,
)
    ensures
        cleared_rows(vals, a, b).len() == vals.len(),
        written_rows(vals, a, lines).len() == vals.len(),
        inserted_rows(vals, a, b, lines).len() == vals.len(),
        deleted_span(vals, a, b, c, d).len() == vals.len(),
{
}

/// Text inserted across fields keeps what stood before the column in the
/// first field and what stood after it at the end of the last line, and
/// leaves every other field as it was.
pub proof fn lemma_insert_keeps_both_sides(vals: Seq<Seq<char>>, field: int, col: int, parts: Seq<Seq<char>>)
    requires
        0 <= field < vals.len(),
        0 <= col <= vals[field].len(),
        parts.len() > 0,
        field + parts.len() <= vals.len(),
    ensures
        inserted_rows(vals, field, col, parts)[field].take(col) == vals[field].take(col),
        inserted_rows(vals, field, col, parts)[field + parts.len() - 1] == (if parts.len() == 1 {
            vals[field].take(col)
        } else {
            Seq::empty()
        }) + parts.last() + vals[field].skip(col),
        forall|i: int|
            0 <= i < vals.len() && !(field <= i < field + parts.len()) ==> #[trigger] inserted_rows(
                vals,
                field,
                col,
                parts,
            )[i] == vals[i],
{
    let r = inserted_rows(vals, field, col, parts);
    let first = r[field];
    assert(first.take(col) =~= vals[field].take(col));
}

/// Deleting a span that crosses fields keeps the text before it in its
/// first field and the text after it in its last field, empties only the
/// fields between, and leaves the others as they were.
pub proof fn lemma_span_delete_keeps_fields(vals: Seq<Seq<char>>, sf: int, sc: int, ef: int, ec: int)
    requires
        0 <= sf < ef < vals.len(),
        0 <= sc <= vals[sf].len(),
        0 <= ec <= vals[ef].len(),
    ensures
        deleted_span(vals, sf, sc, ef, ec)[sf] == vals[sf].take(sc),
        deleted_span(vals, sf, sc, ef, ec)[ef] == vals[ef].skip(ec),
        forall|i: int|
            0 <= i < vals.len() && (i < sf || i > ef) ==> #[trigger] deleted_span(
                vals,
                sf,
                sc,
                ef,
                ec,
            )[i] == vals[i],
{
    assert(deleted_span(vals, sf, sc, ef, ec)[sf] =~= vals[sf].take(sc));
}

} // verus!
