//! Keybinding actions on a form of fixed fields: vim operators, helix
//! selections, yanking and pasting. None of them adds, removes or
//! reorders a field.
use vstd::prelude::*;

use crate::data_provider::DataProvider;
use crate::editor::behavior::{
    lines_of, KeybindingParadigm, PendingOperator, SelectionState, VimOperator, YankRegister,
};
use crate::editor::engine::{max_cursor, recorded_undo, splice, EditorCore};
use crate::editor::history::EditKind;
use crate::editor::rows::{
    clear_rows, cleared_rows, delete_span, deleted_span, insert_rows, inserted_end, inserted_rows,
    repeat_rows, repeat_text, repeated_rows, repeated_text, row_range, rows, span_lines, span_text,
    write_rows, written_rows,
};
use crate::editor::words::{word_motion, word_motion_target, WordTarget};
use crate::keybindings::builtin::preset_paradigm;
use crate::keybindings::{BuiltinCanvasKeybindingPreset, CanvasKeyAction, KeyEventOutcome};
use crate::modes::AppMode;
use crate::text::chars_of;
use crate::textform::state::TextFormState;

verus! {

/// How a form handles an action: through the shared editing engine, by
/// its own fixed-field logic, as a structural change that a form of fixed
/// fields leaves undone, or not at all.
#[derive(Debug, Clone, Copy, PartialEq, Eq, Structural)]
pub enum TextFormActionPolicy {
    SharedCore,
    ProductHandled,
    StructuralNoOp,
    Unsupported,
}

/// The policy of each action.
pub open spec fn policy_of(a: CanvasKeyAction) -> TextFormActionPolicy {
    match a {
        CanvasKeyAction::MoveLeft
        | CanvasKeyAction::MoveRight
        | CanvasKeyAction::MoveUp
        | CanvasKeyAction::MoveDown
        | CanvasKeyAction::MoveLineStart
        | CanvasKeyAction::MoveLineEnd
        | CanvasKeyAction::MoveHalfPageUp
        | CanvasKeyAction::MoveHalfPageDown
        | CanvasKeyAction::MoveFirstLine
        | CanvasKeyAction::MoveLastLine
        | CanvasKeyAction::MoveWordNext
        | CanvasKeyAction::MoveWordPrev
        | CanvasKeyAction::MoveWordEnd
        | CanvasKeyAction::MoveWordEndPrev
        | CanvasKeyAction::MoveBigWordNext
        | CanvasKeyAction::MoveBigWordPrev
        | CanvasKeyAction::MoveBigWordEnd
        | CanvasKeyAction::MoveBigWordEndPrev
        | CanvasKeyAction::DeleteCharBackward
        | CanvasKeyAction::DeleteCharForward
        | CanvasKeyAction::Undo
        | CanvasKeyAction::Redo
        | CanvasKeyAction::OpenSuggestions
        | CanvasKeyAction::ApplySuggestion
        | CanvasKeyAction::SuggestionDown
        | CanvasKeyAction::SuggestionUp
        | CanvasKeyAction::EnterEditModeBefore
        | CanvasKeyAction::EnterEditModeAfter
        | CanvasKeyAction::ExitEditMode
        | CanvasKeyAction::EnterHighlightMode
        | CanvasKeyAction::EnterHighlightModeLinewise
        | CanvasKeyAction::ExitHighlightMode => TextFormActionPolicy::SharedCore,
        CanvasKeyAction::NextField
        | CanvasKeyAction::PrevField
        | CanvasKeyAction::OpenLineBelow
        | CanvasKeyAction::OpenLineAbove
        | CanvasKeyAction::EnterEditModeLineStart
        | CanvasKeyAction::EnterEditModeLineEnd
        | CanvasKeyAction::DeleteLine
        | CanvasKeyAction::DeleteToLineEnd
        | CanvasKeyAction::ChangeLine
        | CanvasKeyAction::ChangeToLineEnd
        | CanvasKeyAction::OperatorDelete
        | CanvasKeyAction::OperatorChange
        | CanvasKeyAction::OperatorYank
        | CanvasKeyAction::YankLine
        | CanvasKeyAction::CopyLine
        | CanvasKeyAction::CutLine
        | CanvasKeyAction::PasteAfter
        | CanvasKeyAction::PasteBefore
        | CanvasKeyAction::DeleteSelection
        | CanvasKeyAction::DeleteSelectionNoYank
        | CanvasKeyAction::ChangeSelection
        | CanvasKeyAction::ChangeSelectionNoYank
        | CanvasKeyAction::YankSelection
        | CanvasKeyAction::CollapseSelection
        | CanvasKeyAction::ExtendLineBelow
        | CanvasKeyAction::ExtendToLineBounds => TextFormActionPolicy::ProductHandled,
        CanvasKeyAction::JoinLineBelow
        | CanvasKeyAction::MoveLineUp
        | CanvasKeyAction::MoveLineDown
        | CanvasKeyAction::DuplicateLineUp
        | CanvasKeyAction::DuplicateLineDown => TextFormActionPolicy::StructuralNoOp,
        CanvasKeyAction::EnterDecider
        | CanvasKeyAction::Exit
        | CanvasKeyAction::SearchNext
        | CanvasKeyAction::SearchPrev
        | CanvasKeyAction::SelectAll
        | CanvasKeyAction::FlipSelections
        | CanvasKeyAction::SwitchCase
        | CanvasKeyAction::SwitchToLowercase
        | CanvasKeyAction::SwitchToUppercase
        | CanvasKeyAction::TrimSelections
        | CanvasKeyAction::GotoFirstNonWhitespace
        | CanvasKeyAction::MovePageUp
        | CanvasKeyAction::MovePageDown
        | CanvasKeyAction::SearchSelection
        | CanvasKeyAction::EnsureSelectionForward
        | CanvasKeyAction::MatchBrackets
        | CanvasKeyAction::IndentSelection
        | CanvasKeyAction::UnindentSelection
        | CanvasKeyAction::IncrementNumber
        | CanvasKeyAction::DecrementNumber
        | CanvasKeyAction::FindNextChar
        | CanvasKeyAction::FindPrevChar
        | CanvasKeyAction::TillNextChar
        | CanvasKeyAction::TillPrevChar
        | CanvasKeyAction::ReplaceChar
        | CanvasKeyAction::RepeatLastFind
        | CanvasKeyAction::RepeatLastFindReverse
        | CanvasKeyAction::SurroundAdd
        | CanvasKeyAction::SurroundDelete
        | CanvasKeyAction::SurroundReplace
        | CanvasKeyAction::DeleteWordBackward
        | CanvasKeyAction::DeleteToLineStart
        | CanvasKeyAction::DeleteWordForward
        | CanvasKeyAction::ClearSearch
        | CanvasKeyAction::SelectLeft
        | CanvasKeyAction::SelectRight
        | CanvasKeyAction::SelectUp
        | CanvasKeyAction::SelectDown
        | CanvasKeyAction::SelectWordPrev
        | CanvasKeyAction::SelectWordNext
        | CanvasKeyAction::SelectLineStart
        | CanvasKeyAction::SelectLineEnd
        | CanvasKeyAction::SelectDocStart
        | CanvasKeyAction::SelectDocEnd
        | CanvasKeyAction::Unknown(_) => TextFormActionPolicy::Unsupported,
    }
}

/// The policy of `action`.
pub fn textform_action_policy(action: &CanvasKeyAction) -> (res: TextFormActionPolicy)
    ensures
        res == policy_of(*action),
{
    match action {
        CanvasKeyAction::MoveLeft
        | CanvasKeyAction::MoveRight
        | CanvasKeyAction::MoveUp
        | CanvasKeyAction::MoveDown
        | CanvasKeyAction::MoveLineStart
        | CanvasKeyAction::MoveLineEnd
        | CanvasKeyAction::MoveHalfPageUp
        | CanvasKeyAction::MoveHalfPageDown
        | CanvasKeyAction::MoveFirstLine
        | CanvasKeyAction::MoveLastLine
        | CanvasKeyAction::MoveWordNext
        | CanvasKeyAction::MoveWordPrev
        | CanvasKeyAction::MoveWordEnd
        | CanvasKeyAction::MoveWordEndPrev
        | CanvasKeyAction::MoveBigWordNext
        | CanvasKeyAction::MoveBigWordPrev
        | CanvasKeyAction::MoveBigWordEnd
        | CanvasKeyAction::MoveBigWordEndPrev
        | CanvasKeyAction::DeleteCharBackward
        | CanvasKeyAction::DeleteCharForward
        | CanvasKeyAction::Undo
        | CanvasKeyAction::Redo
        | CanvasKeyAction::OpenSuggestions
        | CanvasKeyAction::ApplySuggestion
        | CanvasKeyAction::SuggestionDown
        | CanvasKeyAction::SuggestionUp
        | CanvasKeyAction::EnterEditModeBefore
        | CanvasKeyAction::EnterEditModeAfter
        | CanvasKeyAction::ExitEditMode
        | CanvasKeyAction::EnterHighlightMode
        | CanvasKeyAction::EnterHighlightModeLinewise
        | CanvasKeyAction::ExitHighlightMode => TextFormActionPolicy::SharedCore,
        CanvasKeyAction::NextField
        | CanvasKeyAction::PrevField
        | CanvasKeyAction::OpenLineBelow
        | CanvasKeyAction::OpenLineAbove
        | CanvasKeyAction::EnterEditModeLineStart
        | CanvasKeyAction::EnterEditModeLineEnd
        | CanvasKeyAction::DeleteLine
        | CanvasKeyAction::DeleteToLineEnd
        | CanvasKeyAction::ChangeLine
        | CanvasKeyAction::ChangeToLineEnd
        | CanvasKeyAction::OperatorDelete
        | CanvasKeyAction::OperatorChange
        | CanvasKeyAction::OperatorYank
        | CanvasKeyAction::YankLine
        | CanvasKeyAction::CopyLine
        | CanvasKeyAction::CutLine
        | CanvasKeyAction::PasteAfter
        | CanvasKeyAction::PasteBefore
        | CanvasKeyAction::DeleteSelection
        | CanvasKeyAction::DeleteSelectionNoYank
        | CanvasKeyAction::ChangeSelection
        | CanvasKeyAction::ChangeSelectionNoYank
        | CanvasKeyAction::YankSelection
        | CanvasKeyAction::CollapseSelection
        | CanvasKeyAction::ExtendLineBelow
        | CanvasKeyAction::ExtendToLineBounds => TextFormActionPolicy::ProductHandled,
        CanvasKeyAction::JoinLineBelow
        | CanvasKeyAction::MoveLineUp
        | CanvasKeyAction::MoveLineDown
        | CanvasKeyAction::DuplicateLineUp
        | CanvasKeyAction::DuplicateLineDown => TextFormActionPolicy::StructuralNoOp,
        CanvasKeyAction::EnterDecider
        | CanvasKeyAction::Exit
        | CanvasKeyAction::SearchNext
        | CanvasKeyAction::SearchPrev
        | CanvasKeyAction::SelectAll
        | CanvasKeyAction::FlipSelections
        | CanvasKeyAction::SwitchCase
        | CanvasKeyAction::SwitchToLowercase
        | CanvasKeyAction::SwitchToUppercase
        | CanvasKeyAction::TrimSelections
        | CanvasKeyAction::GotoFirstNonWhitespace
        | CanvasKeyAction::MovePageUp
        | CanvasKeyAction::MovePageDown
        | CanvasKeyAction::SearchSelection
        | CanvasKeyAction::EnsureSelectionForward
        | CanvasKeyAction::MatchBrackets
        | CanvasKeyAction::IndentSelection
        | CanvasKeyAction::UnindentSelection
        | CanvasKeyAction::IncrementNumber
        | CanvasKeyAction::DecrementNumber
        | CanvasKeyAction::FindNextChar
        | CanvasKeyAction::FindPrevChar
        | CanvasKeyAction::TillNextChar
        | CanvasKeyAction::TillPrevChar
        | CanvasKeyAction::ReplaceChar
        | CanvasKeyAction::RepeatLastFind
        | CanvasKeyAction::RepeatLastFindReverse
        | CanvasKeyAction::SurroundAdd
        | CanvasKeyAction::SurroundDelete
        | CanvasKeyAction::SurroundReplace
        | CanvasKeyAction::DeleteWordBackward
        | CanvasKeyAction::DeleteToLineStart
        | CanvasKeyAction::DeleteWordForward
        | CanvasKeyAction::ClearSearch
        | CanvasKeyAction::SelectLeft
        | CanvasKeyAction::SelectRight
        | CanvasKeyAction::SelectUp
        | CanvasKeyAction::SelectDown
        | CanvasKeyAction::SelectWordPrev
        | CanvasKeyAction::SelectWordNext
        | CanvasKeyAction::SelectLineStart
        | CanvasKeyAction::SelectLineEnd
        | CanvasKeyAction::SelectDocStart
        | CanvasKeyAction::SelectDocEnd
        | CanvasKeyAction::Unknown(_) => TextFormActionPolicy::Unsupported,
    }
}

/// The register holds the lines `lines`, as whole lines.
pub open spec fn holds_lines(r: Option<YankRegister>, lines: Seq<Seq<char>>) -> bool {
    r matches Some(YankRegister::Lines(v)) && rows(v@) == lines
}

/// The register holds the text `lines` (given as its lines).
pub open spec fn holds_text(r: Option<YankRegister>, lines: Seq<Seq<char>>) -> bool {
    r matches Some(YankRegister::Text(v)) && rows(v@) == lines
}

/// The last field of a span of `count` fields (at least one) from `start`,
/// among `n` fields.
pub open spec fn span_end(start: int, count: int, n: int) -> int {
    let span = if count == 0 {
        1
    } else {
        count
    };
    if start + span - 1 < n - 1 {
        start + span - 1
    } else {
        n - 1
    }
}

/// Validation state, paradigm, history and the pending operator are the
/// same in `new` and `old`.
pub open spec fn same_frame<D: DataProvider>(new: EditorCore<D>, old: EditorCore<D>) -> bool {
    &&& new.history() == old.history()
    &&& new.paradigm_of() == old.paradigm_of()
    &&& new.pending_of() == old.pending_of()
    &&& new.validation_on() == old.validation_on()
    &&& new.configs() == old.configs()
    &&& new.results() == old.results()
    &&& new.externals() == old.externals()
    &&& new.switch_block() == old.switch_block()
}

/// `new` is `old` after one recorded change that left `values`, field
/// `field` current and the cursor at `col`; the mode, the paradigm, the
/// pending operator and the validation state are unchanged.
pub open spec fn changed_to<D: DataProvider>(
    new: EditorCore<D>,
    old: EditorCore<D>,
    values: Seq<Seq<char>>,
    field: int,
    col: int,
) -> bool {
    &&& new.values() == values
    &&& new.field_idx() == field
    &&& new.cursor_at() == col
    &&& new.mode_of() == old.mode_of()
    &&& new.paradigm_of() == old.paradigm_of()
    &&& new.pending_of() == old.pending_of()
    &&& new.validation_on() == old.validation_on()
    &&& new.configs() == old.configs()
    &&& new.results() == old.results()
    &&& new.externals() == old.externals()
    &&& new.switch_block() == old.switch_block()
    &&& new.history().limit_view() == old.history().limit_view()
    &&& new.history().last_view() == EditKind::Other
    &&& new.history().undo_view() == recorded_undo(old.history(), EditKind::Other, old.checkpoint())
    &&& new.history().redo_view().len() == 0
}

/// `(f1, c1)` does not come after `(f2, c2)`.
pub open spec fn pos_le(a: (usize, usize), b: (usize, usize)) -> bool {
    a.0 < b.0 || (a.0 == b.0 && a.1 <= b.1)
}

/// The column `col` clamped to `len`.
pub open spec fn clamp(col: int, len: int) -> int {
    if col <= len {
        col
    } else {
        len
    }
}

/// Where a characterwise paste goes: after (or at) the selection, or after
/// (or at) the cursor.
pub open spec fn text_paste_pos<D: DataProvider>(e: EditorCore<D>, after: bool) -> (int, int) {
    match e.selection_of() {
        SelectionState::Characterwise { anchor } => {
            let cur = (e.field_idx() as usize, e.cursor_at() as usize);
            let first = if pos_le(anchor, cur) {
                anchor
            } else {
                cur
            };
            let last = if pos_le(anchor, cur) {
                cur
            } else {
                anchor
            };
            if after {
                (last.0 as int, last.1 + 1)
            } else {
                (first.0 as int, first.1 as int)
            }
        },
        _ => {
            let len = e.cur_text().len() as int;
            let c = clamp(e.cursor_at() as int, len);
            if after {
                (e.field_idx() as int, clamp(c + 1, len))
            } else {
                (e.field_idx() as int, c)
            }
        },
    }
}

/// The span a helix deletion or yank covers: the characterwise selection
/// (inclusive of its last character), else the character under the
/// cursor; as (first field, first column, last field, column after the
/// span), clamped to the text. `None` for a linewise selection or a
/// selection anchored outside the form.
pub open spec fn char_span<D: DataProvider>(e: EditorCore<D>) -> Option<(int, int, int, int)> {
    let n = e.count() as int;
    let vals = e.values();
    match e.selection_of() {
        SelectionState::Characterwise { anchor } => if anchor.0 < n {
            let cur = (e.field_idx() as usize, e.cursor_at() as usize);
            let first = if pos_le(anchor, cur) {
                anchor
            } else {
                cur
            };
            let last = if pos_le(anchor, cur) {
                cur
            } else {
                anchor
            };
            let sc = clamp(first.1 as int, vals[first.0 as int].len() as int);
            let ec = clamp(last.1 + 1, vals[last.0 as int].len() as int);
            if first.0 == last.0 && ec < sc {
                Some((first.0 as int, sc, last.0 as int, sc))
            } else {
                Some((first.0 as int, sc, last.0 as int, ec))
            }
        } else {
            None
        },
        SelectionState::Linewise { .. } => None,
        SelectionState::Inactive => if n > 0 {
            let c = clamp(e.cursor_at() as int, e.cur_text().len() as int);
            Some(
                (
                    e.field_idx() as int,
                    c,
                    e.field_idx() as int,
                    clamp(c + 1, e.cur_text().len() as int),
                ),
            )
        } else {
            None
        },
    }
}

/// A span is empty when it starts and ends at one place.
pub open spec fn span_empty(s: (int, int, int, int)) -> bool {
    s.0 == s.2 && s.1 == s.3
}

/// The fields a linewise selection covers, when it is anchored inside the
/// form.
pub open spec fn line_span<D: DataProvider>(e: EditorCore<D>) -> Option<(int, int)> {
    match e.selection_of() {
        SelectionState::Linewise { anchor_field } => if anchor_field < e.count() {
            let a = anchor_field as int;
            let c = e.field_idx() as int;
            Some((if a <= c { a } else { c }, if a <= c { c } else { a }))
        } else {
            None
        },
        _ => None,
    }
}

/// Where a helix word selection puts the cursor after `k` motions from
/// column `c`.
pub open spec fn helix_motion(text: Seq<char>, c: int, target: WordTarget, big: bool, max: int, k: nat) -> int
    decreases k,
{
    if k == 0 {
        c
    } else {
        motion_step(text, helix_motion(text, c, target, big, max, (k - 1) as nat), target, big, max)
    }
}

/// One word motion from `t`, clamped to `max`.
#[verifier::opaque]
pub open spec fn motion_step(text: Seq<char>, t: int, target: WordTarget, big: bool, max: int) -> int {
    let u = word_motion_target(text, t, target, big, max);
    if u <= max {
        u
    } else {
        max
    }
}

/// One word motion from `t`, clamped to `max`.
fn motion_step_exec(text: &Vec<char>, t: usize, target: WordTarget, big: bool, max: usize) -> (res: usize)
    ensures
        res == motion_step(text@, t as int, target, big, max as int),
        res <= max,
{
    proof {
        reveal(motion_step);
    }
    let u = word_motion(text, t, target, big, max);
    if u <= max {
        u
    } else {
        max
    }
}

/// The cursor column after a helix word selection: the selection ends just
/// before the start the motion reached, and on the end it reached.
pub open spec fn helix_head<D: DataProvider>(e: EditorCore<D>, count: nat, target: WordTarget, big: bool) -> int {
    let reps: nat = if count == 0 {
        1
    } else {
        count
    };
    let c = e.cursor_at() as int;
    let t = helix_motion(e.cur_text(), c, target, big, e.cur_max() as int, reps);
    if target is NextWordStart && t > c {
        t - 1
    } else {
        t
    }
}

/// The last field of a span, computed without overflow.
fn span_end_exec(start: usize, count: usize, n: usize) -> (res: usize)
    requires
        start < n,
    ensures
        res == span_end(start as int, count as int, n as int),
        start <= res < n,
{
    let span = if count == 0 {
        1
    } else {
        count
    };
    if span - 1 < n - 1 - start {
        start + (span - 1)
    } else {
        n - 1
    }
}

/// `a` does not come after `b` (field first, then column).
fn pos_le_exec(a: (usize, usize), b: (usize, usize)) -> (res: bool)
    ensures
        res == pos_le(a, b),
{
    a.0 < b.0 || (a.0 == b.0 && a.1 <= b.1)
}

impl<D: DataProvider> TextFormState<D> {
    /// Yanks the current field and the `count - 1` after it (at least the
    /// current one), as whole lines; nothing happens without fields.
    pub fn yank_current_and_following_fields(&mut self, count: usize)
        requires
            old(self).wf(),
        ensures
            final(self).engine.names_kept(old(self).engine),
            final(self).wf(),
            old(self).engine.count() == 0 ==> *final(self) == *old(self),
            old(self).engine.count() > 0 ==> holds_lines(
                final(self).engine.register_of(),
                old(self).engine.values().subrange(
                    old(self).engine.field_idx() as int,
                    span_end(
                        old(self).engine.field_idx() as int,
                        count as int,
                        old(self).engine.count() as int,
                    ) + 1,
                ),
            ),
            final(self).engine.values() == old(self).engine.values(),
            final(self).engine.field_idx() == old(self).engine.field_idx(),
            final(self).engine.cursor_at() == old(self).engine.cursor_at(),
            final(self).engine.mode_of() == old(self).engine.mode_of(),
            final(self).engine.selection_of() == old(self).engine.selection_of(),
            same_frame(final(self).engine, old(self).engine),
    {
        let n = self.engine.field_count();
        if n == 0 {
            return;
        }
        let start = self.engine.current_field();
        let end = span_end_exec(start, count, n);
        let vals = self.engine.values_copy();
        let lines = row_range(&vals, start, end);
        self.engine.set_register(Some(YankRegister::Lines(lines)));
    }

    /// Yanks the current field and the `count - 1` after it as whole lines,
    /// then empties them; no field is removed.
    pub fn cut_current_and_following_fields(&mut self, count: usize)
        requires
            old(self).wf(),
        ensures
            final(self).engine.names_kept(old(self).engine),
            final(self).wf(),
            old(self).engine.count() == 0 ==> final(self).engine.values() == old(self).engine.values(),
            old(self).engine.count() > 0 ==> ({
                let cf = old(self).engine.field_idx() as int;
                let end = span_end(cf, count as int, old(self).engine.count() as int);
                &&& holds_lines(
                    final(self).engine.register_of(),
                    old(self).engine.values().subrange(cf, end + 1),
                )
                &&& final(self).engine.values() == cleared_rows(old(self).engine.values(), cf, end)
                &&& final(self).engine.cursor_at() == 0
            }),
            final(self).engine.field_idx() == old(self).engine.field_idx(),
            final(self).engine.mode_of() == old(self).engine.mode_of(),
    {
        self.yank_current_and_following_fields(count);
        self.clear_current_and_following_fields(count);
        proof {
            let n = old(self).engine.count() as int;
            if n > 0 {
                let cf = old(self).engine.field_idx() as int;
                let end = span_end(cf, count as int, n);
                assert(self.engine.values() =~= cleared_rows(old(self).engine.values(), cf, end));
            }
        }
    }
}

/// `new` is `old` after a helix deletion of its selection: the linewise
/// selection's fields are emptied, else the characterwise span (or the
/// character under the cursor) is deleted without merging fields; with
/// `yank` the deleted text goes to the register. Without anything to
/// delete nothing changes.
pub open spec fn selection_deleted<D: DataProvider>(new: EditorCore<D>, old: EditorCore<D>, yank: bool) -> bool {
    match line_span(old) {
        Some((lo, hi)) => {
            &&& changed_to(new, old, cleared_rows(old.values(), lo, hi), lo, 0)
            &&& new.selection_of() == SelectionState::Inactive
            &&& yank ==> holds_lines(new.register_of(), old.values().subrange(lo, hi + 1))
            &&& !yank ==> new.register_of() == old.register_of()
        },
        None => match char_span(old) {
            Some(sp) => if span_empty(sp) {
                new == old
            } else {
                let nv = deleted_span(old.values(), sp.0, sp.1, sp.2, sp.3);
                &&& changed_to(
                    new,
                    old,
                    nv,
                    sp.0,
                    clamp(sp.1, max_cursor(nv[sp.0].len(), old.mode_of()) as int),
                )
                &&& new.selection_of() == SelectionState::Inactive
                &&& yank ==> holds_text(
                    new.register_of(),
                    span_text(old.values(), sp.0, sp.1, sp.2, sp.3),
                )
                &&& !yank ==> new.register_of() == old.register_of()
            },
            None => new == old,
        },
    }
}

/// `new` agrees with some result of `selection_deleted` on `old` in its
/// values, current field, cursor, register, selection and history (its
/// mode may differ).
pub open spec fn deleted_then<D: DataProvider>(new: EditorCore<D>, old: EditorCore<D>, yank: bool) -> bool {
    exists|mid: EditorCore<D>|
        selection_deleted(mid, old, yank) && #[trigger] new.values() == mid.values()
            && new.field_idx() == mid.field_idx() && new.cursor_at() == mid.cursor_at()
            && new.register_of() == mid.register_of() && new.selection_of() == mid.selection_of()
            && new.history() == mid.history()
}

/// Whether a helix deletion finds something to delete.
pub open spec fn has_selection_to_delete<D: DataProvider>(e: EditorCore<D>) -> bool {
    line_span(e) is Some || (char_span(e) matches Some(sp) && !span_empty(sp))
}

/// `new` is `old` after `n` helix deletions, each of which found something
/// to delete.
pub open spec fn deletion_run<D: DataProvider>(new: EditorCore<D>, old: EditorCore<D>, yank: bool, n: nat) -> bool
    decreases n,
{
    if n == 0 {
        new == old
    } else {
        exists|mid: EditorCore<D>|
            deletion_run(mid, old, yank, (n - 1) as nat) && has_selection_to_delete(mid)
                && #[trigger] selection_deleted(new, mid, yank)
    }
}

/// `new` is what repeating the helix deletion up to `reps` times makes of
/// `old`: the repetition stops after a deletion that found nothing.
pub open spec fn deletion_done<D: DataProvider>(new: EditorCore<D>, old: EditorCore<D>, yank: bool, reps: nat) -> bool {
    ||| deletion_run(new, old, yank, reps)
    ||| exists|n: nat, mid: EditorCore<D>|
        n < reps && #[trigger] deletion_run(mid, old, yank, n) && !has_selection_to_delete(mid)
            && #[trigger] selection_deleted(new, mid, yank)
}

/// `new` agrees with what `deletion_done` makes of `old`, but for the mode.
pub open spec fn deleted_then_n<D: DataProvider>(new: EditorCore<D>, old: EditorCore<D>, yank: bool, reps: nat) -> bool {
    exists|mid: EditorCore<D>|
        deletion_done(mid, old, yank, reps) && #[trigger] new.values() == mid.values()
            && new.field_idx() == mid.field_idx() && new.cursor_at() == mid.cursor_at()
            && new.register_of() == mid.register_of() && new.selection_of() == mid.selection_of()
            && new.history() == mid.history()
}

impl<D: DataProvider> TextFormState<D> {
    /// The linewise selection's fields, when it is anchored in the form.
    fn line_span_exec(&self) -> (res: Option<(usize, usize)>)
        requires
            self.wf(),
        ensures
            match line_span(self.engine) {
                Some((lo, hi)) => (res matches Some((a, b)) && a as int == lo && b as int == hi) && 0 <= lo <= hi
                    < self.engine.count(),
                None => res is None,
            },
    {
        let n = self.engine.field_count();
        match self.engine.selection() {
            SelectionState::Linewise { anchor_field } => {
                if anchor_field < n {
                    let c = self.engine.current_field();
                    if anchor_field <= c {
                        Some((anchor_field, c))
                    } else {
                        Some((c, anchor_field))
                    }
                } else {
                    None
                }
            },
            _ => None,
        }
    }

    /// The characterwise span a deletion or yank covers.
    fn char_span_exec(&self) -> (res: Option<(usize, usize, usize, usize)>)
        requires
            self.wf(),
        ensures
            match char_span(self.engine) {
                Some(sp) => (res matches Some((a, b, c, d)) && a as int == sp.0 && b as int == sp.1
                    && c as int == sp.2 && d as int == sp.3) && 0 <= sp.0 <= sp.2 < self.engine.count() && 0 <= sp.1 <= self.engine.values()[sp.0].len()
                    && 0 <= sp.3 <= self.engine.values()[sp.2].len() && (sp.0 == sp.2 ==> sp.1 <= sp.3),
                None => res is None,
            },
    {
        let n = self.engine.field_count();
        let cf = self.engine.current_field();
        let c = self.engine.cursor_position();
        match self.engine.selection() {
            SelectionState::Characterwise { anchor } => {
                if anchor.0 >= n {
                    return None;
                }
                let cur = (cf, c);
                let le = pos_le_exec(anchor, cur);
                let first = if le {
                    anchor
                } else {
                    cur
                };
                let last = if le {
                    cur
                } else {
                    anchor
                };
                let flen = self.engine.field_value(first.0).unicode_len();
                let llen = self.engine.field_value(last.0).unicode_len();
                let sc = if first.1 <= flen {
                    first.1
                } else {
                    flen
                };
                let ec = if last.1 < llen {
                    last.1 + 1
                } else {
                    llen
                };
                if first.0 == last.0 && ec < sc {
                    Some((first.0, sc, last.0, sc))
                } else {
                    Some((first.0, sc, last.0, ec))
                }
            },
            SelectionState::Linewise { .. } => None,
            SelectionState::Inactive => {
                if n == 0 {
                    return None;
                }
                let len = self.engine.current_text().unicode_len();
                let col = if c <= len {
                    c
                } else {
                    len
                };
                let end = if col < len {
                    col + 1
                } else {
                    len
                };
                Some((cf, col, cf, end))
            },
        }
    }

    /// Deletes the selection once (see `selection_deleted`); returns
    /// whether there was something to delete.
    pub fn delete_selection_once(&mut self, yank: bool) -> (res: bool)
        requires
            old(self).wf(),
        ensures
            final(self).engine.names_kept(old(self).engine),
            final(self).wf(),
            res == has_selection_to_delete(old(self).engine),
            selection_deleted(final(self).engine, old(self).engine, yank),
    {
        let mode = self.engine.mode();
        if let Some((lo, hi)) = self.line_span_exec() {
            let vals = self.engine.values_copy();
            if yank {
                let lines = row_range(&vals, lo, hi);
                self.engine.set_register(Some(YankRegister::Lines(lines)));
            }
            let nv = clear_rows(&vals, lo, hi);
            proof {
                assert(nv@.len() == rows(nv@).len());
                assert(vals@.len() == rows(vals@).len());
            }
            self.engine.set_selection(SelectionState::Inactive);
            self.engine.commit_values(nv, lo, 0);
            return true;
        }
        match self.char_span_exec() {
            Some((sf, sc, ef, ec)) => {
                if sf == ef && sc == ec {
                    return false;
                }
                let vals = self.engine.values_copy();
                if yank {
                    let lines = span_lines(&vals, sf, sc, ef, ec);
                    self.engine.set_register(Some(YankRegister::Text(lines)));
                }
                let nv = delete_span(&vals, sf, sc, ef, ec);
                proof {
                    assert(nv@.len() == rows(nv@).len());
                    assert(vals@.len() == rows(vals@).len());
                    assert(rows(nv@)[sf as int] == nv@[sf as int]@);
                }
                let len = nv[sf].len();
                let max = if mode == AppMode::Ins || len == 0 {
                    len
                } else {
                    len - 1
                };
                let col = if sc <= max {
                    sc
                } else {
                    max
                };
                self.engine.set_selection(SelectionState::Inactive);
                self.engine.commit_values(nv, sf, col);
                true
            },
            None => false,
        }
    }
}

/// `new` is `old` after pasting the register `count` times (`after`:
/// after the cursor or selection, else before it): whole lines overwrite
/// the fields from the one after (or at) the current field, dropping those
/// past the last field, with the cursor at the start of the first; text is
/// inserted as by `inserted_rows`, with the cursor after it. With nothing
/// to paste, or no place for it, nothing changes. The selection collapses.
pub open spec fn register_pasted<D: DataProvider>(new: EditorCore<D>, old: EditorCore<D>, after: bool, count: nat) -> bool {
    let n = old.count() as int;
    let vals = old.values();
    let cf = old.field_idx() as int;
    match old.register_of() {
        None => new == old,
        Some(YankRegister::Lines(v)) => {
            let rep = repeated_rows(rows(v@), count);
            let start = if after {
                cf + 1
            } else {
                cf
            };
            if start >= n || rep.len() == 0 {
                new == old
            } else {
                &&& changed_to(new, old, written_rows(vals, start, rep), start, 0)
                &&& new.selection_of() == SelectionState::Inactive
                &&& new.register_of() == old.register_of()
            }
        },
        Some(YankRegister::Text(v)) => {
            let text = repeated_text(rows(v@), count);
            let pos = text_paste_pos(old, after);
            if text.len() == 0 || pos.0 >= n {
                new == old
            } else {
                let col = clamp(pos.1, vals[pos.0].len() as int);
                let nv = inserted_rows(vals, pos.0, col, text);
                let end = inserted_end(vals, pos.0, col, text);
                &&& changed_to(
                    new,
                    old,
                    nv,
                    end.0,
                    clamp(end.1, max_cursor(nv[end.0].len(), old.mode_of()) as int),
                )
                &&& new.selection_of() == SelectionState::Inactive
                &&& new.register_of() == old.register_of()
            }
        },
    }
}

impl<D: DataProvider> TextFormState<D> {
    /// Where a characterwise paste goes, when that field exists: the field
    /// and the column clamped to its text.
    fn text_paste_at(&self, after: bool) -> (res: Option<(usize, usize)>)
        requires
            self.wf(),
        ensures
            text_paste_pos(self.engine, after).0 < self.engine.count() ==> (res matches Some((f, c))
                && f as int == text_paste_pos(self.engine, after).0 && c as int == clamp(
                text_paste_pos(self.engine, after).1,
                self.engine.values()[f as int].len() as int,
            )),
            text_paste_pos(self.engine, after).0 >= self.engine.count() ==> res is None,
    {
        let n = self.engine.field_count();
        let cf = self.engine.current_field();
        let c = self.engine.cursor_position();
        let (f, col, plus) = match self.engine.selection() {
            SelectionState::Characterwise { anchor } => {
                let cur = (cf, c);
                let le = pos_le_exec(anchor, cur);
                if after {
                    if le {
                        (cur.0, cur.1, true)
                    } else {
                        (anchor.0, anchor.1, true)
                    }
                } else if le {
                    (anchor.0, anchor.1, false)
                } else {
                    (cur.0, cur.1, false)
                }
            },
            _ => {
                if n == 0 {
                    return None;
                }
                let len = self.engine.current_text().unicode_len();
                let cc = if c <= len {
                    c
                } else {
                    len
                };
                (cf, cc, after)
            },
        };
        if f >= n {
            return None;
        }
        let len = self.engine.field_value(f).unicode_len();
        let col = if plus {
            if col < len {
                col + 1
            } else {
                len
            }
        } else if col <= len {
            col
        } else {
            len
        };
        Some((f, col))
    }

    /// Pastes the register `count` times; see `register_pasted`.
    pub fn paste_register(&mut self, after: bool, count: usize)
        requires
            old(self).wf(),
        ensures
            final(self).engine.names_kept(old(self).engine),
            final(self).wf(),
            register_pasted(final(self).engine, old(self).engine, after, count as nat),
    {
        let n = self.engine.field_count();
        let reg = self.engine.register_copy();
        let (linewise, lines) = match reg {
            None => {
                return;
            },
            Some(r) => r,
        };
        let vals = self.engine.values_copy();
        proof {
            assert(vals@.len() == rows(vals@).len());
        }
        if linewise {
            let rep = repeat_rows(&lines, count);
            let cf = self.engine.current_field();
            if rep.len() == 0 {
                proof {
                    assert(rows(rep@).len() == rep@.len());
                }
                return;
            }
            let start = if after {
                cf + 1
            } else {
                cf
            };
            if start >= n {
                return;
            }
            let nv = write_rows(&vals, start, &rep);
            proof {
                assert(nv@.len() == rows(nv@).len());
                assert(rows(rep@).len() == rep@.len());
            }
            self.engine.set_selection(SelectionState::Inactive);
            self.engine.commit_values(nv, start, 0);
        } else {
            let text = repeat_text(&lines, count);
            proof {
                assert(rows(text@).len() == text@.len());
            }
            if text.len() == 0 {
                return;
            }
            let (f, col) = match self.text_paste_at(after) {
                None => {
                    return;
                },
                Some(p) => p,
            };
            proof {
                assert(rows(vals@)[f as int] == vals@[f as int]@);
            }
            let (nv, tf, tc) = insert_rows(&vals, f, col, &text);
            proof {
                assert(nv@.len() == rows(nv@).len());
                assert(rows(nv@)[tf as int] == nv@[tf as int]@);
            }
            let len = nv[tf].len();
            let max = if self.engine.mode() == AppMode::Ins || len == 0 {
                len
            } else {
                len - 1
            };
            let c = if tc <= max {
                tc
            } else {
                max
            };
            self.engine.set_selection(SelectionState::Inactive);
            self.engine.commit_values(nv, tf, c);
        }
    }
}

/// The text a helix yank takes: the linewise selection's fields as whole
/// lines, else the characterwise span (or the character under the cursor)
/// as text; nothing when there is nothing to take.
pub open spec fn selection_yanked<D: DataProvider>(new: EditorCore<D>, old: EditorCore<D>) -> bool {
    match line_span(old) {
        Some((lo, hi)) => holds_lines(new.register_of(), old.values().subrange(lo, hi + 1)),
        None => match char_span(old) {
            Some(sp) => if span_empty(sp) {
                new.register_of() == old.register_of()
            } else {
                holds_text(new.register_of(), span_text(old.values(), sp.0, sp.1, sp.2, sp.3))
            },
            None => new.register_of() == old.register_of(),
        },
    }
}

impl<D: DataProvider> TextFormState<D> {
    /// Helix word motion: selects from the cursor to where the motion
    /// (repeated `count` times, at least once) leads; a motion to the next
    /// start stops just before it.
    pub fn select_word_motion(&mut self, count: usize, target: WordTarget, big: bool)
        requires
            old(self).wf(),
        ensures
            final(self).engine.names_kept(old(self).engine),
            final(self).wf(),
            final(self).engine.values() == old(self).engine.values(),
            final(self).engine.field_idx() == old(self).engine.field_idx(),
            final(self).engine.mode_of() == old(self).engine.mode_of(),
            final(self).engine.cursor_at() == helix_head(old(self).engine, count as nat, target, big),
            final(self).engine.selection_of() == (SelectionState::Characterwise {
                anchor: (old(self).engine.field_idx() as usize, old(self).engine.cursor_at() as usize),
            }),
            final(self).engine.register_of() == old(self).engine.register_of(),
            final(self).engine.run_closed(old(self).engine),
            final(self).engine.paradigm_of() == old(self).engine.paradigm_of(),
            final(self).engine.pending_of() == old(self).engine.pending_of(),
    {
        let cf = self.engine.current_field();
        let c = self.engine.cursor_position();
        let text = chars_of(self.engine.current_text());
        let len = text.len();
        let max = if self.engine.mode() == AppMode::Ins || len == 0 {
            len
        } else {
            len - 1
        };
        let reps = if count == 0 {
            1
        } else {
            count
        };
        let mut t = c;
        let mut k: usize = 0;
        while k < reps
            invariant
                k <= reps,
                c <= len,
                max <= len,
                t == helix_motion(text@, c as int, target, big, max as int, k as nat),
                t <= len,
            decreases reps - k,
        {
            t = motion_step_exec(&text, t, target, big, max);
            k += 1;
        }
        let head = if matches!(target, WordTarget::NextWordStart) && t > c {
            t - 1
        } else {
            t
        };
        self.engine.set_cursor_raw(head);
        self.engine.set_selection(SelectionState::Characterwise { anchor: (cf, c) });
    }

    /// Helix `x`: selects the current field as a whole line; with a
    /// linewise selection already, extends it to the next field (at the
    /// last field nothing changes).
    pub fn extend_line_below(&mut self)
        requires
            old(self).wf(),
        ensures
            final(self).engine.names_kept(old(self).engine),
            final(self).wf(),
            final(self).engine.values() == old(self).engine.values(),
            final(self).engine.mode_of() == old(self).engine.mode_of(),
            final(self).engine.register_of() == old(self).engine.register_of(),
            old(self).engine.selection_of() is Linewise && old(self).engine.field_idx() + 1
                < old(self).engine.count() ==> final(self).engine.field_idx()
                == old(self).engine.field_idx() + 1 && final(self).engine.cursor_at() == 0
                && final(self).engine.selection_of() == old(self).engine.selection_of(),
            old(self).engine.selection_of() is Linewise && old(self).engine.field_idx() + 1
                >= old(self).engine.count() ==> *final(self) == *old(self),
            !(old(self).engine.selection_of() is Linewise) ==> final(self).engine.selection_of() == (
            SelectionState::Linewise { anchor_field: old(self).engine.field_idx() as usize })
                && final(self).engine.field_idx() == old(self).engine.field_idx()
                && final(self).engine.cursor_at() == old(self).engine.cursor_at(),
            final(self).engine.paradigm_of() == old(self).engine.paradigm_of(),
            final(self).engine.pending_of() == old(self).engine.pending_of(),
    {
        let n = self.engine.field_count();
        let cf = self.engine.current_field();
        match self.engine.selection() {
            SelectionState::Linewise { .. } => {
                if cf + 1 < n {
                    self.engine.place_cursor(cf + 1, 0);
                }
            },
            _ => {
                self.engine.set_selection(SelectionState::Linewise { anchor_field: cf });
            },
        }
    }

    /// Helix: selects the current field as a whole line.
    pub fn extend_to_line_bounds(&mut self)
        requires
            old(self).wf(),
        ensures
            final(self).engine.names_kept(old(self).engine),
            final(self).wf(),
            final(self).engine.selection_of() == (SelectionState::Linewise {
                anchor_field: old(self).engine.field_idx() as usize,
            }),
            final(self).engine.values() == old(self).engine.values(),
            final(self).engine.field_idx() == old(self).engine.field_idx(),
            final(self).engine.cursor_at() == old(self).engine.cursor_at(),
            final(self).engine.mode_of() == old(self).engine.mode_of(),
            final(self).engine.register_of() == old(self).engine.register_of(),
            same_frame(final(self).engine, old(self).engine),
    {
        let cf = self.engine.current_field();
        self.engine.set_selection(SelectionState::Linewise { anchor_field: cf });
    }

    /// Helix: drops the selection down to the cursor.
    pub fn collapse_selection(&mut self)
        requires
            old(self).wf(),
        ensures
            final(self).engine.names_kept(old(self).engine),
            final(self).wf(),
            final(self).engine.selection_of() == SelectionState::Inactive,
            final(self).engine.values() == old(self).engine.values(),
            final(self).engine.field_idx() == old(self).engine.field_idx(),
            final(self).engine.cursor_at() == old(self).engine.cursor_at(),
            final(self).engine.mode_of() == old(self).engine.mode_of(),
            final(self).engine.register_of() == old(self).engine.register_of(),
            same_frame(final(self).engine, old(self).engine),
    {
        self.engine.set_selection(SelectionState::Inactive);
    }

    /// Helix `y`: yanks the selection (see `selection_yanked`) and leaves
    /// select mode.
    pub fn yank_selection(&mut self)
        requires
            old(self).wf(),
        ensures
            final(self).engine.names_kept(old(self).engine),
            final(self).wf(),
            selection_yanked(final(self).engine, old(self).engine),
            final(self).engine.mode_of() == if old(self).engine.mode_of() == AppMode::Sel {
                AppMode::Nor
            } else {
                old(self).engine.mode_of()
            },
            final(self).engine.values() == old(self).engine.values(),
            final(self).engine.field_idx() == old(self).engine.field_idx(),
            final(self).engine.cursor_at() == old(self).engine.cursor_at(),
            final(self).engine.selection_of() == old(self).engine.selection_of(),
            same_frame(final(self).engine, old(self).engine),
    {
        if let Some((lo, hi)) = self.line_span_exec() {
            let vals = self.engine.values_copy();
            let lines = row_range(&vals, lo, hi);
            self.engine.set_register(Some(YankRegister::Lines(lines)));
        } else {
            match self.char_span_exec() {
                Some((sf, sc, ef, ec)) => {
                    if !(sf == ef && sc == ec) {
                        let vals = self.engine.values_copy();
                        let lines = span_lines(&vals, sf, sc, ef, ec);
                        self.engine.set_register(Some(YankRegister::Text(lines)));
                    }
                },
                None => {},
            }
        }
        self.engine.leave_select_mode();
    }

    /// Helix `d`: deletes the selection (see `selection_deleted`), then as
    /// many more times as `count` asks while something is left to delete,
    /// and returns to normal mode.
    pub fn delete_selection(&mut self, yank: bool, count: usize)
        requires
            old(self).wf(),
        ensures
            final(self).engine.names_kept(old(self).engine),
            final(self).wf(),
            final(self).engine.count() == old(self).engine.count(),
            final(self).engine.mode_of() == if old(self).engine.mode_of() == AppMode::Sel {
                AppMode::Nor
            } else {
                old(self).engine.mode_of()
            },
            count <= 1 ==> deleted_then(final(self).engine, old(self).engine, yank),
            deleted_then_n(final(self).engine, old(self).engine, yank, if count == 0 {
                1
            } else {
                count as nat
            }),
            final(self).engine.paradigm_of() == old(self).engine.paradigm_of(),
            final(self).engine.pending_of() == old(self).engine.pending_of(),
    {
        self.delete_selection_repeated(yank, count);
        let ghost mid = self.engine;
        self.engine.leave_select_mode();
    }

    /// Helix `c`: deletes the selection as `delete_selection` does and
    /// enters insert mode.
    pub fn change_selection(&mut self, yank: bool, count: usize)
        requires
            old(self).wf(),
        ensures
            final(self).engine.names_kept(old(self).engine),
            final(self).wf(),
            final(self).engine.count() == old(self).engine.count(),
            final(self).engine.mode_of() == AppMode::Ins,
            count <= 1 ==> deleted_then(final(self).engine, old(self).engine, yank),
            deleted_then_n(final(self).engine, old(self).engine, yank, if count == 0 {
                1
            } else {
                count as nat
            }),
            final(self).engine.paradigm_of() == old(self).engine.paradigm_of(),
            final(self).engine.pending_of() == old(self).engine.pending_of(),
    {
        self.delete_selection_repeated(yank, count);
        let ghost mid = self.engine;
        self.engine.enter_edit_mode();
    }

    /// Deletes the selection once, then again up to `count` times in all
    /// while something is left to delete.
    fn delete_selection_repeated(&mut self, yank: bool, count: usize)
        requires
            old(self).wf(),
        ensures
            final(self).engine.names_kept(old(self).engine),
            final(self).wf(),
            final(self).engine.count() == old(self).engine.count(),
            final(self).engine.mode_of() == old(self).engine.mode_of(),
            final(self).engine.paradigm_of() == old(self).engine.paradigm_of(),
            final(self).engine.pending_of() == old(self).engine.pending_of(),
            count <= 1 ==> selection_deleted(final(self).engine, old(self).engine, yank),
            deletion_done(final(self).engine, old(self).engine, yank, if count == 0 {
                1
            } else {
                count as nat
            }),
    {
        let reps = if count == 0 {
            1
        } else {
            count
        };
        let mut k: usize = 0;
        while k < reps
            invariant
                self.engine.names_kept(old(self).engine),
                self.wf(),
                k <= reps,
                reps == if count == 0 { 1 } else { count },
                self.engine.count() == old(self).engine.count(),
                self.engine.mode_of() == old(self).engine.mode_of(),
                self.engine.paradigm_of() == old(self).engine.paradigm_of(),
                self.engine.pending_of() == old(self).engine.pending_of(),
                k == 0 ==> *self == *old(self),
                count <= 1 && k == 1 ==> selection_deleted(self.engine, old(self).engine, yank),
                deletion_run(self.engine, old(self).engine, yank, k as nat),
            ensures
                self.engine.names_kept(old(self).engine),
                self.wf(),
                self.engine.count() == old(self).engine.count(),
                self.engine.mode_of() == old(self).engine.mode_of(),
                self.engine.paradigm_of() == old(self).engine.paradigm_of(),
                self.engine.pending_of() == old(self).engine.pending_of(),
                count <= 1 ==> selection_deleted(self.engine, old(self).engine, yank),
                deletion_done(self.engine, old(self).engine, yank, reps as nat),
            decreases reps - k,
        {
            let ghost prev = self.engine;
            if !self.delete_selection_once(yank) {
                proof {
                    if k == 0 {
                        assert(selection_deleted(self.engine, old(self).engine, yank));
                    }
                    assert(deletion_run(prev, old(self).engine, yank, k as nat));
                    assert(!has_selection_to_delete(prev));
                    assert(selection_deleted(self.engine, prev, yank));
                    assert(deletion_done(self.engine, old(self).engine, yank, reps as nat));
                }
                break;
            }
            proof {
                assert(deletion_run(prev, old(self).engine, yank, k as nat));
                assert(has_selection_to_delete(prev));
                assert(selection_deleted(self.engine, prev, yank));
                assert(deletion_run(self.engine, old(self).engine, yank, (k + 1) as nat));
            }
            k += 1;
        }
    }
}

/// `a + b`, saturating at `usize::MAX`.
pub open spec fn sat_add(a: int, b: int) -> int {
    if a + b > usize::MAX {
        usize::MAX as int
    } else {
        a + b
    }
}

/// `a - b`, saturating at 0.
pub open spec fn sat_sub(a: int, b: int) -> int {
    if a - b < 0 {
        0
    } else {
        a - b
    }
}

/// How many lines an operator with count `count` covers under a motion
/// with count `motion`: their product (each at least one), saturating.
pub open spec fn op_total(count: usize, motion: usize) -> int {
    let m = if motion == 0 {
        1
    } else {
        motion as int
    };
    let t = if count * m > usize::MAX {
        usize::MAX as int
    } else {
        count * m
    };
    if t == 0 {
        1
    } else {
        t
    }
}

/// The fields a pending operator covers under a linewise motion (the
/// operator doubled, up, down, to the first or to the last field), from
/// the field where it was typed, among `n` fields; `None` for any other
/// motion.
pub open spec fn operator_lines(p: PendingOperator, action: CanvasKeyAction, motion: usize, n: int) -> Option<(int, int)> {
    let total = op_total(p.count, motion);
    let a = p.anchor.0 as int;
    match action {
        CanvasKeyAction::OperatorDelete
        | CanvasKeyAction::OperatorChange
        | CanvasKeyAction::OperatorYank => Some((a, sat_sub(sat_add(a, total), 1))),
        CanvasKeyAction::MoveUp => Some((sat_sub(a, total), a)),
        CanvasKeyAction::MoveDown => {
            let t = if sat_add(a, total) < sat_sub(n, 1) {
                sat_add(a, total)
            } else {
                sat_sub(n, 1)
            };
            Some((if a <= t { a } else { t }, if a <= t { t } else { a }))
        },
        CanvasKeyAction::MoveFirstLine => Some((0, a)),
        CanvasKeyAction::MoveLastLine => {
            let t = sat_sub(n, 1);
            Some((if a <= t { a } else { t }, if a <= t { t } else { a }))
        },
        _ => None,
    }
}

/// `new` is `old` with the fields `lo..=hi` (those that exist) emptied, the
/// current field kept and the cursor at its start when it was emptied.
pub open spec fn lines_cleared<D: DataProvider>(new: EditorCore<D>, old: EditorCore<D>, lo: int, hi: int) -> bool {
    &&& new.count() == old.count()
    &&& forall|i: int|
        0 <= i < old.count() ==> #[trigger] new.values()[i] == if lo <= i <= hi {
            Seq::<char>::empty()
        } else {
            old.values()[i]
        }
    &&& new.field_idx() == old.field_idx()
    &&& new.cursor_at() == if lo <= old.field_idx() <= hi {
        0
    } else {
        old.cursor_at()
    }
}

/// `new` is `old` with the text from the cursor to the end of the current
/// field deleted; the cursor stays, clamped to the mode.
pub open spec fn rest_deleted<D: DataProvider>(new: EditorCore<D>, old: EditorCore<D>) -> bool {
    &&& old.count() > 0 ==> new.values() == old.values().update(
        old.field_idx() as int,
        old.cur_text().take(old.cursor_at() as int),
    ) && new.cursor_at() == max_cursor(old.cursor_at(), old.mode_of())
    &&& old.count() == 0 ==> new.values() == old.values()
    &&& new.field_idx() == old.field_idx()
}

/// `new` is `old` after the pending operator `p` was applied with the
/// motion `action` (count `motion`): over the fields of `operator_lines`,
/// delete empties them, change empties them and enters insert mode, yank
/// takes them as whole lines; under any other motion, delete and change
/// work from the cursor to the end of the field and yank takes the current
/// field as text. The operator is no longer pending.
pub open spec fn operator_applied<D: DataProvider>(
    new: EditorCore<D>,
    old: EditorCore<D>,
    p: PendingOperator,
    action: CanvasKeyAction,
    motion: usize,
) -> bool {
    let n = old.count() as int;
    &&& new.pending_of() is None
    &&& new.count() == old.count()
    &&& match operator_lines(p, action, motion, n) {
        Some((lo, hi)) => match p.operator {
            VimOperator::Delete => lines_cleared(new, old, lo, hi) && new.mode_of() == old.mode_of(),
            VimOperator::Change => lines_cleared(new, old, lo, hi) && new.mode_of() == AppMode::Ins,
            VimOperator::Yank => {
                let last = if hi < n - 1 {
                    hi
                } else {
                    n - 1
                };
                &&& new.values() == old.values()
                &&& new.field_idx() == old.field_idx()
                &&& new.cursor_at() == old.cursor_at()
                &&& new.mode_of() == old.mode_of()
                &&& lo <= last ==> holds_lines(new.register_of(), old.values().subrange(lo, last + 1))
                &&& lo > last ==> new.register_of() == old.register_of()
            },
        },
        None => match p.operator {
            VimOperator::Delete => rest_deleted(new, old) && new.mode_of() == old.mode_of(),
            VimOperator::Change => rest_deleted(new, old) && new.mode_of() == AppMode::Ins,
            VimOperator::Yank => {
                &&& new.values() == old.values()
                &&& new.field_idx() == old.field_idx()
                &&& new.cursor_at() == old.cursor_at()
                &&& new.mode_of() == old.mode_of()
                &&& holds_text(new.register_of(), seq![old.cur_text()])
            },
        },
    }
}

/// The fields a pending operator covers under a linewise motion; see
/// `operator_lines`.
fn operator_range(p: PendingOperator, action: &CanvasKeyAction, motion: usize, n: usize) -> (res: Option<(usize, usize)>)
    ensures
        match operator_lines(p, *action, motion, n as int) {
            Some((lo, hi)) => res matches Some((a, b)) && a as int == lo && b as int == hi,
            None => res is None,
        },
{
    let m = if motion == 0 {
        1
    } else {
        motion
    };
    let prod = p.count.checked_mul(m);
    let t = match prod {
        Some(v) => v,
        None => usize::MAX,
    };
    let total = if t == 0 {
        1
    } else {
        t
    };
    let a = p.anchor.0;
    let last_field = if n == 0 {
        0
    } else {
        n - 1
    };
    match action {
        CanvasKeyAction::OperatorDelete
        | CanvasKeyAction::OperatorChange
        | CanvasKeyAction::OperatorYank => {
            let e = a.saturating_add(total);
            Some((a, if e == 0 { 0 } else { e - 1 }))
        },
        CanvasKeyAction::MoveUp => Some((a.saturating_sub(total), a)),
        CanvasKeyAction::MoveDown => {
            let e = a.saturating_add(total);
            let t = if e < last_field {
                e
            } else {
                last_field
            };
            Some((if a <= t { a } else { t }, if a <= t { t } else { a }))
        },
        CanvasKeyAction::MoveFirstLine => Some((0, a)),
        CanvasKeyAction::MoveLastLine => {
            Some((if a <= last_field { a } else { last_field }, if a <= last_field { last_field } else { a }))
        },
        _ => None,
    }
}

impl<D: DataProvider> TextFormState<D> {
    /// Vim: an operator typed in normal mode waits for its motion,
    /// remembering its count (at least one) and where it was typed.
    pub fn begin_operator(&mut self, operator: VimOperator, count: usize)
        requires
            old(self).wf(),
        ensures
            final(self).engine.names_kept(old(self).engine),
            final(self).wf(),
            final(self).engine.pending_of() == Some(
                PendingOperator {
                    operator,
                    count: if count == 0 {
                        1
                    } else {
                        count
                    },
                    anchor: (old(self).engine.field_idx() as usize, old(self).engine.cursor_at() as usize),
                },
            ),
            final(self).engine.values() == old(self).engine.values(),
            final(self).engine.field_idx() == old(self).engine.field_idx(),
            final(self).engine.cursor_at() == old(self).engine.cursor_at(),
            final(self).engine.mode_of() == old(self).engine.mode_of(),
            final(self).engine.register_of() == old(self).engine.register_of(),
            final(self).engine.selection_of() == old(self).engine.selection_of(),
            final(self).engine.history() == old(self).engine.history(),
    {
        let anchor = (self.engine.current_field(), self.engine.cursor_position());
        let c = if count == 0 {
            1
        } else {
            count
        };
        self.engine.set_pending_operator(Some(PendingOperator { operator, count: c, anchor }));
    }

    /// The fields `start..=end` that exist, as whole lines (none when `start`
    /// lies past them).
    fn fixed_field_lines(&self, start: usize, end: usize) -> (res: Vec<Vec<char>>)
        requires
            self.wf(),
        ensures
            ({
                let n = self.engine.count() as int;
                let last = if end < n - 1 {
                    end as int
                } else {
                    n - 1
                };
                &&& start <= last ==> rows(res@) == self.engine.values().subrange(start as int, last + 1)
                &&& start > last ==> res@.len() == 0
            }),
    {
        let n = self.engine.field_count();
        if n == 0 {
            return Vec::new();
        }
        let last = if end < n - 1 {
            end
        } else {
            n - 1
        };
        if start > last {
            return Vec::new();
        }
        let vals = self.engine.values_copy();
        row_range(&vals, start, last)
    }

    /// Applies the pending operator with the motion `action`; see
    /// `operator_applied`.
    pub(crate) fn apply_operator_motion(&mut self, action: &CanvasKeyAction, motion: usize) -> (res: KeyEventOutcome)
        requires
            old(self).wf(),
            old(self).engine.pending_of() is Some,
        ensures
            final(self).engine.names_kept(old(self).engine),
            final(self).wf(),
            res == KeyEventOutcome::Consumed(None),
            operator_applied(
                final(self).engine,
                old(self).engine,
                old(self).engine.pending_of()->0,
                *action,
                motion,
            ),
    {
        let p = match self.engine.pending_operator() {
            Some(p) => p,
            None => {
                return KeyEventOutcome::Consumed(None);
            },
        };
        self.engine.set_pending_operator(None);
        let n = self.engine.field_count();
        let range = operator_range(p, action, motion, n);
        match range {
            Some((lo, hi)) => match p.operator {
                VimOperator::Delete => {
                    self.clear_field_range(lo, hi);
                },
                VimOperator::Change => {
                    self.clear_field_range(lo, hi);
                    self.engine.enter_edit_mode();
                },
                VimOperator::Yank => {
                    let lines = self.fixed_field_lines(lo, hi);
                    proof {
                        assert(rows(lines@).len() == lines@.len());
                    }
                    if lines.len() > 0 {
                        self.engine.set_register(Some(YankRegister::Lines(lines)));
                    }
                },
            },
            None => match p.operator {
                VimOperator::Delete => {
                    self.delete_to_field_end();
                },
                VimOperator::Change => {
                    self.delete_to_field_end();
                    self.engine.enter_edit_mode();
                },
                VimOperator::Yank => {
                    let line = chars_of(self.engine.current_text());
                    let mut lines: Vec<Vec<char>> = Vec::new();
                    lines.push(line);
                    proof {
                        assert(rows(lines@) =~= seq![self.engine.cur_text()]);
                    }
                    self.engine.set_register(Some(YankRegister::Text(lines)));
                },
            },
        }
        KeyEventOutcome::Consumed(None)
    }
}

/// `new` is `old` after one move to the next (`forward`) or previous field:
/// nothing happens at the edge, validation may keep the cursor in place,
/// otherwise the neighbouring field becomes current.
pub open spec fn stepped_field<D: DataProvider>(new: EditorCore<D>, old: EditorCore<D>, forward: bool) -> bool {
    let cf = old.field_idx() as int;
    let n = old.count() as int;
    if (forward && cf + 1 >= n) || (!forward && cf == 0) {
        new == old
    } else if old.switch_blocked() {
        &&& new.values() == old.values()
        &&& new.field_idx() == old.field_idx()
        &&& new.cursor_at() == old.cursor_at()
    } else {
        new.switched_to(old, (if forward { cf + 1 } else { cf - 1 }) as nat)
    }
}

/// `new` is `old` after a jump to field `index`: nothing happens out of
/// range, validation may keep the cursor in place, otherwise that field
/// becomes current.
pub open spec fn jumped_to<D: DataProvider>(new: EditorCore<D>, old: EditorCore<D>, index: int) -> bool {
    if index < 0 || index >= old.count() {
        new == old
    } else if index != old.field_idx() && old.switch_blocked() {
        &&& new.values() == old.values()
        &&& new.field_idx() == old.field_idx()
        &&& new.cursor_at() == old.cursor_at()
        &&& new.mode_of() == old.mode_of()
        &&& new.history() == old.history()
    } else {
        new.switched_to(old, index as nat)
    }
}

/// The actions that open, move through or take a suggestion; a form has
/// no suggestion source.
pub open spec fn is_suggestion_action(a: CanvasKeyAction) -> bool {
    ||| a is OpenSuggestions
    ||| a is ApplySuggestion
    ||| a is SuggestionDown
    ||| a is SuggestionUp
}

/// `new` is `old` after one step of an action of the shared engine: cursor
/// and word motions, moves between fields (a half page is one field),
/// character deletion, undo and redo, and mode changes. Any other action
/// changes nothing.
pub open spec fn shared_effect<D: DataProvider>(new: EditorCore<D>, old: EditorCore<D>, a: CanvasKeyAction) -> bool {
    let c = old.cursor_at();
    let cf = old.field_idx() as int;
    match a {
        CanvasKeyAction::MoveLeft => new.cursor_moved(old, if c > 0 { (c - 1) as nat } else { c }),
        CanvasKeyAction::MoveRight => new.cursor_moved(old, if c < old.cur_max() { c + 1 } else { c }),
        CanvasKeyAction::MoveUp | CanvasKeyAction::MoveHalfPageUp => stepped_field(new, old, false),
        CanvasKeyAction::MoveDown | CanvasKeyAction::MoveHalfPageDown => stepped_field(new, old, true),
        CanvasKeyAction::MoveLineStart => new.cursor_moved(old, 0),
        CanvasKeyAction::MoveLineEnd => new.cursor_moved(old, old.cur_max()),
        CanvasKeyAction::MoveFirstLine => jumped_to(new, old, 0),
        CanvasKeyAction::MoveLastLine => jumped_to(new, old, old.count() - 1),
        CanvasKeyAction::MoveWordNext => new.cursor_moved(old, old.word_target(WordTarget::NextWordStart, false)),
        CanvasKeyAction::MoveWordPrev => new.cursor_moved(old, old.word_target(WordTarget::PrevWordStart, false)),
        CanvasKeyAction::MoveWordEnd => new.cursor_moved(old, old.word_target(WordTarget::NextWordEnd, false)),
        CanvasKeyAction::MoveWordEndPrev => new.cursor_moved(old, old.word_target(WordTarget::PrevWordEnd, false)),
        CanvasKeyAction::MoveBigWordNext => new.cursor_moved(old, old.word_target(WordTarget::NextWordStart, true)),
        CanvasKeyAction::MoveBigWordPrev => new.cursor_moved(old, old.word_target(WordTarget::PrevWordStart, true)),
        CanvasKeyAction::MoveBigWordEnd => new.cursor_moved(old, old.word_target(WordTarget::NextWordEnd, true)),
        CanvasKeyAction::MoveBigWordEndPrev => new.cursor_moved(old, old.word_target(WordTarget::PrevWordEnd, true)),
        CanvasKeyAction::DeleteCharBackward => {
            &&& old.count() == 0 || c == 0 ==> new == old
            &&& old.count() > 0 && c > 0 ==> new.edited(
                old,
                EditKind::Delete,
                old.values().update(cf, splice(old.cur_text(), c - 1, c as int, Seq::empty())),
                (c - 1) as nat,
            )
        },
        CanvasKeyAction::DeleteCharForward => {
            let len = old.cur_text().len();
            &&& old.count() == 0 || c >= len ==> new == old
            &&& old.count() > 0 && c < len ==> new.edited(
                old,
                EditKind::Delete,
                old.values().update(cf, splice(old.cur_text(), c as int, c + 1int, Seq::empty())),
                if c <= max_cursor((len - 1) as nat, old.mode_of()) {
                    c
                } else {
                    max_cursor((len - 1) as nat, old.mode_of())
                },
            )
        },
        CanvasKeyAction::Undo => {
            &&& old.history().undo_view().len() == 0 ==> new == old
            &&& old.history().undo_view().len() > 0 ==> new.checkpoint()
                == old.history().undo_view().last() && new.history().undo_view()
                == old.history().undo_view().drop_last() && new.history().redo_view()
                == old.history().redo_view().push(old.checkpoint()) && new.mode_of() == old.mode_of()
        },
        CanvasKeyAction::Redo => {
            &&& old.history().redo_view().len() == 0 ==> new == old
            &&& old.history().redo_view().len() > 0 ==> new.checkpoint()
                == old.history().redo_view().last() && new.history().redo_view()
                == old.history().redo_view().drop_last() && new.mode_of() == old.mode_of()
        },
        CanvasKeyAction::EnterEditModeBefore => {
            &&& new.mode_of() == AppMode::Ins
            &&& new.values() == old.values()
            &&& new.field_idx() == old.field_idx()
            &&& new.cursor_at() == old.cursor_at()
            &&& new.same_aux(old)
        },
        CanvasKeyAction::EnterEditModeAfter => {
            &&& new.mode_of() == AppMode::Ins
            &&& new.values() == old.values()
            &&& new.field_idx() == old.field_idx()
            &&& new.cursor_at() == if c < old.cur_text().len() {
                c + 1
            } else {
                old.cur_text().len()
            }
        },
        CanvasKeyAction::ExitEditMode | CanvasKeyAction::ExitHighlightMode => {
            &&& new.mode_of() == AppMode::Nor
            &&& new.values() == old.values()
            &&& new.field_idx() == old.field_idx()
            &&& new.cursor_at() == if c <= max_cursor(old.cur_text().len(), AppMode::Nor) {
                c
            } else {
                max_cursor(old.cur_text().len(), AppMode::Nor)
            }
            &&& new.selection_of() == SelectionState::Inactive
        },
        CanvasKeyAction::EnterHighlightMode => {
            &&& new.mode_of() == AppMode::Sel
            &&& new.selection_of() == (SelectionState::Characterwise {
                anchor: (old.field_idx() as usize, old.cursor_at() as usize),
            })
            &&& new.values() == old.values()
            &&& new.field_idx() == old.field_idx()
            &&& new.cursor_at() == old.cursor_at()
        },
        CanvasKeyAction::EnterHighlightModeLinewise => {
            &&& new.mode_of() == AppMode::Sel
            &&& new.selection_of() == (SelectionState::Linewise {
                anchor_field: old.field_idx() as usize,
            })
            &&& new.values() == old.values()
            &&& new.field_idx() == old.field_idx()
            &&& new.cursor_at() == old.cursor_at()
        },
        _ => new == old,
    }
}

/// The actions the shared engine handles in a form.
pub open spec fn engine_handles(a: CanvasKeyAction) -> bool {
    policy_of(a) == TextFormActionPolicy::SharedCore && !is_suggestion_action(a)
}

impl<D: DataProvider> TextFormState<D> {
    /// One step of an action of the shared engine; see `shared_effect`.
    pub(crate) fn shared_step(&mut self, action: &CanvasKeyAction)
        requires
            old(self).wf(),
        ensures
            final(self).engine.names_kept(old(self).engine),
            final(self).wf(),
            final(self).engine.count() == old(self).engine.count(),
            shared_effect(final(self).engine, old(self).engine, *action),
            final(self).engine.pending_of() == old(self).engine.pending_of(),
            final(self).engine.paradigm_of() == old(self).engine.paradigm_of(),
    {
        match action {
            CanvasKeyAction::MoveLeft => {
                let _ = self.engine.move_left();
            },
            CanvasKeyAction::MoveRight => {
                let _ = self.engine.move_right();
            },
            CanvasKeyAction::MoveUp | CanvasKeyAction::MoveHalfPageUp => {
                let _ = self.engine.prev_field();
            },
            CanvasKeyAction::MoveDown | CanvasKeyAction::MoveHalfPageDown => {
                let _ = self.engine.next_field();
            },
            CanvasKeyAction::MoveLineStart => self.engine.move_line_start(),
            CanvasKeyAction::MoveLineEnd => self.engine.move_line_end(),
            CanvasKeyAction::MoveFirstLine => {
                let _ = self.engine.transition_to_field(0);
            },
            CanvasKeyAction::MoveLastLine => {
                let n = self.engine.field_count();
                if n > 0 {
                    let _ = self.engine.transition_to_field(n - 1);
                }
            },
            CanvasKeyAction::MoveWordNext => self.engine.move_word_next(),
            CanvasKeyAction::MoveWordPrev => self.engine.move_word_prev(),
            CanvasKeyAction::MoveWordEnd => self.engine.move_word_end(),
            CanvasKeyAction::MoveWordEndPrev => self.engine.move_word_end_prev(),
            CanvasKeyAction::MoveBigWordNext => self.engine.move_big_word_next(),
            CanvasKeyAction::MoveBigWordPrev => self.engine.move_big_word_prev(),
            CanvasKeyAction::MoveBigWordEnd => self.engine.move_big_word_end(),
            CanvasKeyAction::MoveBigWordEndPrev => self.engine.move_big_word_end_prev(),
            CanvasKeyAction::DeleteCharBackward => {
                let _ = self.engine.delete_backward();
            },
            CanvasKeyAction::DeleteCharForward => {
                let _ = self.engine.delete_forward();
            },
            CanvasKeyAction::Undo => {
                let _ = self.engine.undo();
            },
            CanvasKeyAction::Redo => {
                let _ = self.engine.redo();
            },
            CanvasKeyAction::EnterEditModeBefore => self.engine.enter_edit_mode(),
            CanvasKeyAction::EnterEditModeAfter => self.engine.enter_append_mode(),
            CanvasKeyAction::ExitEditMode | CanvasKeyAction::ExitHighlightMode => {
                let _ = self.engine.exit_edit_mode();
            },
            CanvasKeyAction::EnterHighlightMode => self.engine.enter_highlight_mode(),
            CanvasKeyAction::EnterHighlightModeLinewise => self.engine.enter_highlight_mode_linewise(),
            _ => {},
        }
    }

    /// Runs an action of the shared engine `count` times. A move up or down
    /// that leaves the current field in place reports the edge it met.
    /// Suggestion actions are not matched: a form has no suggestion source.
    pub fn run_engine_action(&mut self, action: &CanvasKeyAction, count: usize) -> (res: KeyEventOutcome)
        requires
            old(self).wf(),
        ensures
            final(self).engine.names_kept(old(self).engine),
            final(self).wf(),
            final(self).engine.count() == old(self).engine.count(),
            final(self).engine.pending_of() == old(self).engine.pending_of(),
            final(self).engine.paradigm_of() == old(self).engine.paradigm_of(),
            !engine_handles(*action) ==> *final(self) == *old(self) && res == KeyEventOutcome::NotMatched,
            engine_handles(*action) && count == 0 ==> *final(self) == *old(self),
            engine_handles(*action) && count == 1 ==> shared_effect(final(self).engine, old(self).engine, *action),
            engine_handles(*action) ==> shared_steps(final(self).engine, old(self).engine, *action, count as nat),
            engine_handles(*action) ==> res == if *action is MoveUp {
                if final(self).engine.field_idx() != old(self).engine.field_idx() {
                    KeyEventOutcome::Consumed(None)
                } else {
                    KeyEventOutcome::ExitTop
                }
            } else if *action is MoveDown {
                if final(self).engine.field_idx() != old(self).engine.field_idx() {
                    KeyEventOutcome::Consumed(None)
                } else {
                    KeyEventOutcome::ExitBottom
                }
            } else {
                KeyEventOutcome::Consumed(None)
            },
    {
        let policy = textform_action_policy(action);
        let suggestion = match action {
            CanvasKeyAction::OpenSuggestions
            | CanvasKeyAction::ApplySuggestion
            | CanvasKeyAction::SuggestionDown
            | CanvasKeyAction::SuggestionUp => true,
            _ => false,
        };
        if policy != TextFormActionPolicy::SharedCore || suggestion {
            return KeyEventOutcome::NotMatched;
        }
        let before = self.engine.current_field();
        let mut k: usize = 0;
        while k < count
            invariant
                self.engine.names_kept(old(self).engine),
                self.wf(),
                k <= count,
                self.engine.count() == old(self).engine.count(),
                self.engine.pending_of() == old(self).engine.pending_of(),
                self.engine.paradigm_of() == old(self).engine.paradigm_of(),
                k == 0 ==> *self == *old(self),
                count == 1 && k == 1 ==> shared_effect(self.engine, old(self).engine, *action),
                shared_steps(self.engine, old(self).engine, *action, k as nat),
            decreases count - k,
        {
            let ghost prev = self.engine;
            self.shared_step(action);
            proof {
                assert(shared_steps(prev, old(self).engine, *action, k as nat));
                assert(shared_effect(self.engine, prev, *action));
                assert(shared_steps(self.engine, old(self).engine, *action, (k + 1) as nat));
            }
            k += 1;
        }
        let moved = self.engine.current_field() != before;
        match action {
            CanvasKeyAction::MoveUp => if moved {
                KeyEventOutcome::Consumed(None)
            } else {
                KeyEventOutcome::ExitTop
            },
            CanvasKeyAction::MoveDown => if moved {
                KeyEventOutcome::Consumed(None)
            } else {
                KeyEventOutcome::ExitBottom
            },
            _ => KeyEventOutcome::Consumed(None),
        }
    }
}

/// The word motion of a helix word action, and whether it moves by WORDs.
pub open spec fn helix_word_action(a: CanvasKeyAction) -> Option<(WordTarget, bool)> {
    match a {
        CanvasKeyAction::MoveWordNext => Some((WordTarget::NextWordStart, false)),
        CanvasKeyAction::MoveWordPrev => Some((WordTarget::PrevWordStart, false)),
        CanvasKeyAction::MoveWordEnd => Some((WordTarget::NextWordEnd, false)),
        CanvasKeyAction::MoveWordEndPrev => Some((WordTarget::PrevWordEnd, false)),
        CanvasKeyAction::MoveBigWordNext => Some((WordTarget::NextWordStart, true)),
        CanvasKeyAction::MoveBigWordPrev => Some((WordTarget::PrevWordStart, true)),
        CanvasKeyAction::MoveBigWordEnd => Some((WordTarget::NextWordEnd, true)),
        CanvasKeyAction::MoveBigWordEndPrev => Some((WordTarget::PrevWordEnd, true)),
        _ => None,
    }
}

/// `new` is `old` after `n` moves to the next (`forward`) or previous
/// field, one at a time.
pub open spec fn field_steps<D: DataProvider>(new: EditorCore<D>, old: EditorCore<D>, forward: bool, n: nat) -> bool
    decreases n,
{
    if n == 0 {
        new == old
    } else {
        exists|mid: EditorCore<D>| field_steps(mid, old, forward, (n - 1) as nat) && #[trigger] stepped_field(new, mid, forward)
    }
}

/// `new` is `old` after `n` steps of the shared engine action `a`.
pub open spec fn shared_steps<D: DataProvider>(new: EditorCore<D>, old: EditorCore<D>, a: CanvasKeyAction, n: nat) -> bool
    decreases n,
{
    if n == 0 {
        new == old
    } else {
        exists|mid: EditorCore<D>| shared_steps(mid, old, a, (n - 1) as nat) && #[trigger] shared_effect(new, mid, a)
    }
}

/// One helix yank of the selection (see `TextFormState::yank_selection`).
pub open spec fn yanked_once<D: DataProvider>(new: EditorCore<D>, old: EditorCore<D>) -> bool {
    &&& selection_yanked(new, old)
    &&& new.mode_of() == if old.mode_of() == AppMode::Sel {
        AppMode::Nor
    } else {
        old.mode_of()
    }
    &&& new.values() == old.values()
    &&& new.field_idx() == old.field_idx()
    &&& new.cursor_at() == old.cursor_at()
    &&& new.selection_of() == old.selection_of()
}

/// `new` is `old` after `n` helix yanks of the selection.
pub open spec fn yank_steps<D: DataProvider>(new: EditorCore<D>, old: EditorCore<D>, n: nat) -> bool
    decreases n,
{
    if n == 0 {
        new == old
    } else {
        exists|mid: EditorCore<D>| yank_steps(mid, old, (n - 1) as nat) && #[trigger] yanked_once(new, mid)
    }
}

/// One helix extension of the line selection below (see
/// `TextFormState::extend_line_below`).
pub open spec fn extended_below<D: DataProvider>(new: EditorCore<D>, old: EditorCore<D>) -> bool {
    &&& new.values() == old.values()
    &&& new.mode_of() == old.mode_of()
    &&& old.selection_of() is Linewise && old.field_idx() + 1 < old.count() ==> new.field_idx() == old.field_idx()
        + 1 && new.cursor_at() == 0 && new.selection_of() == old.selection_of()
    &&& old.selection_of() is Linewise && old.field_idx() + 1 >= old.count() ==> new == old
    &&& !(old.selection_of() is Linewise) ==> new.selection_of() == (SelectionState::Linewise {
        anchor_field: old.field_idx() as usize,
    }) && new.field_idx() == old.field_idx() && new.cursor_at() == old.cursor_at()
}

/// `new` is `old` after `n` helix extensions of the line selection below.
pub open spec fn extend_steps<D: DataProvider>(new: EditorCore<D>, old: EditorCore<D>, n: nat) -> bool
    decreases n,
{
    if n == 0 {
        new == old
    } else {
        exists|mid: EditorCore<D>| extend_steps(mid, old, (n - 1) as nat) && #[trigger] extended_below(new, mid)
    }
}

/// The field that one move to the next (`forward`) or previous field
/// leads to: the neighbour, unless at the edge or held by validation.
pub open spec fn step_target<D: DataProvider>(old: EditorCore<D>, forward: bool) -> nat {
    let cf = old.field_idx() as int;
    if (forward && cf + 1 >= old.count()) || (!forward && cf == 0) || old.switch_blocked() {
        old.field_idx()
    } else {
        (if forward {
            cf + 1
        } else {
            cf - 1
        }) as nat
    }
}

/// A vim operator now waits for its motion.
pub open spec fn operator_begun<D: DataProvider>(new: EditorCore<D>, old: EditorCore<D>, op: VimOperator, count: usize) -> bool {
    &&& new.pending_of() == Some(
        PendingOperator {
            operator: op,
            count: if count == 0 {
                1
            } else {
                count
            },
            anchor: (old.field_idx() as usize, old.cursor_at() as usize),
        },
    )
    &&& new.values() == old.values()
    &&& new.field_idx() == old.field_idx()
    &&& new.cursor_at() == old.cursor_at()
    &&& new.mode_of() == old.mode_of()
}

/// `new` and `res` are what a form's own handling of action `a` (no
/// operator pending, no helix word motion) makes of `old`.
pub open spec fn dispatched<D: DataProvider>(
    new: EditorCore<D>,
    old: EditorCore<D>,
    a: CanvasKeyAction,
    count: usize,
    res: KeyEventOutcome,
) -> bool {
    let cf = old.field_idx() as int;
    let n = old.count() as int;
    let last = span_end(cf, count as int, n);
    match a {
        CanvasKeyAction::OperatorDelete => res == KeyEventOutcome::Consumed(None) && operator_begun(
            new,
            old,
            VimOperator::Delete,
            count,
        ),
        CanvasKeyAction::OperatorChange => res == KeyEventOutcome::Consumed(None) && operator_begun(
            new,
            old,
            VimOperator::Change,
            count,
        ),
        CanvasKeyAction::OperatorYank => res == KeyEventOutcome::Consumed(None) && operator_begun(
            new,
            old,
            VimOperator::Yank,
            count,
        ),
        CanvasKeyAction::NextField | CanvasKeyAction::PrevField => {
            &&& res == KeyEventOutcome::Consumed(None)
            &&& count == 0 ==> new == old
            &&& count == 1 ==> stepped_field(new, old, a is NextField)
            &&& field_steps(new, old, a is NextField, count as nat)
            &&& new.values() == old.values()
            &&& new.mode_of() == old.mode_of()
        },
        CanvasKeyAction::OpenLineBelow | CanvasKeyAction::OpenLineAbove => {
            &&& res == KeyEventOutcome::Consumed(None)
            &&& count == 1 ==> new.field_idx() == step_target(old, a is OpenLineBelow)
            &&& exists|mid: EditorCore<D>|
                #[trigger] field_steps(mid, old, a is OpenLineBelow, count as nat) && new.field_idx() == mid.field_idx()
            &&& new.values() == old.values()
            &&& new.mode_of() == AppMode::Ins
        },
        CanvasKeyAction::EnterEditModeLineStart => {
            &&& res == KeyEventOutcome::Consumed(None)
            &&& new.values() == old.values()
            &&& new.field_idx() == old.field_idx()
            &&& new.cursor_at() == 0
            &&& new.mode_of() == AppMode::Ins
        },
        CanvasKeyAction::EnterEditModeLineEnd => {
            &&& res == KeyEventOutcome::Consumed(None)
            &&& new.values() == old.values()
            &&& new.field_idx() == old.field_idx()
            &&& new.cursor_at() == old.cur_text().len()
            &&& new.mode_of() == AppMode::Ins
        },
        CanvasKeyAction::DeleteLine => {
            &&& res == KeyEventOutcome::Consumed(None)
            &&& n > 0 ==> new.values() == cleared_rows(old.values(), cf, last) && new.cursor_at() == 0
            &&& n == 0 ==> new.values() == old.values()
            &&& new.field_idx() == old.field_idx()
            &&& new.mode_of() == old.mode_of()
        },
        CanvasKeyAction::DeleteToLineEnd => res == KeyEventOutcome::Consumed(None) && rest_deleted(new, old)
            && new.mode_of() == old.mode_of(),
        CanvasKeyAction::ChangeLine => {
            &&& res == KeyEventOutcome::Consumed(None)
            &&& n > 0 ==> new.values() == old.values().update(cf, Seq::empty()) && new.cursor_at() == 0
            &&& n == 0 ==> new.values() == old.values()
            &&& new.field_idx() == old.field_idx()
            &&& new.mode_of() == AppMode::Ins
        },
        CanvasKeyAction::ChangeToLineEnd => res == KeyEventOutcome::Consumed(None) && rest_deleted(new, old)
            && new.mode_of() == AppMode::Ins,
        CanvasKeyAction::YankLine | CanvasKeyAction::CopyLine => {
            &&& res == KeyEventOutcome::Consumed(None)
            &&& n == 0 ==> new == old
            &&& n > 0 ==> holds_lines(new.register_of(), old.values().subrange(cf, last + 1))
            &&& new.values() == old.values()
            &&& new.field_idx() == old.field_idx()
            &&& new.cursor_at() == old.cursor_at()
        },
        CanvasKeyAction::CutLine => {
            &&& res == KeyEventOutcome::Consumed(None)
            &&& n > 0 ==> holds_lines(new.register_of(), old.values().subrange(cf, last + 1))
                && new.values() == cleared_rows(old.values(), cf, last) && new.cursor_at() == 0
            &&& n == 0 ==> new.values() == old.values()
            &&& new.field_idx() == old.field_idx()
        },
        CanvasKeyAction::ExtendLineBelow => {
            &&& res == KeyEventOutcome::Consumed(None)
            &&& count == 0 ==> new == old
            &&& count == 1 && old.selection_of() is Linewise && cf + 1 < n ==> new.field_idx() == cf + 1
                && new.cursor_at() == 0 && new.selection_of() == old.selection_of()
            &&& count == 1 && !(old.selection_of() is Linewise) ==> new.selection_of() == (
            SelectionState::Linewise { anchor_field: old.field_idx() as usize })
                && new.field_idx() == old.field_idx()
            &&& extend_steps(new, old, count as nat)
            &&& new.values() == old.values()
            &&& new.mode_of() == old.mode_of()
        },
        CanvasKeyAction::ExtendToLineBounds => {
            &&& res == KeyEventOutcome::Consumed(None)
            &&& count == 0 ==> new == old
            &&& count > 0 ==> new.selection_of() == (SelectionState::Linewise {
                anchor_field: old.field_idx() as usize,
            })
            &&& new.values() == old.values()
            &&& new.field_idx() == old.field_idx()
        },
        CanvasKeyAction::CollapseSelection => {
            &&& res == KeyEventOutcome::Consumed(None)
            &&& new.selection_of() == SelectionState::Inactive
            &&& new.values() == old.values()
            &&& new.field_idx() == old.field_idx()
            &&& new.cursor_at() == old.cursor_at()
        },
        CanvasKeyAction::DeleteSelection | CanvasKeyAction::DeleteSelectionNoYank => {
            &&& res == KeyEventOutcome::Consumed(None)
            &&& count <= 1 ==> deleted_then(new, old, a is DeleteSelection)
            &&& deleted_then_n(new, old, a is DeleteSelection, if count == 0 {
                1
            } else {
                count as nat
            })
            &&& new.mode_of() == if old.mode_of() == AppMode::Sel {
                AppMode::Nor
            } else {
                old.mode_of()
            }
        },
        CanvasKeyAction::ChangeSelection | CanvasKeyAction::ChangeSelectionNoYank => {
            &&& res == KeyEventOutcome::Consumed(None)
            &&& count <= 1 ==> deleted_then(new, old, a is ChangeSelection)
            &&& deleted_then_n(new, old, a is ChangeSelection, if count == 0 {
                1
            } else {
                count as nat
            })
            &&& new.mode_of() == AppMode::Ins
        },
        CanvasKeyAction::YankSelection => {
            &&& res == KeyEventOutcome::Consumed(None)
            &&& count == 0 ==> new == old
            &&& yank_steps(new, old, count as nat)
            &&& count == 1 ==> selection_yanked(new, old) && new.mode_of() == if old.mode_of()
                == AppMode::Sel {
                AppMode::Nor
            } else {
                old.mode_of()
            }
            &&& new.values() == old.values()
        },
        CanvasKeyAction::PasteAfter => res == KeyEventOutcome::Consumed(None) && register_pasted(
            new,
            old,
            true,
            count as nat,
        ),
        CanvasKeyAction::PasteBefore => res == KeyEventOutcome::Consumed(None) && register_pasted(
            new,
            old,
            false,
            count as nat,
        ),
        _ => {
            &&& policy_of(a) == TextFormActionPolicy::StructuralNoOp ==> new == old && res
                == KeyEventOutcome::Consumed(None)
            &&& policy_of(a) == TextFormActionPolicy::Unsupported ==> new == old && res
                == KeyEventOutcome::NotMatched
            &&& is_suggestion_action(a) ==> new == old && res == KeyEventOutcome::NotMatched
            &&& engine_handles(a) && count == 0 ==> new == old
            &&& engine_handles(a) && count == 1 ==> shared_effect(new, old, a)
            &&& engine_handles(a) ==> shared_steps(new, old, a, count as nat)
            &&& engine_handles(a) ==> res == if a is MoveUp {
                if new.field_idx() != old.field_idx() {
                    KeyEventOutcome::Consumed(None)
                } else {
                    KeyEventOutcome::ExitTop
                }
            } else if a is MoveDown {
                if new.field_idx() != old.field_idx() {
                    KeyEventOutcome::Consumed(None)
                } else {
                    KeyEventOutcome::ExitBottom
                }
            } else {
                KeyEventOutcome::Consumed(None)
            }
        },
    }
}

impl<D: DataProvider> TextFormState<D> {
    /// Moves `count` fields forward (or back), one field at a time.
    fn move_fields(&mut self, forward: bool, count: usize)
        requires
            old(self).wf(),
        ensures
            final(self).engine.names_kept(old(self).engine),
            final(self).wf(),
            final(self).engine.count() == old(self).engine.count(),
            final(self).engine.values() == old(self).engine.values(),
            final(self).engine.mode_of() == old(self).engine.mode_of(),
            final(self).engine.pending_of() == old(self).engine.pending_of(),
            final(self).engine.paradigm_of() == old(self).engine.paradigm_of(),
            count == 0 ==> *final(self) == *old(self),
            count == 1 ==> stepped_field(final(self).engine, old(self).engine, forward),
            count == 1 ==> final(self).engine.field_idx() == step_target(old(self).engine, forward),
            field_steps(final(self).engine, old(self).engine, forward, count as nat),
    {
        let mut k: usize = 0;
        while k < count
            invariant
                self.engine.names_kept(old(self).engine),
                self.wf(),
                k <= count,
                self.engine.count() == old(self).engine.count(),
                self.engine.values() == old(self).engine.values(),
                self.engine.mode_of() == old(self).engine.mode_of(),
                self.engine.pending_of() == old(self).engine.pending_of(),
                self.engine.paradigm_of() == old(self).engine.paradigm_of(),
                k == 0 ==> *self == *old(self),
                count == 1 && k == 1 ==> stepped_field(self.engine, old(self).engine, forward),
                count == 1 && k == 1 ==> self.engine.field_idx() == step_target(old(self).engine, forward),
                field_steps(self.engine, old(self).engine, forward, k as nat),
            decreases count - k,
        {
            let ghost prev = self.engine;
            if forward {
                let _ = self.engine.next_field();
            } else {
                let _ = self.engine.prev_field();
            }
            proof {
                assert(stepped_field(self.engine, prev, forward));
                assert(field_steps(prev, old(self).engine, forward, k as nat));
                assert(field_steps(self.engine, old(self).engine, forward, (k + 1) as nat));
            }
            k += 1;
        }
    }

    /// Handles a keybinding action in the form; see `dispatched`. A pending
    /// vim operator takes the action as its motion; in the helix paradigm
    /// word motions select. No action adds, removes or reorders a field,
    /// and none is reported as consumed with a message.
    pub fn dispatch_product_key_action(&mut self, action: &CanvasKeyAction, count: usize) -> (res: KeyEventOutcome)
        requires
            old(self).wf(),
        ensures
            final(self).wf(),
            final(self).engine.count() == old(self).engine.count(),
            final(self).engine.names_kept(old(self).engine),
            !(res matches KeyEventOutcome::Consumed(Some(_))),
            old(self).engine.pending_of() is Some ==> res == KeyEventOutcome::Consumed(None)
                && operator_applied(
                final(self).engine,
                old(self).engine,
                old(self).engine.pending_of()->0,
                *action,
                count,
            ),
            old(self).engine.pending_of() is None && old(self).engine.paradigm_of() == Some(
                KeybindingParadigm::Helix,
            ) && helix_word_action(*action) is Some ==> ({
                let (target, big) = helix_word_action(*action)->0;
                &&& res == KeyEventOutcome::Consumed(None)
                &&& final(self).engine.values() == old(self).engine.values()
                &&& final(self).engine.field_idx() == old(self).engine.field_idx()
                &&& final(self).engine.cursor_at() == helix_head(old(self).engine, count as nat, target, big)
                &&& final(self).engine.selection_of() == (SelectionState::Characterwise {
                    anchor: (old(self).engine.field_idx() as usize, old(self).engine.cursor_at() as usize),
                })
            }),
            old(self).engine.pending_of() is None && !(old(self).engine.paradigm_of() == Some(
                KeybindingParadigm::Helix,
            ) && helix_word_action(*action) is Some) ==> dispatched(
                final(self).engine,
                old(self).engine,
                *action,
                count,
                res,
            ),
    {
        if self.engine.pending_operator().is_some() {
            return self.apply_operator_motion(action, count);
        }
        let helix = match self.engine.keybinding_paradigm() {
            Some(KeybindingParadigm::Helix) => true,
            _ => false,
        };
        if helix {
            let word: Option<(WordTarget, bool)> = match action {
                CanvasKeyAction::MoveWordNext => Some((WordTarget::NextWordStart, false)),
                CanvasKeyAction::MoveWordPrev => Some((WordTarget::PrevWordStart, false)),
                CanvasKeyAction::MoveWordEnd => Some((WordTarget::NextWordEnd, false)),
                CanvasKeyAction::MoveWordEndPrev => Some((WordTarget::PrevWordEnd, false)),
                CanvasKeyAction::MoveBigWordNext => Some((WordTarget::NextWordStart, true)),
                CanvasKeyAction::MoveBigWordPrev => Some((WordTarget::PrevWordStart, true)),
                CanvasKeyAction::MoveBigWordEnd => Some((WordTarget::NextWordEnd, true)),
                CanvasKeyAction::MoveBigWordEndPrev => Some((WordTarget::PrevWordEnd, true)),
                _ => None,
            };
            if let Some((target, big)) = word {
                self.select_word_motion(count, target, big);
                return KeyEventOutcome::Consumed(None);
            }
        }
        match action {
            CanvasKeyAction::OperatorDelete => {
                self.begin_operator(VimOperator::Delete, count);
                KeyEventOutcome::Consumed(None)
            },
            CanvasKeyAction::OperatorChange => {
                self.begin_operator(VimOperator::Change, count);
                KeyEventOutcome::Consumed(None)
            },
            CanvasKeyAction::OperatorYank => {
                self.begin_operator(VimOperator::Yank, count);
                KeyEventOutcome::Consumed(None)
            },
            CanvasKeyAction::NextField => {
                self.move_fields(true, count);
                KeyEventOutcome::Consumed(None)
            },
            CanvasKeyAction::PrevField => {
                self.move_fields(false, count);
                KeyEventOutcome::Consumed(None)
            },
            CanvasKeyAction::OpenLineBelow => {
                self.move_fields(true, count);
                self.engine.enter_edit_mode();
                KeyEventOutcome::Consumed(None)
            },
            CanvasKeyAction::OpenLineAbove => {
                self.move_fields(false, count);
                self.engine.enter_edit_mode();
                KeyEventOutcome::Consumed(None)
            },
            CanvasKeyAction::EnterEditModeLineStart => {
                self.engine.move_line_start();
                self.engine.enter_edit_mode();
                KeyEventOutcome::Consumed(None)
            },
            CanvasKeyAction::EnterEditModeLineEnd => {
                self.engine.enter_edit_mode();
                self.engine.move_line_end();
                KeyEventOutcome::Consumed(None)
            },
            CanvasKeyAction::DeleteLine => {
                self.clear_current_and_following_fields(count);
                proof {
                    let n = old(self).engine.count() as int;
                    let cf = old(self).engine.field_idx() as int;
                    if n > 0 {
                        assert(self.engine.values() =~= cleared_rows(
                            old(self).engine.values(),
                            cf,
                            span_end(cf, count as int, n),
                        ));
                    } else {
                        assert(self.engine.values() =~= old(self).engine.values());
                    }
                }
                KeyEventOutcome::Consumed(None)
            },
            CanvasKeyAction::DeleteToLineEnd => {
                self.delete_to_field_end();
                KeyEventOutcome::Consumed(None)
            },
            CanvasKeyAction::ChangeLine => {
                self.change_current_field();
                KeyEventOutcome::Consumed(None)
            },
            CanvasKeyAction::ChangeToLineEnd => {
                self.delete_to_field_end();
                self.engine.enter_edit_mode();
                KeyEventOutcome::Consumed(None)
            },
            CanvasKeyAction::YankLine | CanvasKeyAction::CopyLine => {
                self.yank_current_and_following_fields(count);
                KeyEventOutcome::Consumed(None)
            },
            CanvasKeyAction::CutLine => {
                self.cut_current_and_following_fields(count);
                KeyEventOutcome::Consumed(None)
            },
            CanvasKeyAction::ExtendLineBelow => {
                let mut k: usize = 0;
                while k < count
                    invariant
                        self.engine.names_kept(old(self).engine),
                        self.wf(),
                        k <= count,
                        self.engine.count() == old(self).engine.count(),
                        self.engine.values() == old(self).engine.values(),
                        self.engine.mode_of() == old(self).engine.mode_of(),
                        k == 0 ==> *self == *old(self),
                        count == 1 && k == 1 && old(self).engine.selection_of() is Linewise
                            && old(self).engine.field_idx() + 1 < old(self).engine.count()
                            ==> self.engine.field_idx() == old(self).engine.field_idx() + 1
                            && self.engine.cursor_at() == 0 && self.engine.selection_of()
                            == old(self).engine.selection_of(),
                        count == 1 && k == 1 && !(old(self).engine.selection_of() is Linewise)
                            ==> self.engine.selection_of() == (SelectionState::Linewise {
                            anchor_field: old(self).engine.field_idx() as usize,
                        }) && self.engine.field_idx() == old(self).engine.field_idx(),
                        extend_steps(self.engine, old(self).engine, k as nat),
                    decreases count - k,
                {
                    let ghost prev = self.engine;
                    self.extend_line_below();
                    proof {
                        assert(extended_below(self.engine, prev));
                        assert(extend_steps(prev, old(self).engine, k as nat));
                        assert(extend_steps(self.engine, old(self).engine, (k + 1) as nat));
                    }
                    k += 1;
                }
                KeyEventOutcome::Consumed(None)
            },
            CanvasKeyAction::ExtendToLineBounds => {
                if count > 0 {
                    self.extend_to_line_bounds();
                }
                KeyEventOutcome::Consumed(None)
            },
            CanvasKeyAction::CollapseSelection => {
                self.collapse_selection();
                KeyEventOutcome::Consumed(None)
            },
            CanvasKeyAction::DeleteSelection => {
                self.delete_selection(true, count);
                KeyEventOutcome::Consumed(None)
            },
            CanvasKeyAction::DeleteSelectionNoYank => {
                self.delete_selection(false, count);
                KeyEventOutcome::Consumed(None)
            },
            CanvasKeyAction::ChangeSelection => {
                self.change_selection(true, count);
                KeyEventOutcome::Consumed(None)
            },
            CanvasKeyAction::ChangeSelectionNoYank => {
                self.change_selection(false, count);
                KeyEventOutcome::Consumed(None)
            },
            CanvasKeyAction::YankSelection => {
                let mut k: usize = 0;
                while k < count
                    invariant
                        self.engine.names_kept(old(self).engine),
                        self.wf(),
                        k <= count,
                        self.engine.count() == old(self).engine.count(),
                        self.engine.values() == old(self).engine.values(),
                        k == 0 ==> *self == *old(self),
                        yank_steps(self.engine, old(self).engine, k as nat),
                        count == 1 && k == 1 ==> selection_yanked(self.engine, old(self).engine)
                            && self.engine.mode_of() == if old(self).engine.mode_of() == AppMode::Sel {
                            AppMode::Nor
                        } else {
                            old(self).engine.mode_of()
                        },
                    decreases count - k,
                {
                    let ghost prev = self.engine;
                    self.yank_selection();
                    proof {
                        assert(yanked_once(self.engine, prev));
                        assert(yank_steps(prev, old(self).engine, k as nat));
                        assert(yank_steps(self.engine, old(self).engine, (k + 1) as nat));
                    }
                    k += 1;
                }
                KeyEventOutcome::Consumed(None)
            },
            CanvasKeyAction::PasteAfter => {
                self.paste_register(true, count);
                KeyEventOutcome::Consumed(None)
            },
            CanvasKeyAction::PasteBefore => {
                self.paste_register(false, count);
                KeyEventOutcome::Consumed(None)
            },
            _ => {
                let policy = textform_action_policy(action);
                if policy == TextFormActionPolicy::StructuralNoOp {
                    KeyEventOutcome::Consumed(None)
                } else {
                    self.run_engine_action(action, count)
                }
            },
        }
    }
}

impl<D: DataProvider> TextFormState<D> {
    /// Uses a built-in keybinding preset: the form follows its editing
    /// paradigm.
    pub fn use_keybinding_preset(&mut self, preset: BuiltinCanvasKeybindingPreset)
        requires
            old(self).wf(),
        ensures
            final(self).wf(),
            final(self).engine.paradigm_of() == preset_paradigm(preset),
            final(self).engine.values() == old(self).engine.values(),
            final(self).engine.field_idx() == old(self).engine.field_idx(),
            final(self).engine.cursor_at() == old(self).engine.cursor_at(),
            final(self).engine.mode_of() == old(self).engine.mode_of(),
            final(self).engine.selection_of() == old(self).engine.selection_of(),
            final(self).engine.register_of() == old(self).engine.register_of(),
            final(self).engine.pending_of() == old(self).engine.pending_of(),
    {
        let paradigm = preset.paradigm();
        self.engine.set_paradigm(paradigm);
    }

    /// Puts text in the register, given as its lines.
    pub fn set_text_register(&mut self, lines: Vec<String>)
        requires
            old(self).wf(),
        ensures
            final(self).wf(),
            holds_text(final(self).engine.register_of(), lines@.map_values(|s: String| s@)),
            final(self).engine.values() == old(self).engine.values(),
            final(self).engine.field_idx() == old(self).engine.field_idx(),
            final(self).engine.cursor_at() == old(self).engine.cursor_at(),
            final(self).engine.mode_of() == old(self).engine.mode_of(),
            final(self).engine.selection_of() == old(self).engine.selection_of(),
            same_frame(final(self).engine, old(self).engine),
    {
        let v = lines_of(&lines);
        self.engine.set_register(Some(YankRegister::Text(v)));
    }

    /// Puts whole lines in the register.
    pub fn set_line_register(&mut self, lines: Vec<String>)
        requires
            old(self).wf(),
        ensures
            final(self).wf(),
            holds_lines(final(self).engine.register_of(), lines@.map_values(|s: String| s@)),
            final(self).engine.values() == old(self).engine.values(),
            final(self).engine.field_idx() == old(self).engine.field_idx(),
            final(self).engine.cursor_at() == old(self).engine.cursor_at(),
            final(self).engine.mode_of() == old(self).engine.mode_of(),
            final(self).engine.selection_of() == old(self).engine.selection_of(),
            same_frame(final(self).engine, old(self).engine),
    {
        let v = lines_of(&lines);
        self.engine.set_register(Some(YankRegister::Lines(v)));
    }

    /// The selection.
    pub fn selection_state(&self) -> (res: SelectionState)
        ensures
            res == self.engine.selection_of(),
    {
        self.engine.selection()
    }
}

} // verus!
