//! A form of fixed, single-line fields.
use vstd::prelude::*;

use crate::cursor::{cursor_style_for_mode, style_for, CursorStyle};
use crate::data_provider::DataProvider;
use crate::editor::engine::{max_cursor, splice, EditorCore};
use crate::editor::history::EditKind;
use crate::modes::AppMode;
use crate::text::{chars_of, strip_line_breaks, string_of, take_chars, without_line_breaks};

verus! {

/// Outcome of an event routed to a form.
#[derive(Debug, Clone, Copy, PartialEq, Eq, Structural)]
pub enum TextFormEventOutcome {
    Ignored,
    Handled,
    Submitted,
}

/// A form whose fields are fixed slots: no operation adds, removes or
/// reorders fields.
pub struct TextFormState<D: DataProvider> {
    /// The editing engine.
    pub engine: EditorCore<D>,
}

impl<D: DataProvider> TextFormState<D> {
    /// The number of fields: the number the form was created with, since
    /// no operation adds or removes one.
    pub open spec fn fixed_count(self) -> nat {
        self.engine.count()
    }

    /// The engine is well formed.
    pub open spec fn wf(self) -> bool {
        self.engine.wf()
    }

    /// A form over `data_provider`.
    pub fn new(data_provider: D) -> (res: Self)
        ensures
            res.engine.fresh(data_provider),
            res.wf(),
            res.engine.field_idx() == 0,
            res.engine.cursor_at() == 0,
            res.engine.mode_of() == AppMode::Nor,
            res.engine.history().undo_view().len() == 0,
            res.engine.history().redo_view().len() == 0,
    {
        TextFormState { engine: EditorCore::new(data_provider) }
    }

    /// Same as `new`.
    pub fn with_provider(data_provider: D) -> (res: Self)
        ensures
            res.engine.fresh(data_provider),
            res.wf(),
            res.engine.field_idx() == 0,
            res.engine.cursor_at() == 0,
            res.engine.mode_of() == AppMode::Nor,
            res.engine.history().undo_view().len() == 0,
            res.engine.history().redo_view().len() == 0,
    {
        Self::new(data_provider)
    }

    /// The editing engine.
    pub fn engine(&self) -> (res: &EditorCore<D>)
        ensures
            *res == self.engine,
    {
        &self.engine
    }

    /// The number of fields the form was created with.
    pub fn fixed_field_count(&self) -> (res: usize)
        requires
            self.wf(),
        ensures
            res == self.fixed_count(),
    {
        self.engine.field_count()
    }

    /// The data provider.
    pub fn data_provider(&self) -> (res: &D)
        ensures
            *res == self.engine.provider_of(),
    {
        self.engine.data_provider()
    }

    /// The index of the current field.
    pub fn current_field(&self) -> (res: usize)
        ensures
            res == self.engine.field_idx(),
    {
        self.engine.current_field()
    }

    /// The cursor column.
    pub fn cursor_position(&self) -> (res: usize)
        ensures
            res == self.engine.cursor_at(),
    {
        self.engine.cursor_position()
    }

    /// The value of the current field.
    pub fn current_text(&self) -> (res: &str)
        requires
            self.wf(),
        ensures
            res@ == self.engine.cur_text(),
    {
        self.engine.current_text()
    }

    /// The mode.
    pub fn mode(&self) -> (res: AppMode)
        ensures
            res == self.engine.mode_of(),
    {
        self.engine.mode()
    }

    /// What pasting `text` does: the outcome `res` and the form `after`,
    /// from the form `self` before (see `paste`).
    pub open spec fn paste_outcome(self, after: Self, text: Seq<char>, res: TextFormEventOutcome) -> bool {
        &&& (without_line_breaks(text).len() == 0 ==> res == TextFormEventOutcome::Ignored
            && after == self)
        &&& (without_line_breaks(text).len() > 0 ==> res == TextFormEventOutcome::Handled
            && after.engine.mode_of() == AppMode::Ins)
        &&& (without_line_breaks(text).len() > 0 && self.engine.count() > 0 ==> ({
            let f = without_line_breaks(text);
            let o = self.engine;
            let k = match o.insert_room() {
                Some(r) => if r < f.len() {
                    r
                } else {
                    f.len()
                },
                None => f.len(),
            };
            &&& after.engine.values() == if k > 0 {
                o.values().update(
                    o.field_idx() as int,
                    splice(o.cur_text(), o.cursor_at() as int, o.cursor_at() as int, f.take(k as int)),
                )
            } else {
                o.values()
            }
            &&& after.engine.cursor_at() == o.cursor_at() + k
            &&& after.engine.field_idx() == o.field_idx()
        }))
    }

    /// Inserts pasted text at the cursor in insert mode, with line breaks
    /// removed: `Ignored` (and nothing changes) when nothing is left,
    /// `Handled` otherwise. The provider must meet the `DataProvider`
    /// specifications, so that its fields match the form's.
    pub fn paste(&mut self, text: &str) -> (res: TextFormEventOutcome)
        requires
            old(self).wf(),
            D::obeys_provider_spec(),
        ensures
            final(self).wf(),
            final(self).engine.count() == old(self).engine.count(),
            final(self).engine.names_kept(old(self).engine),
            old(self).paste_outcome(*final(self), text@, res),
    {
        self.paste_checked(text)
    }

    /// `paste`, for any provider: one whose number of fields no longer
    /// matches the form's is refused (`Ignored`, nothing changes).
    pub(crate) fn paste_checked(&mut self, text: &str) -> (res: TextFormEventOutcome)
        requires
            old(self).wf(),
        ensures
            final(self).wf(),
            final(self).engine.count() == old(self).engine.count(),
            final(self).engine.names_kept(old(self).engine),
            old(self).paste_outcome(*final(self), text@, res) || (res == TextFormEventOutcome::Ignored
                && *final(self) == *old(self)),
            D::obeys_provider_spec() ==> old(self).paste_outcome(*final(self), text@, res),
    {
        if self.engine.data_provider().field_count() != self.engine.field_count() {
            return TextFormEventOutcome::Ignored;
        }
        let chars = chars_of(text);
        let filtered = strip_line_breaks(&chars);
        if filtered.len() == 0 {
            return TextFormEventOutcome::Ignored;
        }
        let s = string_of(filtered.as_slice());
        self.engine.enter_edit_mode();
        let _ = self.engine.insert_text(s.as_str());
        proof {
            assert(s@.take(s@.len() as int) =~= s@);
        }
        TextFormEventOutcome::Handled
    }

    /// The cursor style that follows the current mode.
    pub fn cursor_style(&self) -> (res: CursorStyle)
        ensures
            res == style_for(self.engine.mode_of()),
    {
        cursor_style_for_mode(self.engine.mode())
    }

    /// Updates the terminal cursor style. This build draws no cursor
    /// itself (the application shows `cursor_style`), so it always
    /// succeeds and changes nothing.
    pub fn update_cursor_style(&self) -> (res: Result<(), std::io::Error>)
        ensures
            res is Ok,
    {
        Ok(())
    }

    /// Empties the current field (one undo step).
    pub fn clear_current_field(&mut self)
        requires
            old(self).wf(),
        ensures
            final(self).wf(),
            old(self).engine.count() == 0 ==> *final(self) == *old(self),
            old(self).engine.count() > 0 ==> final(self).engine.edited(
                old(self).engine,
                EditKind::Other,
                old(self).engine.values().update(old(self).engine.field_idx() as int, Seq::empty()),
                0,
            ),
    {
        self.engine.set_current_field_value(String::new());
    }

    /// Empties field `field_index` (one undo step); ignored out of range.
    pub fn clear_field(&mut self, field_index: usize)
        requires
            old(self).wf(),
        ensures
            final(self).wf(),
            field_index >= old(self).engine.count() ==> *final(self) == *old(self),
            field_index < old(self).engine.count() ==> final(self).engine.edited(
                old(self).engine,
                EditKind::Other,
                old(self).engine.values().update(field_index as int, Seq::empty()),
                if field_index != old(self).engine.field_idx() {
                    old(self).engine.cursor_at()
                } else {
                    0
                },
            ),
    {
        if field_index < self.engine.field_count() {
            self.engine.set_field_value(field_index, String::new());
        }
    }

    /// Empties the fields `start..=end`, clamped to the form.
    pub(crate) fn clear_field_range(&mut self, start: usize, end: usize)
        requires
            old(self).wf(),
        ensures
            final(self).wf(),
            final(self).engine.count() == old(self).engine.count(),
            forall|i: int|
                0 <= i < old(self).engine.count() ==> #[trigger] final(self).engine.values()[i] == if start
                    <= i <= end {
                    Seq::<char>::empty()
                } else {
                    old(self).engine.values()[i]
                },
            final(self).engine.field_idx() == old(self).engine.field_idx(),
            final(self).engine.mode_of() == old(self).engine.mode_of(),
            final(self).engine.cursor_at() == if start <= old(self).engine.field_idx() <= end {
                0
            } else {
                old(self).engine.cursor_at()
            },
            final(self).engine.same_settings(old(self).engine),
    {
        let n = self.engine.field_count();
        if n == 0 {
            return;
        }
        let last = if end < n - 1 {
            end
        } else {
            n - 1
        };
        let stop = last + 1;
        let mut i = start;
        while i < stop
            invariant
                stop == last + 1,
                last == if end < n - 1 { end } else { (n - 1) as usize },
                i <= stop || i == start,
                self.wf(),
                n == self.fixed_count(),
                n > 0,
                last < n,
                start <= i,
                self.engine.count() == old(self).engine.count(),
                forall|k: int|
                    0 <= k < n ==> #[trigger] self.engine.values()[k] == if start <= k < i {
                        Seq::<char>::empty()
                    } else {
                        old(self).engine.values()[k]
                    },
                self.engine.field_idx() == old(self).engine.field_idx(),
                self.engine.mode_of() == old(self).engine.mode_of(),
                self.engine.cursor_at() == if start <= old(self).engine.field_idx() < i {
                    0
                } else {
                    old(self).engine.cursor_at()
                },
                self.engine.same_settings(old(self).engine),
            decreases stop - i,
        {
            self.engine.set_field_value(i, String::new());
            i += 1;
        }
    }

    /// Empties the current field and the `count - 1` fields after it (at
    /// least the current one), stopping at the last field; no field is
    /// removed.
    pub fn clear_current_and_following_fields(&mut self, count: usize)
        requires
            old(self).wf(),
        ensures
            final(self).engine.names_kept(old(self).engine),
            final(self).wf(),
            ({
                let start = old(self).engine.field_idx() as int;
                let span = if count == 0 { 1 } else { count as int };
                forall|i: int|
                    0 <= i < old(self).engine.count() ==> #[trigger] final(self).engine.values()[i]
                        == if start <= i < start + span {
                        Seq::<char>::empty()
                    } else {
                        old(self).engine.values()[i]
                    }
            }),
            final(self).engine.count() == old(self).engine.count(),
            final(self).engine.field_idx() == old(self).engine.field_idx(),
            final(self).engine.mode_of() == old(self).engine.mode_of(),
            old(self).engine.count() > 0 ==> final(self).engine.cursor_at() == 0,
            old(self).engine.count() == 0 ==> final(self).engine.cursor_at() == old(self).engine.cursor_at(),
            final(self).engine.same_settings(old(self).engine),
    {
        if self.engine.field_count() == 0 {
            return;
        }
        let start = self.engine.current_field();
        let span = if count == 0 {
            1
        } else {
            count
        };
        let end = if span - 1 <= usize::MAX - start {
            start + (span - 1)
        } else {
            usize::MAX
        };
        self.clear_field_range(start, end);
    }

    /// Empties the current field and enters insert mode.
    pub fn change_current_field(&mut self)
        requires
            old(self).wf(),
        ensures
            final(self).engine.names_kept(old(self).engine),
            final(self).wf(),
            final(self).engine.mode_of() == AppMode::Ins,
            old(self).engine.count() > 0 ==> final(self).engine.values() == old(self).engine.values().update(
                old(self).engine.field_idx() as int,
                Seq::empty(),
            ) && final(self).engine.cursor_at() == 0,
            old(self).engine.count() == 0 ==> final(self).engine.values() == old(self).engine.values(),
            final(self).engine.field_idx() == old(self).engine.field_idx(),
    {
        self.engine.set_current_field_value(String::new());
        self.engine.enter_edit_mode();
    }

    /// Deletes from the cursor to the end of the current field; the cursor
    /// stays, clamped to the largest column of the mode.
    pub fn delete_to_field_end(&mut self)
        requires
            old(self).wf(),
        ensures
            final(self).engine.names_kept(old(self).engine),
            final(self).wf(),
            old(self).engine.count() > 0 ==> final(self).engine.values() == old(self).engine.values().update(
                old(self).engine.field_idx() as int,
                old(self).engine.cur_text().take(old(self).engine.cursor_at() as int),
            ) && final(self).engine.cursor_at() == max_cursor(
                old(self).engine.cursor_at(),
                old(self).engine.mode_of(),
            ),
            old(self).engine.count() == 0 ==> final(self).engine.values() == old(self).engine.values(),
            final(self).engine.count() == old(self).engine.count(),
            final(self).engine.field_idx() == old(self).engine.field_idx(),
            final(self).engine.mode_of() == old(self).engine.mode_of(),
            final(self).engine.same_settings(old(self).engine),
    {
        let cursor = self.engine.cursor_position();
        let text = chars_of(self.engine.current_text());
        let kept = take_chars(&text, cursor);
        let s = string_of(kept.as_slice());
        self.engine.set_current_field_value(s);
        self.engine.set_cursor_position(cursor);
    }

    /// Undoes the latest step; see `EditorCore::undo`.
    pub fn undo(&mut self) -> (res: bool)
        requires
            old(self).wf(),
        ensures
            final(self).wf(),
            res == (old(self).engine.history().undo_view().len() > 0),
            !res ==> *final(self) == *old(self),
            res ==> final(self).engine.checkpoint() == old(self).engine.history().undo_view().last(),
            res ==> final(self).engine.history().redo_view() == old(self).engine.history().redo_view().push(
                old(self).engine.checkpoint(),
            ),
            res ==> final(self).engine.undone(old(self).engine),
            final(self).engine.count() == old(self).engine.count(),
    {
        let r = self.engine.undo();
        proof {
            if r {
                assert(old(self).engine.history().undo_view().last() == old(self).engine.history().undo_view()[old(self).engine.history().undo_view().len() - 1]);
            }
        }
        r
    }

    /// Redoes the latest undone step; see `EditorCore::redo`.
    pub fn redo(&mut self) -> (res: bool)
        requires
            old(self).wf(),
        ensures
            final(self).wf(),
            res == (old(self).engine.history().redo_view().len() > 0),
            !res ==> *final(self) == *old(self),
            res ==> final(self).engine.checkpoint() == old(self).engine.history().redo_view().last(),
            res ==> final(self).engine.redone(old(self).engine),
            final(self).engine.count() == old(self).engine.count(),
    {
        self.engine.redo()
    }
}

} // verus!
