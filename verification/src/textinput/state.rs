//! Single-line text input state.
use vstd::prelude::*;

use crate::cursor::{cursor_style_for_mode, style_for, CursorStyle};
use crate::editor::behavior::EditError;
use crate::editor::engine::{max_cursor, splice, EditorCore};
use crate::editor::history::{keep_newest, EditKind};
use crate::editor::words::WordTarget;
use crate::modes::AppMode;
use crate::text::{
    chars_of, first_line, strip_line_breaks, string_of, without_line_breaks,
};
use crate::textform::state::TextFormState;
use crate::textinput::provider::{sanitize_single_line, TextInputDataProvider, TextInputProvider};
use crate::validation::config::ValidationConfig;
use crate::validation::result::{ExternalValidationState, ValidationResult};

verus! {

/// Outcome of an event routed to a text input.
#[derive(Debug, Clone, Copy, PartialEq, Eq, Structural)]
pub enum TextInputEventOutcome {
    Ignored,
    Handled,
    Submitted,
}

/// Single-line text input widget state: a single-field form plus a
/// placeholder, an inline suggestion suffix and horizontal scrolling.
pub struct TextInputState<P: TextInputDataProvider = TextInputProvider> {
    form: TextFormState<P>,
    placeholder: Option<String>,
    suggestion_suffix: Option<String>,
    overflow_indicator: char,
    h_scroll: u16,
}

impl<P: TextInputDataProvider> TextInputState<P> {
    /// The editing engine.
    pub closed spec fn eng(self) -> EditorCore<P> {
        self.form.engine
    }

    /// The placeholder shown while the input is empty.
    pub closed spec fn placeholder_view(self) -> Option<Seq<char>> {
        match self.placeholder {
            Some(s) => Some(s@),
            None => None,
        }
    }

    /// The inline suggestion suffix shown after the text.
    pub closed spec fn suffix_view(self) -> Option<Seq<char>> {
        match self.suggestion_suffix {
            Some(s) => Some(s@),
            None => None,
        }
    }

    /// The character marking overflowing text.
    pub closed spec fn indicator_view(self) -> char {
        self.overflow_indicator
    }

    /// The horizontal scroll offset.
    pub closed spec fn h_scroll_view(self) -> u16 {
        self.h_scroll
    }

    /// The engine is well formed.
    pub open spec fn wf(self) -> bool {
        self.eng().wf()
    }

    /// Placeholder, suffix, indicator and scroll are unchanged.
    pub open spec fn same_extras(self, old: Self) -> bool {
        &&& self.placeholder_view() == old.placeholder_view()
        &&& self.suffix_view() == old.suffix_view()
        &&& self.indicator_view() == old.indicator_view()
        &&& self.h_scroll_view() == old.h_scroll_view()
    }

    /// The text of the input (its first field; empty without fields).
    pub open spec fn text_view(self) -> Seq<char> {
        if self.eng().count() > 0 {
            self.eng().values()[0]
        } else {
            Seq::empty()
        }
    }

    /// An input over `provider`, in normal mode with the cursor at the
    /// start, no placeholder, no suffix and `'$'` as overflow indicator.
    pub fn with_provider(provider: P) -> (res: Self)
        ensures
            res.eng().fresh(provider),
            res.wf(),
            res.eng().field_idx() == 0,
            res.eng().cursor_at() == 0,
            res.eng().mode_of() == AppMode::Nor,
            res.eng().history().undo_view().len() == 0,
            res.eng().history().redo_view().len() == 0,
            res.placeholder_view() is None,
            res.suffix_view() is None,
            res.indicator_view() == '$',
            res.h_scroll_view() == 0,
    {
        TextInputState {
            form: TextFormState::new(provider),
            placeholder: None,
            suggestion_suffix: None,
            overflow_indicator: '$',
            h_scroll: 0,
        }
    }

    /// An input over `P::from_text(text)`.
    pub fn from_text(text: &str) -> (res: Self)
        ensures
            exists|p: P| #[trigger] res.eng().fresh(p),
            P::obeys_provider_spec() ==> res.eng().count() == 1 && res.text_view() == first_line(text@),
            res.wf(),
            res.eng().field_idx() == 0,
            res.eng().cursor_at() == 0,
            res.eng().mode_of() == AppMode::Nor,
            res.eng().history().undo_view().len() == 0,
            res.eng().history().redo_view().len() == 0,
            res.placeholder_view() is None,
            res.suffix_view() is None,
    {
        Self::with_provider(P::from_text(text.to_owned()))
    }

    /// The text of the input.
    pub fn text(&self) -> (res: String)
        requires
            self.wf(),
        ensures
            res@ == self.text_view(),
    {
        self.form.engine.field_value(0).to_owned()
    }

    /// Replaces the text with the first line of `text` (no undo step),
    /// makes the first field current with the cursor after the text, and
    /// clears the suggestion suffix and the scroll offset.
    pub fn set_text(&mut self, text: &str)
        requires
            old(self).wf(),
        ensures
            final(self).wf(),
            old(self).eng().count() > 0 ==> final(self).text_view() == first_line(text@)
                && final(self).eng().field_idx() == 0 && final(self).eng().cursor_at()
                == first_line(text@).len(),
            old(self).eng().count() == 0 ==> final(self).eng().values() == old(self).eng().values(),
            final(self).eng().mode_of() == old(self).eng().mode_of(),
            final(self).suffix_view() is None,
            final(self).h_scroll_view() == 0,
            final(self).placeholder_view() == old(self).placeholder_view(),
    {
        let line = sanitize_single_line(text);
        let len = chars_of(line.as_str()).len();
        self.form.engine.reload_field(0, line);
        if self.form.engine.field_count() > 0 {
            self.form.engine.place_cursor(0, len);
        }
        self.suggestion_suffix = None;
        self.h_scroll = 0;
    }
}


impl<P: TextInputDataProvider> TextInputState<P> {
    /// Sets the placeholder shown while the input is empty.
    pub fn set_placeholder(&mut self, s: &str)
        ensures
            final(self).placeholder_view() == Some(s@),
            final(self).eng() == old(self).eng(),
            final(self).suffix_view() == old(self).suffix_view(),
            final(self).indicator_view() == old(self).indicator_view(),
            final(self).h_scroll_view() == old(self).h_scroll_view(),
    {
        self.placeholder = Some(s.to_owned());
    }

    /// The placeholder, if any.
    pub fn placeholder(&self) -> (res: Option<&str>)
        ensures
            match res {
                Some(s) => self.placeholder_view() == Some(s@),
                None => self.placeholder_view() is None,
            },
    {
        match &self.placeholder {
            Some(s) => Some(s.as_str()),
            None => None,
        }
    }

    /// The inline suggestion suffix, if any.
    pub fn suggestion_suffix(&self) -> (res: Option<&str>)
        ensures
            match res {
                Some(s) => self.suffix_view() == Some(s@),
                None => self.suffix_view() is None,
            },
    {
        match &self.suggestion_suffix {
            Some(s) => Some(s.as_str()),
            None => None,
        }
    }

    /// Sets the inline suggestion suffix; an empty suffix clears it.
    pub fn set_suggestion_suffix(&mut self, suffix: &str)
        ensures
            final(self).suffix_view() == if suffix@.len() == 0 {
                None
            } else {
                Some(suffix@)
            },
            final(self).eng() == old(self).eng(),
            final(self).placeholder_view() == old(self).placeholder_view(),
            final(self).indicator_view() == old(self).indicator_view(),
            final(self).h_scroll_view() == old(self).h_scroll_view(),
    {
        if suffix.is_empty() {
            self.suggestion_suffix = None;
        } else {
            self.suggestion_suffix = Some(suffix.to_owned());
        }
    }

    /// Removes the inline suggestion suffix.
    pub fn clear_suggestion_suffix(&mut self)
        ensures
            final(self).suffix_view() is None,
            final(self).eng() == old(self).eng(),
            final(self).placeholder_view() == old(self).placeholder_view(),
            final(self).indicator_view() == old(self).indicator_view(),
            final(self).h_scroll_view() == old(self).h_scroll_view(),
    {
        self.suggestion_suffix = None;
    }

    /// Accepts the inline suggestion: enters insert mode and inserts the
    /// suffix at the cursor (`Handled`); `Ignored` without a suffix.
    pub fn accept_suggestion_suffix(&mut self) -> (res: TextInputEventOutcome)
        requires
            old(self).wf(),
        ensures
            final(self).wf(),
            final(self).eng().count() == old(self).eng().count(),
            final(self).suffix_view() is None,
            old(self).suffix_view() is None ==> res == TextInputEventOutcome::Ignored
                && final(self).eng() == old(self).eng(),
            old(self).suffix_view() matches Some(sfx) ==> (sfx.len() == 0 ==> res
                == TextInputEventOutcome::Ignored && final(self).eng() == old(self).eng()) && (
            sfx.len() > 0 ==> res == TextInputEventOutcome::Handled && final(self).eng().mode_of()
                == AppMode::Ins && (old(self).eng().count() > 0 && old(self).eng().insert_room()
                is None ==> final(self).eng().values() == old(self).eng().values().update(
                old(self).eng().field_idx() as int,
                splice(
                    old(self).eng().cur_text(),
                    old(self).eng().cursor_at() as int,
                    old(self).eng().cursor_at() as int,
                    sfx,
                ),
            ) && final(self).eng().cursor_at() == old(self).eng().cursor_at() + sfx.len())),
    {
        let suffix = match &self.suggestion_suffix {
            Some(s) => s.clone(),
            None => {
                return TextInputEventOutcome::Ignored;
            },
        };
        if suffix.as_str().is_empty() {
            self.suggestion_suffix = None;
            return TextInputEventOutcome::Ignored;
        }
        self.form.engine.enter_edit_mode();
        self.suggestion_suffix = None;
        let _ = self.form.engine.insert_text(suffix.as_str());
        proof {
            assert(suffix@.take(suffix@.len() as int) =~= suffix@);
        }
        TextInputEventOutcome::Handled
    }

    /// Sets the character marking overflowing text.
    pub fn set_overflow_indicator(&mut self, ch: char)
        ensures
            final(self).indicator_view() == ch,
            final(self).eng() == old(self).eng(),
            final(self).placeholder_view() == old(self).placeholder_view(),
            final(self).suffix_view() == old(self).suffix_view(),
            final(self).h_scroll_view() == old(self).h_scroll_view(),
    {
        self.overflow_indicator = ch;
    }

    /// The character marking overflowing text.
    pub fn overflow_indicator(&self) -> (res: char)
        ensures
            res == self.indicator_view(),
    {
        self.overflow_indicator
    }

    /// What pasting `text` does: the outcome `res` and the input `after`,
    /// from the input `self` before (see `paste`).
    pub open spec fn paste_outcome(self, after: Self, text: Seq<char>, res: TextInputEventOutcome) -> bool {
        &&& (without_line_breaks(text).len() == 0 ==> res == TextInputEventOutcome::Ignored
            && after.eng() == self.eng() && after.suffix_view()
            == self.suffix_view())
        &&& (without_line_breaks(text).len() > 0 ==> res == TextInputEventOutcome::Handled
            && after.eng().mode_of() == AppMode::Ins && after.suffix_view() is None)
        &&& (without_line_breaks(text).len() > 0 && self.eng().count() > 0 ==> ({
            let f = without_line_breaks(text);
            let o = self.eng();
            let k = match o.insert_room() {
                Some(r) => if r < f.len() {
                    r
                } else {
                    f.len()
                },
                None => f.len(),
            };
            &&& after.eng().values() == if k > 0 {
                o.values().update(
                    o.field_idx() as int,
                    splice(o.cur_text(), o.cursor_at() as int, o.cursor_at() as int, f.take(k as int)),
                )
            } else {
                o.values()
            }
            &&& after.eng().cursor_at() == o.cursor_at() + k
        }))
    }

    /// Pastes `text` with its line breaks removed: enters insert mode,
    /// clears the suggestion suffix and inserts it (`Handled`); `Ignored`,
    /// with nothing changed, when nothing is left.
    pub fn paste(&mut self, text: &str) -> (res: TextInputEventOutcome)
        requires
            old(self).wf(),
        ensures
            final(self).wf(),
            final(self).eng().count() == old(self).eng().count(),
            old(self).paste_outcome(*final(self), text@, res),
    {
        let chars = chars_of(text);
        let filtered = strip_line_breaks(&chars);
        if filtered.len() == 0 {
            return TextInputEventOutcome::Ignored;
        }
        let s = string_of(filtered.as_slice());
        self.form.engine.enter_edit_mode();
        self.suggestion_suffix = None;
        let _ = self.form.engine.insert_text(s.as_str());
        proof {
            assert(s@.take(s@.len() as int) =~= s@);
        }
        TextInputEventOutcome::Handled
    }

    /// The cursor style that follows the current mode.
    pub fn cursor_style(&self) -> (res: CursorStyle)
        ensures
            res == style_for(self.eng().mode_of()),
    {
        cursor_style_for_mode(self.form.engine.mode())
    }

    /// Updates the terminal cursor style. This build draws no cursor
    /// itself (the application shows `cursor_style`), so it always
    /// succeeds and changes nothing.
    pub fn update_cursor_style(&self) -> (res: Result<(), std::io::Error>)
        ensures
            res is Ok,
    {
        Ok(())
    }

    /// The underlying form.
    pub fn form(&self) -> (res: &TextFormState<P>)
        ensures
            res.engine == self.eng(),
    {
        &self.form
    }

    /// The underlying form, mutably.
    pub fn form_mut(&mut self) -> (res: &mut TextFormState<P>)
        ensures
            res.engine == old(self).eng(),
            final(self).eng() == final(res).engine,
            final(self).same_extras(*old(self)),
    {
        &mut self.form
    }

    /// The index of the current field.
    pub fn current_field(&self) -> (res: usize)
        ensures
            res == self.eng().field_idx(),
    {
        self.form.engine.current_field()
    }

    /// The cursor column.
    pub fn cursor_position(&self) -> (res: usize)
        ensures
            res == self.eng().cursor_at(),
    {
        self.form.engine.cursor_position()
    }

    /// The value of the current field.
    pub fn current_text(&self) -> (res: &str)
        requires
            self.wf(),
        ensures
            res@ == self.eng().cur_text(),
    {
        self.form.engine.current_text()
    }

    /// The mode.
    pub fn mode(&self) -> (res: AppMode)
        ensures
            res == self.eng().mode_of(),
    {
        self.form.engine.mode()
    }

    /// The data provider.
    pub fn data_provider(&self) -> (res: &P)
        ensures
            *res == self.eng().provider_of(),
    {
        self.form.engine.data_provider()
    }

    /// The data provider, mutably (see `EditorCore::data_provider_mut`).
    pub fn data_provider_mut(&mut self) -> (res: &mut P)
        ensures
            *res == old(self).eng().provider_of(),
            final(self).eng() == old(self).eng().with_provider_value(*final(res)),
            final(self).same_extras(*old(self)),
    {
        self.form.engine.data_provider_mut()
    }

    /// Moves the cursor one column left.
    pub fn move_left(&mut self) -> (res: Result<(), EditError>)
        requires
            old(self).wf(),
        ensures
            final(self).wf(),
            res is Ok,
            final(self).eng().cursor_moved(
                old(self).eng(),
                if old(self).eng().cursor_at() > 0 {
                    (old(self).eng().cursor_at() - 1) as nat
                } else {
                    old(self).eng().cursor_at()
                },
            ),
            final(self).same_extras(*old(self)),
    {
        self.form.engine.move_left()
    }

    /// Moves the cursor one column right.
    pub fn move_right(&mut self) -> (res: Result<(), EditError>)
        requires
            old(self).wf(),
        ensures
            final(self).wf(),
            res is Ok,
            final(self).eng().cursor_moved(
                old(self).eng(),
                if old(self).eng().cursor_at() < old(self).eng().cur_max() {
                    old(self).eng().cursor_at() + 1
                } else {
                    old(self).eng().cursor_at()
                },
            ),
            final(self).same_extras(*old(self)),
    {
        self.form.engine.move_right()
    }

    /// Moves the cursor to the start of the text.
    pub fn move_line_start(&mut self)
        requires
            old(self).wf(),
        ensures
            final(self).wf(),
            final(self).eng().cursor_moved(old(self).eng(), 0),
            final(self).same_extras(*old(self)),
    {
        self.form.engine.move_line_start()
    }

    /// Moves the cursor to the largest column of the mode.
    pub fn move_line_end(&mut self)
        requires
            old(self).wf(),
        ensures
            final(self).wf(),
            final(self).eng().cursor_moved(old(self).eng(), old(self).eng().cur_max()),
            final(self).same_extras(*old(self)),
    {
        self.form.engine.move_line_end()
    }

    /// Moves the cursor to `position`, clamped to the largest column.
    pub fn set_cursor_position(&mut self, position: usize)
        requires
            old(self).wf(),
        ensures
            final(self).wf(),
            final(self).eng().cursor_moved(
                old(self).eng(),
                if position <= old(self).eng().cur_max() {
                    position as nat
                } else {
                    old(self).eng().cur_max()
                },
            ),
            final(self).same_extras(*old(self)),
    {
        self.form.engine.set_cursor_position(position)
    }

    /// Switches to insert mode.
    pub fn enter_edit_mode(&mut self)
        requires
            old(self).wf(),
        ensures
            final(self).wf(),
            final(self).eng().mode_of() == AppMode::Ins,
            final(self).eng().values() == old(self).eng().values(),
            final(self).eng().field_idx() == old(self).eng().field_idx(),
            final(self).eng().cursor_at() == old(self).eng().cursor_at(),
            final(self).eng().same_aux(old(self).eng()),
            final(self).same_extras(*old(self)),
    {
        self.form.engine.enter_edit_mode()
    }

    /// Leaves insert mode (see `EditorCore::exit_edit_mode`).
    pub fn exit_edit_mode(&mut self) -> (res: Result<(), EditError>)
        requires
            old(self).wf(),
        ensures
            final(self).wf(),
            res is Ok,
            final(self).eng().mode_of() == AppMode::Nor,
            final(self).eng().values() == old(self).eng().values(),
            final(self).eng().cursor_at() == if old(self).eng().cursor_at() <= max_cursor(
                old(self).eng().cur_text().len(),
                AppMode::Nor,
            ) {
                old(self).eng().cursor_at()
            } else {
                max_cursor(old(self).eng().cur_text().len(), AppMode::Nor)
            },
            final(self).same_extras(*old(self)),
    {
        self.form.engine.exit_edit_mode()
    }

    /// Inserts `ch` at the cursor (see `EditorCore::insert_char`).
    pub fn insert_char(&mut self, ch: char) -> (res: Result<(), EditError>)
        requires
            old(self).wf(),
        ensures
            final(self).wf(),
            final(self).eng().count() == old(self).eng().count(),
            old(self).eng().count() > 0 && old(self).eng().insert_room() != Some(0nat) ==> res is Ok
                && final(self).eng().edited(
                old(self).eng(),
                EditKind::Insert,
                old(self).eng().values().update(
                    old(self).eng().field_idx() as int,
                    splice(
                        old(self).eng().cur_text(),
                        old(self).eng().cursor_at() as int,
                        old(self).eng().cursor_at() as int,
                        seq![ch],
                    ),
                ),
                old(self).eng().cursor_at() + 1,
            ),
            old(self).eng().count() == 0 || old(self).eng().insert_room() == Some(0nat) ==> res is Err
                && final(self).eng() == old(self).eng(),
            final(self).same_extras(*old(self)),
    {
        self.form.engine.insert_char(ch)
    }

    /// Inserts `text` at the cursor as one typing step (see
    /// `EditorCore::insert_text`).
    pub fn insert_text(&mut self, text: &str) -> (res: Result<(), EditError>)
        requires
            old(self).wf(),
        ensures
            final(self).wf(),
            final(self).eng().count() == old(self).eng().count(),
            text@.len() > 0 && old(self).eng().count() > 0 && old(self).eng().insert_room() is None
                ==> res is Ok && final(self).eng().edited(
                old(self).eng(),
                EditKind::Insert,
                old(self).eng().values().update(
                    old(self).eng().field_idx() as int,
                    splice(
                        old(self).eng().cur_text(),
                        old(self).eng().cursor_at() as int,
                        old(self).eng().cursor_at() as int,
                        text@,
                    ),
                ),
                old(self).eng().cursor_at() + text@.len(),
            ),
            text@.len() == 0 ==> res is Ok && final(self).eng() == old(self).eng(),
            final(self).same_extras(*old(self)),
    {
        let r = self.form.engine.insert_text(text);
        proof {
            assert(text@.take(text@.len() as int) =~= text@);
        }
        r
    }

    /// Replaces the value of the current field with the first line of
    /// `value`, as one undo step.
    pub fn set_current_field_value(&mut self, value: String)
        requires
            old(self).wf(),
        ensures
            final(self).wf(),
            old(self).eng().count() == 0 ==> final(self).eng() == old(self).eng(),
            old(self).eng().count() > 0 ==> final(self).eng().edited(
                old(self).eng(),
                EditKind::Other,
                old(self).eng().values().update(
                    old(self).eng().field_idx() as int,
                    first_line(value@),
                ),
                if old(self).eng().cursor_at() <= first_line(value@).len() {
                    old(self).eng().cursor_at()
                } else {
                    first_line(value@).len()
                },
            ),
            final(self).same_extras(*old(self)),
    {
        let line = sanitize_single_line(value.as_str());
        self.form.engine.set_current_field_value(line)
    }

    /// Deletes the character before the cursor (see
    /// `EditorCore::delete_backward`).
    pub fn delete_backward(&mut self) -> (res: Result<(), EditError>)
        requires
            old(self).wf(),
        ensures
            final(self).wf(),
            res is Ok,
            old(self).eng().count() == 0 || old(self).eng().cursor_at() == 0 ==> final(self).eng()
                == old(self).eng(),
            old(self).eng().count() > 0 && old(self).eng().cursor_at() > 0 ==> final(self).eng().edited(
                old(self).eng(),
                EditKind::Delete,
                old(self).eng().values().update(
                    old(self).eng().field_idx() as int,
                    splice(
                        old(self).eng().cur_text(),
                        old(self).eng().cursor_at() - 1,
                        old(self).eng().cursor_at() as int,
                        Seq::empty(),
                    ),
                ),
                (old(self).eng().cursor_at() - 1) as nat,
            ),
            final(self).same_extras(*old(self)),
    {
        self.form.engine.delete_backward()
    }

    /// Deletes the character under the cursor (see
    /// `EditorCore::delete_forward`).
    pub fn delete_forward(&mut self) -> (res: Result<(), EditError>)
        requires
            old(self).wf(),
        ensures
            final(self).wf(),
            final(self).eng().count() == old(self).eng().count(),
            res is Ok,
            old(self).eng().count() == 0 || old(self).eng().cursor_at() >= old(self).eng().cur_text().len()
                ==> final(self).eng() == old(self).eng(),
            old(self).eng().count() > 0 && old(self).eng().cursor_at() < old(self).eng().cur_text().len()
                ==> final(self).eng().values() == old(self).eng().values().update(
                old(self).eng().field_idx() as int,
                splice(
                    old(self).eng().cur_text(),
                    old(self).eng().cursor_at() as int,
                    old(self).eng().cursor_at() + 1int,
                    Seq::empty(),
                ),
            ),
            final(self).same_extras(*old(self)),
    {
        self.form.engine.delete_forward()
    }

    /// Word motion: start of the next word.
    pub fn move_word_next(&mut self)
        requires
            old(self).wf(),
        ensures
            final(self).wf(),
            final(self).eng().cursor_moved(
                old(self).eng(),
                old(self).eng().word_target(WordTarget::NextWordStart, false),
            ),
            final(self).same_extras(*old(self)),
    {
        self.form.engine.move_word_next()
    }

    /// Word motion: start of the previous word.
    pub fn move_word_prev(&mut self)
        requires
            old(self).wf(),
        ensures
            final(self).wf(),
            final(self).eng().cursor_moved(
                old(self).eng(),
                old(self).eng().word_target(WordTarget::PrevWordStart, false),
            ),
            final(self).same_extras(*old(self)),
    {
        self.form.engine.move_word_prev()
    }

    /// Word motion: end of the current or next word.
    pub fn move_word_end(&mut self)
        requires
            old(self).wf(),
        ensures
            final(self).wf(),
            final(self).eng().cursor_moved(
                old(self).eng(),
                old(self).eng().word_target(WordTarget::NextWordEnd, false),
            ),
            final(self).same_extras(*old(self)),
    {
        self.form.engine.move_word_end()
    }

    /// Word motion: end of the previous word.
    pub fn move_word_end_prev(&mut self)
        requires
            old(self).wf(),
        ensures
            final(self).wf(),
            final(self).eng().cursor_moved(
                old(self).eng(),
                old(self).eng().word_target(WordTarget::PrevWordEnd, false),
            ),
            final(self).same_extras(*old(self)),
    {
        self.form.engine.move_word_end_prev()
    }

    /// WORD motion: start of the next WORD.
    pub fn move_big_word_next(&mut self)
        requires
            old(self).wf(),
        ensures
            final(self).wf(),
            final(self).eng().cursor_moved(
                old(self).eng(),
                old(self).eng().word_target(WordTarget::NextWordStart, true),
            ),
            final(self).same_extras(*old(self)),
    {
        self.form.engine.move_big_word_next()
    }

    /// WORD motion: start of the previous WORD.
    pub fn move_big_word_prev(&mut self)
        requires
            old(self).wf(),
        ensures
            final(self).wf(),
            final(self).eng().cursor_moved(
                old(self).eng(),
                old(self).eng().word_target(WordTarget::PrevWordStart, true),
            ),
            final(self).same_extras(*old(self)),
    {
        self.form.engine.move_big_word_prev()
    }

    /// WORD motion: end of the current or next WORD.
    pub fn move_big_word_end(&mut self)
        requires
            old(self).wf(),
        ensures
            final(self).wf(),
            final(self).eng().cursor_moved(
                old(self).eng(),
                old(self).eng().word_target(WordTarget::NextWordEnd, true),
            ),
            final(self).same_extras(*old(self)),
    {
        self.form.engine.move_big_word_end()
    }

    /// WORD motion: end of the previous WORD.
    pub fn move_big_word_end_prev(&mut self)
        requires
            old(self).wf(),
        ensures
            final(self).wf(),
            final(self).eng().cursor_moved(
                old(self).eng(),
                old(self).eng().word_target(WordTarget::PrevWordEnd, true),
            ),
            final(self).same_extras(*old(self)),
    {
        self.form.engine.move_big_word_end_prev()
    }

    /// Enters insert mode after the character under the cursor (vim `a`).
    pub fn enter_append_mode(&mut self)
        requires
            old(self).wf(),
        ensures
            final(self).wf(),
            final(self).eng().mode_of() == AppMode::Ins,
            final(self).eng().values() == old(self).eng().values(),
            final(self).eng().cursor_at() == if old(self).eng().cursor_at() < old(self).eng().cur_text().len() {
                old(self).eng().cursor_at() + 1
            } else {
                old(self).eng().cur_text().len()
            },
            final(self).same_extras(*old(self)),
    {
        self.form.engine.enter_append_mode()
    }

    /// The current field as displayed (through an active display mask).
    pub fn current_display_text(&self) -> (res: String)
        requires
            self.wf(),
        ensures
            res@ == match self.eng().active_mask() {
                Some(m) => crate::validation::mask::masked_display(
                    m.pattern_view(),
                    m.input_char_view(),
                    m.mode_view(),
                    self.eng().cur_text(),
                ),
                None => self.eng().cur_text(),
            },
    {
        self.form.engine.current_display_text()
    }

    /// The cursor in display coordinates: mapped through the active display
    /// mask, the raw cursor otherwise.
    pub fn display_cursor_position(&self) -> (res: usize)
        requires
            self.wf(),
        ensures
            match self.eng().active_mask() {
                Some(m) => if self.eng().cursor_at() + m.pattern_byte_len() <= usize::MAX {
                    (self.eng().cursor_at() < m.input_count() ==> m.is_input_at(res as int)
                        && crate::validation::mask::count_inputs(
                        m.pattern_view(),
                        m.input_char_view(),
                        res as int,
                    ) == self.eng().cursor_at()) && (self.eng().cursor_at() >= m.input_count() ==> res
                        == m.pattern_byte_len() + self.eng().cursor_at() - m.input_count())
                } else {
                    res == self.eng().cursor_at()
                },
                None => res == self.eng().cursor_at(),
            },
    {
        self.form.engine.display_cursor_position()
    }
}


impl<P: TextInputDataProvider> TextInputState<P> {
    /// Turns validation on or off.
    pub fn set_validation_enabled(&mut self, enabled: bool)
        requires
            old(self).wf(),
        ensures
            final(self).wf(),
            final(self).eng().validation_on() == enabled,
            final(self).eng().values() == old(self).eng().values(),
            final(self).eng().configs() == old(self).eng().configs(),
            final(self).same_extras(*old(self)),
    {
        self.form.engine.set_validation_enabled(enabled)
    }

    /// Whether validation is on.
    pub fn is_validation_enabled(&self) -> (res: bool)
        ensures
            res == self.eng().validation_on(),
    {
        self.form.engine.is_validation_enabled()
    }

    /// Sets the validation configuration of field `field_index`.
    pub fn set_field_validation(&mut self, field_index: usize, config: ValidationConfig)
        requires
            old(self).wf(),
        ensures
            final(self).wf(),
            field_index < old(self).eng().count() ==> final(self).eng().configs()
                == old(self).eng().configs().update(field_index as int, Some(config)),
            field_index >= old(self).eng().count() ==> final(self).eng().configs()
                == old(self).eng().configs(),
            final(self).eng().values() == old(self).eng().values(),
            final(self).same_extras(*old(self)),
    {
        self.form.engine.set_field_validation(field_index, config)
    }

    /// Removes the validation configuration of field `field_index`.
    pub fn remove_field_validation(&mut self, field_index: usize)
        requires
            old(self).wf(),
        ensures
            final(self).wf(),
            field_index < old(self).eng().count() ==> final(self).eng().configs()
                == old(self).eng().configs().update(field_index as int, None),
            field_index >= old(self).eng().count() ==> final(self).eng().configs()
                == old(self).eng().configs(),
            final(self).eng().values() == old(self).eng().values(),
            final(self).same_extras(*old(self)),
    {
        self.form.engine.remove_field_validation(field_index)
    }

    /// Validates the current field.
    pub fn validate_current_field(&mut self) -> (res: ValidationResult)
        requires
            old(self).wf(),
        ensures
            final(self).wf(),
            old(self).eng().count() == 0 ==> res is Valid,
            old(self).eng().count() > 0 ==> old(self).eng().is_field_result(
                old(self).eng().field_idx() as int,
                res,
            ),
            final(self).eng().values() == old(self).eng().values(),
            final(self).same_extras(*old(self)),
    {
        self.form.engine.validate_current_field()
    }

    /// Validates field `field_index`; `None` out of range.
    pub fn validate_field(&mut self, field_index: usize) -> (res: Option<ValidationResult>)
        requires
            old(self).wf(),
        ensures
            final(self).wf(),
            field_index >= old(self).eng().count() ==> res is None,
            field_index < old(self).eng().count() ==> (res matches Some(r) && old(self).eng().is_field_result(
                field_index as int,
                r,
            )),
            final(self).eng().values() == old(self).eng().values(),
            final(self).same_extras(*old(self)),
    {
        self.form.engine.validate_field(field_index)
    }

    /// Forgets every recorded validation result.
    pub fn clear_validation_results(&mut self)
        requires
            old(self).wf(),
        ensures
            final(self).wf(),
            forall|i: int|
                0 <= i < final(self).eng().results().len() ==> (#[trigger] final(self).eng().results()[i]) is None,
            final(self).eng().values() == old(self).eng().values(),
            final(self).same_extras(*old(self)),
    {
        self.form.engine.clear_validation_results()
    }

    /// Whether the cursor may leave the current field.
    pub fn can_switch_fields(&self) -> (res: bool)
        requires
            self.wf(),
        ensures
            res == !self.eng().switch_blocked(),
    {
        self.form.engine.can_switch_fields()
    }

    /// Why leaving the current field is blocked, if it is.
    pub fn field_switch_block_reason(&self) -> (res: Option<String>)
        requires
            self.wf(),
        ensures
            res is Some <==> self.eng().switch_blocked(),
            res matches Some(m) ==> m@ == crate::validation::limits::below_minimum_message(),
    {
        self.form.engine.field_switch_block_reason()
    }

    /// Why the latest attempt to leave a field was blocked, if it was.
    pub fn last_switch_block(&self) -> (res: Option<&str>)
        ensures
            match res {
                Some(s) => self.eng().switch_block() == Some(s@),
                None => self.eng().switch_block() is None,
            },
    {
        self.form.engine.last_switch_block()
    }

    /// The external validation state of field `field_index`.
    pub fn external_validation_of(&self, field_index: usize) -> (res: ExternalValidationState)
        requires
            self.wf(),
        ensures
            field_index < self.eng().count() ==> res == self.eng().externals()[field_index as int],
            field_index >= self.eng().count() ==> res == ExternalValidationState::NotValidated,
    {
        self.form.engine.external_validation_of(field_index)
    }

    /// Resets every field's external validation state.
    pub fn clear_all_external_validation(&mut self)
        requires
            old(self).wf(),
        ensures
            final(self).wf(),
            forall|i: int|
                0 <= i < final(self).eng().externals().len() ==> #[trigger] final(self).eng().externals()[i]
                    == ExternalValidationState::NotValidated,
            final(self).eng().values() == old(self).eng().values(),
            final(self).same_extras(*old(self)),
    {
        self.form.engine.clear_all_external_validation()
    }

    /// Resets the external validation state of field `field_index`.
    pub fn clear_external_validation(&mut self, field_index: usize)
        requires
            old(self).wf(),
        ensures
            final(self).wf(),
            field_index < old(self).eng().count() ==> final(self).eng().externals()
                == old(self).eng().externals().update(
                field_index as int,
                ExternalValidationState::NotValidated,
            ),
            final(self).eng().values() == old(self).eng().values(),
            final(self).same_extras(*old(self)),
    {
        self.form.engine.clear_external_validation(field_index)
    }

    /// Sets the external validation state of field `field_index`.
    pub fn set_external_validation(&mut self, field_index: usize, state: ExternalValidationState)
        requires
            old(self).wf(),
        ensures
            final(self).wf(),
            field_index < old(self).eng().count() ==> final(self).eng().externals()
                == old(self).eng().externals().update(field_index as int, state),
            field_index >= old(self).eng().count() ==> final(self).eng().externals()
                == old(self).eng().externals(),
            final(self).eng().values() == old(self).eng().values(),
            final(self).same_extras(*old(self)),
    {
        self.form.engine.set_external_validation(field_index, state)
    }

    /// Undoes the latest step (see `EditorCore::undo`).
    pub fn undo(&mut self) -> (res: bool)
        requires
            old(self).wf(),
        ensures
            final(self).wf(),
            res == (old(self).eng().history().undo_view().len() > 0),
            !res ==> final(self).eng() == old(self).eng(),
            res ==> final(self).eng().checkpoint() == old(self).eng().history().undo_view().last(),
            res ==> final(self).eng().history().redo_view() == old(self).eng().history().redo_view().push(
                old(self).eng().checkpoint(),
            ),
            res ==> final(self).eng().undone(old(self).eng()),
            final(self).eng().count() == old(self).eng().count(),
            final(self).same_extras(*old(self)),
    {
        self.form.engine.undo()
    }

    /// Redoes the latest undone step (see `EditorCore::redo`).
    pub fn redo(&mut self) -> (res: bool)
        requires
            old(self).wf(),
        ensures
            final(self).wf(),
            res == (old(self).eng().history().redo_view().len() > 0),
            !res ==> final(self).eng() == old(self).eng(),
            res ==> final(self).eng().checkpoint() == old(self).eng().history().redo_view().last(),
            res ==> final(self).eng().redone(old(self).eng()),
            final(self).eng().count() == old(self).eng().count(),
            final(self).same_extras(*old(self)),
    {
        self.form.engine.redo()
    }

    /// Whether a step can be undone.
    pub fn can_undo(&self) -> (res: bool)
        ensures
            res == (self.eng().history().undo_view().len() > 0),
    {
        self.form.engine.can_undo()
    }

    /// Whether a step can be redone.
    pub fn can_redo(&self) -> (res: bool)
        ensures
            res == (self.eng().history().redo_view().len() > 0),
    {
        self.form.engine.can_redo()
    }

    /// Forgets all undo and redo steps.
    pub fn clear_history(&mut self)
        requires
            old(self).wf(),
        ensures
            final(self).wf(),
            final(self).eng().history().undo_view().len() == 0,
            final(self).eng().history().redo_view().len() == 0,
            final(self).eng().values() == old(self).eng().values(),
            final(self).same_extras(*old(self)),
    {
        self.form.engine.clear_history()
    }

    /// Sets the maximum number of undo steps, dropping the oldest beyond it.
    pub fn set_history_limit(&mut self, limit: usize)
        requires
            old(self).wf(),
        ensures
            final(self).wf(),
            final(self).eng().history().limit_view() == limit,
            final(self).eng().history().undo_view() == keep_newest(
                old(self).eng().history().undo_view(),
                limit as nat,
            ),
            final(self).eng().values() == old(self).eng().values(),
            final(self).same_extras(*old(self)),
    {
        self.form.engine.set_history_limit(limit)
    }
}

} // verus!
