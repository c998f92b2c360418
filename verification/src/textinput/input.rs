//! Key and paste events for a single-line text input.
use vstd::prelude::*;

use crate::editor::engine::splice;
use crate::editor::history::EditKind;
use crate::editor::words::WordTarget;
use crate::keybindings::key_sequence::{
    is_alt_only, is_ctrl_only, is_plain, KeyCode, KeyEventKind, KeyInput,
};
use crate::modes::AppMode;
use crate::textinput::provider::TextInputDataProvider;
use crate::textinput::state::{TextInputEventOutcome, TextInputState};

verus! {

/// An event delivered to an input: a key, pasted text, or anything else.
pub enum InputEvent {
    Key(KeyInput),
    Paste(String),
    Other,
}

/// What a key does to a text input.
#[derive(Debug, Clone, Copy, PartialEq, Eq, Structural)]
pub enum TextInputKeyAction {
    Ignore,
    Submit,
    AcceptSuffix,
    DeleteBackward,
    DeleteForward,
    Left,
    Right,
    LineStart,
    LineEnd,
    WordPrev,
    WordNext,
    WordEnd,
    Insert(char),
}

/// The action of a key: only presses act; Enter submits, plain Tab
/// accepts the suggestion, Backspace and Delete delete, the arrows, Home,
/// End, Ctrl-a and Ctrl-e move, Alt-b, Alt-f and Alt-e move by words, and
/// a plain character is typed.
pub open spec fn text_input_key_action(k: KeyInput) -> TextInputKeyAction {
    if k.kind != KeyEventKind::Press {
        TextInputKeyAction::Ignore
    } else {
        match k.code {
            KeyCode::Enter => TextInputKeyAction::Submit,
            KeyCode::Tab => if is_plain(k.modifiers) {
                TextInputKeyAction::AcceptSuffix
            } else {
                TextInputKeyAction::Ignore
            },
            KeyCode::Backspace => TextInputKeyAction::DeleteBackward,
            KeyCode::Delete => TextInputKeyAction::DeleteForward,
            KeyCode::Left => TextInputKeyAction::Left,
            KeyCode::Right => TextInputKeyAction::Right,
            KeyCode::Home => TextInputKeyAction::LineStart,
            KeyCode::End => TextInputKeyAction::LineEnd,
            KeyCode::Char(c) => if c == 'a' && is_ctrl_only(k.modifiers) {
                TextInputKeyAction::LineStart
            } else if c == 'e' && is_ctrl_only(k.modifiers) {
                TextInputKeyAction::LineEnd
            } else if c == 'b' && is_alt_only(k.modifiers) {
                TextInputKeyAction::WordPrev
            } else if c == 'f' && is_alt_only(k.modifiers) {
                TextInputKeyAction::WordNext
            } else if c == 'e' && is_alt_only(k.modifiers) {
                TextInputKeyAction::WordEnd
            } else if is_plain(k.modifiers) {
                TextInputKeyAction::Insert(c)
            } else {
                TextInputKeyAction::Ignore
            },
            _ => TextInputKeyAction::Ignore,
        }
    }
}

/// The action of a key; see `text_input_key_action`.
pub fn classify_text_input_key(k: KeyInput) -> (res: TextInputKeyAction)
    ensures
        res == text_input_key_action(k),
{
    if k.kind != KeyEventKind::Press {
        return TextInputKeyAction::Ignore;
    }
    match k.code {
        KeyCode::Enter => TextInputKeyAction::Submit,
        KeyCode::Tab => if k.modifiers.is_empty() {
            TextInputKeyAction::AcceptSuffix
        } else {
            TextInputKeyAction::Ignore
        },
        KeyCode::Backspace => TextInputKeyAction::DeleteBackward,
        KeyCode::Delete => TextInputKeyAction::DeleteForward,
        KeyCode::Left => TextInputKeyAction::Left,
        KeyCode::Right => TextInputKeyAction::Right,
        KeyCode::Home => TextInputKeyAction::LineStart,
        KeyCode::End => TextInputKeyAction::LineEnd,
        KeyCode::Char(c) => if c == 'a' && k.modifiers.is_ctrl_only() {
            TextInputKeyAction::LineStart
        } else if c == 'e' && k.modifiers.is_ctrl_only() {
            TextInputKeyAction::LineEnd
        } else if c == 'b' && k.modifiers.is_alt_only() {
            TextInputKeyAction::WordPrev
        } else if c == 'f' && k.modifiers.is_alt_only() {
            TextInputKeyAction::WordNext
        } else if c == 'e' && k.modifiers.is_alt_only() {
            TextInputKeyAction::WordEnd
        } else if k.modifiers.is_empty() {
            TextInputKeyAction::Insert(c)
        } else {
            TextInputKeyAction::Ignore
        },
        _ => TextInputKeyAction::Ignore,
    }
}

impl<P: TextInputDataProvider> TextInputState<P> {
    /// What handling `key` does: the outcome `res` and the input `after`,
    /// from the input `self` before (see `input`).
    pub open spec fn input_outcome(self, after: Self, key: KeyInput, res: TextInputEventOutcome) -> bool {
        let o = self.eng();
        let n = after.eng();
        match text_input_key_action(key) {
            TextInputKeyAction::Ignore => res == TextInputEventOutcome::Ignored && after
                == self,
            TextInputKeyAction::Submit => res == TextInputEventOutcome::Submitted && after
                == self,
            TextInputKeyAction::AcceptSuffix => after.suffix_view() is None && (
            self.suffix_view() matches Some(sfx) && sfx.len() > 0 ==> res
                == TextInputEventOutcome::Handled && n.mode_of() == AppMode::Ins) && (!(
            self.suffix_view() matches Some(sfx) && sfx.len() > 0) ==> res
                == TextInputEventOutcome::Ignored && n == o),
            TextInputKeyAction::DeleteBackward => {
                &&& res == TextInputEventOutcome::Handled
                &&& after.suffix_view() is None
                &&& (o.count() == 0 || o.cursor_at() == 0 ==> n == o)
                &&& (o.count() > 0 && o.cursor_at() > 0 ==> n.edited(
                    o,
                    EditKind::Delete,
                    o.values().update(
                        o.field_idx() as int,
                        splice(o.cur_text(), o.cursor_at() - 1, o.cursor_at() as int, Seq::empty()),
                    ),
                    (o.cursor_at() - 1) as nat,
                ))
            },
            TextInputKeyAction::DeleteForward => {
                &&& res == TextInputEventOutcome::Handled
                &&& after.suffix_view() is None
                &&& (o.count() == 0 || o.cursor_at() >= o.cur_text().len() ==> n == o)
                &&& (o.count() > 0 && o.cursor_at() < o.cur_text().len() ==> n.values()
                    == o.values().update(
                    o.field_idx() as int,
                    splice(o.cur_text(), o.cursor_at() as int, o.cursor_at() + 1int, Seq::empty()),
                ))
            },
            TextInputKeyAction::Left => res == TextInputEventOutcome::Handled && n.cursor_moved(
                o,
                if o.cursor_at() > 0 {
                    (o.cursor_at() - 1) as nat
                } else {
                    o.cursor_at()
                },
            ) && after.same_extras(self),
            TextInputKeyAction::Right => res == TextInputEventOutcome::Handled && n.cursor_moved(
                o,
                if o.cursor_at() < o.cur_max() {
                    o.cursor_at() + 1
                } else {
                    o.cursor_at()
                },
            ) && after.same_extras(self),
            TextInputKeyAction::LineStart => res == TextInputEventOutcome::Handled
                && n.cursor_moved(o, 0) && after.same_extras(self),
            TextInputKeyAction::LineEnd => res == TextInputEventOutcome::Handled
                && n.cursor_moved(o, o.cur_max()) && after.same_extras(self),
            TextInputKeyAction::WordPrev => res == TextInputEventOutcome::Handled
                && n.cursor_moved(o, o.word_target(WordTarget::PrevWordStart, false))
                && after.same_extras(self),
            TextInputKeyAction::WordNext => res == TextInputEventOutcome::Handled
                && n.cursor_moved(o, o.word_target(WordTarget::NextWordStart, false))
                && after.same_extras(self),
            TextInputKeyAction::WordEnd => res == TextInputEventOutcome::Handled
                && n.cursor_moved(o, o.word_target(WordTarget::NextWordEnd, false))
                && after.same_extras(self),
            TextInputKeyAction::Insert(c) => {
                &&& res == TextInputEventOutcome::Handled
                &&& after.suffix_view() is None
                &&& n.mode_of() == AppMode::Ins
                &&& (o.count() > 0 && o.insert_room() != Some(0nat) ==> n.values()
                    == o.values().update(
                    o.field_idx() as int,
                    splice(o.cur_text(), o.cursor_at() as int, o.cursor_at() as int, seq![c]),
                ) && n.cursor_at() == o.cursor_at() + 1)
                &&& (o.count() == 0 || o.insert_room() == Some(0nat) ==> n.values()
                    == o.values() && n.cursor_at() == o.cursor_at())
            },
        }
    }

    /// Handles a key (see `text_input_key_action`). Ignored and submitting
    /// keys change nothing; editing keys drop the suggestion suffix first;
    /// a typed character enters insert mode.
    pub fn input(&mut self, key: KeyInput) -> (res: TextInputEventOutcome)
        requires
            old(self).wf(),
        ensures
            final(self).wf(),
            final(self).eng().count() == old(self).eng().count(),
            old(self).input_outcome(*final(self), key, res),
    {
        match classify_text_input_key(key) {
            TextInputKeyAction::Ignore => TextInputEventOutcome::Ignored,
            TextInputKeyAction::Submit => TextInputEventOutcome::Submitted,
            TextInputKeyAction::AcceptSuffix => self.accept_suggestion_suffix(),
            TextInputKeyAction::DeleteBackward => {
                self.clear_suggestion_suffix();
                let _ = self.delete_backward();
                TextInputEventOutcome::Handled
            },
            TextInputKeyAction::DeleteForward => {
                self.clear_suggestion_suffix();
                let _ = self.delete_forward();
                TextInputEventOutcome::Handled
            },
            TextInputKeyAction::Left => {
                let _ = self.move_left();
                TextInputEventOutcome::Handled
            },
            TextInputKeyAction::Right => {
                let _ = self.move_right();
                TextInputEventOutcome::Handled
            },
            TextInputKeyAction::LineStart => {
                self.move_line_start();
                TextInputEventOutcome::Handled
            },
            TextInputKeyAction::LineEnd => {
                self.move_line_end();
                TextInputEventOutcome::Handled
            },
            TextInputKeyAction::WordPrev => {
                self.move_word_prev();
                TextInputEventOutcome::Handled
            },
            TextInputKeyAction::WordNext => {
                self.move_word_next();
                TextInputEventOutcome::Handled
            },
            TextInputKeyAction::WordEnd => {
                self.move_word_end();
                TextInputEventOutcome::Handled
            },
            TextInputKeyAction::Insert(c) => {
                self.enter_edit_mode();
                self.clear_suggestion_suffix();
                let _ = self.insert_char(c);
                TextInputEventOutcome::Handled
            },
        }
    }

    /// Handles an event: keys as `input` does, pasted text as `paste`
    /// does; anything else is ignored.
    pub fn handle_event(&mut self, event: InputEvent) -> (res: TextInputEventOutcome)
        requires
            old(self).wf(),
        ensures
            final(self).wf(),
            final(self).eng().count() == old(self).eng().count(),
            match event {
                InputEvent::Key(k) => old(self).input_outcome(*final(self), k, res),
                InputEvent::Paste(t) => old(self).paste_outcome(*final(self), t@, res),
                InputEvent::Other => res == TextInputEventOutcome::Ignored && *final(self) == *old(self),
            },
    {
        match event {
            InputEvent::Key(k) => self.input(k),
            InputEvent::Paste(text) => self.paste(text.as_str()),
            InputEvent::Other => TextInputEventOutcome::Ignored,
        }
    }
}

} // verus!
