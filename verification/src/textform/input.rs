//! Key and paste events for a form.
use vstd::prelude::*;

use crate::data_provider::DataProvider;
use crate::editor::engine::splice;
use crate::keybindings::key_sequence::{is_alt_only, is_ctrl_only, KeyCode, KeyEventKind, KeyInput};
use crate::keybindings::CanvasKeyAction;
use crate::modes::AppMode;
use crate::textform::keys::{shared_effect, stepped_field};
use crate::textform::state::{TextFormEventOutcome, TextFormState};
use crate::textinput::input::InputEvent;

verus! {

/// What a key does to a form.
#[derive(Debug, Clone, Copy, PartialEq, Eq, Structural)]
pub enum TextFormKeyAction {
    Ignore,
    EnterNextOrSubmit,
    NextField,
    PrevField,
    DeleteBackward,
    DeleteForward,
    WordPrev,
    WordNext,
    WordEnd,
    Left,
    Right,
    Up,
    Down,
    LineStart,
    LineEnd,
    Escape,
    Insert(char),
}

/// The action of a key: only presses act; Enter moves to the next field
/// or submits at the last, Tab and BackTab move between fields, Backspace
/// and Delete delete, the arrows move (by words with control), Home, End,
/// Ctrl-a and Ctrl-e go to the ends of the field, Alt-b, Alt-f and Alt-e
/// move by words, Esc leaves insert mode, and a character typed without
/// control or alt is inserted.
pub open spec fn form_key_action(k: KeyInput) -> TextFormKeyAction {
    if k.kind != KeyEventKind::Press {
        TextFormKeyAction::Ignore
    } else {
        match k.code {
            KeyCode::Enter => TextFormKeyAction::EnterNextOrSubmit,
            KeyCode::Tab => TextFormKeyAction::NextField,
            KeyCode::BackTab => TextFormKeyAction::PrevField,
            KeyCode::Backspace => TextFormKeyAction::DeleteBackward,
            KeyCode::Delete => TextFormKeyAction::DeleteForward,
            KeyCode::Left => if k.modifiers.ctrl {
                TextFormKeyAction::WordPrev
            } else {
                TextFormKeyAction::Left
            },
            KeyCode::Right => if k.modifiers.ctrl {
                TextFormKeyAction::WordNext
            } else {
                TextFormKeyAction::Right
            },
            KeyCode::Up => TextFormKeyAction::Up,
            KeyCode::Down => TextFormKeyAction::Down,
            KeyCode::Home => TextFormKeyAction::LineStart,
            KeyCode::End => TextFormKeyAction::LineEnd,
            KeyCode::Esc => TextFormKeyAction::Escape,
            KeyCode::Char(c) => if c == 'a' && is_ctrl_only(k.modifiers) {
                TextFormKeyAction::LineStart
            } else if c == 'e' && is_ctrl_only(k.modifiers) {
                TextFormKeyAction::LineEnd
            } else if c == 'b' && is_alt_only(k.modifiers) {
                TextFormKeyAction::WordPrev
            } else if c == 'f' && is_alt_only(k.modifiers) {
                TextFormKeyAction::WordNext
            } else if c == 'e' && is_alt_only(k.modifiers) {
                TextFormKeyAction::WordEnd
            } else if !k.modifiers.ctrl && !k.modifiers.alt {
                TextFormKeyAction::Insert(c)
            } else {
                TextFormKeyAction::Ignore
            },
            _ => TextFormKeyAction::Ignore,
        }
    }
}

/// The action of a key; see `form_key_action`.
pub fn classify_form_key(k: KeyInput) -> (res: TextFormKeyAction)
    ensures
        res == form_key_action(k),
{
    if k.kind != KeyEventKind::Press {
        return TextFormKeyAction::Ignore;
    }
    match k.code {
        KeyCode::Enter => TextFormKeyAction::EnterNextOrSubmit,
        KeyCode::Tab => TextFormKeyAction::NextField,
        KeyCode::BackTab => TextFormKeyAction::PrevField,
        KeyCode::Backspace => TextFormKeyAction::DeleteBackward,
        KeyCode::Delete => TextFormKeyAction::DeleteForward,
        KeyCode::Left => if k.modifiers.ctrl {
            TextFormKeyAction::WordPrev
        } else {
            TextFormKeyAction::Left
        },
        KeyCode::Right => if k.modifiers.ctrl {
            TextFormKeyAction::WordNext
        } else {
            TextFormKeyAction::Right
        },
        KeyCode::Up => TextFormKeyAction::Up,
        KeyCode::Down => TextFormKeyAction::Down,
        KeyCode::Home => TextFormKeyAction::LineStart,
        KeyCode::End => TextFormKeyAction::LineEnd,
        KeyCode::Esc => TextFormKeyAction::Escape,
        KeyCode::Char(c) => if c == 'a' && k.modifiers.is_ctrl_only() {
            TextFormKeyAction::LineStart
        } else if c == 'e' && k.modifiers.is_ctrl_only() {
            TextFormKeyAction::LineEnd
        } else if c == 'b' && k.modifiers.is_alt_only() {
            TextFormKeyAction::WordPrev
        } else if c == 'f' && k.modifiers.is_alt_only() {
            TextFormKeyAction::WordNext
        } else if c == 'e' && k.modifiers.is_alt_only() {
            TextFormKeyAction::WordEnd
        } else if !k.modifiers.ctrl && !k.modifiers.alt {
            TextFormKeyAction::Insert(c)
        } else {
            TextFormKeyAction::Ignore
        },
        _ => TextFormKeyAction::Ignore,
    }
}

/// The engine action a form key performs, for the keys that perform one.
pub open spec fn key_engine_action(a: TextFormKeyAction) -> Option<CanvasKeyAction> {
    match a {
        TextFormKeyAction::DeleteBackward => Some(CanvasKeyAction::DeleteCharBackward),
        TextFormKeyAction::DeleteForward => Some(CanvasKeyAction::DeleteCharForward),
        TextFormKeyAction::WordPrev => Some(CanvasKeyAction::MoveWordPrev),
        TextFormKeyAction::WordNext => Some(CanvasKeyAction::MoveWordNext),
        TextFormKeyAction::WordEnd => Some(CanvasKeyAction::MoveWordEnd),
        TextFormKeyAction::Left => Some(CanvasKeyAction::MoveLeft),
        TextFormKeyAction::Right => Some(CanvasKeyAction::MoveRight),
        TextFormKeyAction::Up => Some(CanvasKeyAction::MoveUp),
        TextFormKeyAction::Down => Some(CanvasKeyAction::MoveDown),
        TextFormKeyAction::LineStart => Some(CanvasKeyAction::MoveLineStart),
        TextFormKeyAction::LineEnd => Some(CanvasKeyAction::MoveLineEnd),
        _ => None,
    }
}

/// The engine action a form key performs; see `key_engine_action`.
pub fn engine_action_of(a: TextFormKeyAction) -> (res: Option<CanvasKeyAction>)
    ensures
        res == key_engine_action(a),
{
    match a {
        TextFormKeyAction::DeleteBackward => Some(CanvasKeyAction::DeleteCharBackward),
        TextFormKeyAction::DeleteForward => Some(CanvasKeyAction::DeleteCharForward),
        TextFormKeyAction::WordPrev => Some(CanvasKeyAction::MoveWordPrev),
        TextFormKeyAction::WordNext => Some(CanvasKeyAction::MoveWordNext),
        TextFormKeyAction::WordEnd => Some(CanvasKeyAction::MoveWordEnd),
        TextFormKeyAction::Left => Some(CanvasKeyAction::MoveLeft),
        TextFormKeyAction::Right => Some(CanvasKeyAction::MoveRight),
        TextFormKeyAction::Up => Some(CanvasKeyAction::MoveUp),
        TextFormKeyAction::Down => Some(CanvasKeyAction::MoveDown),
        TextFormKeyAction::LineStart => Some(CanvasKeyAction::MoveLineStart),
        TextFormKeyAction::LineEnd => Some(CanvasKeyAction::MoveLineEnd),
        _ => None,
    }
}

impl<D: DataProvider> TextFormState<D> {
    /// Enter: the next field, or `Submitted` (and nothing changes) at the
    /// last field.
    fn enter_next_field_or_submit(&mut self) -> (res: TextFormEventOutcome)
        requires
            old(self).wf(),
        ensures
            final(self).wf(),
            final(self).engine.count() == old(self).engine.count(),
            if old(self).engine.field_idx() + 1 >= old(self).engine.count() {
                res == TextFormEventOutcome::Submitted && *final(self) == *old(self)
            } else {
                res == TextFormEventOutcome::Handled && stepped_field(final(self).engine, old(self).engine, true)
            },
    {
        let n = self.engine.field_count();
        let last = if n == 0 {
            0
        } else {
            n - 1
        };
        if self.engine.current_field() >= last {
            TextFormEventOutcome::Submitted
        } else {
            let _ = self.engine.next_field();
            TextFormEventOutcome::Handled
        }
    }

    /// A typed character: insert mode, then the character at the cursor.
    fn type_char(&mut self, c: char) -> (res: TextFormEventOutcome)
        requires
            old(self).wf(),
        ensures
            final(self).wf(),
            final(self).engine.count() == old(self).engine.count(),
            ({
                let o = old(self).engine;
                let n = final(self).engine;
                &&& res == TextFormEventOutcome::Handled
                &&& n.mode_of() == AppMode::Ins
                &&& (o.count() > 0 && o.insert_room() != Some(0nat) ==> n.values() == o.values().update(
                    o.field_idx() as int,
                    splice(o.cur_text(), o.cursor_at() as int, o.cursor_at() as int, seq![c]),
                ) && n.cursor_at() == o.cursor_at() + 1)
                &&& (o.count() == 0 || o.insert_room() == Some(0nat) ==> n.values() == o.values()
                    && n.cursor_at() == o.cursor_at())
            }),
    {
        self.engine.enter_edit_mode();
        let _ = self.engine.insert_char(c);
        TextFormEventOutcome::Handled
    }

    /// What handling `key` does: the outcome `res` and the form `after`,
    /// from the form `self` before (see `input`).
    pub open spec fn input_outcome(self, after: Self, key: KeyInput, res: TextFormEventOutcome) -> bool {
        let o = self.engine;
        let n = after.engine;
        let a = form_key_action(key);
        &&& a == TextFormKeyAction::Ignore ==> res == TextFormEventOutcome::Ignored && after
            == self
        &&& a == TextFormKeyAction::EnterNextOrSubmit ==> (if o.field_idx() + 1 >= o.count() {
            res == TextFormEventOutcome::Submitted && after == self
        } else {
            res == TextFormEventOutcome::Handled && stepped_field(n, o, true)
        })
        &&& a == TextFormKeyAction::NextField ==> res == TextFormEventOutcome::Handled
            && stepped_field(n, o, true)
        &&& a == TextFormKeyAction::PrevField ==> res == TextFormEventOutcome::Handled
            && stepped_field(n, o, false)
        &&& key_engine_action(a) matches Some(act) ==> res == TextFormEventOutcome::Handled
            && shared_effect(n, o, act)
        &&& a == TextFormKeyAction::Escape ==> (if o.mode_of() == AppMode::Ins {
            res == TextFormEventOutcome::Handled && shared_effect(n, o, CanvasKeyAction::ExitEditMode)
        } else {
            res == TextFormEventOutcome::Ignored && after == self
        })
        &&& a matches TextFormKeyAction::Insert(c) ==> {
            &&& res == TextFormEventOutcome::Handled
            &&& n.mode_of() == AppMode::Ins
            &&& (o.count() > 0 && o.insert_room() != Some(0nat) ==> n.values() == o.values().update(
                o.field_idx() as int,
                splice(o.cur_text(), o.cursor_at() as int, o.cursor_at() as int, seq![c]),
            ) && n.cursor_at() == o.cursor_at() + 1)
            &&& (o.count() == 0 || o.insert_room() == Some(0nat) ==> n.values() == o.values()
                && n.cursor_at() == o.cursor_at())
        }
    }

    /// Handles a key (see `form_key_action`); no key adds, removes or
    /// reorders a field.
    pub fn input(&mut self, key: KeyInput) -> (res: TextFormEventOutcome)
        requires
            old(self).wf(),
        ensures
            final(self).wf(),
            final(self).engine.count() == old(self).engine.count(),
            old(self).input_outcome(*final(self), key, res),
    {
        let a = classify_form_key(key);
        if let Some(act) = engine_action_of(a) {
            self.shared_step(&act);
            return TextFormEventOutcome::Handled;
        }
        match a {
            TextFormKeyAction::EnterNextOrSubmit => self.enter_next_field_or_submit(),
            TextFormKeyAction::NextField => {
                let _ = self.engine.next_field();
                TextFormEventOutcome::Handled
            },
            TextFormKeyAction::PrevField => {
                let _ = self.engine.prev_field();
                TextFormEventOutcome::Handled
            },
            TextFormKeyAction::Escape => {
                if self.engine.mode() == AppMode::Ins {
                    self.shared_step(&CanvasKeyAction::ExitEditMode);
                    TextFormEventOutcome::Handled
                } else {
                    TextFormEventOutcome::Ignored
                }
            },
            TextFormKeyAction::Insert(c) => self.type_char(c),
            _ => TextFormEventOutcome::Ignored,
        }
    }

    /// Handles an event: keys as `input` does, pasted text as `paste`
    /// does; anything else is ignored.
    pub fn handle_event(&mut self, event: InputEvent) -> (res: TextFormEventOutcome)
        requires
            old(self).wf(),
        ensures
            final(self).wf(),
            final(self).engine.count() == old(self).engine.count(),
            match event {
                InputEvent::Key(k) => old(self).input_outcome(*final(self), k, res),
                InputEvent::Paste(t) => (old(self).paste_outcome(*final(self), t@, res) || (res
                    == TextFormEventOutcome::Ignored && *final(self) == *old(self))) && (D::obeys_provider_spec()
                    ==> old(self).paste_outcome(*final(self), t@, res)),
                InputEvent::Other => res == TextFormEventOutcome::Ignored && *final(self) == *old(self),
            },
    {
        match event {
            InputEvent::Key(k) => self.input(k),
            InputEvent::Paste(text) => self.paste_checked(text.as_str()),
            InputEvent::Other => TextFormEventOutcome::Ignored,
        }
    }
}

} // verus!
