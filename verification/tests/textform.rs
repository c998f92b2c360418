use canvas::data_provider::DataProvider;
use canvas::keybindings::key_sequence::{KeyEventKind, KeyInput};
use canvas::keybindings::{KeyCode, KeyModifiers};
use canvas::modes::AppMode;
use canvas::textform::state::{TextFormEventOutcome, TextFormState};
use canvas::textinput::input::InputEvent;

#[derive(Default)]
struct TestProvider {
    fields: [String; 2],
}

impl DataProvider for TestProvider {
    fn field_count(&self) -> usize {
        2
    }

    fn field_name(&self, index: usize) -> &str {
        match index {
            0 => "first",
            1 => "second",
            _ => "",
        }
    }

    fn field_value(&self, index: usize) -> &str {
        self.fields.get(index).map(String::as_str).unwrap_or("")
    }

    fn set_field_value(&mut self, index: usize, value: String) {
        if let Some(field) = self.fields.get_mut(index) {
            *field = value;
        }
    }
}

#[derive(Default)]
struct VecProvider {
    fields: Vec<String>,
}

impl DataProvider for VecProvider {
    fn field_count(&self) -> usize {
        self.fields.len()
    }

    fn field_name(&self, index: usize) -> &str {
        match index {
            0 => "first",
            1 => "second",
            _ => "",
        }
    }

    fn field_value(&self, index: usize) -> &str {
        self.fields.get(index).map(String::as_str).unwrap_or("")
    }

    fn set_field_value(&mut self, index: usize, value: String) {
        if let Some(field) = self.fields.get_mut(index) {
            *field = value;
        }
    }
}

#[test]
fn delete_line_clears_current_field_without_removing_it() {
    let mut form = TextFormState::new(TestProvider {
        fields: ["abc".to_string(), "def".to_string()],
    });
    form.clear_current_field();

    assert_eq!(form.data_provider().field_count(), 2);
    assert_eq!(form.current_text(), "");
}

#[test]
fn clear_following_fields_keeps_slots() {
    let mut form = TextFormState::new(VecProvider {
        fields: vec!["row1".to_string(), "row2".to_string(), "row3".to_string()],
    });
    form.clear_current_and_following_fields(2);
    assert_eq!(form.fixed_field_count(), 3);
    assert_eq!(form.data_provider().capture_content(), vec!["", "", "row3"]);
    assert_eq!(form.current_field(), 0);
    form.clear_current_and_following_fields(10);
    assert_eq!(form.data_provider().capture_content(), vec!["", "", ""]);
}

#[test]
fn delete_to_field_end_and_change_field() {
    let mut form = TextFormState::new(TestProvider {
        fields: ["abcdef".to_string(), "x".to_string()],
    });
    form.engine.set_cursor_position(2);
    form.delete_to_field_end();
    assert_eq!(form.current_text(), "ab");
    assert_eq!(form.cursor_position(), 1);
    form.change_current_field();
    assert_eq!(form.current_text(), "");
    assert_eq!(form.mode(), canvas::modes::AppMode::Ins);
    assert!(form.undo());
    assert_eq!(form.current_text(), "ab");
    assert!(form.redo());
    assert_eq!(form.current_text(), "");
    form.clear_field(1);
    assert_eq!(form.data_provider().field_value(1), "");
}

#[test]
fn form_paste_inserts_without_line_breaks() {
    let mut form = TextFormState::new(TestProvider {
        fields: ["ab".to_string(), "row2".to_string()],
    });
    assert_eq!(form.paste("X\nY"), canvas::textform::state::TextFormEventOutcome::Handled);
    assert_eq!(form.current_text(), "XYab");
    assert_eq!(form.data_provider().field_value(0), "XYab");
}

fn press(code: KeyCode) -> KeyInput {
    KeyInput::press(code, KeyModifiers::empty())
}

#[test]
fn enter_moves_between_fields_then_submits() {
    let mut form = TextFormState::new(TestProvider::default());

    let first = form.input(press(KeyCode::Enter));
    assert_eq!(first, TextFormEventOutcome::Handled);
    assert_eq!(form.current_field(), 1);

    let second = form.input(press(KeyCode::Enter));
    assert_eq!(second, TextFormEventOutcome::Submitted);
    assert_eq!(form.current_field(), 1);
}

#[test]
fn typed_keys_edit_the_current_field_and_escape_leaves_insert_mode() {
    let mut form = TextFormState::new(TestProvider {
        fields: ["ab".to_string(), "cd".to_string()],
    });
    assert_eq!(form.input(press(KeyCode::Char('x'))), TextFormEventOutcome::Handled);
    assert_eq!(form.mode(), AppMode::Ins);
    assert_eq!(form.current_text(), "xab");
    assert_eq!(form.cursor_position(), 1);
    assert_eq!(form.input(press(KeyCode::End)), TextFormEventOutcome::Handled);
    assert_eq!(form.cursor_position(), 3);
    assert_eq!(form.input(press(KeyCode::Char('y'))), TextFormEventOutcome::Handled);
    assert_eq!(form.current_text(), "xaby");
    assert_eq!(form.input(press(KeyCode::Backspace)), TextFormEventOutcome::Handled);
    assert_eq!(form.current_text(), "xab");
    assert_eq!(
        form.input(KeyInput::press(KeyCode::Char('a'), KeyModifiers::empty().with_ctrl())),
        TextFormEventOutcome::Handled
    );
    assert_eq!(form.cursor_position(), 0);
    assert_eq!(form.input(press(KeyCode::Tab)), TextFormEventOutcome::Handled);
    assert_eq!(form.current_field(), 1);
    assert_eq!(form.input(press(KeyCode::BackTab)), TextFormEventOutcome::Handled);
    assert_eq!(form.current_field(), 0);
    assert_eq!(form.input(press(KeyCode::Esc)), TextFormEventOutcome::Handled);
    assert_eq!(form.mode(), AppMode::Nor);
    assert_eq!(form.input(press(KeyCode::Esc)), TextFormEventOutcome::Ignored);
    let ctrl_x = KeyInput::press(KeyCode::Char('x'), KeyModifiers::empty().with_ctrl());
    assert_eq!(form.input(ctrl_x), TextFormEventOutcome::Ignored);
    assert_eq!(form.data_provider().field_value(0), "xab");
}

#[test]
fn key_releases_and_other_events_are_ignored() {
    let mut form = TextFormState::new(TestProvider::default());
    let release = KeyInput {
        code: KeyCode::Char('x'),
        modifiers: KeyModifiers::empty(),
        kind: KeyEventKind::Release,
    };
    assert_eq!(form.input(release), TextFormEventOutcome::Ignored);
    assert_eq!(form.handle_event(InputEvent::Other), TextFormEventOutcome::Ignored);
    assert_eq!(form.current_text(), "");
    assert_eq!(
        form.handle_event(InputEvent::Paste("a\nb".to_string())),
        TextFormEventOutcome::Handled
    );
    assert_eq!(form.current_text(), "ab");
    assert_eq!(
        form.handle_event(InputEvent::Key(press(KeyCode::Down))),
        TextFormEventOutcome::Handled
    );
    assert_eq!(form.current_field(), 1);
}
