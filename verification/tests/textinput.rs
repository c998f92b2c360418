use canvas::keybindings::key_sequence::KeyInput;
use canvas::keybindings::{KeyCode, KeyModifiers};
use canvas::textinput::input::InputEvent;
use canvas::modes::AppMode;
use canvas::textinput::provider::TextInputProvider;
use canvas::textinput::state::{TextInputEventOutcome, TextInputState};
use canvas::validation::config::ValidationConfig;
use canvas::validation::mask::DisplayMask;

#[test]
fn paste_filters_line_breaks_for_single_line_input() {
    let mut input = TextInputState::<TextInputProvider>::from_text("ab");
    input.enter_edit_mode();
    input.set_cursor_position(2);

    let outcome = input.paste("c\r\nd\nef");

    assert_eq!(outcome, TextInputEventOutcome::Handled);
    assert_eq!(input.text(), "abcdef");
}

#[test]
fn undo_redo_round_trip() {
    let mut input = TextInputState::<TextInputProvider>::from_text("");
    input.enter_edit_mode();
    let _ = input.insert_text("abc");

    assert_eq!(input.text(), "abc");
    assert!(input.can_undo());
    assert!(input.undo());
    assert_eq!(input.text(), "");
    assert!(input.can_redo());
    assert!(input.redo());
    assert_eq!(input.text(), "abc");
    assert!(!input.redo());
}

#[test]
fn undo_separates_insert_and_delete_runs() {
    let mut input = TextInputState::<TextInputProvider>::from_text("");
    input.enter_edit_mode();
    let _ = input.insert_text("ab");
    let _ = input.delete_backward();
    assert_eq!(input.text(), "a");

    assert!(input.undo());
    assert_eq!(input.text(), "ab");
    assert!(input.undo());
    assert_eq!(input.text(), "");
    assert!(!input.undo());
}

#[test]
fn history_limit_drops_oldest() {
    let mut input = TextInputState::<TextInputProvider>::from_text("");
    input.set_history_limit(2);

    input.set_current_field_value("one".to_string());
    input.set_current_field_value("two".to_string());
    input.set_current_field_value("three".to_string());

    assert!(input.undo());
    assert_eq!(input.text(), "two");
    assert!(input.undo());
    assert_eq!(input.text(), "one");
    assert!(!input.undo());
}

#[test]
fn cursor_move_breaks_coalescing() {
    let mut input = TextInputState::<TextInputProvider>::from_text("");
    input.enter_edit_mode();
    let _ = input.insert_text("ab");
    let _ = input.move_left();
    let _ = input.insert_text("X");
    assert_eq!(input.text(), "aXb");

    assert!(input.undo());
    assert_eq!(input.text(), "ab");
    assert!(input.undo());
    assert_eq!(input.text(), "");
}

#[test]
fn update_cursor_style_follows_actual_mode() {
    let input = TextInputState::<TextInputProvider>::from_text("hello");
    assert_eq!(input.mode(), AppMode::Nor);

    let result: std::io::Result<()> = input.update_cursor_style();
    assert!(result.is_ok());
}

#[test]
fn accepting_the_suffix_appends_it() {
    let mut input = TextInputState::<TextInputProvider>::from_text("ad");
    input.enter_edit_mode();
    input.set_cursor_position(2);
    input.set_suggestion_suffix("min");

    let outcome = input.accept_suggestion_suffix();

    assert_eq!(outcome, TextInputEventOutcome::Handled);
    assert_eq!(input.text(), "admin");
    assert_eq!(input.suggestion_suffix(), None);
}

#[test]
fn set_text_moves_cursor_to_end_and_clears_suffix() {
    let mut input = TextInputState::<TextInputProvider>::from_text("x");
    input.set_suggestion_suffix("yz");
    input.set_text("hello\nworld");
    assert_eq!(input.text(), "hello");
    assert_eq!(input.cursor_position(), 5);
    assert_eq!(input.suggestion_suffix(), None);
    assert!(!input.can_undo());
}

#[test]
fn word_motions_follow_vim_classes() {
    let mut input = TextInputState::<TextInputProvider>::from_text("foo.bar baz");
    input.move_word_next();
    assert_eq!(input.cursor_position(), 3);
    input.move_word_next();
    assert_eq!(input.cursor_position(), 4);
    input.move_big_word_next();
    assert_eq!(input.cursor_position(), 8);
    input.move_word_end();
    assert_eq!(input.cursor_position(), 10);
    input.move_word_next();
    assert_eq!(input.cursor_position(), 10);
    input.move_word_prev();
    assert_eq!(input.cursor_position(), 8);
    input.move_big_word_prev();
    assert_eq!(input.cursor_position(), 0);
    input.move_big_word_end();
    assert_eq!(input.cursor_position(), 6);
    input.move_word_end_prev();
    assert_eq!(input.cursor_position(), 3);
    input.move_big_word_end_prev();
    assert_eq!(input.cursor_position(), 0);
}

#[test]
fn normal_mode_clamps_cursor_to_last_character() {
    let mut input = TextInputState::<TextInputProvider>::from_text("abc");
    input.move_line_end();
    assert_eq!(input.cursor_position(), 2);
    let _ = input.move_right();
    assert_eq!(input.cursor_position(), 2);
    input.enter_edit_mode();
    input.move_line_end();
    assert_eq!(input.cursor_position(), 3);
    let _ = input.exit_edit_mode();
    assert_eq!(input.cursor_position(), 2);
    input.move_line_start();
    input.enter_append_mode();
    assert_eq!(input.mode(), AppMode::Ins);
    assert_eq!(input.cursor_position(), 1);
}

#[test]
fn max_length_truncates_inserted_text() {
    let mut input = TextInputState::<TextInputProvider>::from_text("");
    input.set_field_validation(0, ValidationConfig::with_max_length(3));
    input.enter_edit_mode();
    assert!(input.insert_text("abcdef").is_err());
    assert_eq!(input.text(), "abc");
    assert!(input.insert_char('d').is_err());
    assert_eq!(input.text(), "abc");
    input.set_validation_enabled(false);
    assert!(input.insert_char('d').is_ok());
    assert_eq!(input.text(), "abcd");
}

#[test]
fn display_text_uses_mask() {
    let mut input = TextInputState::<TextInputProvider>::from_text("1234");
    input.set_field_validation(0, ValidationConfig::with_mask(DisplayMask::new("##-##", '#')));
    assert_eq!(input.current_display_text(), "12-34");
    input.enter_edit_mode();
    input.set_cursor_position(2);
    assert_eq!(input.display_cursor_position(), 3);
    input.remove_field_validation(0);
    assert_eq!(input.current_display_text(), "1234");
    assert_eq!(input.display_cursor_position(), 2);
}

#[test]
fn delete_forward_and_paste_ignored() {
    let mut input = TextInputState::<TextInputProvider>::from_text("abc");
    let _ = input.delete_forward();
    assert_eq!(input.text(), "bc");
    assert_eq!(input.paste("\r\n"), TextInputEventOutcome::Ignored);
    assert_eq!(input.accept_suggestion_suffix(), TextInputEventOutcome::Ignored);
}

fn press(code: KeyCode) -> KeyInput {
    KeyInput::press(code, KeyModifiers::empty())
}

#[test]
fn enter_submits_without_mutating_text() {
    let mut input = TextInputState::<TextInputProvider>::from_text("hello");
    let outcome = input.input(press(KeyCode::Enter));

    assert_eq!(outcome, TextInputEventOutcome::Submitted);
    assert_eq!(input.text(), "hello");
}

#[test]
fn vertical_arrows_are_ignored() {
    let mut input = TextInputState::<TextInputProvider>::from_text("hello");
    let outcome = input.input(press(KeyCode::Up));

    assert_eq!(outcome, TextInputEventOutcome::Ignored);
    assert_eq!(input.current_field(), 0);
}

#[test]
fn tab_accepts_inline_suggestion_suffix() {
    let mut input = TextInputState::<TextInputProvider>::from_text("ad");
    input.enter_edit_mode();
    input.set_cursor_position(2);
    input.set_suggestion_suffix("min");

    let outcome = input.input(press(KeyCode::Tab));

    assert_eq!(outcome, TextInputEventOutcome::Handled);
    assert_eq!(input.text(), "admin");
    assert_eq!(input.suggestion_suffix(), None);
}

#[test]
fn handle_event_routes_paste_events() {
    let mut input = TextInputState::<TextInputProvider>::from_text("hi");
    input.enter_edit_mode();
    input.set_cursor_position(2);

    let outcome = input.handle_event(InputEvent::Paste(" there".to_string()));

    assert_eq!(outcome, TextInputEventOutcome::Handled);
    assert_eq!(input.text(), "hi there");
}

#[test]
fn typing_enters_insert_mode_and_drops_the_suffix() {
    let mut input = TextInputState::<TextInputProvider>::from_text("ab");
    input.set_suggestion_suffix("cd");
    assert_eq!(input.input(press(KeyCode::Char('x'))), TextInputEventOutcome::Handled);
    assert_eq!(input.mode(), AppMode::Ins);
    assert_eq!(input.text(), "xab");
    assert_eq!(input.suggestion_suffix(), None);
    assert_eq!(input.input(press(KeyCode::End)), TextInputEventOutcome::Handled);
    assert_eq!(input.cursor_position(), 3);
    let ctrl_a = KeyInput::press(KeyCode::Char('a'), KeyModifiers::empty().with_ctrl());
    assert_eq!(input.input(ctrl_a), TextInputEventOutcome::Handled);
    assert_eq!(input.cursor_position(), 0);
    assert_eq!(input.input(press(KeyCode::Delete)), TextInputEventOutcome::Handled);
    assert_eq!(input.text(), "ab");
    let shifted = KeyInput::press(KeyCode::Char('Q'), KeyModifiers::empty().with_shift());
    assert_eq!(input.input(shifted), TextInputEventOutcome::Ignored);
    let ctrl_tab = KeyInput::press(KeyCode::Tab, KeyModifiers::empty().with_ctrl());
    assert_eq!(input.input(ctrl_tab), TextInputEventOutcome::Ignored);
    assert_eq!(input.handle_event(InputEvent::Other), TextInputEventOutcome::Ignored);
    assert_eq!(input.text(), "ab");
}
