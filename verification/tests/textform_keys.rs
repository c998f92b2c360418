use canvas::data_provider::DataProvider;
use canvas::editor::behavior::SelectionState;
use canvas::keybindings::{BuiltinCanvasKeybindingPreset, CanvasKeyAction, KeyEventOutcome};
use canvas::modes::AppMode;
use canvas::textform::state::TextFormState;

#[derive(Default)]
struct TestProvider {
    fields: [String; 2],
}

impl DataProvider for TestProvider {
    fn field_count(&self) -> usize {
        2
    }

    fn field_name(&self, index: usize) -> &str {
        match index {
            0 => "first",
            1 => "second",
            _ => "",
        }
    }

    fn field_value(&self, index: usize) -> &str {
        self.fields.get(index).map(String::as_str).unwrap_or("")
    }

    fn set_field_value(&mut self, index: usize, value: String) {
        if let Some(field) = self.fields.get_mut(index) {
            *field = value;
        }
    }
}

#[derive(Default)]
struct VecProvider {
    fields: Vec<String>,
}

impl DataProvider for VecProvider {
    fn field_count(&self) -> usize {
        self.fields.len()
    }

    fn field_name(&self, index: usize) -> &str {
        match index {
            0 => "first",
            1 => "second",
            _ => "",
        }
    }

    fn field_value(&self, index: usize) -> &str {
        self.fields.get(index).map(String::as_str).unwrap_or("")
    }

    fn set_field_value(&mut self, index: usize, value: String) {
        if let Some(field) = self.fields.get_mut(index) {
            *field = value;
        }
    }
}

#[derive(Clone)]
struct FixedPolicyProvider {
    names: [&'static str; 3],
    fields: [String; 3],
}

impl FixedPolicyProvider {
    fn new() -> Self {
        Self {
            names: ["first", "second", "third"],
            fields: ["alpha beta".into(), "gamma delta".into(), "epsilon".into()],
        }
    }

    fn names(&self) -> Vec<String> {
        self.names.iter().map(|name| (*name).to_string()).collect()
    }
}

impl DataProvider for FixedPolicyProvider {
    fn field_count(&self) -> usize {
        self.fields.len()
    }

    fn field_name(&self, index: usize) -> &str {
        self.names.get(index).copied().unwrap_or("")
    }

    fn field_value(&self, index: usize) -> &str {
        self.fields.get(index).map(String::as_str).unwrap_or("")
    }

    fn set_field_value(&mut self, index: usize, value: String) {
        if let Some(field) = self.fields.get_mut(index) {
            *field = value;
        }
    }
}

fn all_known_key_actions() -> Vec<CanvasKeyAction> {

    vec![
        CanvasKeyAction::MoveLeft,
        CanvasKeyAction::MoveRight,
        CanvasKeyAction::MoveUp,
        CanvasKeyAction::MoveDown,
        CanvasKeyAction::NextField,
        CanvasKeyAction::PrevField,
        CanvasKeyAction::MoveLineStart,
        CanvasKeyAction::MoveLineEnd,
        CanvasKeyAction::MoveHalfPageUp,
        CanvasKeyAction::MoveHalfPageDown,
        CanvasKeyAction::MoveFirstLine,
        CanvasKeyAction::MoveLastLine,
        CanvasKeyAction::MoveWordNext,
        CanvasKeyAction::MoveWordPrev,
        CanvasKeyAction::MoveWordEnd,
        CanvasKeyAction::MoveWordEndPrev,
        CanvasKeyAction::MoveBigWordNext,
        CanvasKeyAction::MoveBigWordPrev,
        CanvasKeyAction::MoveBigWordEnd,
        CanvasKeyAction::MoveBigWordEndPrev,
        CanvasKeyAction::DeleteCharBackward,
        CanvasKeyAction::DeleteCharForward,
        CanvasKeyAction::Undo,
        CanvasKeyAction::Redo,
        CanvasKeyAction::OpenLineBelow,
        CanvasKeyAction::OpenLineAbove,
        CanvasKeyAction::EnterEditModeLineStart,
        CanvasKeyAction::EnterEditModeLineEnd,
        CanvasKeyAction::DeleteLine,
        CanvasKeyAction::DeleteToLineEnd,
        CanvasKeyAction::ChangeLine,
        CanvasKeyAction::ChangeToLineEnd,
        CanvasKeyAction::OperatorDelete,
        CanvasKeyAction::OperatorChange,
        CanvasKeyAction::OperatorYank,
        CanvasKeyAction::JoinLineBelow,
        CanvasKeyAction::YankLine,
        CanvasKeyAction::PasteAfter,
        CanvasKeyAction::PasteBefore,
        CanvasKeyAction::OpenSuggestions,
        CanvasKeyAction::ApplySuggestion,
        CanvasKeyAction::EnterDecider,
        CanvasKeyAction::SuggestionDown,
        CanvasKeyAction::SuggestionUp,
        CanvasKeyAction::EnterEditModeBefore,
        CanvasKeyAction::EnterEditModeAfter,
        CanvasKeyAction::Exit,
        CanvasKeyAction::ExitEditMode,
        CanvasKeyAction::EnterHighlightMode,
        CanvasKeyAction::EnterHighlightModeLinewise,
        CanvasKeyAction::ExitHighlightMode,
        CanvasKeyAction::DeleteSelection,
        CanvasKeyAction::DeleteSelectionNoYank,
        CanvasKeyAction::ChangeSelection,
        CanvasKeyAction::ChangeSelectionNoYank,
        CanvasKeyAction::YankSelection,
        CanvasKeyAction::CollapseSelection,
        CanvasKeyAction::ExtendLineBelow,
        CanvasKeyAction::ExtendToLineBounds,
        CanvasKeyAction::SearchNext,
        CanvasKeyAction::SearchPrev,
        CanvasKeyAction::SelectAll,
        CanvasKeyAction::FlipSelections,
        CanvasKeyAction::SwitchCase,
        CanvasKeyAction::SwitchToLowercase,
        CanvasKeyAction::SwitchToUppercase,
        CanvasKeyAction::TrimSelections,
        CanvasKeyAction::GotoFirstNonWhitespace,
        CanvasKeyAction::MovePageUp,
        CanvasKeyAction::MovePageDown,
        CanvasKeyAction::SearchSelection,
        CanvasKeyAction::EnsureSelectionForward,
        CanvasKeyAction::MatchBrackets,
        CanvasKeyAction::IndentSelection,
        CanvasKeyAction::UnindentSelection,
        CanvasKeyAction::IncrementNumber,
        CanvasKeyAction::DecrementNumber,
        CanvasKeyAction::FindNextChar,
        CanvasKeyAction::FindPrevChar,
        CanvasKeyAction::TillNextChar,
        CanvasKeyAction::TillPrevChar,
        CanvasKeyAction::ReplaceChar,
        CanvasKeyAction::RepeatLastFind,
        CanvasKeyAction::RepeatLastFindReverse,
        CanvasKeyAction::SurroundAdd,
        CanvasKeyAction::SurroundDelete,
        CanvasKeyAction::SurroundReplace,
        CanvasKeyAction::DeleteWordBackward,
        CanvasKeyAction::DeleteToLineStart,
        CanvasKeyAction::DeleteWordForward,
        CanvasKeyAction::ClearSearch,
        CanvasKeyAction::MoveLineUp,
        CanvasKeyAction::MoveLineDown,
        CanvasKeyAction::DuplicateLineUp,
        CanvasKeyAction::DuplicateLineDown,
        CanvasKeyAction::CopyLine,
        CanvasKeyAction::CutLine,
        CanvasKeyAction::SelectLeft,
        CanvasKeyAction::SelectRight,
        CanvasKeyAction::SelectUp,
        CanvasKeyAction::SelectDown,
        CanvasKeyAction::SelectWordPrev,
        CanvasKeyAction::SelectWordNext,
        CanvasKeyAction::SelectLineStart,
        CanvasKeyAction::SelectLineEnd,
        CanvasKeyAction::SelectDocStart,
        CanvasKeyAction::SelectDocEnd,
    ]
}

fn rows(fields: &[&str]) -> VecProvider {
    VecProvider {
        fields: fields.iter().map(|f| f.to_string()).collect(),
    }
}

#[test]
fn every_known_key_action_preserves_textform_fixed_slots() {
    for action in all_known_key_actions() {
        let provider = FixedPolicyProvider::new();
        let expected_names = provider.names();
        let mut form = TextFormState::new(provider);
        form.use_keybinding_preset(BuiltinCanvasKeybindingPreset::Helix);
        form.set_text_register(vec!["paste".to_string()]);

        let outcome = form.dispatch_product_key_action(&action, 1);
        assert!(
            !matches!(
                outcome,
                KeyEventOutcome::Consumed(Some(ref msg))
                    if msg.starts_with("Unhandled textform action:")
            ),
            "action is classified as product-handled but not implemented: {}",
            action.as_str()
        );

        assert_eq!(
            form.data_provider().field_count(),
            3,
            "action changed field count: {}",
            action.as_str()
        );
        assert_eq!(
            form.fixed_field_count(),
            3,
            "action changed fixed count: {}",
            action.as_str()
        );
        let names: Vec<String> = (0..form.data_provider().field_count())
            .map(|index| form.data_provider().field_name(index).to_string())
            .collect();
        assert_eq!(
            names,
            expected_names,
            "action changed field identity/order: {}",
            action.as_str()
        );
    }
}

#[test]
fn structural_noop_actions_leave_fixed_field_values_unchanged() {
    let actions = [
        CanvasKeyAction::JoinLineBelow,
        CanvasKeyAction::MoveLineUp,
        CanvasKeyAction::MoveLineDown,
        CanvasKeyAction::DuplicateLineUp,
        CanvasKeyAction::DuplicateLineDown,
    ];

    for action in actions {
        let provider = FixedPolicyProvider::new();
        let expected = provider.capture_content();
        let mut form = TextFormState::new(provider);

        let _ = form.dispatch_product_key_action(&action, 1);

        assert_eq!(
            form.data_provider().capture_content(),
            expected,
            "structural no-op changed fixed field values: {}",
            action.as_str()
        );
    }
}

#[test]
fn cut_line_clears_fixed_slot_without_shifting_later_fields() {
    let mut form = TextFormState::new(VecProvider {
        fields: vec![
            "row1".to_string(),
            "row2".to_string(),
            "row3".to_string(),
        ],
    });
    let _ = form.engine.transition_to_field(1);

    let _ = form.dispatch_product_key_action(&CanvasKeyAction::CutLine, 1);

    assert_eq!(form.fixed_field_count(), 3);
    assert_eq!(form.data_provider().capture_content(), vec!["row1", "", "row3"]);
    assert_eq!(form.current_field(), 1);
}

#[test]
fn multiline_text_register_paste_preserves_suffix_in_fixed_slot() {
    let mut form = TextFormState::new(VecProvider {
        fields: vec![
            "aaZZ".to_string(),
            "row2".to_string(),
            "row3".to_string(),
        ],
    });
    form.engine.set_cursor_position(2);
    form.set_text_register(vec!["X".to_string(), "Y".to_string()]);

    let _ = form.dispatch_product_key_action(&CanvasKeyAction::PasteBefore, 1);

    assert_eq!(form.fixed_field_count(), 3);
    assert_eq!(form.data_provider().capture_content(), vec!["aaX", "YZZ", "row3"]);
}

fn helix_form(fields: &[&str]) -> TextFormState<VecProvider> {
    let mut form = TextFormState::new(rows(fields));
    form.use_keybinding_preset(BuiltinCanvasKeybindingPreset::Helix);
    form
}

#[test]
fn helix_word_motion_selects_from_cursor_to_before_next_word() {
    let mut form = helix_form(&["one two three", "row2"]);
    let outcome = form.dispatch_product_key_action(&CanvasKeyAction::MoveWordNext, 1);
    assert_eq!(outcome, KeyEventOutcome::Consumed(None));
    assert_eq!(form.cursor_position(), 3);
    assert_eq!(form.selection_state(), SelectionState::Characterwise { anchor: (0, 0) });
    assert_eq!(form.data_provider().field_value(1), "row2");
}

#[test]
fn helix_word_selection_delete_keeps_rest_of_field() {
    let mut form = helix_form(&["one two three", "row2"]);
    let _ = form.dispatch_product_key_action(&CanvasKeyAction::MoveWordNext, 1);
    let outcome = form.dispatch_product_key_action(&CanvasKeyAction::DeleteSelection, 1);
    assert_eq!(outcome, KeyEventOutcome::Consumed(None));
    assert_eq!(form.data_provider().capture_content(), vec!["two three", "row2"]);
    assert_eq!(form.current_field(), 0);
    assert_eq!(form.cursor_position(), 0);
}

#[test]
fn helix_cross_field_selection_delete_does_not_merge_fields() {
    let mut form = helix_form(&["abc", "def"]);
    let _ = form.engine.transition_to_field(1);
    form.engine.set_cursor_position(1);
    form.engine.set_selection(SelectionState::Characterwise { anchor: (0, 1) });
    let _ = form.dispatch_product_key_action(&CanvasKeyAction::DeleteSelection, 1);
    assert_eq!(form.fixed_field_count(), 2);
    assert_eq!(form.data_provider().capture_content(), vec!["a", "f"]);
    assert_eq!(form.current_field(), 0);
    assert_eq!(form.cursor_position(), 0);
}

#[test]
fn helix_word_yank_then_paste_after_inserts_in_field() {
    let mut form = helix_form(&["one two", "row2"]);
    let _ = form.dispatch_product_key_action(&CanvasKeyAction::MoveWordNext, 1);
    let _ = form.dispatch_product_key_action(&CanvasKeyAction::YankSelection, 1);
    let outcome = form.dispatch_product_key_action(&CanvasKeyAction::PasteAfter, 1);
    assert_eq!(outcome, KeyEventOutcome::Consumed(None));
    assert_eq!(form.data_provider().capture_content(), vec!["one one two", "row2"]);
}

#[test]
fn helix_line_yank_then_paste_overwrites_next_slot() {
    let mut form = helix_form(&["row1", "row2", "row3"]);
    let _ = form.dispatch_product_key_action(&CanvasKeyAction::ExtendLineBelow, 1);
    assert_eq!(form.mode(), AppMode::Nor);
    let _ = form.dispatch_product_key_action(&CanvasKeyAction::YankSelection, 1);
    let _ = form.dispatch_product_key_action(&CanvasKeyAction::PasteAfter, 1);
    assert_eq!(form.fixed_field_count(), 3);
    assert_eq!(form.data_provider().capture_content(), vec!["row1", "row1", "row3"]);
    assert_eq!(form.current_field(), 1);
}

#[test]
fn helix_extended_line_delete_clears_slots_in_place() {
    let mut form = helix_form(&["row1", "row2", "row3"]);
    let _ = form.dispatch_product_key_action(&CanvasKeyAction::ExtendLineBelow, 1);
    let _ = form.dispatch_product_key_action(&CanvasKeyAction::ExtendLineBelow, 1);
    let _ = form.dispatch_product_key_action(&CanvasKeyAction::DeleteSelection, 1);
    assert_eq!(form.data_provider().capture_content(), vec!["", "", "row3"]);
    assert_eq!(form.current_field(), 0);
    assert_eq!(form.mode(), AppMode::Nor);
}

#[test]
fn helix_select_mode_yank_returns_to_normal() {
    let mut form = helix_form(&["row1", "row2"]);
    let _ = form.dispatch_product_key_action(&CanvasKeyAction::EnterHighlightMode, 1);
    assert_eq!(form.mode(), AppMode::Sel);
    let _ = form.dispatch_product_key_action(&CanvasKeyAction::YankSelection, 1);
    assert_eq!(form.mode(), AppMode::Nor);
}

#[test]
fn append_on_last_character_inserts_after_it() {
    let mut form = helix_form(&["abc", "row2"]);
    let _ = form.dispatch_product_key_action(&CanvasKeyAction::MoveLineEnd, 1);
    assert_eq!(form.cursor_position(), 2);
    let _ = form.dispatch_product_key_action(&CanvasKeyAction::EnterEditModeAfter, 1);
    assert_eq!(form.mode(), AppMode::Ins);
    assert_eq!(form.cursor_position(), 3);
    let _ = form.engine.insert_char('X');
    assert_eq!(form.current_text(), "abcX");
}

#[test]
fn vim_doubled_delete_operator_clears_current_field() {
    let mut form = TextFormState::new(rows(&["row1", "row2"]));
    let _ = form.dispatch_product_key_action(&CanvasKeyAction::OperatorDelete, 1);
    let outcome = form.dispatch_product_key_action(&CanvasKeyAction::OperatorDelete, 1);
    assert_eq!(outcome, KeyEventOutcome::Consumed(None));
    assert_eq!(form.data_provider().capture_content(), vec!["", "row2"]);
    assert_eq!(form.current_field(), 0);
}

#[test]
fn vim_counted_delete_operator_clears_following_fields() {
    let mut form = TextFormState::new(rows(&["row1", "row2", "row3"]));
    let _ = form.dispatch_product_key_action(&CanvasKeyAction::OperatorDelete, 2);
    let _ = form.dispatch_product_key_action(&CanvasKeyAction::OperatorDelete, 1);
    assert_eq!(form.data_provider().capture_content(), vec!["", "", "row3"]);
    assert_eq!(form.current_field(), 0);
}

#[test]
fn vim_yank_operator_then_paste_overwrites_next_slot() {
    let mut form = TextFormState::new(rows(&["row1", "row2", "row3"]));
    let _ = form.dispatch_product_key_action(&CanvasKeyAction::OperatorYank, 1);
    let _ = form.dispatch_product_key_action(&CanvasKeyAction::OperatorYank, 1);
    let _ = form.dispatch_product_key_action(&CanvasKeyAction::PasteAfter, 1);
    assert_eq!(form.data_provider().capture_content(), vec!["row1", "row1", "row3"]);
}

#[test]
fn vim_delete_operator_with_word_motion_deletes_to_field_end() {
    let mut form = TextFormState::new(rows(&["abcdef", "row2"]));
    form.engine.set_cursor_position(2);
    let _ = form.dispatch_product_key_action(&CanvasKeyAction::OperatorDelete, 1);
    let _ = form.dispatch_product_key_action(&CanvasKeyAction::MoveWordNext, 1);
    assert_eq!(form.data_provider().capture_content(), vec!["ab", "row2"]);
    assert_eq!(form.cursor_position(), 1);
}

#[test]
fn vim_change_operator_down_clears_and_enters_insert() {
    let mut form = TextFormState::new(rows(&["row1", "row2", "row3"]));
    let _ = form.dispatch_product_key_action(&CanvasKeyAction::OperatorChange, 1);
    let _ = form.dispatch_product_key_action(&CanvasKeyAction::MoveDown, 1);
    assert_eq!(form.data_provider().capture_content(), vec!["", "", "row3"]);
    assert_eq!(form.mode(), AppMode::Ins);
}

#[test]
fn unknown_and_suggestion_actions_are_not_matched() {
    let mut form = TextFormState::new(rows(&["row1", "row2"]));
    let unknown = CanvasKeyAction::from_name("no_such_action");
    assert_eq!(form.dispatch_product_key_action(&unknown, 1), KeyEventOutcome::NotMatched);
    assert_eq!(
        form.dispatch_product_key_action(&CanvasKeyAction::OpenSuggestions, 1),
        KeyEventOutcome::NotMatched
    );
    assert_eq!(
        form.dispatch_product_key_action(&CanvasKeyAction::SearchNext, 1),
        KeyEventOutcome::NotMatched
    );
    assert_eq!(form.data_provider().capture_content(), vec!["row1", "row2"]);
}

#[test]
fn vertical_moves_report_edges() {
    let mut form = TextFormState::new(rows(&["row1", "row2"]));
    assert_eq!(
        form.dispatch_product_key_action(&CanvasKeyAction::MoveUp, 1),
        KeyEventOutcome::ExitTop
    );
    assert_eq!(
        form.dispatch_product_key_action(&CanvasKeyAction::MoveDown, 1),
        KeyEventOutcome::Consumed(None)
    );
    assert_eq!(form.current_field(), 1);
    assert_eq!(
        form.dispatch_product_key_action(&CanvasKeyAction::MoveDown, 1),
        KeyEventOutcome::ExitBottom
    );
}

#[test]
fn delete_line_with_count_clears_slots_in_place() {
    let mut form = TextFormState::new(rows(&["row1", "row2", "row3"]));
    let _ = form.dispatch_product_key_action(&CanvasKeyAction::DeleteLine, 2);
    assert_eq!(form.data_provider().capture_content(), vec!["", "", "row3"]);
    assert!(form.undo());
}

#[test]
fn counted_text_paste_repeats_text() {
    let mut form = TextFormState::new(rows(&["xy", "row2"]));
    form.set_text_register(vec!["ab".to_string()]);
    let _ = form.dispatch_product_key_action(&CanvasKeyAction::PasteAfter, 2);
    assert_eq!(form.data_provider().capture_content(), vec!["xababy", "row2"]);
    assert_eq!(form.cursor_position(), 5);
}

#[test]
fn multiline_paste_past_last_field_drops_overflow() {
    let mut form = TextFormState::new(rows(&["row1", "aaZZ"]));
    let _ = form.engine.transition_to_field(1);
    form.engine.set_cursor_position(2);
    form.set_text_register(vec!["X".to_string(), "Y".to_string(), "W".to_string()]);
    let _ = form.dispatch_product_key_action(&CanvasKeyAction::PasteBefore, 1);
    assert_eq!(form.data_provider().capture_content(), vec!["row1", "aaXZZ"]);
}

#[test]
fn line_paste_is_one_undo_step() {
    let mut form = TextFormState::new(rows(&["row1", "row2", "row3"]));
    form.set_line_register(vec!["A".to_string(), "B".to_string()]);
    let _ = form.dispatch_product_key_action(&CanvasKeyAction::PasteAfter, 1);
    assert_eq!(form.data_provider().capture_content(), vec!["row1", "A", "B"]);
    assert!(form.undo());
    assert_eq!(form.current_text(), "row1");
    assert_eq!(form.engine.field_value(1), "row2");
    assert_eq!(form.engine.field_value(2), "row3");
}

#[test]
fn action_names_round_trip() {
    for action in all_known_key_actions() {
        assert_eq!(CanvasKeyAction::from_name(action.as_str()), action);
    }
    let unknown = CanvasKeyAction::from_name("frobnicate");
    assert_eq!(unknown, CanvasKeyAction::Unknown("frobnicate".to_string()));
    assert_eq!(unknown.as_str(), "frobnicate");
    assert_eq!(CanvasKeyAction::MoveHalfPageUp.as_str(), "move_half_page_up");
}

#[test]
fn builtin_preset_names() {
    assert_eq!(BuiltinCanvasKeybindingPreset::Vim.name(), "vim");
    assert_eq!(BuiltinCanvasKeybindingPreset::Helix.name(), "helix");
    assert_eq!(BuiltinCanvasKeybindingPreset::Emacs.name(), "emacs");
    assert_eq!(BuiltinCanvasKeybindingPreset::Vscode.name(), "vscode");
}

#[test]
fn keymap_action_names_round_trip() {
    assert_eq!(canvas::keymap::CanvasKeyAction::from_name("exit_highlight_mode"), canvas::keymap::CanvasKeyAction::ExitHighlightMode);
    assert_eq!(canvas::keymap::CanvasKeyAction::MoveBigWordEndPrev.as_str(), "move_big_word_end_prev");
    assert_eq!(canvas::keymap::CanvasKeyAction::from_name("undo"), canvas::keymap::CanvasKeyAction::Unknown("undo".to_string()));
}
