//! The actions that key bindings name, and their names.
use vstd::prelude::*;

use crate::text::str_equal;

verus! {

/// An action that a key binding can name.
#[derive(Debug, Clone, PartialEq, Eq, Hash)]
pub enum CanvasKeyAction {
    MoveLeft,
    MoveRight,
    MoveUp,
    MoveDown,
    NextField,
    PrevField,
    MoveLineStart,
    MoveLineEnd,
    MoveHalfPageUp,
    MoveHalfPageDown,
    MoveFirstLine,
    MoveLastLine,
    MoveWordNext,
    MoveWordPrev,
    MoveWordEnd,
    MoveWordEndPrev,
    MoveBigWordNext,
    MoveBigWordPrev,
    MoveBigWordEnd,
    MoveBigWordEndPrev,
    DeleteCharBackward,
    DeleteCharForward,
    Undo,
    Redo,
    OpenLineBelow,
    OpenLineAbove,
    EnterEditModeLineStart,
    EnterEditModeLineEnd,
    DeleteLine,
    DeleteToLineEnd,
    ChangeLine,
    ChangeToLineEnd,
    OperatorDelete,
    OperatorChange,
    OperatorYank,
    JoinLineBelow,
    YankLine,
    PasteAfter,
    PasteBefore,
    OpenSuggestions,
    ApplySuggestion,
    EnterDecider,
    SuggestionDown,
    SuggestionUp,
    EnterEditModeBefore,
    EnterEditModeAfter,
    Exit,
    ExitEditMode,
    EnterHighlightMode,
    EnterHighlightModeLinewise,
    ExitHighlightMode,
    DeleteSelection,
    DeleteSelectionNoYank,
    ChangeSelection,
    ChangeSelectionNoYank,
    YankSelection,
    CollapseSelection,
    ExtendLineBelow,
    ExtendToLineBounds,
    SearchNext,
    SearchPrev,
    SelectAll,
    FlipSelections,
    SwitchCase,
    SwitchToLowercase,
    SwitchToUppercase,
    TrimSelections,
    GotoFirstNonWhitespace,
    MovePageUp,
    MovePageDown,
    SearchSelection,
    EnsureSelectionForward,
    MatchBrackets,
    IndentSelection,
    UnindentSelection,
    IncrementNumber,
    DecrementNumber,
    FindNextChar,
    FindPrevChar,
    TillNextChar,
    TillPrevChar,
    ReplaceChar,
    RepeatLastFind,
    RepeatLastFindReverse,
    SurroundAdd,
    SurroundDelete,
    SurroundReplace,
    DeleteWordBackward,
    DeleteToLineStart,
    DeleteWordForward,
    ClearSearch,
    MoveLineUp,
    MoveLineDown,
    DuplicateLineUp,
    DuplicateLineDown,
    CopyLine,
    CutLine,
    SelectLeft,
    SelectRight,
    SelectUp,
    SelectDown,
    SelectWordPrev,
    SelectWordNext,
    SelectLineStart,
    SelectLineEnd,
    SelectDocStart,
    SelectDocEnd,
    /// A name that names no action.
    Unknown(String),
}

/// The name of an action: its snake-case name, or the name an unknown
/// action was read from.
pub open spec fn action_name(a: CanvasKeyAction) -> Seq<char> {
    match a {
        CanvasKeyAction::MoveLeft => "move_left"@,
        CanvasKeyAction::MoveRight => "move_right"@,
        CanvasKeyAction::MoveUp => "move_up"@,
        CanvasKeyAction::MoveDown => "move_down"@,
        CanvasKeyAction::NextField => "next_field"@,
        CanvasKeyAction::PrevField => "prev_field"@,
        CanvasKeyAction::MoveLineStart => "move_line_start"@,
        CanvasKeyAction::MoveLineEnd => "move_line_end"@,
        CanvasKeyAction::MoveHalfPageUp => "move_half_page_up"@,
        CanvasKeyAction::MoveHalfPageDown => "move_half_page_down"@,
        CanvasKeyAction::MoveFirstLine => "move_first_line"@,
        CanvasKeyAction::MoveLastLine => "move_last_line"@,
        CanvasKeyAction::MoveWordNext => "move_word_next"@,
        CanvasKeyAction::MoveWordPrev => "move_word_prev"@,
        CanvasKeyAction::MoveWordEnd => "move_word_end"@,
        CanvasKeyAction::MoveWordEndPrev => "move_word_end_prev"@,
        CanvasKeyAction::MoveBigWordNext => "move_big_word_next"@,
        CanvasKeyAction::MoveBigWordPrev => "move_big_word_prev"@,
        CanvasKeyAction::MoveBigWordEnd => "move_big_word_end"@,
        CanvasKeyAction::MoveBigWordEndPrev => "move_big_word_end_prev"@,
        CanvasKeyAction::DeleteCharBackward => "delete_char_backward"@,
        CanvasKeyAction::DeleteCharForward => "delete_char_forward"@,
        CanvasKeyAction::Undo => "undo"@,
        CanvasKeyAction::Redo => "redo"@,
        CanvasKeyAction::OpenLineBelow => "open_line_below"@,
        CanvasKeyAction::OpenLineAbove => "open_line_above"@,
        CanvasKeyAction::EnterEditModeLineStart => "enter_edit_mode_line_start"@,
        CanvasKeyAction::EnterEditModeLineEnd => "enter_edit_mode_line_end"@,
        CanvasKeyAction::DeleteLine => "delete_line"@,
        CanvasKeyAction::DeleteToLineEnd => "delete_to_line_end"@,
        CanvasKeyAction::ChangeLine => "change_line"@,
        CanvasKeyAction::ChangeToLineEnd => "change_to_line_end"@,
        CanvasKeyAction::OperatorDelete => "operator_delete"@,
        CanvasKeyAction::OperatorChange => "operator_change"@,
        CanvasKeyAction::OperatorYank => "operator_yank"@,
        CanvasKeyAction::JoinLineBelow => "join_line_below"@,
        CanvasKeyAction::YankLine => "yank_line"@,
        CanvasKeyAction::PasteAfter => "paste_after"@,
        CanvasKeyAction::PasteBefore => "paste_before"@,
        CanvasKeyAction::OpenSuggestions => "open_suggestions"@,
        CanvasKeyAction::ApplySuggestion => "apply_suggestion"@,
        CanvasKeyAction::EnterDecider => "enter_decider"@,
        CanvasKeyAction::SuggestionDown => "suggestion_down"@,
        CanvasKeyAction::SuggestionUp => "suggestion_up"@,
        CanvasKeyAction::EnterEditModeBefore => "enter_edit_mode_before"@,
        CanvasKeyAction::EnterEditModeAfter => "enter_edit_mode_after"@,
        CanvasKeyAction::Exit => "exit"@,
        CanvasKeyAction::ExitEditMode => "exit_edit_mode"@,
        CanvasKeyAction::EnterHighlightMode => "enter_highlight_mode"@,
        CanvasKeyAction::EnterHighlightModeLinewise => "enter_highlight_mode_linewise"@,
        CanvasKeyAction::ExitHighlightMode => "exit_highlight_mode"@,
        CanvasKeyAction::DeleteSelection => "delete_selection"@,
        CanvasKeyAction::DeleteSelectionNoYank => "delete_selection_no_yank"@,
        CanvasKeyAction::ChangeSelection => "change_selection"@,
        CanvasKeyAction::ChangeSelectionNoYank => "change_selection_no_yank"@,
        CanvasKeyAction::YankSelection => "yank_selection"@,
        CanvasKeyAction::CollapseSelection => "collapse_selection"@,
        CanvasKeyAction::ExtendLineBelow => "extend_line_below"@,
        CanvasKeyAction::ExtendToLineBounds => "extend_to_line_bounds"@,
        CanvasKeyAction::SearchNext => "search_next"@,
        CanvasKeyAction::SearchPrev => "search_prev"@,
        CanvasKeyAction::SelectAll => "select_all"@,
        CanvasKeyAction::FlipSelections => "flip_selections"@,
        CanvasKeyAction::SwitchCase => "switch_case"@,
        CanvasKeyAction::SwitchToLowercase => "switch_to_lowercase"@,
        CanvasKeyAction::SwitchToUppercase => "switch_to_uppercase"@,
        CanvasKeyAction::TrimSelections => "trim_selections"@,
        CanvasKeyAction::GotoFirstNonWhitespace => "goto_first_non_whitespace"@,
        CanvasKeyAction::MovePageUp => "move_page_up"@,
        CanvasKeyAction::MovePageDown => "move_page_down"@,
        CanvasKeyAction::SearchSelection => "search_selection"@,
        CanvasKeyAction::EnsureSelectionForward => "ensure_selection_forward"@,
        CanvasKeyAction::MatchBrackets => "match_brackets"@,
        CanvasKeyAction::IndentSelection => "indent_selection"@,
        CanvasKeyAction::UnindentSelection => "unindent_selection"@,
        CanvasKeyAction::IncrementNumber => "increment_number"@,
        CanvasKeyAction::DecrementNumber => "decrement_number"@,
        CanvasKeyAction::FindNextChar => "find_next_char"@,
        CanvasKeyAction::FindPrevChar => "find_prev_char"@,
        CanvasKeyAction::TillNextChar => "till_next_char"@,
        CanvasKeyAction::TillPrevChar => "till_prev_char"@,
        CanvasKeyAction::ReplaceChar => "replace_char"@,
        CanvasKeyAction::RepeatLastFind => "repeat_last_find"@,
        CanvasKeyAction::RepeatLastFindReverse => "repeat_last_find_reverse"@,
        CanvasKeyAction::SurroundAdd => "surround_add"@,
        CanvasKeyAction::SurroundDelete => "surround_delete"@,
        CanvasKeyAction::SurroundReplace => "surround_replace"@,
        CanvasKeyAction::DeleteWordBackward => "delete_word_backward"@,
        CanvasKeyAction::DeleteToLineStart => "delete_to_line_start"@,
        CanvasKeyAction::DeleteWordForward => "delete_word_forward"@,
        CanvasKeyAction::ClearSearch => "clear_search"@,
        CanvasKeyAction::MoveLineUp => "move_line_up"@,
        CanvasKeyAction::MoveLineDown => "move_line_down"@,
        CanvasKeyAction::DuplicateLineUp => "duplicate_line_up"@,
        CanvasKeyAction::DuplicateLineDown => "duplicate_line_down"@,
        CanvasKeyAction::CopyLine => "copy_line"@,
        CanvasKeyAction::CutLine => "cut_line"@,
        CanvasKeyAction::SelectLeft => "select_left"@,
        CanvasKeyAction::SelectRight => "select_right"@,
        CanvasKeyAction::SelectUp => "select_up"@,
        CanvasKeyAction::SelectDown => "select_down"@,
        CanvasKeyAction::SelectWordPrev => "select_word_prev"@,
        CanvasKeyAction::SelectWordNext => "select_word_next"@,
        CanvasKeyAction::SelectLineStart => "select_line_start"@,
        CanvasKeyAction::SelectLineEnd => "select_line_end"@,
        CanvasKeyAction::SelectDocStart => "select_doc_start"@,
        CanvasKeyAction::SelectDocEnd => "select_doc_end"@,
        CanvasKeyAction::Unknown(s) => s@,
    }
}

/// The action whose snake-case name is `s`, if there is one.
pub open spec fn known_action(s: Seq<char>) -> Option<CanvasKeyAction> {
    if s == "move_left"@ {
        Some(CanvasKeyAction::MoveLeft)
    } else if s == "move_right"@ {
        Some(CanvasKeyAction::MoveRight)
    } else if s == "move_up"@ {
        Some(CanvasKeyAction::MoveUp)
    } else if s == "move_down"@ {
        Some(CanvasKeyAction::MoveDown)
    } else if s == "next_field"@ {
        Some(CanvasKeyAction::NextField)
    } else if s == "prev_field"@ {
        Some(CanvasKeyAction::PrevField)
    } else if s == "move_line_start"@ {
        Some(CanvasKeyAction::MoveLineStart)
    } else if s == "move_line_end"@ {
        Some(CanvasKeyAction::MoveLineEnd)
    } else if s == "move_half_page_up"@ {
        Some(CanvasKeyAction::MoveHalfPageUp)
    } else if s == "move_half_page_down"@ {
        Some(CanvasKeyAction::MoveHalfPageDown)
    } else if s == "move_first_line"@ {
        Some(CanvasKeyAction::MoveFirstLine)
    } else if s == "move_last_line"@ {
        Some(CanvasKeyAction::MoveLastLine)
    } else if s == "move_word_next"@ {
        Some(CanvasKeyAction::MoveWordNext)
    } else if s == "move_word_prev"@ {
        Some(CanvasKeyAction::MoveWordPrev)
    } else if s == "move_word_end"@ {
        Some(CanvasKeyAction::MoveWordEnd)
    } else if s == "move_word_end_prev"@ {
        Some(CanvasKeyAction::MoveWordEndPrev)
    } else if s == "move_big_word_next"@ {
        Some(CanvasKeyAction::MoveBigWordNext)
    } else if s == "move_big_word_prev"@ {
        Some(CanvasKeyAction::MoveBigWordPrev)
    } else if s == "move_big_word_end"@ {
        Some(CanvasKeyAction::MoveBigWordEnd)
    } else if s == "move_big_word_end_prev"@ {
        Some(CanvasKeyAction::MoveBigWordEndPrev)
    } else if s == "delete_char_backward"@ {
        Some(CanvasKeyAction::DeleteCharBackward)
    } else if s == "delete_char_forward"@ {
        Some(CanvasKeyAction::DeleteCharForward)
    } else if s == "undo"@ {
        Some(CanvasKeyAction::Undo)
    } else if s == "redo"@ {
        Some(CanvasKeyAction::Redo)
    } else if s == "open_line_below"@ {
        Some(CanvasKeyAction::OpenLineBelow)
    } else if s == "open_line_above"@ {
        Some(CanvasKeyAction::OpenLineAbove)
    } else if s == "enter_edit_mode_line_start"@ {
        Some(CanvasKeyAction::EnterEditModeLineStart)
    } else if s == "enter_edit_mode_line_end"@ {
        Some(CanvasKeyAction::EnterEditModeLineEnd)
    } else if s == "delete_line"@ {
        Some(CanvasKeyAction::DeleteLine)
    } else if s == "delete_to_line_end"@ {
        Some(CanvasKeyAction::DeleteToLineEnd)
    } else if s == "change_line"@ {
        Some(CanvasKeyAction::ChangeLine)
    } else if s == "change_to_line_end"@ {
        Some(CanvasKeyAction::ChangeToLineEnd)
    } else if s == "operator_delete"@ {
        Some(CanvasKeyAction::OperatorDelete)
    } else if s == "operator_change"@ {
        Some(CanvasKeyAction::OperatorChange)
    } else if s == "operator_yank"@ {
        Some(CanvasKeyAction::OperatorYank)
    } else if s == "join_line_below"@ {
        Some(CanvasKeyAction::JoinLineBelow)
    } else if s == "yank_line"@ {
        Some(CanvasKeyAction::YankLine)
    } else if s == "paste_after"@ {
        Some(CanvasKeyAction::PasteAfter)
    } else if s == "paste_before"@ {
        Some(CanvasKeyAction::PasteBefore)
    } else if s == "open_suggestions"@ {
        Some(CanvasKeyAction::OpenSuggestions)
    } else if s == "apply_suggestion"@ {
        Some(CanvasKeyAction::ApplySuggestion)
    } else if s == "enter_decider"@ {
        Some(CanvasKeyAction::EnterDecider)
    } else if s == "suggestion_down"@ {
        Some(CanvasKeyAction::SuggestionDown)
    } else if s == "suggestion_up"@ {
        Some(CanvasKeyAction::SuggestionUp)
    } else if s == "enter_edit_mode_before"@ {
        Some(CanvasKeyAction::EnterEditModeBefore)
    } else if s == "enter_edit_mode_after"@ {
        Some(CanvasKeyAction::EnterEditModeAfter)
    } else if s == "exit"@ {
        Some(CanvasKeyAction::Exit)
    } else if s == "exit_edit_mode"@ {
        Some(CanvasKeyAction::ExitEditMode)
    } else if s == "enter_highlight_mode"@ {
        Some(CanvasKeyAction::EnterHighlightMode)
    } else if s == "enter_highlight_mode_linewise"@ {
        Some(CanvasKeyAction::EnterHighlightModeLinewise)
    } else if s == "exit_highlight_mode"@ {
        Some(CanvasKeyAction::ExitHighlightMode)
    } else if s == "delete_selection"@ {
        Some(CanvasKeyAction::DeleteSelection)
    } else if s == "delete_selection_no_yank"@ {
        Some(CanvasKeyAction::DeleteSelectionNoYank)
    } else if s == "change_selection"@ {
        Some(CanvasKeyAction::ChangeSelection)
    } else if s == "change_selection_no_yank"@ {
        Some(CanvasKeyAction::ChangeSelectionNoYank)
    } else if s == "yank_selection"@ {
        Some(CanvasKeyAction::YankSelection)
    } else if s == "collapse_selection"@ {
        Some(CanvasKeyAction::CollapseSelection)
    } else if s == "extend_line_below"@ {
        Some(CanvasKeyAction::ExtendLineBelow)
    } else if s == "extend_to_line_bounds"@ {
        Some(CanvasKeyAction::ExtendToLineBounds)
    } else if s == "search_next"@ {
        Some(CanvasKeyAction::SearchNext)
    } else if s == "search_prev"@ {
        Some(CanvasKeyAction::SearchPrev)
    } else if s == "select_all"@ {
        Some(CanvasKeyAction::SelectAll)
    } else if s == "flip_selections"@ {
        Some(CanvasKeyAction::FlipSelections)
    } else if s == "switch_case"@ {
        Some(CanvasKeyAction::SwitchCase)
    } else if s == "switch_to_lowercase"@ {
        Some(CanvasKeyAction::SwitchToLowercase)
    } else if s == "switch_to_uppercase"@ {
        Some(CanvasKeyAction::SwitchToUppercase)
    } else if s == "trim_selections"@ {
        Some(CanvasKeyAction::TrimSelections)
    } else if s == "goto_first_non_whitespace"@ {
        Some(CanvasKeyAction::GotoFirstNonWhitespace)
    } else if s == "move_page_up"@ {
        Some(CanvasKeyAction::MovePageUp)
    } else if s == "move_page_down"@ {
        Some(CanvasKeyAction::MovePageDown)
    } else if s == "search_selection"@ {
        Some(CanvasKeyAction::SearchSelection)
    } else if s == "ensure_selection_forward"@ {
        Some(CanvasKeyAction::EnsureSelectionForward)
    } else if s == "match_brackets"@ {
        Some(CanvasKeyAction::MatchBrackets)
    } else if s == "indent_selection"@ {
        Some(CanvasKeyAction::IndentSelection)
    } else if s == "unindent_selection"@ {
        Some(CanvasKeyAction::UnindentSelection)
    } else if s == "increment_number"@ {
        Some(CanvasKeyAction::IncrementNumber)
    } else if s == "decrement_number"@ {
        Some(CanvasKeyAction::DecrementNumber)
    } else if s == "find_next_char"@ {
        Some(CanvasKeyAction::FindNextChar)
    } else if s == "find_prev_char"@ {
        Some(CanvasKeyAction::FindPrevChar)
    } else if s == "till_next_char"@ {
        Some(CanvasKeyAction::TillNextChar)
    } else if s == "till_prev_char"@ {
        Some(CanvasKeyAction::TillPrevChar)
    } else if s == "replace_char"@ {
        Some(CanvasKeyAction::ReplaceChar)
    } else if s == "repeat_last_find"@ {
        Some(CanvasKeyAction::RepeatLastFind)
    } else if s == "repeat_last_find_reverse"@ {
        Some(CanvasKeyAction::RepeatLastFindReverse)
    } else if s == "surround_add"@ {
        Some(CanvasKeyAction::SurroundAdd)
    } else if s == "surround_delete"@ {
        Some(CanvasKeyAction::SurroundDelete)
    } else if s == "surround_replace"@ {
        Some(CanvasKeyAction::SurroundReplace)
    } else if s == "delete_word_backward"@ {
        Some(CanvasKeyAction::DeleteWordBackward)
    } else if s == "delete_to_line_start"@ {
        Some(CanvasKeyAction::DeleteToLineStart)
    } else if s == "delete_word_forward"@ {
        Some(CanvasKeyAction::DeleteWordForward)
    } else if s == "clear_search"@ {
        Some(CanvasKeyAction::ClearSearch)
    } else if s == "move_line_up"@ {
        Some(CanvasKeyAction::MoveLineUp)
    } else if s == "move_line_down"@ {
        Some(CanvasKeyAction::MoveLineDown)
    } else if s == "duplicate_line_up"@ {
        Some(CanvasKeyAction::DuplicateLineUp)
    } else if s == "duplicate_line_down"@ {
        Some(CanvasKeyAction::DuplicateLineDown)
    } else if s == "copy_line"@ {
        Some(CanvasKeyAction::CopyLine)
    } else if s == "cut_line"@ {
        Some(CanvasKeyAction::CutLine)
    } else if s == "select_left"@ {
        Some(CanvasKeyAction::SelectLeft)
    } else if s == "select_right"@ {
        Some(CanvasKeyAction::SelectRight)
    } else if s == "select_up"@ {
        Some(CanvasKeyAction::SelectUp)
    } else if s == "select_down"@ {
        Some(CanvasKeyAction::SelectDown)
    } else if s == "select_word_prev"@ {
        Some(CanvasKeyAction::SelectWordPrev)
    } else if s == "select_word_next"@ {
        Some(CanvasKeyAction::SelectWordNext)
    } else if s == "select_line_start"@ {
        Some(CanvasKeyAction::SelectLineStart)
    } else if s == "select_line_end"@ {
        Some(CanvasKeyAction::SelectLineEnd)
    } else if s == "select_doc_start"@ {
        Some(CanvasKeyAction::SelectDocStart)
    } else if s == "select_doc_end"@ {
        Some(CanvasKeyAction::SelectDocEnd)
    } else {
        None
    }
}

impl CanvasKeyAction {
    /// The action named `name`; a name of no action gives `Unknown` holding
    /// the name.
    pub fn from_name(name: &str) -> (res: Self)
        ensures
            known_action(name@) matches Some(a) ==> res == a,
            known_action(name@) is None ==> (res matches CanvasKeyAction::Unknown(s) && s@ == name@),
    {
        if str_equal(name, "move_left") {
            return CanvasKeyAction::MoveLeft;
        }
        if str_equal(name, "move_right") {
            return CanvasKeyAction::MoveRight;
        }
        if str_equal(name, "move_up") {
            return CanvasKeyAction::MoveUp;
        }
        if str_equal(name, "move_down") {
            return CanvasKeyAction::MoveDown;
        }
        if str_equal(name, "next_field") {
            return CanvasKeyAction::NextField;
        }
        if str_equal(name, "prev_field") {
            return CanvasKeyAction::PrevField;
        }
        if str_equal(name, "move_line_start") {
            return CanvasKeyAction::MoveLineStart;
        }
        if str_equal(name, "move_line_end") {
            return CanvasKeyAction::MoveLineEnd;
        }
        if str_equal(name, "move_half_page_up") {
            return CanvasKeyAction::MoveHalfPageUp;
        }
        if str_equal(name, "move_half_page_down") {
            return CanvasKeyAction::MoveHalfPageDown;
        }
        if str_equal(name, "move_first_line") {
            return CanvasKeyAction::MoveFirstLine;
        }
        if str_equal(name, "move_last_line") {
            return CanvasKeyAction::MoveLastLine;
        }
        if str_equal(name, "move_word_next") {
            return CanvasKeyAction::MoveWordNext;
        }
        if str_equal(name, "move_word_prev") {
            return CanvasKeyAction::MoveWordPrev;
        }
        if str_equal(name, "move_word_end") {
            return CanvasKeyAction::MoveWordEnd;
        }
        if str_equal(name, "move_word_end_prev") {
            return CanvasKeyAction::MoveWordEndPrev;
        }
        if str_equal(name, "move_big_word_next") {
            return CanvasKeyAction::MoveBigWordNext;
        }
        if str_equal(name, "move_big_word_prev") {
            return CanvasKeyAction::MoveBigWordPrev;
        }
        if str_equal(name, "move_big_word_end") {
            return CanvasKeyAction::MoveBigWordEnd;
        }
        if str_equal(name, "move_big_word_end_prev") {
            return CanvasKeyAction::MoveBigWordEndPrev;
        }
        if str_equal(name, "delete_char_backward") {
            return CanvasKeyAction::DeleteCharBackward;
        }
        if str_equal(name, "delete_char_forward") {
            return CanvasKeyAction::DeleteCharForward;
        }
        if str_equal(name, "undo") {
            return CanvasKeyAction::Undo;
        }
        if str_equal(name, "redo") {
            return CanvasKeyAction::Redo;
        }
        if str_equal(name, "open_line_below") {
            return CanvasKeyAction::OpenLineBelow;
        }
        if str_equal(name, "open_line_above") {
            return CanvasKeyAction::OpenLineAbove;
        }
        if str_equal(name, "enter_edit_mode_line_start") {
            return CanvasKeyAction::EnterEditModeLineStart;
        }
        if str_equal(name, "enter_edit_mode_line_end") {
            return CanvasKeyAction::EnterEditModeLineEnd;
        }
        if str_equal(name, "delete_line") {
            return CanvasKeyAction::DeleteLine;
        }
        if str_equal(name, "delete_to_line_end") {
            return CanvasKeyAction::DeleteToLineEnd;
        }
        if str_equal(name, "change_line") {
            return CanvasKeyAction::ChangeLine;
        }
        if str_equal(name, "change_to_line_end") {
            return CanvasKeyAction::ChangeToLineEnd;
        }
        if str_equal(name, "operator_delete") {
            return CanvasKeyAction::OperatorDelete;
        }
        if str_equal(name, "operator_change") {
            return CanvasKeyAction::OperatorChange;
        }
        if str_equal(name, "operator_yank") {
            return CanvasKeyAction::OperatorYank;
        }
        if str_equal(name, "join_line_below") {
            return CanvasKeyAction::JoinLineBelow;
        }
        if str_equal(name, "yank_line") {
            return CanvasKeyAction::YankLine;
        }
        if str_equal(name, "paste_after") {
            return CanvasKeyAction::PasteAfter;
        }
        if str_equal(name, "paste_before") {
            return CanvasKeyAction::PasteBefore;
        }
        if str_equal(name, "open_suggestions") {
            return CanvasKeyAction::OpenSuggestions;
        }
        if str_equal(name, "apply_suggestion") {
            return CanvasKeyAction::ApplySuggestion;
        }
        if str_equal(name, "enter_decider") {
            return CanvasKeyAction::EnterDecider;
        }
        if str_equal(name, "suggestion_down") {
            return CanvasKeyAction::SuggestionDown;
        }
        if str_equal(name, "suggestion_up") {
            return CanvasKeyAction::SuggestionUp;
        }
        if str_equal(name, "enter_edit_mode_before") {
            return CanvasKeyAction::EnterEditModeBefore;
        }
        if str_equal(name, "enter_edit_mode_after") {
            return CanvasKeyAction::EnterEditModeAfter;
        }
        if str_equal(name, "exit") {
            return CanvasKeyAction::Exit;
        }
        if str_equal(name, "exit_edit_mode") {
            return CanvasKeyAction::ExitEditMode;
        }
        if str_equal(name, "enter_highlight_mode") {
            return CanvasKeyAction::EnterHighlightMode;
        }
        if str_equal(name, "enter_highlight_mode_linewise") {
            return CanvasKeyAction::EnterHighlightModeLinewise;
        }
        if str_equal(name, "exit_highlight_mode") {
            return CanvasKeyAction::ExitHighlightMode;
        }
        if str_equal(name, "delete_selection") {
            return CanvasKeyAction::DeleteSelection;
        }
        if str_equal(name, "delete_selection_no_yank") {
            return CanvasKeyAction::DeleteSelectionNoYank;
        }
        if str_equal(name, "change_selection") {
            return CanvasKeyAction::ChangeSelection;
        }
        if str_equal(name, "change_selection_no_yank") {
            return CanvasKeyAction::ChangeSelectionNoYank;
        }
        if str_equal(name, "yank_selection") {
            return CanvasKeyAction::YankSelection;
        }
        if str_equal(name, "collapse_selection") {
            return CanvasKeyAction::CollapseSelection;
        }
        if str_equal(name, "extend_line_below") {
            return CanvasKeyAction::ExtendLineBelow;
        }
        if str_equal(name, "extend_to_line_bounds") {
            return CanvasKeyAction::ExtendToLineBounds;
        }
        if str_equal(name, "search_next") {
            return CanvasKeyAction::SearchNext;
        }
        if str_equal(name, "search_prev") {
            return CanvasKeyAction::SearchPrev;
        }
        if str_equal(name, "select_all") {
            return CanvasKeyAction::SelectAll;
        }
        if str_equal(name, "flip_selections") {
            return CanvasKeyAction::FlipSelections;
        }
        if str_equal(name, "switch_case") {
            return CanvasKeyAction::SwitchCase;
        }
        if str_equal(name, "switch_to_lowercase") {
            return CanvasKeyAction::SwitchToLowercase;
        }
        if str_equal(name, "switch_to_uppercase") {
            return CanvasKeyAction::SwitchToUppercase;
        }
        if str_equal(name, "trim_selections") {
            return CanvasKeyAction::TrimSelections;
        }
        if str_equal(name, "goto_first_non_whitespace") {
            return CanvasKeyAction::GotoFirstNonWhitespace;
        }
        if str_equal(name, "move_page_up") {
            return CanvasKeyAction::MovePageUp;
        }
        if str_equal(name, "move_page_down") {
            return CanvasKeyAction::MovePageDown;
        }
        if str_equal(name, "search_selection") {
            return CanvasKeyAction::SearchSelection;
        }
        if str_equal(name, "ensure_selection_forward") {
            return CanvasKeyAction::EnsureSelectionForward;
        }
        if str_equal(name, "match_brackets") {
            return CanvasKeyAction::MatchBrackets;
        }
        if str_equal(name, "indent_selection") {
            return CanvasKeyAction::IndentSelection;
        }
        if str_equal(name, "unindent_selection") {
            return CanvasKeyAction::UnindentSelection;
        }
        if str_equal(name, "increment_number") {
            return CanvasKeyAction::IncrementNumber;
        }
        if str_equal(name, "decrement_number") {
            return CanvasKeyAction::DecrementNumber;
        }
        if str_equal(name, "find_next_char") {
            return CanvasKeyAction::FindNextChar;
        }
        if str_equal(name, "find_prev_char") {
            return CanvasKeyAction::FindPrevChar;
        }
        if str_equal(name, "till_next_char") {
            return CanvasKeyAction::TillNextChar;
        }
        if str_equal(name, "till_prev_char") {
            return CanvasKeyAction::TillPrevChar;
        }
        if str_equal(name, "replace_char") {
            return CanvasKeyAction::ReplaceChar;
        }
        if str_equal(name, "repeat_last_find") {
            return CanvasKeyAction::RepeatLastFind;
        }
        if str_equal(name, "repeat_last_find_reverse") {
            return CanvasKeyAction::RepeatLastFindReverse;
        }
        if str_equal(name, "surround_add") {
            return CanvasKeyAction::SurroundAdd;
        }
        if str_equal(name, "surround_delete") {
            return CanvasKeyAction::SurroundDelete;
        }
        if str_equal(name, "surround_replace") {
            return CanvasKeyAction::SurroundReplace;
        }
        if str_equal(name, "delete_word_backward") {
            return CanvasKeyAction::DeleteWordBackward;
        }
        if str_equal(name, "delete_to_line_start") {
            return CanvasKeyAction::DeleteToLineStart;
        }
        if str_equal(name, "delete_word_forward") {
            return CanvasKeyAction::DeleteWordForward;
        }
        if str_equal(name, "clear_search") {
            return CanvasKeyAction::ClearSearch;
        }
        if str_equal(name, "move_line_up") {
            return CanvasKeyAction::MoveLineUp;
        }
        if str_equal(name, "move_line_down") {
            return CanvasKeyAction::MoveLineDown;
        }
        if str_equal(name, "duplicate_line_up") {
            return CanvasKeyAction::DuplicateLineUp;
        }
        if str_equal(name, "duplicate_line_down") {
            return CanvasKeyAction::DuplicateLineDown;
        }
        if str_equal(name, "copy_line") {
            return CanvasKeyAction::CopyLine;
        }
        if str_equal(name, "cut_line") {
            return CanvasKeyAction::CutLine;
        }
        if str_equal(name, "select_left") {
            return CanvasKeyAction::SelectLeft;
        }
        if str_equal(name, "select_right") {
            return CanvasKeyAction::SelectRight;
        }
        if str_equal(name, "select_up") {
            return CanvasKeyAction::SelectUp;
        }
        if str_equal(name, "select_down") {
            return CanvasKeyAction::SelectDown;
        }
        if str_equal(name, "select_word_prev") {
            return CanvasKeyAction::SelectWordPrev;
        }
        if str_equal(name, "select_word_next") {
            return CanvasKeyAction::SelectWordNext;
        }
        if str_equal(name, "select_line_start") {
            return CanvasKeyAction::SelectLineStart;
        }
        if str_equal(name, "select_line_end") {
            return CanvasKeyAction::SelectLineEnd;
        }
        if str_equal(name, "select_doc_start") {
            return CanvasKeyAction::SelectDocStart;
        }
        if str_equal(name, "select_doc_end") {
            return CanvasKeyAction::SelectDocEnd;
        }
        CanvasKeyAction::Unknown(name.to_owned())
    }

    /// The name of the action.
    pub fn as_str(&self) -> (res: &str)
        ensures
            res@ == action_name(*self),
    {
        match self {
            CanvasKeyAction::MoveLeft => "move_left",
            CanvasKeyAction::MoveRight => "move_right",
            CanvasKeyAction::MoveUp => "move_up",
            CanvasKeyAction::MoveDown => "move_down",
            CanvasKeyAction::NextField => "next_field",
            CanvasKeyAction::PrevField => "prev_field",
            CanvasKeyAction::MoveLineStart => "move_line_start",
            CanvasKeyAction::MoveLineEnd => "move_line_end",
            CanvasKeyAction::MoveHalfPageUp => "move_half_page_up",
            CanvasKeyAction::MoveHalfPageDown => "move_half_page_down",
            CanvasKeyAction::MoveFirstLine => "move_first_line",
            CanvasKeyAction::MoveLastLine => "move_last_line",
            CanvasKeyAction::MoveWordNext => "move_word_next",
            CanvasKeyAction::MoveWordPrev => "move_word_prev",
            CanvasKeyAction::MoveWordEnd => "move_word_end",
            CanvasKeyAction::MoveWordEndPrev => "move_word_end_prev",
            CanvasKeyAction::MoveBigWordNext => "move_big_word_next",
            CanvasKeyAction::MoveBigWordPrev => "move_big_word_prev",
            CanvasKeyAction::MoveBigWordEnd => "move_big_word_end",
            CanvasKeyAction::MoveBigWordEndPrev => "move_big_word_end_prev",
            CanvasKeyAction::DeleteCharBackward => "delete_char_backward",
            CanvasKeyAction::DeleteCharForward => "delete_char_forward",
            CanvasKeyAction::Undo => "undo",
            CanvasKeyAction::Redo => "redo",
            CanvasKeyAction::OpenLineBelow => "open_line_below",
            CanvasKeyAction::OpenLineAbove => "open_line_above",
            CanvasKeyAction::EnterEditModeLineStart => "enter_edit_mode_line_start",
            CanvasKeyAction::EnterEditModeLineEnd => "enter_edit_mode_line_end",
            CanvasKeyAction::DeleteLine => "delete_line",
            CanvasKeyAction::DeleteToLineEnd => "delete_to_line_end",
            CanvasKeyAction::ChangeLine => "change_line",
            CanvasKeyAction::ChangeToLineEnd => "change_to_line_end",
            CanvasKeyAction::OperatorDelete => "operator_delete",
            CanvasKeyAction::OperatorChange => "operator_change",
            CanvasKeyAction::OperatorYank => "operator_yank",
            CanvasKeyAction::JoinLineBelow => "join_line_below",
            CanvasKeyAction::YankLine => "yank_line",
            CanvasKeyAction::PasteAfter => "paste_after",
            CanvasKeyAction::PasteBefore => "paste_before",
            CanvasKeyAction::OpenSuggestions => "open_suggestions",
            CanvasKeyAction::ApplySuggestion => "apply_suggestion",
            CanvasKeyAction::EnterDecider => "enter_decider",
            CanvasKeyAction::SuggestionDown => "suggestion_down",
            CanvasKeyAction::SuggestionUp => "suggestion_up",
            CanvasKeyAction::EnterEditModeBefore => "enter_edit_mode_before",
            CanvasKeyAction::EnterEditModeAfter => "enter_edit_mode_after",
            CanvasKeyAction::Exit => "exit",
            CanvasKeyAction::ExitEditMode => "exit_edit_mode",
            CanvasKeyAction::EnterHighlightMode => "enter_highlight_mode",
            CanvasKeyAction::EnterHighlightModeLinewise => "enter_highlight_mode_linewise",
            CanvasKeyAction::ExitHighlightMode => "exit_highlight_mode",
            CanvasKeyAction::DeleteSelection => "delete_selection",
            CanvasKeyAction::DeleteSelectionNoYank => "delete_selection_no_yank",
            CanvasKeyAction::ChangeSelection => "change_selection",
            CanvasKeyAction::ChangeSelectionNoYank => "change_selection_no_yank",
            CanvasKeyAction::YankSelection => "yank_selection",
            CanvasKeyAction::CollapseSelection => "collapse_selection",
            CanvasKeyAction::ExtendLineBelow => "extend_line_below",
            CanvasKeyAction::ExtendToLineBounds => "extend_to_line_bounds",
            CanvasKeyAction::SearchNext => "search_next",
            CanvasKeyAction::SearchPrev => "search_prev",
            CanvasKeyAction::SelectAll => "select_all",
            CanvasKeyAction::FlipSelections => "flip_selections",
            CanvasKeyAction::SwitchCase => "switch_case",
            CanvasKeyAction::SwitchToLowercase => "switch_to_lowercase",
            CanvasKeyAction::SwitchToUppercase => "switch_to_uppercase",
            CanvasKeyAction::TrimSelections => "trim_selections",
            CanvasKeyAction::GotoFirstNonWhitespace => "goto_first_non_whitespace",
            CanvasKeyAction::MovePageUp => "move_page_up",
            CanvasKeyAction::MovePageDown => "move_page_down",
            CanvasKeyAction::SearchSelection => "search_selection",
            CanvasKeyAction::EnsureSelectionForward => "ensure_selection_forward",
            CanvasKeyAction::MatchBrackets => "match_brackets",
            CanvasKeyAction::IndentSelection => "indent_selection",
            CanvasKeyAction::UnindentSelection => "unindent_selection",
            CanvasKeyAction::IncrementNumber => "increment_number",
            CanvasKeyAction::DecrementNumber => "decrement_number",
            CanvasKeyAction::FindNextChar => "find_next_char",
            CanvasKeyAction::FindPrevChar => "find_prev_char",
            CanvasKeyAction::TillNextChar => "till_next_char",
            CanvasKeyAction::TillPrevChar => "till_prev_char",
            CanvasKeyAction::ReplaceChar => "replace_char",
            CanvasKeyAction::RepeatLastFind => "repeat_last_find",
            CanvasKeyAction::RepeatLastFindReverse => "repeat_last_find_reverse",
            CanvasKeyAction::SurroundAdd => "surround_add",
            CanvasKeyAction::SurroundDelete => "surround_delete",
            CanvasKeyAction::SurroundReplace => "surround_replace",
            CanvasKeyAction::DeleteWordBackward => "delete_word_backward",
            CanvasKeyAction::DeleteToLineStart => "delete_to_line_start",
            CanvasKeyAction::DeleteWordForward => "delete_word_forward",
            CanvasKeyAction::ClearSearch => "clear_search",
            CanvasKeyAction::MoveLineUp => "move_line_up",
            CanvasKeyAction::MoveLineDown => "move_line_down",
            CanvasKeyAction::DuplicateLineUp => "duplicate_line_up",
            CanvasKeyAction::DuplicateLineDown => "duplicate_line_down",
            CanvasKeyAction::CopyLine => "copy_line",
            CanvasKeyAction::CutLine => "cut_line",
            CanvasKeyAction::SelectLeft => "select_left",
            CanvasKeyAction::SelectRight => "select_right",
            CanvasKeyAction::SelectUp => "select_up",
            CanvasKeyAction::SelectDown => "select_down",
            CanvasKeyAction::SelectWordPrev => "select_word_prev",
            CanvasKeyAction::SelectWordNext => "select_word_next",
            CanvasKeyAction::SelectLineStart => "select_line_start",
            CanvasKeyAction::SelectLineEnd => "select_line_end",
            CanvasKeyAction::SelectDocStart => "select_doc_start",
            CanvasKeyAction::SelectDocEnd => "select_doc_end",
            CanvasKeyAction::Unknown(s) => s.as_str(),
        }
    }
}

/// Reading an action from a name and writing the action's name gives the
/// name back, for every name.
pub proof fn lemma_name_round_trip(s: Seq<char>)
    ensures
        known_action(s) matches Some(a) ==> action_name(a) == s,
{
}

/// Whether two actions are the same: the same known action, or unknown
/// actions read from the same name.
pub open spec fn same_action(a: CanvasKeyAction, b: CanvasKeyAction) -> bool {
    action_name(a) == action_name(b) && ((a is Unknown) == (b is Unknown))
}

/// Whether two actions are the same; see `same_action`.
pub fn same_action_exec(a: &CanvasKeyAction, b: &CanvasKeyAction) -> (res: bool)
    ensures
        res == same_action(*a, *b),
{
    let au = match a {
        CanvasKeyAction::Unknown(_) => true,
        _ => false,
    };
    let bu = match b {
        CanvasKeyAction::Unknown(_) => true,
        _ => false,
    };
    au == bu && str_equal(a.as_str(), b.as_str())
}

/// A copy of an action.
pub fn copy_action(a: &CanvasKeyAction) -> (res: CanvasKeyAction)
    ensures
        same_action(res, *a),
{
    match a {
        CanvasKeyAction::Unknown(s) => CanvasKeyAction::Unknown(s.as_str().to_owned()),
        _ => {
            let name = a.as_str();
            let r = CanvasKeyAction::from_name(name);
            proof {
                lemma_name_round_trip(name@);
            }
            r
        },
    }
}

} // verus!
verus! {

/// Writing a known action's name and reading it back gives the action.
pub proof fn lemma_known_action_round_trip(a: CanvasKeyAction)
    requires
        !(a is Unknown),
    ensures
        known_action(action_name(a)) == Some(a),
{
    reveal_strlit("move_left");
    assert("move_left"@ =~= seq!['m', 'o', 'v', 'e', '_', 'l', 'e', 'f', 't']);
    reveal_strlit("move_right");
    assert("move_right"@ =~= seq!['m', 'o', 'v', 'e', '_', 'r', 'i', 'g', 'h', 't']);
    reveal_strlit("move_up");
    assert("move_up"@ =~= seq!['m', 'o', 'v', 'e', '_', 'u', 'p']);
    reveal_strlit("move_down");
    assert("move_down"@ =~= seq!['m', 'o', 'v', 'e', '_', 'd', 'o', 'w', 'n']);
    reveal_strlit("next_field");
    assert("next_field"@ =~= seq!['n', 'e', 'x', 't', '_', 'f', 'i', 'e', 'l', 'd']);
    reveal_strlit("prev_field");
    assert("prev_field"@ =~= seq!['p', 'r', 'e', 'v', '_', 'f', 'i', 'e', 'l', 'd']);
    reveal_strlit("move_line_start");
    assert("move_line_start"@ =~= seq!['m', 'o', 'v', 'e', '_', 'l', 'i', 'n', 'e', '_', 's', 't', 'a', 'r', 't']);
    reveal_strlit("move_line_end");
    assert("move_line_end"@ =~= seq!['m', 'o', 'v', 'e', '_', 'l', 'i', 'n', 'e', '_', 'e', 'n', 'd']);
    reveal_strlit("move_half_page_up");
    assert("move_half_page_up"@ =~= seq!['m', 'o', 'v', 'e', '_', 'h', 'a', 'l', 'f', '_', 'p', 'a', 'g', 'e', '_', 'u', 'p']);
    reveal_strlit("move_half_page_down");
    assert("move_half_page_down"@ =~= seq!['m', 'o', 'v', 'e', '_', 'h', 'a', 'l', 'f', '_', 'p', 'a', 'g', 'e', '_', 'd', 'o', 'w', 'n']);
    reveal_strlit("move_first_line");
    assert("move_first_line"@ =~= seq!['m', 'o', 'v', 'e', '_', 'f', 'i', 'r', 's', 't', '_', 'l', 'i', 'n', 'e']);
    reveal_strlit("move_last_line");
    assert("move_last_line"@ =~= seq!['m', 'o', 'v', 'e', '_', 'l', 'a', 's', 't', '_', 'l', 'i', 'n', 'e']);
    reveal_strlit("move_word_next");
    assert("move_word_next"@ =~= seq!['m', 'o', 'v', 'e', '_', 'w', 'o', 'r', 'd', '_', 'n', 'e', 'x', 't']);
    reveal_strlit("move_word_prev");
    assert("move_word_prev"@ =~= seq!['m', 'o', 'v', 'e', '_', 'w', 'o', 'r', 'd', '_', 'p', 'r', 'e', 'v']);
    reveal_strlit("move_word_end");
    assert("move_word_end"@ =~= seq!['m', 'o', 'v', 'e', '_', 'w', 'o', 'r', 'd', '_', 'e', 'n', 'd']);
    reveal_strlit("move_word_end_prev");
    assert("move_word_end_prev"@ =~= seq!['m', 'o', 'v', 'e', '_', 'w', 'o', 'r', 'd', '_', 'e', 'n', 'd', '_', 'p', 'r', 'e', 'v']);
    reveal_strlit("move_big_word_next");
    assert("move_big_word_next"@ =~= seq!['m', 'o', 'v', 'e', '_', 'b', 'i', 'g', '_', 'w', 'o', 'r', 'd', '_', 'n', 'e', 'x', 't']);
    reveal_strlit("move_big_word_prev");
    assert("move_big_word_prev"@ =~= seq!['m', 'o', 'v', 'e', '_', 'b', 'i', 'g', '_', 'w', 'o', 'r', 'd', '_', 'p', 'r', 'e', 'v']);
    reveal_strlit("move_big_word_end");
    assert("move_big_word_end"@ =~= seq!['m', 'o', 'v', 'e', '_', 'b', 'i', 'g', '_', 'w', 'o', 'r', 'd', '_', 'e', 'n', 'd']);
    reveal_strlit("move_big_word_end_prev");
    assert("move_big_word_end_prev"@ =~= seq!['m', 'o', 'v', 'e', '_', 'b', 'i', 'g', '_', 'w', 'o', 'r', 'd', '_', 'e', 'n', 'd', '_', 'p', 'r', 'e', 'v']);
    reveal_strlit("delete_char_backward");
    assert("delete_char_backward"@ =~= seq!['d', 'e', 'l', 'e', 't', 'e', '_', 'c', 'h', 'a', 'r', '_', 'b', 'a', 'c', 'k', 'w', 'a', 'r', 'd']);
    reveal_strlit("delete_char_forward");
    assert("delete_char_forward"@ =~= seq!['d', 'e', 'l', 'e', 't', 'e', '_', 'c', 'h', 'a', 'r', '_', 'f', 'o', 'r', 'w', 'a', 'r', 'd']);
    reveal_strlit("undo");
    assert("undo"@ =~= seq!['u', 'n', 'd', 'o']);
    reveal_strlit("redo");
    assert("redo"@ =~= seq!['r', 'e', 'd', 'o']);
    reveal_strlit("open_line_below");
    assert("open_line_below"@ =~= seq!['o', 'p', 'e', 'n', '_', 'l', 'i', 'n', 'e', '_', 'b', 'e', 'l', 'o', 'w']);
    reveal_strlit("open_line_above");
    assert("open_line_above"@ =~= seq!['o', 'p', 'e', 'n', '_', 'l', 'i', 'n', 'e', '_', 'a', 'b', 'o', 'v', 'e']);
    reveal_strlit("enter_edit_mode_line_start");
    assert("enter_edit_mode_line_start"@ =~= seq!['e', 'n', 't', 'e', 'r', '_', 'e', 'd', 'i', 't', '_', 'm', 'o', 'd', 'e', '_', 'l', 'i', 'n', 'e', '_', 's', 't', 'a', 'r', 't']);
    reveal_strlit("enter_edit_mode_line_end");
    assert("enter_edit_mode_line_end"@ =~= seq!['e', 'n', 't', 'e', 'r', '_', 'e', 'd', 'i', 't', '_', 'm', 'o', 'd', 'e', '_', 'l', 'i', 'n', 'e', '_', 'e', 'n', 'd']);
    reveal_strlit("delete_line");
    assert("delete_line"@ =~= seq!['d', 'e', 'l', 'e', 't', 'e', '_', 'l', 'i', 'n', 'e']);
    reveal_strlit("delete_to_line_end");
    assert("delete_to_line_end"@ =~= seq!['d', 'e', 'l', 'e', 't', 'e', '_', 't', 'o', '_', 'l', 'i', 'n', 'e', '_', 'e', 'n', 'd']);
    reveal_strlit("change_line");
    assert("change_line"@ =~= seq!['c', 'h', 'a', 'n', 'g', 'e', '_', 'l', 'i', 'n', 'e']);
    reveal_strlit("change_to_line_end");
    assert("change_to_line_end"@ =~= seq!['c', 'h', 'a', 'n', 'g', 'e', '_', 't', 'o', '_', 'l', 'i', 'n', 'e', '_', 'e', 'n', 'd']);
    reveal_strlit("operator_delete");
    assert("operator_delete"@ =~= seq!['o', 'p', 'e', 'r', 'a', 't', 'o', 'r', '_', 'd', 'e', 'l', 'e', 't', 'e']);
    reveal_strlit("operator_change");
    assert("operator_change"@ =~= seq!['o', 'p', 'e', 'r', 'a', 't', 'o', 'r', '_', 'c', 'h', 'a', 'n', 'g', 'e']);
    reveal_strlit("operator_yank");
    assert("operator_yank"@ =~= seq!['o', 'p', 'e', 'r', 'a', 't', 'o', 'r', '_', 'y', 'a', 'n', 'k']);
    reveal_strlit("join_line_below");
    assert("join_line_below"@ =~= seq!['j', 'o', 'i', 'n', '_', 'l', 'i', 'n', 'e', '_', 'b', 'e', 'l', 'o', 'w']);
    reveal_strlit("yank_line");
    assert("yank_line"@ =~= seq!['y', 'a', 'n', 'k', '_', 'l', 'i', 'n', 'e']);
    reveal_strlit("paste_after");
    assert("paste_after"@ =~= seq!['p', 'a', 's', 't', 'e', '_', 'a', 'f', 't', 'e', 'r']);
    reveal_strlit("paste_before");
    assert("paste_before"@ =~= seq!['p', 'a', 's', 't', 'e', '_', 'b', 'e', 'f', 'o', 'r', 'e']);
    reveal_strlit("open_suggestions");
    assert("open_suggestions"@ =~= seq!['o', 'p', 'e', 'n', '_', 's', 'u', 'g', 'g', 'e', 's', 't', 'i', 'o', 'n', 's']);
    reveal_strlit("apply_suggestion");
    assert("apply_suggestion"@ =~= seq!['a', 'p', 'p', 'l', 'y', '_', 's', 'u', 'g', 'g', 'e', 's', 't', 'i', 'o', 'n']);
    reveal_strlit("enter_decider");
    assert("enter_decider"@ =~= seq!['e', 'n', 't', 'e', 'r', '_', 'd', 'e', 'c', 'i', 'd', 'e', 'r']);
    reveal_strlit("suggestion_down");
    assert("suggestion_down"@ =~= seq!['s', 'u', 'g', 'g', 'e', 's', 't', 'i', 'o', 'n', '_', 'd', 'o', 'w', 'n']);
    reveal_strlit("suggestion_up");
    assert("suggestion_up"@ =~= seq!['s', 'u', 'g', 'g', 'e', 's', 't', 'i', 'o', 'n', '_', 'u', 'p']);
    reveal_strlit("enter_edit_mode_before");
    assert("enter_edit_mode_before"@ =~= seq!['e', 'n', 't', 'e', 'r', '_', 'e', 'd', 'i', 't', '_', 'm', 'o', 'd', 'e', '_', 'b', 'e', 'f', 'o', 'r', 'e']);
    reveal_strlit("enter_edit_mode_after");
    assert("enter_edit_mode_after"@ =~= seq!['e', 'n', 't', 'e', 'r', '_', 'e', 'd', 'i', 't', '_', 'm', 'o', 'd', 'e', '_', 'a', 'f', 't', 'e', 'r']);
    reveal_strlit("exit");
    assert("exit"@ =~= seq!['e', 'x', 'i', 't']);
    reveal_strlit("exit_edit_mode");
    assert("exit_edit_mode"@ =~= seq!['e', 'x', 'i', 't', '_', 'e', 'd', 'i', 't', '_', 'm', 'o', 'd', 'e']);
    reveal_strlit("enter_highlight_mode");
    assert("enter_highlight_mode"@ =~= seq!['e', 'n', 't', 'e', 'r', '_', 'h', 'i', 'g', 'h', 'l', 'i', 'g', 'h', 't', '_', 'm', 'o', 'd', 'e']);
    reveal_strlit("enter_highlight_mode_linewise");
    assert("enter_highlight_mode_linewise"@ =~= seq!['e', 'n', 't', 'e', 'r', '_', 'h', 'i', 'g', 'h', 'l', 'i', 'g', 'h', 't', '_', 'm', 'o', 'd', 'e', '_', 'l', 'i', 'n', 'e', 'w', 'i', 's', 'e']);
    reveal_strlit("exit_highlight_mode");
    assert("exit_highlight_mode"@ =~= seq!['e', 'x', 'i', 't', '_', 'h', 'i', 'g', 'h', 'l', 'i', 'g', 'h', 't', '_', 'm', 'o', 'd', 'e']);
    reveal_strlit("delete_selection");
    assert("delete_selection"@ =~= seq!['d', 'e', 'l', 'e', 't', 'e', '_', 's', 'e', 'l', 'e', 'c', 't', 'i', 'o', 'n']);
    reveal_strlit("delete_selection_no_yank");
    assert("delete_selection_no_yank"@ =~= seq!['d', 'e', 'l', 'e', 't', 'e', '_', 's', 'e', 'l', 'e', 'c', 't', 'i', 'o', 'n', '_', 'n', 'o', '_', 'y', 'a', 'n', 'k']);
    reveal_strlit("change_selection");
    assert("change_selection"@ =~= seq!['c', 'h', 'a', 'n', 'g', 'e', '_', 's', 'e', 'l', 'e', 'c', 't', 'i', 'o', 'n']);
    reveal_strlit("change_selection_no_yank");
    assert("change_selection_no_yank"@ =~= seq!['c', 'h', 'a', 'n', 'g', 'e', '_', 's', 'e', 'l', 'e', 'c', 't', 'i', 'o', 'n', '_', 'n', 'o', '_', 'y', 'a', 'n', 'k']);
    reveal_strlit("yank_selection");
    assert("yank_selection"@ =~= seq!['y', 'a', 'n', 'k', '_', 's', 'e', 'l', 'e', 'c', 't', 'i', 'o', 'n']);
    reveal_strlit("collapse_selection");
    assert("collapse_selection"@ =~= seq!['c', 'o', 'l', 'l', 'a', 'p', 's', 'e', '_', 's', 'e', 'l', 'e', 'c', 't', 'i', 'o', 'n']);
    reveal_strlit("extend_line_below");
    assert("extend_line_below"@ =~= seq!['e', 'x', 't', 'e', 'n', 'd', '_', 'l', 'i', 'n', 'e', '_', 'b', 'e', 'l', 'o', 'w']);
    reveal_strlit("extend_to_line_bounds");
    assert("extend_to_line_bounds"@ =~= seq!['e', 'x', 't', 'e', 'n', 'd', '_', 't', 'o', '_', 'l', 'i', 'n', 'e', '_', 'b', 'o', 'u', 'n', 'd', 's']);
    reveal_strlit("search_next");
    assert("search_next"@ =~= seq!['s', 'e', 'a', 'r', 'c', 'h', '_', 'n', 'e', 'x', 't']);
    reveal_strlit("search_prev");
    assert("search_prev"@ =~= seq!['s', 'e', 'a', 'r', 'c', 'h', '_', 'p', 'r', 'e', 'v']);
    reveal_strlit("select_all");
    assert("select_all"@ =~= seq!['s', 'e', 'l', 'e', 'c', 't', '_', 'a', 'l', 'l']);
    reveal_strlit("flip_selections");
    assert("flip_selections"@ =~= seq!['f', 'l', 'i', 'p', '_', 's', 'e', 'l', 'e', 'c', 't', 'i', 'o', 'n', 's']);
    reveal_strlit("switch_case");
    assert("switch_case"@ =~= seq!['s', 'w', 'i', 't', 'c', 'h', '_', 'c', 'a', 's', 'e']);
    reveal_strlit("switch_to_lowercase");
    assert("switch_to_lowercase"@ =~= seq!['s', 'w', 'i', 't', 'c', 'h', '_', 't', 'o', '_', 'l', 'o', 'w', 'e', 'r', 'c', 'a', 's', 'e']);
    reveal_strlit("switch_to_uppercase");
    assert("switch_to_uppercase"@ =~= seq!['s', 'w', 'i', 't', 'c', 'h', '_', 't', 'o', '_', 'u', 'p', 'p', 'e', 'r', 'c', 'a', 's', 'e']);
    reveal_strlit("trim_selections");
    assert("trim_selections"@ =~= seq!['t', 'r', 'i', 'm', '_', 's', 'e', 'l', 'e', 'c', 't', 'i', 'o', 'n', 's']);
    reveal_strlit("goto_first_non_whitespace");
    assert("goto_first_non_whitespace"@ =~= seq!['g', 'o', 't', 'o', '_', 'f', 'i', 'r', 's', 't', '_', 'n', 'o', 'n', '_', 'w', 'h', 'i', 't', 'e', 's', 'p', 'a', 'c', 'e']);
    reveal_strlit("move_page_up");
    assert("move_page_up"@ =~= seq!['m', 'o', 'v', 'e', '_', 'p', 'a', 'g', 'e', '_', 'u', 'p']);
    reveal_strlit("move_page_down");
    assert("move_page_down"@ =~= seq!['m', 'o', 'v', 'e', '_', 'p', 'a', 'g', 'e', '_', 'd', 'o', 'w', 'n']);
    reveal_strlit("search_selection");
    assert("search_selection"@ =~= seq!['s', 'e', 'a', 'r', 'c', 'h', '_', 's', 'e', 'l', 'e', 'c', 't', 'i', 'o', 'n']);
    reveal_strlit("ensure_selection_forward");
    assert("ensure_selection_forward"@ =~= seq!['e', 'n', 's', 'u', 'r', 'e', '_', 's', 'e', 'l', 'e', 'c', 't', 'i', 'o', 'n', '_', 'f', 'o', 'r', 'w', 'a', 'r', 'd']);
    reveal_strlit("match_brackets");
    assert("match_brackets"@ =~= seq!['m', 'a', 't', 'c', 'h', '_', 'b', 'r', 'a', 'c', 'k', 'e', 't', 's']);
    reveal_strlit("indent_selection");
    assert("indent_selection"@ =~= seq!['i', 'n', 'd', 'e', 'n', 't', '_', 's', 'e', 'l', 'e', 'c', 't', 'i', 'o', 'n']);
    reveal_strlit("unindent_selection");
    assert("unindent_selection"@ =~= seq!['u', 'n', 'i', 'n', 'd', 'e', 'n', 't', '_', 's', 'e', 'l', 'e', 'c', 't', 'i', 'o', 'n']);
    reveal_strlit("increment_number");
    assert("increment_number"@ =~= seq!['i', 'n', 'c', 'r', 'e', 'm', 'e', 'n', 't', '_', 'n', 'u', 'm', 'b', 'e', 'r']);
    reveal_strlit("decrement_number");
    assert("decrement_number"@ =~= seq!['d', 'e', 'c', 'r', 'e', 'm', 'e', 'n', 't', '_', 'n', 'u', 'm', 'b', 'e', 'r']);
    reveal_strlit("find_next_char");
    assert("find_next_char"@ =~= seq!['f', 'i', 'n', 'd', '_', 'n', 'e', 'x', 't', '_', 'c', 'h', 'a', 'r']);
    reveal_strlit("find_prev_char");
    assert("find_prev_char"@ =~= seq!['f', 'i', 'n', 'd', '_', 'p', 'r', 'e', 'v', '_', 'c', 'h', 'a', 'r']);
    reveal_strlit("till_next_char");
    assert("till_next_char"@ =~= seq!['t', 'i', 'l', 'l', '_', 'n', 'e', 'x', 't', '_', 'c', 'h', 'a', 'r']);
    reveal_strlit("till_prev_char");
    assert("till_prev_char"@ =~= seq!['t', 'i', 'l', 'l', '_', 'p', 'r', 'e', 'v', '_', 'c', 'h', 'a', 'r']);
    reveal_strlit("replace_char");
    assert("replace_char"@ =~= seq!['r', 'e', 'p', 'l', 'a', 'c', 'e', '_', 'c', 'h', 'a', 'r']);
    reveal_strlit("repeat_last_find");
    assert("repeat_last_find"@ =~= seq!['r', 'e', 'p', 'e', 'a', 't', '_', 'l', 'a', 's', 't', '_', 'f', 'i', 'n', 'd']);
    reveal_strlit("repeat_last_find_reverse");
    assert("repeat_last_find_reverse"@ =~= seq!['r', 'e', 'p', 'e', 'a', 't', '_', 'l', 'a', 's', 't', '_', 'f', 'i', 'n', 'd', '_', 'r', 'e', 'v', 'e', 'r', 's', 'e']);
    reveal_strlit("surround_add");
    assert("surround_add"@ =~= seq!['s', 'u', 'r', 'r', 'o', 'u', 'n', 'd', '_', 'a', 'd', 'd']);
    reveal_strlit("surround_delete");
    assert("surround_delete"@ =~= seq!['s', 'u', 'r', 'r', 'o', 'u', 'n', 'd', '_', 'd', 'e', 'l', 'e', 't', 'e']);
    reveal_strlit("surround_replace");
    assert("surround_replace"@ =~= seq!['s', 'u', 'r', 'r', 'o', 'u', 'n', 'd', '_', 'r', 'e', 'p', 'l', 'a', 'c', 'e']);
    reveal_strlit("delete_word_backward");
    assert("delete_word_backward"@ =~= seq!['d', 'e', 'l', 'e', 't', 'e', '_', 'w', 'o', 'r', 'd', '_', 'b', 'a', 'c', 'k', 'w', 'a', 'r', 'd']);
    reveal_strlit("delete_to_line_start");
    assert("delete_to_line_start"@ =~= seq!['d', 'e', 'l', 'e', 't', 'e', '_', 't', 'o', '_', 'l', 'i', 'n', 'e', '_', 's', 't', 'a', 'r', 't']);
    reveal_strlit("delete_word_forward");
    assert("delete_word_forward"@ =~= seq!['d', 'e', 'l', 'e', 't', 'e', '_', 'w', 'o', 'r', 'd', '_', 'f', 'o', 'r', 'w', 'a', 'r', 'd']);
    reveal_strlit("clear_search");
    assert("clear_search"@ =~= seq!['c', 'l', 'e', 'a', 'r', '_', 's', 'e', 'a', 'r', 'c', 'h']);
    reveal_strlit("move_line_up");
    assert("move_line_up"@ =~= seq!['m', 'o', 'v', 'e', '_', 'l', 'i', 'n', 'e', '_', 'u', 'p']);
    reveal_strlit("move_line_down");
    assert("move_line_down"@ =~= seq!['m', 'o', 'v', 'e', '_', 'l', 'i', 'n', 'e', '_', 'd', 'o', 'w', 'n']);
    reveal_strlit("duplicate_line_up");
    assert("duplicate_line_up"@ =~= seq!['d', 'u', 'p', 'l', 'i', 'c', 'a', 't', 'e', '_', 'l', 'i', 'n', 'e', '_', 'u', 'p']);
    reveal_strlit("duplicate_line_down");
    assert("duplicate_line_down"@ =~= seq!['d', 'u', 'p', 'l', 'i', 'c', 'a', 't', 'e', '_', 'l', 'i', 'n', 'e', '_', 'd', 'o', 'w', 'n']);
    reveal_strlit("copy_line");
    assert("copy_line"@ =~= seq!['c', 'o', 'p', 'y', '_', 'l', 'i', 'n', 'e']);
    reveal_strlit("cut_line");
    assert("cut_line"@ =~= seq!['c', 'u', 't', '_', 'l', 'i', 'n', 'e']);
    reveal_strlit("select_left");
    assert("select_left"@ =~= seq!['s', 'e', 'l', 'e', 'c', 't', '_', 'l', 'e', 'f', 't']);
    reveal_strlit("select_right");
    assert("select_right"@ =~= seq!['s', 'e', 'l', 'e', 'c', 't', '_', 'r', 'i', 'g', 'h', 't']);
    reveal_strlit("select_up");
    assert("select_up"@ =~= seq!['s', 'e', 'l', 'e', 'c', 't', '_', 'u', 'p']);
    reveal_strlit("select_down");
    assert("select_down"@ =~= seq!['s', 'e', 'l', 'e', 'c', 't', '_', 'd', 'o', 'w', 'n']);
    reveal_strlit("select_word_prev");
    assert("select_word_prev"@ =~= seq!['s', 'e', 'l', 'e', 'c', 't', '_', 'w', 'o', 'r', 'd', '_', 'p', 'r', 'e', 'v']);
    reveal_strlit("select_word_next");
    assert("select_word_next"@ =~= seq!['s', 'e', 'l', 'e', 'c', 't', '_', 'w', 'o', 'r', 'd', '_', 'n', 'e', 'x', 't']);
    reveal_strlit("select_line_start");
    assert("select_line_start"@ =~= seq!['s', 'e', 'l', 'e', 'c', 't', '_', 'l', 'i', 'n', 'e', '_', 's', 't', 'a', 'r', 't']);
    reveal_strlit("select_line_end");
    assert("select_line_end"@ =~= seq!['s', 'e', 'l', 'e', 'c', 't', '_', 'l', 'i', 'n', 'e', '_', 'e', 'n', 'd']);
    reveal_strlit("select_doc_start");
    assert("select_doc_start"@ =~= seq!['s', 'e', 'l', 'e', 'c', 't', '_', 'd', 'o', 'c', '_', 's', 't', 'a', 'r', 't']);
    reveal_strlit("select_doc_end");
    assert("select_doc_end"@ =~= seq!['s', 'e', 'l', 'e', 'c', 't', '_', 'd', 'o', 'c', '_', 'e', 'n', 'd']);
}

/// Two known actions with the same name are the same action.
pub proof fn lemma_action_name_injective(a: CanvasKeyAction, b: CanvasKeyAction)
    requires
        !(a is Unknown),
        !(b is Unknown),
        action_name(a) == action_name(b),
    ensures
        a == b,
{
    lemma_known_action_round_trip(a);
    lemma_known_action_round_trip(b);
}

} // verus!
