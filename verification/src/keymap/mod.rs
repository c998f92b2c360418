//! The actions of the key map, and their names.
use vstd::prelude::*;

use crate::text::str_equal;

verus! {

/// What handling a key event came to.
#[derive(Debug, Clone, PartialEq, Eq)]
pub enum KeyEventOutcome {
    /// The key was used, with an optional message.
    Consumed(Option<String>),
    /// The key starts a longer binding.
    Pending,
    /// No binding matched.
    NotMatched,
    /// Navigation upward reached the top.
    ExitTop,
    /// Navigation downward reached the bottom.
    ExitBottom,
}

/// An action that a key map can name.
#[derive(Debug, Clone, PartialEq, Eq, Hash)]
pub enum CanvasKeyAction {
    MoveLeft,
    MoveRight,
    MoveUp,
    MoveDown,
    NextField,
    PrevField,
    MoveLineStart,
    MoveLineEnd,
    MoveFirstLine,
    MoveLastLine,
    MoveWordNext,
    MoveWordPrev,
    MoveWordEnd,
    MoveWordEndPrev,
    MoveBigWordNext,
    MoveBigWordPrev,
    MoveBigWordEnd,
    MoveBigWordEndPrev,
    DeleteCharBackward,
    DeleteCharForward,
    OpenLineBelow,
    OpenLineAbove,
    OpenSuggestions,
    ApplySuggestion,
    EnterDecider,
    SuggestionDown,
    SuggestionUp,
    EnterEditModeBefore,
    EnterEditModeAfter,
    Exit,
    ExitEditMode,
    EnterHighlightMode,
    EnterHighlightModeLinewise,
    ExitHighlightMode,
    /// A name that names no action.
    Unknown(String),
}

/// The name of an action: its snake-case name, or the name an unknown
/// action was read from.
pub open spec fn action_name(a: CanvasKeyAction) -> Seq<char> {
    match a {
        CanvasKeyAction::MoveLeft => "move_left"@,
        CanvasKeyAction::MoveRight => "move_right"@,
        CanvasKeyAction::MoveUp => "move_up"@,
        CanvasKeyAction::MoveDown => "move_down"@,
        CanvasKeyAction::NextField => "next_field"@,
        CanvasKeyAction::PrevField => "prev_field"@,
        CanvasKeyAction::MoveLineStart => "move_line_start"@,
        CanvasKeyAction::MoveLineEnd => "move_line_end"@,
        CanvasKeyAction::MoveFirstLine => "move_first_line"@,
        CanvasKeyAction::MoveLastLine => "move_last_line"@,
        CanvasKeyAction::MoveWordNext => "move_word_next"@,
        CanvasKeyAction::MoveWordPrev => "move_word_prev"@,
        CanvasKeyAction::MoveWordEnd => "move_word_end"@,
        CanvasKeyAction::MoveWordEndPrev => "move_word_end_prev"@,
        CanvasKeyAction::MoveBigWordNext => "move_big_word_next"@,
        CanvasKeyAction::MoveBigWordPrev => "move_big_word_prev"@,
        CanvasKeyAction::MoveBigWordEnd => "move_big_word_end"@,
        CanvasKeyAction::MoveBigWordEndPrev => "move_big_word_end_prev"@,
        CanvasKeyAction::DeleteCharBackward => "delete_char_backward"@,
        CanvasKeyAction::DeleteCharForward => "delete_char_forward"@,
        CanvasKeyAction::OpenLineBelow => "open_line_below"@,
        CanvasKeyAction::OpenLineAbove => "open_line_above"@,
        CanvasKeyAction::OpenSuggestions => "open_suggestions"@,
        CanvasKeyAction::ApplySuggestion => "apply_suggestion"@,
        CanvasKeyAction::EnterDecider => "enter_decider"@,
        CanvasKeyAction::SuggestionDown => "suggestion_down"@,
        CanvasKeyAction::SuggestionUp => "suggestion_up"@,
        CanvasKeyAction::EnterEditModeBefore => "enter_edit_mode_before"@,
        CanvasKeyAction::EnterEditModeAfter => "enter_edit_mode_after"@,
        CanvasKeyAction::Exit => "exit"@,
        CanvasKeyAction::ExitEditMode => "exit_edit_mode"@,
        CanvasKeyAction::EnterHighlightMode => "enter_highlight_mode"@,
        CanvasKeyAction::EnterHighlightModeLinewise => "enter_highlight_mode_linewise"@,
        CanvasKeyAction::ExitHighlightMode => "exit_highlight_mode"@,
        CanvasKeyAction::Unknown(s) => s@,
    }
}

/// The action whose snake-case name is `s`, if there is one.
pub open spec fn known_action(s: Seq<char>) -> Option<CanvasKeyAction> {
    if s == "move_left"@ {
        Some(CanvasKeyAction::MoveLeft)
    } else if s == "move_right"@ {
        Some(CanvasKeyAction::MoveRight)
    } else if s == "move_up"@ {
        Some(CanvasKeyAction::MoveUp)
    } else if s == "move_down"@ {
        Some(CanvasKeyAction::MoveDown)
    } else if s == "next_field"@ {
        Some(CanvasKeyAction::NextField)
    } else if s == "prev_field"@ {
        Some(CanvasKeyAction::PrevField)
    } else if s == "move_line_start"@ {
        Some(CanvasKeyAction::MoveLineStart)
    } else if s == "move_line_end"@ {
        Some(CanvasKeyAction::MoveLineEnd)
    } else if s == "move_first_line"@ {
        Some(CanvasKeyAction::MoveFirstLine)
    } else if s == "move_last_line"@ {
        Some(CanvasKeyAction::MoveLastLine)
    } else if s == "move_word_next"@ {
        Some(CanvasKeyAction::MoveWordNext)
    } else if s == "move_word_prev"@ {
        Some(CanvasKeyAction::MoveWordPrev)
    } else if s == "move_word_end"@ {
        Some(CanvasKeyAction::MoveWordEnd)
    } else if s == "move_word_end_prev"@ {
        Some(CanvasKeyAction::MoveWordEndPrev)
    } else if s == "move_big_word_next"@ {
        Some(CanvasKeyAction::MoveBigWordNext)
    } else if s == "move_big_word_prev"@ {
        Some(CanvasKeyAction::MoveBigWordPrev)
    } else if s == "move_big_word_end"@ {
        Some(CanvasKeyAction::MoveBigWordEnd)
    } else if s == "move_big_word_end_prev"@ {
        Some(CanvasKeyAction::MoveBigWordEndPrev)
    } else if s == "delete_char_backward"@ {
        Some(CanvasKeyAction::DeleteCharBackward)
    } else if s == "delete_char_forward"@ {
        Some(CanvasKeyAction::DeleteCharForward)
    } else if s == "open_line_below"@ {
        Some(CanvasKeyAction::OpenLineBelow)
    } else if s == "open_line_above"@ {
        Some(CanvasKeyAction::OpenLineAbove)
    } else if s == "open_suggestions"@ {
        Some(CanvasKeyAction::OpenSuggestions)
    } else if s == "apply_suggestion"@ {
        Some(CanvasKeyAction::ApplySuggestion)
    } else if s == "enter_decider"@ {
        Some(CanvasKeyAction::EnterDecider)
    } else if s == "suggestion_down"@ {
        Some(CanvasKeyAction::SuggestionDown)
    } else if s == "suggestion_up"@ {
        Some(CanvasKeyAction::SuggestionUp)
    } else if s == "enter_edit_mode_before"@ {
        Some(CanvasKeyAction::EnterEditModeBefore)
    } else if s == "enter_edit_mode_after"@ {
        Some(CanvasKeyAction::EnterEditModeAfter)
    } else if s == "exit"@ {
        Some(CanvasKeyAction::Exit)
    } else if s == "exit_edit_mode"@ {
        Some(CanvasKeyAction::ExitEditMode)
    } else if s == "enter_highlight_mode"@ {
        Some(CanvasKeyAction::EnterHighlightMode)
    } else if s == "enter_highlight_mode_linewise"@ {
        Some(CanvasKeyAction::EnterHighlightModeLinewise)
    } else if s == "exit_highlight_mode"@ {
        Some(CanvasKeyAction::ExitHighlightMode)
    } else {
        None
    }
}

impl CanvasKeyAction {
    /// The action named `name`; a name of no action gives `Unknown` holding
    /// the name.
    pub fn from_name(name: &str) -> (res: Self)
        ensures
            known_action(name@) matches Some(a) ==> res == a,
            known_action(name@) is None ==> (res matches CanvasKeyAction::Unknown(s) && s@ == name@),
    {
        if str_equal(name, "move_left") {
            return CanvasKeyAction::MoveLeft;
        }
        if str_equal(name, "move_right") {
            return CanvasKeyAction::MoveRight;
        }
        if str_equal(name, "move_up") {
            return CanvasKeyAction::MoveUp;
        }
        if str_equal(name, "move_down") {
            return CanvasKeyAction::MoveDown;
        }
        if str_equal(name, "next_field") {
            return CanvasKeyAction::NextField;
        }
        if str_equal(name, "prev_field") {
            return CanvasKeyAction::PrevField;
        }
        if str_equal(name, "move_line_start") {
            return CanvasKeyAction::MoveLineStart;
        }
        if str_equal(name, "move_line_end") {
            return CanvasKeyAction::MoveLineEnd;
        }
        if str_equal(name, "move_first_line") {
            return CanvasKeyAction::MoveFirstLine;
        }
        if str_equal(name, "move_last_line") {
            return CanvasKeyAction::MoveLastLine;
        }
        if str_equal(name, "move_word_next") {
            return CanvasKeyAction::MoveWordNext;
        }
        if str_equal(name, "move_word_prev") {
            return CanvasKeyAction::MoveWordPrev;
        }
        if str_equal(name, "move_word_end") {
            return CanvasKeyAction::MoveWordEnd;
        }
        if str_equal(name, "move_word_end_prev") {
            return CanvasKeyAction::MoveWordEndPrev;
        }
        if str_equal(name, "move_big_word_next") {
            return CanvasKeyAction::MoveBigWordNext;
        }
        if str_equal(name, "move_big_word_prev") {
            return CanvasKeyAction::MoveBigWordPrev;
        }
        if str_equal(name, "move_big_word_end") {
            return CanvasKeyAction::MoveBigWordEnd;
        }
        if str_equal(name, "move_big_word_end_prev") {
            return CanvasKeyAction::MoveBigWordEndPrev;
        }
        if str_equal(name, "delete_char_backward") {
            return CanvasKeyAction::DeleteCharBackward;
        }
        if str_equal(name, "delete_char_forward") {
            return CanvasKeyAction::DeleteCharForward;
        }
        if str_equal(name, "open_line_below") {
            return CanvasKeyAction::OpenLineBelow;
        }
        if str_equal(name, "open_line_above") {
            return CanvasKeyAction::OpenLineAbove;
        }
        if str_equal(name, "open_suggestions") {
            return CanvasKeyAction::OpenSuggestions;
        }
        if str_equal(name, "apply_suggestion") {
            return CanvasKeyAction::ApplySuggestion;
        }
        if str_equal(name, "enter_decider") {
            return CanvasKeyAction::EnterDecider;
        }
        if str_equal(name, "suggestion_down") {
            return CanvasKeyAction::SuggestionDown;
        }
        if str_equal(name, "suggestion_up") {
            return CanvasKeyAction::SuggestionUp;
        }
        if str_equal(name, "enter_edit_mode_before") {
            return CanvasKeyAction::EnterEditModeBefore;
        }
        if str_equal(name, "enter_edit_mode_after") {
            return CanvasKeyAction::EnterEditModeAfter;
        }
        if str_equal(name, "exit") {
            return CanvasKeyAction::Exit;
        }
        if str_equal(name, "exit_edit_mode") {
            return CanvasKeyAction::ExitEditMode;
        }
        if str_equal(name, "enter_highlight_mode") {
            return CanvasKeyAction::EnterHighlightMode;
        }
        if str_equal(name, "enter_highlight_mode_linewise") {
            return CanvasKeyAction::EnterHighlightModeLinewise;
        }
        if str_equal(name, "exit_highlight_mode") {
            return CanvasKeyAction::ExitHighlightMode;
        }
        CanvasKeyAction::Unknown(name.to_owned())
    }

    /// The name of the action.
    pub fn as_str(&self) -> (res: &str)
        ensures
            res@ == action_name(*self),
    {
        match self {
            CanvasKeyAction::MoveLeft => "move_left",
            CanvasKeyAction::MoveRight => "move_right",
            CanvasKeyAction::MoveUp => "move_up",
            CanvasKeyAction::MoveDown => "move_down",
            CanvasKeyAction::NextField => "next_field",
            CanvasKeyAction::PrevField => "prev_field",
            CanvasKeyAction::MoveLineStart => "move_line_start",
            CanvasKeyAction::MoveLineEnd => "move_line_end",
            CanvasKeyAction::MoveFirstLine => "move_first_line",
            CanvasKeyAction::MoveLastLine => "move_last_line",
            CanvasKeyAction::MoveWordNext => "move_word_next",
            CanvasKeyAction::MoveWordPrev => "move_word_prev",
            CanvasKeyAction::MoveWordEnd => "move_word_end",
            CanvasKeyAction::MoveWordEndPrev => "move_word_end_prev",
            CanvasKeyAction::MoveBigWordNext => "move_big_word_next",
            CanvasKeyAction::MoveBigWordPrev => "move_big_word_prev",
            CanvasKeyAction::MoveBigWordEnd => "move_big_word_end",
            CanvasKeyAction::MoveBigWordEndPrev => "move_big_word_end_prev",
            CanvasKeyAction::DeleteCharBackward => "delete_char_backward",
            CanvasKeyAction::DeleteCharForward => "delete_char_forward",
            CanvasKeyAction::OpenLineBelow => "open_line_below",
            CanvasKeyAction::OpenLineAbove => "open_line_above",
            CanvasKeyAction::OpenSuggestions => "open_suggestions",
            CanvasKeyAction::ApplySuggestion => "apply_suggestion",
            CanvasKeyAction::EnterDecider => "enter_decider",
            CanvasKeyAction::SuggestionDown => "suggestion_down",
            CanvasKeyAction::SuggestionUp => "suggestion_up",
            CanvasKeyAction::EnterEditModeBefore => "enter_edit_mode_before",
            CanvasKeyAction::EnterEditModeAfter => "enter_edit_mode_after",
            CanvasKeyAction::Exit => "exit",
            CanvasKeyAction::ExitEditMode => "exit_edit_mode",
            CanvasKeyAction::EnterHighlightMode => "enter_highlight_mode",
            CanvasKeyAction::EnterHighlightModeLinewise => "enter_highlight_mode_linewise",
            CanvasKeyAction::ExitHighlightMode => "exit_highlight_mode",
            CanvasKeyAction::Unknown(s) => s.as_str(),
        }
    }
}

/// Reading an action from a name and writing the action's name gives the
/// name back, for every name.
pub proof fn lemma_name_round_trip(s: Seq<char>)
    ensures
        known_action(s) matches Some(a) ==> action_name(a) == s,
{
}

} // verus!

verus! {

/// Writing a known action's name and reading it back gives the action.
pub proof fn lemma_known_action_round_trip(a: CanvasKeyAction)
    requires
        !(a is Unknown),
    ensures
        known_action(action_name(a)) == Some(a),
{
    reveal_strlit("move_left");
    assert("move_left"@ =~= seq!['m', 'o', 'v', 'e', '_', 'l', 'e', 'f', 't']);
    reveal_strlit("move_right");
    assert("move_right"@ =~= seq!['m', 'o', 'v', 'e', '_', 'r', 'i', 'g', 'h', 't']);
    reveal_strlit("move_up");
    assert("move_up"@ =~= seq!['m', 'o', 'v', 'e', '_', 'u', 'p']);
    reveal_strlit("move_down");
    assert("move_down"@ =~= seq!['m', 'o', 'v', 'e', '_', 'd', 'o', 'w', 'n']);
    reveal_strlit("next_field");
    assert("next_field"@ =~= seq!['n', 'e', 'x', 't', '_', 'f', 'i', 'e', 'l', 'd']);
    reveal_strlit("prev_field");
    assert("prev_field"@ =~= seq!['p', 'r', 'e', 'v', '_', 'f', 'i', 'e', 'l', 'd']);
    reveal_strlit("move_line_start");
    assert("move_line_start"@ =~= seq!['m', 'o', 'v', 'e', '_', 'l', 'i', 'n', 'e', '_', 's', 't', 'a', 'r', 't']);
    reveal_strlit("move_line_end");
    assert("move_line_end"@ =~= seq!['m', 'o', 'v', 'e', '_', 'l', 'i', 'n', 'e', '_', 'e', 'n', 'd']);
    reveal_strlit("move_first_line");
    assert("move_first_line"@ =~= seq!['m', 'o', 'v', 'e', '_', 'f', 'i', 'r', 's', 't', '_', 'l', 'i', 'n', 'e']);
    reveal_strlit("move_last_line");
    assert("move_last_line"@ =~= seq!['m', 'o', 'v', 'e', '_', 'l', 'a', 's', 't', '_', 'l', 'i', 'n', 'e']);
    reveal_strlit("move_word_next");
    assert("move_word_next"@ =~= seq!['m', 'o', 'v', 'e', '_', 'w', 'o', 'r', 'd', '_', 'n', 'e', 'x', 't']);
    reveal_strlit("move_word_prev");
    assert("move_word_prev"@ =~= seq!['m', 'o', 'v', 'e', '_', 'w', 'o', 'r', 'd', '_', 'p', 'r', 'e', 'v']);
    reveal_strlit("move_word_end");
    assert("move_word_end"@ =~= seq!['m', 'o', 'v', 'e', '_', 'w', 'o', 'r', 'd', '_', 'e', 'n', 'd']);
    reveal_strlit("move_word_end_prev");
    assert("move_word_end_prev"@ =~= seq!['m', 'o', 'v', 'e', '_', 'w', 'o', 'r', 'd', '_', 'e', 'n', 'd', '_', 'p', 'r', 'e', 'v']);
    reveal_strlit("move_big_word_next");
    assert("move_big_word_next"@ =~= seq!['m', 'o', 'v', 'e', '_', 'b', 'i', 'g', '_', 'w', 'o', 'r', 'd', '_', 'n', 'e', 'x', 't']);
    reveal_strlit("move_big_word_prev");
    assert("move_big_word_prev"@ =~= seq!['m', 'o', 'v', 'e', '_', 'b', 'i', 'g', '_', 'w', 'o', 'r', 'd', '_', 'p', 'r', 'e', 'v']);
    reveal_strlit("move_big_word_end");
    assert("move_big_word_end"@ =~= seq!['m', 'o', 'v', 'e', '_', 'b', 'i', 'g', '_', 'w', 'o', 'r', 'd', '_', 'e', 'n', 'd']);
    reveal_strlit("move_big_word_end_prev");
    assert("move_big_word_end_prev"@ =~= seq!['m', 'o', 'v', 'e', '_', 'b', 'i', 'g', '_', 'w', 'o', 'r', 'd', '_', 'e', 'n', 'd', '_', 'p', 'r', 'e', 'v']);
    reveal_strlit("delete_char_backward");
    assert("delete_char_backward"@ =~= seq!['d', 'e', 'l', 'e', 't', 'e', '_', 'c', 'h', 'a', 'r', '_', 'b', 'a', 'c', 'k', 'w', 'a', 'r', 'd']);
    reveal_strlit("delete_char_forward");
    assert("delete_char_forward"@ =~= seq!['d', 'e', 'l', 'e', 't', 'e', '_', 'c', 'h', 'a', 'r', '_', 'f', 'o', 'r', 'w', 'a', 'r', 'd']);
    reveal_strlit("open_line_below");
    assert("open_line_below"@ =~= seq!['o', 'p', 'e', 'n', '_', 'l', 'i', 'n', 'e', '_', 'b', 'e', 'l', 'o', 'w']);
    reveal_strlit("open_line_above");
    assert("open_line_above"@ =~= seq!['o', 'p', 'e', 'n', '_', 'l', 'i', 'n', 'e', '_', 'a', 'b', 'o', 'v', 'e']);
    reveal_strlit("open_suggestions");
    assert("open_suggestions"@ =~= seq!['o', 'p', 'e', 'n', '_', 's', 'u', 'g', 'g', 'e', 's', 't', 'i', 'o', 'n', 's']);
    reveal_strlit("apply_suggestion");
    assert("apply_suggestion"@ =~= seq!['a', 'p', 'p', 'l', 'y', '_', 's', 'u', 'g', 'g', 'e', 's', 't', 'i', 'o', 'n']);
    reveal_strlit("enter_decider");
    assert("enter_decider"@ =~= seq!['e', 'n', 't', 'e', 'r', '_', 'd', 'e', 'c', 'i', 'd', 'e', 'r']);
    reveal_strlit("suggestion_down");
    assert("suggestion_down"@ =~= seq!['s', 'u', 'g', 'g', 'e', 's', 't', 'i', 'o', 'n', '_', 'd', 'o', 'w', 'n']);
    reveal_strlit("suggestion_up");
    assert("suggestion_up"@ =~= seq!['s', 'u', 'g', 'g', 'e', 's', 't', 'i', 'o', 'n', '_', 'u', 'p']);
    reveal_strlit("enter_edit_mode_before");
    assert("enter_edit_mode_before"@ =~= seq!['e', 'n', 't', 'e', 'r', '_', 'e', 'd', 'i', 't', '_', 'm', 'o', 'd', 'e', '_', 'b', 'e', 'f', 'o', 'r', 'e']);
    reveal_strlit("enter_edit_mode_after");
    assert("enter_edit_mode_after"@ =~= seq!['e', 'n', 't', 'e', 'r', '_', 'e', 'd', 'i', 't', '_', 'm', 'o', 'd', 'e', '_', 'a', 'f', 't', 'e', 'r']);
    reveal_strlit("exit");
    assert("exit"@ =~= seq!['e', 'x', 'i', 't']);
    reveal_strlit("exit_edit_mode");
    assert("exit_edit_mode"@ =~= seq!['e', 'x', 'i', 't', '_', 'e', 'd', 'i', 't', '_', 'm', 'o', 'd', 'e']);
    reveal_strlit("enter_highlight_mode");
    assert("enter_highlight_mode"@ =~= seq!['e', 'n', 't', 'e', 'r', '_', 'h', 'i', 'g', 'h', 'l', 'i', 'g', 'h', 't', '_', 'm', 'o', 'd', 'e']);
    reveal_strlit("enter_highlight_mode_linewise");
    assert("enter_highlight_mode_linewise"@ =~= seq!['e', 'n', 't', 'e', 'r', '_', 'h', 'i', 'g', 'h', 'l', 'i', 'g', 'h', 't', '_', 'm', 'o', 'd', 'e', '_', 'l', 'i', 'n', 'e', 'w', 'i', 's', 'e']);
    reveal_strlit("exit_highlight_mode");
    assert("exit_highlight_mode"@ =~= seq!['e', 'x', 'i', 't', '_', 'h', 'i', 'g', 'h', 'l', 'i', 'g', 'h', 't', '_', 'm', 'o', 'd', 'e']);
}

/// Two known actions with the same name are the same action.
pub proof fn lemma_action_name_injective(a: CanvasKeyAction, b: CanvasKeyAction)
    requires
        !(a is Unknown),
        !(b is Unknown),
        action_name(a) == action_name(b),
    ensures
        a == b,
{
    lemma_known_action_round_trip(a);
    lemma_known_action_round_trip(b);
}

} // verus!
