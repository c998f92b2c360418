//! Editing state beyond the text: selections, the yank register, the
//! keybinding paradigm and edit errors.
use vstd::prelude::*;

use crate::text::chars_of;

verus! {

/// The active selection of an editor.
#[derive(Debug, Clone, Copy, PartialEq, Eq)]
pub enum SelectionState {
    /// No selection.
    Inactive,
    /// A character selection from `anchor` (field, column) to the cursor.
    Characterwise { anchor: (usize, usize) },
    /// A selection of whole fields from `anchor_field` to the current field.
    Linewise { anchor_field: usize },
}

/// Which family of keybindings drives the editor.
#[derive(Debug, Clone, Copy, PartialEq, Eq, Structural)]
pub enum KeybindingParadigm {
    Vim,
    Helix,
    Emacs,
}

/// A vim operator waiting for its motion.
#[derive(Debug, Clone, Copy, PartialEq, Eq, Structural)]
pub enum VimOperator {
    Delete,
    Change,
    Yank,
}

/// An operator typed in normal mode, with its count and the position
/// (field, column) where it was typed.
#[derive(Debug, Clone, Copy, PartialEq, Eq)]
pub struct PendingOperator {
    pub operator: VimOperator,
    pub count: usize,
    pub anchor: (usize, usize),
}

/// The content of the yank register.
#[derive(Debug, Clone, PartialEq, Eq)]
pub enum YankRegister {
    /// Whole lines (fields).
    Lines(Vec<Vec<char>>),
    /// Characterwise text, split at line breaks.
    Text(Vec<Vec<char>>),
}

/// The register's lines, as characters.
pub open spec fn register_lines(r: YankRegister) -> Seq<Seq<char>> {
    match r {
        YankRegister::Lines(v) => v@.map_values(|l: Vec<char>| l@),
        YankRegister::Text(v) => v@.map_values(|l: Vec<char>| l@),
    }
}

/// Converts each string to its characters.
pub fn lines_of(lines: &Vec<String>) -> (res: Vec<Vec<char>>)
    ensures
        res@.map_values(|l: Vec<char>| l@) == lines@.map_values(|s: String| s@),
{
    let mut out: Vec<Vec<char>> = Vec::new();
    let mut i: usize = 0;
    while i < lines.len()
        invariant
            i <= lines@.len(),
            out@.len() == i,
            forall|k: int| 0 <= k < i ==> (#[trigger] out@[k])@ == lines@[k]@,
        decreases lines@.len() - i,
    {
        out.push(chars_of(lines[i].as_str()));
        i += 1;
    }
    proof {
        assert(out@.map_values(|l: Vec<char>| l@) =~= lines@.map_values(|s: String| s@));
    }
    out
}

/// Why an edit or a move was refused.
#[derive(Debug, Clone, PartialEq, Eq)]
pub enum EditError {
    /// The editor has no field to edit.
    NoField,
    /// The field index is out of range.
    FieldOutOfRange,
    /// Validation refused an insertion; the message says why.
    InsertionRejected { message: String },
    /// Validation blocks leaving the current field; the reason says why.
    SwitchBlocked { reason: String },
}

} // verus!
