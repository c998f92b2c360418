//! Editor modes.
use vstd::prelude::*;

verus! {

/// The mode of an editor.
#[derive(Debug, Clone, Copy, PartialEq, Eq, Structural)]
pub enum AppMode {
    /// Normal (command) mode.
    Nor,
    /// Insert (edit) mode.
    Ins,
    /// Select (highlight) mode.
    Sel,
    /// The application's own mode, outside any field.
    General,
    /// A command line is being typed.
    Command,
}

} // verus!
