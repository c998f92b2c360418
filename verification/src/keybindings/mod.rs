//! Key bindings: the actions they name, the built-in presets and the
//! outcome of handling a key.
use vstd::prelude::*;

pub mod action;
pub mod bindings;
pub mod builtin;
pub mod key_sequence;
pub mod messages;
pub mod preset;
pub mod preset_toml;
pub mod round_trip;
pub mod tracker;

pub use action::CanvasKeyAction;
pub use bindings::{CanvasKeyBindingEntry, CanvasKeyBindings};
pub use builtin::BuiltinCanvasKeybindingPreset;
pub use key_sequence::{KeyCode, KeyModifiers, KeyStroke, ParseKeyError};
pub use tracker::KeySequenceTracker;

verus! {

/// What handling a key event came to.
#[derive(Debug, Clone, PartialEq, Eq)]
pub enum KeyEventOutcome {
    /// The key was used, with an optional message.
    Consumed(Option<String>),
    /// The key starts a longer binding.
    Pending,
    /// No binding matched.
    NotMatched,
    /// Navigation upward reached the top.
    ExitTop,
    /// Navigation downward reached the bottom.
    ExitBottom,
}

} // verus!
