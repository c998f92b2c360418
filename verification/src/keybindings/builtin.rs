//! The built-in keybinding presets.
use vstd::prelude::*;

use crate::editor::behavior::KeybindingParadigm;

verus! {

/// A keybinding preset that ships with the library.
#[derive(Debug, Clone, Copy, PartialEq, Eq, Hash, Structural)]
pub enum BuiltinCanvasKeybindingPreset {
    Vim,
    Helix,
    Emacs,
    Vscode,
}

/// The name of a preset.
pub open spec fn preset_name(p: BuiltinCanvasKeybindingPreset) -> Seq<char> {
    match p {
        BuiltinCanvasKeybindingPreset::Vim => "vim"@,
        BuiltinCanvasKeybindingPreset::Helix => "helix"@,
        BuiltinCanvasKeybindingPreset::Emacs => "emacs"@,
        BuiltinCanvasKeybindingPreset::Vscode => "vscode"@,
    }
}

/// The editing paradigm a preset selects: the modal ones name theirs,
/// the modeless one none.
pub open spec fn preset_paradigm(p: BuiltinCanvasKeybindingPreset) -> Option<KeybindingParadigm> {
    match p {
        BuiltinCanvasKeybindingPreset::Vim => Some(KeybindingParadigm::Vim),
        BuiltinCanvasKeybindingPreset::Helix => Some(KeybindingParadigm::Helix),
        BuiltinCanvasKeybindingPreset::Emacs => Some(KeybindingParadigm::Emacs),
        BuiltinCanvasKeybindingPreset::Vscode => None,
    }
}

impl BuiltinCanvasKeybindingPreset {
    /// The preset's name.
    pub fn name(&self) -> (res: &str)
        ensures
            res@ == preset_name(*self),
    {
        match self {
            BuiltinCanvasKeybindingPreset::Vim => "vim",
            BuiltinCanvasKeybindingPreset::Helix => "helix",
            BuiltinCanvasKeybindingPreset::Emacs => "emacs",
            BuiltinCanvasKeybindingPreset::Vscode => "vscode",
        }
    }

    /// The editing paradigm the preset selects.
    pub fn paradigm(&self) -> (res: Option<KeybindingParadigm>)
        ensures
            res == preset_paradigm(*self),
    {
        match self {
            BuiltinCanvasKeybindingPreset::Vim => Some(KeybindingParadigm::Vim),
            BuiltinCanvasKeybindingPreset::Helix => Some(KeybindingParadigm::Helix),
            BuiltinCanvasKeybindingPreset::Emacs => Some(KeybindingParadigm::Emacs),
            BuiltinCanvasKeybindingPreset::Vscode => None,
        }
    }
}

} // verus!
