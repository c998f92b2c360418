//! Terminal cursor styles that follow the editor's mode.
use vstd::prelude::*;

use crate::modes::AppMode;

verus! {

/// Declares `std::io::Error` so that results of terminal operations can be
/// handed back.
#[verifier::external_type_specification]
#[verifier::external_body]
pub struct ExIoError(std::io::Error);

/// The terminal cursor shape to show.
#[derive(Debug, Clone, Copy, PartialEq, Eq, Structural)]
pub enum CursorStyle {
    /// A steady block.
    SteadyBlock,
    /// A steady bar (beam).
    SteadyBar,
    /// A blinking block.
    BlinkingBlock,
}

/// The cursor for each mode: a steady block in normal mode, a beam in
/// insert mode and on a command line, a blinking block for selections and
/// a steady block elsewhere.
pub open spec fn style_for(mode: AppMode) -> CursorStyle {
    match mode {
        AppMode::Nor => CursorStyle::SteadyBlock,
        AppMode::Ins => CursorStyle::SteadyBar,
        AppMode::Sel => CursorStyle::BlinkingBlock,
        AppMode::General => CursorStyle::SteadyBlock,
        AppMode::Command => CursorStyle::SteadyBar,
    }
}

/// The cursor style for `mode`.
pub fn cursor_style_for_mode(mode: AppMode) -> (res: CursorStyle)
    ensures
        res == style_for(mode),
{
    match mode {
        AppMode::Nor => CursorStyle::SteadyBlock,
        AppMode::Ins => CursorStyle::SteadyBar,
        AppMode::Sel => CursorStyle::BlinkingBlock,
        AppMode::General => CursorStyle::SteadyBlock,
        AppMode::Command => CursorStyle::SteadyBar,
    }
}

} // verus!
