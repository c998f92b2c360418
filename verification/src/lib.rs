use vstd::prelude::*;

pub mod cursor;
pub mod data_provider;
pub mod editor;
pub mod keybindings;
pub mod keymap;
pub mod modes;
pub mod text;
pub mod textform;
pub mod textinput;
pub mod validation;

verus! {

} // verus!
