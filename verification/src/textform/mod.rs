//! Multi-field forms of fixed single-line slots.
pub mod input;
pub mod keys;
pub mod state;

pub use state::{TextFormEventOutcome, TextFormState};
