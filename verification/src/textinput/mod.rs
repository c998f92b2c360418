//! Single-line text input.
pub mod input;
pub mod provider;
pub mod state;

pub use provider::{TextInputDataProvider, TextInputProvider};
pub use state::{TextInputEventOutcome, TextInputState};
