//! The shared editing engine: field values, cursor, modes and history.
pub mod behavior;
pub mod engine;
pub mod history;
pub mod laws;
pub mod rows;
pub mod words;

pub use self::engine::EditorCore;
