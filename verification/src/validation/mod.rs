//! Field validation: display masks, limits, allowed values and results.
pub mod config;
pub mod limits;
pub mod mask;
pub mod result;

pub use config::{AllowedValues, ValidationConfig, ValidationConfigBuilder};
pub use limits::CharacterLimits;
pub use mask::{DisplayMask, MaskDisplayMode};
pub use result::{ExternalValidationState, ValidationError, ValidationResult};
