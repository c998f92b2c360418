//! The outcome of validating a field's content or an insertion.
use vstd::prelude::*;

verus! {

/// The outcome of a validation check.
///
/// `Warning` results are still acceptable (typing may continue); `Error`
/// results are not.
#[derive(Debug, PartialEq, Eq)]
pub enum ValidationResult {
    Valid,
    Warning { message: String },
    Error { message: String },
}

impl ValidationResult {
    /// Whether the checked input may be accepted (valid or only a warning).
    pub open spec fn spec_acceptable(self) -> bool {
        !(self is Error)
    }

    /// The message carried by a warning or an error.
    pub open spec fn message_view(self) -> Option<Seq<char>> {
        match self {
            ValidationResult::Valid => None,
            ValidationResult::Warning { message } => Some(message@),
            ValidationResult::Error { message } => Some(message@),
        }
    }

    /// A warning carrying `message`.
    pub fn warning(message: &str) -> (res: Self)
        ensures
            res is Warning,
            res.message_view() == Some(message@),
    {
        ValidationResult::Warning { message: message.to_owned() }
    }

    /// An error carrying `message`.
    pub fn error(message: &str) -> (res: Self)
        ensures
            res is Error,
            res.message_view() == Some(message@),
    {
        ValidationResult::Error { message: message.to_owned() }
    }

    /// Whether the checked input may be accepted (valid or only a warning).
    pub fn is_acceptable(&self) -> (res: bool)
        ensures
            res == self.spec_acceptable(),
    {
        match self {
            ValidationResult::Error { .. } => false,
            _ => true,
        }
    }

    /// Whether this result is an error.
    pub fn is_error(&self) -> (res: bool)
        ensures
            res == (*self is Error),
    {
        match self {
            ValidationResult::Error { .. } => true,
            _ => false,
        }
    }

    /// The message of a warning or an error; `None` when valid.
    pub fn message(&self) -> (res: Option<&str>)
        ensures
            res matches Some(m) ==> self.message_view() == Some(m@),
            res is None ==> self.message_view() is None,
    {
        match self {
            ValidationResult::Valid => None,
            ValidationResult::Warning { message } => Some(message.as_str()),
            ValidationResult::Error { message } => Some(message.as_str()),
        }
    }
}

/// External validation indicator state of a field.
#[derive(Debug, PartialEq, Eq)]
pub enum ExternalValidationState {
    NotValidated,
    Validating,
    Valid(Option<String>),
    Invalid { message: String, suggestion: Option<String> },
    Warning { message: String },
}

fn clone_opt_string(s: &Option<String>) -> (res: Option<String>)
    ensures
        res == *s,
{
    match s {
        Some(v) => Some(v.clone()),
        None => None,
    }
}

impl Clone for ValidationResult {
    fn clone(&self) -> (res: Self)
        ensures
            res == *self,
    {
        match self {
            ValidationResult::Valid => ValidationResult::Valid,
            ValidationResult::Warning { message } => ValidationResult::Warning { message: message.clone() },
            ValidationResult::Error { message } => ValidationResult::Error { message: message.clone() },
        }
    }
}

impl Clone for ExternalValidationState {
    fn clone(&self) -> (res: Self)
        ensures
            res == *self,
    {
        match self {
            ExternalValidationState::NotValidated => ExternalValidationState::NotValidated,
            ExternalValidationState::Validating => ExternalValidationState::Validating,
            ExternalValidationState::Valid(m) => ExternalValidationState::Valid(clone_opt_string(m)),
            ExternalValidationState::Invalid { message, suggestion } => ExternalValidationState::Invalid {
                message: message.clone(),
                suggestion: clone_opt_string(suggestion),
            },
            ExternalValidationState::Warning { message } => ExternalValidationState::Warning {
                message: message.clone(),
            },
        }
    }
}

/// Validation error kinds.
#[derive(Debug, Clone)]
pub enum ValidationError {
    LimitExceeded { message: String },
    PatternFailed { message: String },
    CustomFailed { message: String },
}

impl ValidationError {
    /// A human-readable description of the error.
    pub fn describe(&self) -> (res: String)
        ensures
            res@ == match self {
                ValidationError::LimitExceeded { message } => "Character limit exceeded: "@
                    + message@,
                ValidationError::PatternFailed { message } => "Pattern validation failed: "@
                    + message@,
                ValidationError::CustomFailed { message } => "Custom validation failed: "@
                    + message@,
            },
    {
        let (prefix, message) = match self {
            ValidationError::LimitExceeded { message } => ("Character limit exceeded: ", message),
            ValidationError::PatternFailed { message } => ("Pattern validation failed: ", message),
            ValidationError::CustomFailed { message } => ("Custom validation failed: ", message),
        };
        let mut out = prefix.to_owned();
        out.append(message.as_str());
        out
    }
}

} // verus!
