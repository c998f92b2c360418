//! Character-count limits of a field.
use vstd::prelude::*;

use crate::text::chars_of;
use crate::validation::result::ValidationResult;

verus! {

/// Minimum and maximum character counts of a field.
///
/// A maximum blocks insertions that would exceed it; a minimum is reported
/// as a warning and blocks leaving a non-empty field that is too short.
#[derive(Debug, Clone, Copy, PartialEq, Eq)]
pub struct CharacterLimits {
    max_length: Option<usize>,
    min_length: Option<usize>,
}

/// Message of an insertion refused by a maximum length.
pub open spec fn limit_exceeded_message() -> Seq<char> {
    "Character limit exceeded"@
}

/// Message of content shorter than the minimum length.
pub open spec fn below_minimum_message() -> Seq<char> {
    "Minimum length not met"@
}

impl CharacterLimits {
    /// The maximum character count, if any.
    pub closed spec fn max_view(self) -> Option<usize> {
        self.max_length
    }

    /// The minimum character count, if any.
    pub closed spec fn min_view(self) -> Option<usize> {
        self.min_length
    }

    /// Whether inserting one more character into content of `len`
    /// characters stays within the maximum.
    pub open spec fn insertion_ok(self, len: nat) -> bool {
        match self.max_view() {
            Some(max) => len < max,
            None => true,
        }
    }

    /// Whether content of `len` characters exceeds the maximum.
    pub open spec fn too_long(self, len: nat) -> bool {
        match self.max_view() {
            Some(max) => len > max,
            None => false,
        }
    }

    /// Whether non-empty content of `len` characters is below the minimum.
    pub open spec fn too_short(self, len: nat) -> bool {
        match self.min_view() {
            Some(min) => 0 < len < min,
            None => false,
        }
    }

    /// Limits with a maximum of `max_length` characters and no minimum.
    pub fn new(max_length: usize) -> (res: Self)
        ensures
            res.max_view() == Some(max_length),
            res.min_view() is None,
    {
        CharacterLimits { max_length: Some(max_length), min_length: None }
    }

    /// Limits with both a minimum and a maximum character count.
    pub fn new_range(min_length: usize, max_length: usize) -> (res: Self)
        ensures
            res.max_view() == Some(max_length),
            res.min_view() == Some(min_length),
    {
        CharacterLimits { max_length: Some(max_length), min_length: Some(min_length) }
    }

    /// The maximum character count, if any.
    pub fn max_length(&self) -> (res: Option<usize>)
        ensures
            res == self.max_view(),
    {
        self.max_length
    }

    /// The minimum character count, if any.
    pub fn min_length(&self) -> (res: Option<usize>)
        ensures
            res == self.min_view(),
    {
        self.min_length
    }

    /// Checks inserting one character into `current_text`: an error when the
    /// maximum is already reached, `None` otherwise.
    pub fn validate_insertion(&self, current_text: &str, position: usize, character: char) -> (res:
        Option<ValidationResult>)
        ensures
            self.insertion_ok(current_text@.len()) ==> res is None,
            !self.insertion_ok(current_text@.len()) ==> (res matches Some(r) && r is Error
                && r.message_view() == Some(limit_exceeded_message())),
    {
        let len = chars_of(current_text).len();
        self.insertion_check(len)
    }

    /// The insertion check for content of `len` characters.
    pub fn insertion_check(&self, len: usize) -> (res: Option<ValidationResult>)
        ensures
            self.insertion_ok(len as nat) ==> res is None,
            !self.insertion_ok(len as nat) ==> (res matches Some(r) && r is Error
                && r.message_view() == Some(limit_exceeded_message())),
    {
        match self.max_length {
            Some(max) => {
                if len < max {
                    None
                } else {
                    Some(ValidationResult::error("Character limit exceeded"))
                }
            },
            None => None,
        }
    }

    /// Checks complete content: an error above the maximum, a warning for
    /// non-empty content below the minimum, `None` otherwise.
    pub fn validate_content(&self, text: &str) -> (res: Option<ValidationResult>)
        ensures
            self.too_long(text@.len()) ==> (res matches Some(r) && r is Error && r.message_view()
                == Some(limit_exceeded_message())),
            !self.too_long(text@.len()) && self.too_short(text@.len()) ==> (res matches Some(r)
                && r is Warning && r.message_view() == Some(below_minimum_message())),
            !self.too_long(text@.len()) && !self.too_short(text@.len()) ==> res is None,
    {
        let len = chars_of(text).len();
        if let Some(max) = self.max_length {
            if len > max {
                return Some(ValidationResult::error("Character limit exceeded"));
            }
        }
        if let Some(min) = self.min_length {
            if 0 < len && len < min {
                return Some(ValidationResult::warning("Minimum length not met"));
            }
        }
        None
    }

    /// Whether the cursor may leave a field holding `text`: not when it is
    /// non-empty and below the minimum.
    pub fn allows_field_switch(&self, text: &str) -> (res: bool)
        ensures
            res == !self.too_short(text@.len()),
    {
        let len = chars_of(text).len();
        match self.min_length {
            Some(min) => !(0 < len && len < min),
            None => true,
        }
    }

    /// Why leaving a field holding `text` is blocked, if it is.
    pub fn field_switch_block_reason(&self, text: &str) -> (res: Option<String>)
        ensures
            self.too_short(text@.len()) ==> (res matches Some(m) && m@ == below_minimum_message()),
            !self.too_short(text@.len()) ==> res is None,
    {
        if self.allows_field_switch(text) {
            None
        } else {
            Some("Minimum length not met".to_owned())
        }
    }
}

} // verus!
