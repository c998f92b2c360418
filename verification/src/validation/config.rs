//! Validation configuration of a field, and its builder.
use vstd::prelude::*;

use crate::keybindings::key_sequence::{ascii_lower, lower_seq};
use crate::text::{chars_equal, chars_of};
use crate::validation::limits::CharacterLimits;
use crate::validation::mask::DisplayMask;
use crate::validation::result::ValidationResult;

verus! {

/// Whether `c` is an ASCII upper-case letter.
pub open spec fn is_ascii_upper(c: char) -> bool {
    'A' <= c <= 'Z'
}

/// ASCII case-insensitive equality of two characters.
pub open spec fn char_eq_ignore_ascii_case(a: char, b: char) -> bool {
    a == b || (is_ascii_upper(a) && b as u32 == a as u32 + 32) || (is_ascii_upper(b) && a as u32
        == b as u32 + 32)
}

/// ASCII case-insensitive equality of two character sequences.
pub open spec fn eq_ignore_ascii_case(a: Seq<char>, b: Seq<char>) -> bool {
    a.len() == b.len() && forall|i: int| 0 <= i < a.len() ==> char_eq_ignore_ascii_case(
        #[trigger] a[i],
        b[i],
    )
}

/// Two characters match ignoring ASCII case exactly when their ASCII
/// lower-case forms are the same.
pub proof fn lemma_char_eq_ignore_ascii_case(x: char, y: char)
    ensures
        char_eq_ignore_ascii_case(x, y) <==> ascii_lower(x) == ascii_lower(y),
{
    let lx = ascii_lower(x);
    let ly = ascii_lower(y);
    if is_ascii_upper(x) {
        assert(lx as u32 == x as u32 + 32);
    } else {
        assert(lx == x);
    }
    if is_ascii_upper(y) {
        assert(ly as u32 == y as u32 + 32);
    } else {
        assert(ly == y);
    }
}

/// Two texts match ignoring ASCII case exactly when their ASCII lower-case
/// forms are the same; so matching texts have the same length.
pub proof fn lemma_eq_ignore_ascii_case(a: Seq<char>, b: Seq<char>)
    ensures
        eq_ignore_ascii_case(a, b) <==> lower_seq(a) == lower_seq(b),
        eq_ignore_ascii_case(a, b) ==> a.len() == b.len(),
{
    if eq_ignore_ascii_case(a, b) {
        assert forall|i: int| 0 <= i < a.len() implies lower_seq(a)[i] == lower_seq(b)[i] by {
            lemma_char_eq_ignore_ascii_case(a[i], b[i]);
        }
        assert(lower_seq(a) =~= lower_seq(b));
    }
    if lower_seq(a) == lower_seq(b) {
        assert(a.len() == lower_seq(a).len());
        assert forall|i: int| 0 <= i < a.len() implies char_eq_ignore_ascii_case(#[trigger] a[i], b[i]) by {
            assert(lower_seq(a)[i] == lower_seq(b)[i]);
            lemma_char_eq_ignore_ascii_case(a[i], b[i]);
        }
    }
}

fn char_eq_ci(a: char, b: char) -> (res: bool)
    ensures
        res == char_eq_ignore_ascii_case(a, b),
{
    let ua = a as u32;
    let ub = b as u32;
    a == b || ('A' <= a && a <= 'Z' && ub == ua + 32) || ('A' <= b && b <= 'Z' && ua == ub + 32)
}

fn chars_eq_ci(a: &Vec<char>, b: &Vec<char>) -> (res: bool)
    ensures
        res == eq_ignore_ascii_case(a@, b@),
{
    if a.len() != b.len() {
        return false;
    }
    let mut i: usize = 0;
    while i < a.len()
        invariant
            a@.len() == b@.len(),
            i <= a@.len(),
            forall|k: int| 0 <= k < i ==> char_eq_ignore_ascii_case(#[trigger] a@[k], b@[k]),
        decreases a@.len() - i,
    {
        if !char_eq_ci(a[i], b[i]) {
            return false;
        }
        i += 1;
    }
    true
}

/// Whitelist of exact values allowed for a field.
///
/// With a whitelist, a field is valid when it is empty (unless empty values
/// are disallowed) or when its content equals one of the allowed values.
#[derive(Debug, Clone)]
pub struct AllowedValues {
    allowed: Vec<Vec<char>>,
    allow_empty: bool,
    case_insensitive: bool,
}

impl AllowedValues {
    /// The allowed values.
    pub closed spec fn allowed_view(self) -> Seq<Seq<char>> {
        self.allowed@.map_values(|v: Vec<char>| v@)
    }

    /// Whether an empty value is valid.
    pub closed spec fn allow_empty_view(self) -> bool {
        self.allow_empty
    }

    /// Whether matching ignores ASCII case.
    pub closed spec fn case_insensitive_view(self) -> bool {
        self.case_insensitive
    }

    /// Whether `text` equals one of the allowed values (ignoring ASCII case
    /// when configured so).
    pub open spec fn spec_matches(self, text: Seq<char>) -> bool {
        exists|i: int|
            0 <= i < self.allowed_view().len() && if self.case_insensitive_view() {
                eq_ignore_ascii_case(#[trigger] self.allowed_view()[i], text)
            } else {
                self.allowed_view()[i] == text
            }
    }

    /// A whitelist of `allowed`, with empty values allowed and
    /// case-sensitive matching.
    pub fn new(allowed: Vec<String>) -> (res: Self)
        ensures
            res.allowed_view() == allowed@.map_values(|s: String| s@),
            res.allow_empty_view(),
            !res.case_insensitive_view(),
    {
        let mut vals: Vec<Vec<char>> = Vec::new();
        let mut i: usize = 0;
        while i < allowed.len()
            invariant
                i <= allowed@.len(),
                vals@.len() == i,
                forall|k: int| 0 <= k < i ==> (#[trigger] vals@[k])@ == allowed@[k]@,
            decreases allowed@.len() - i,
        {
            vals.push(chars_of(allowed[i].as_str()));
            i += 1;
        }
        let res = AllowedValues { allowed: vals, allow_empty: true, case_insensitive: false };
        proof {
            assert(res.allowed_view() =~= allowed@.map_values(|s: String| s@));
        }
        res
    }

    /// This whitelist, with empty values allowed or not.
    pub fn allow_empty(self, allow: bool) -> (res: Self)
        ensures
            res.allowed_view() == self.allowed_view(),
            res.allow_empty_view() == allow,
            res.case_insensitive_view() == self.case_insensitive_view(),
    {
        AllowedValues { allow_empty: allow, ..self }
    }

    /// This whitelist, with ASCII case-insensitive matching or not.
    pub fn case_insensitive(self, ci: bool) -> (res: Self)
        ensures
            res.allowed_view() == self.allowed_view(),
            res.allow_empty_view() == self.allow_empty_view(),
            res.case_insensitive_view() == ci,
    {
        AllowedValues { case_insensitive: ci, ..self }
    }

    /// Whether empty values are valid.
    pub fn allows_empty(&self) -> (res: bool)
        ensures
            res == self.allow_empty_view(),
    {
        self.allow_empty
    }

    /// Whether `text` equals one of the allowed values.
    pub fn matches(&self, text: &Vec<char>) -> (res: bool)
        ensures
            res == self.spec_matches(text@),
    {
        let mut i: usize = 0;
        while i < self.allowed.len()
            invariant
                i <= self.allowed@.len(),
                self.allowed_view().len() == self.allowed@.len(),
                forall|k: int|
                    0 <= k < i ==> !(if self.case_insensitive_view() {
                        eq_ignore_ascii_case(#[trigger] self.allowed_view()[k], text@)
                    } else {
                        self.allowed_view()[k] == text@
                    }),
            decreases self.allowed@.len() - i,
        {
            let hit = if self.case_insensitive {
                chars_eq_ci(&self.allowed[i], text)
            } else {
                chars_equal(&self.allowed[i], text)
            };
            if hit {
                assert(self.allowed_view()[i as int] == self.allowed@[i as int]@);
                return true;
            }
            assert(self.allowed_view()[i as int] == self.allowed@[i as int]@);
            i += 1;
        }
        false
    }
}

/// Message for an empty value when the whitelist requires one.
pub open spec fn value_required_message() -> Seq<char> {
    "Value required"@
}

/// Message for a value outside the whitelist.
pub open spec fn not_allowed_message() -> Seq<char> {
    "Value must be one of the allowed options"@
}

/// Validation configuration of a field.
#[derive(Debug, Clone, Default)]
pub struct ValidationConfig {
    /// Character-count limits.
    pub character_limits: Option<CharacterLimits>,
    /// Display mask (visual only).
    pub display_mask: Option<DisplayMask>,
    /// Whitelist of exact allowed values.
    pub allowed_values: Option<AllowedValues>,
    /// Whether the external validation indicator is shown.
    pub external_validation_enabled: bool,
    /// Reserved slot for external validation settings.
    pub external_validation: Option<()>,
}

impl ValidationConfig {
    /// Whether inserting a character into content of `len` characters is
    /// acceptable under this configuration.
    pub open spec fn spec_insertion_ok(self, len: nat) -> bool {
        match self.character_limits {
            Some(l) => l.insertion_ok(len),
            None => true,
        }
    }

    /// An empty configuration: no limits, no mask, no whitelist.
    pub fn new() -> (res: Self)
        ensures
            res.character_limits is None,
            res.display_mask is None,
            res.allowed_values is None,
            !res.external_validation_enabled,
            res.external_validation is None,
    {
        ValidationConfig {
            character_limits: None,
            display_mask: None,
            allowed_values: None,
            external_validation_enabled: false,
            external_validation: None,
        }
    }

    /// A configuration holding only a maximum of `max_length` characters.
    pub fn with_max_length(max_length: usize) -> (res: Self)
        ensures
            res.character_limits matches Some(l) && l.max_view() == Some(max_length)
                && l.min_view() is None,
            res.display_mask is None,
            res.allowed_values is None,
            !res.external_validation_enabled,
    {
        ValidationConfigBuilder::new().with_max_length(max_length).build()
    }

    /// A configuration holding only the display mask `mask`.
    pub fn with_mask(mask: DisplayMask) -> (res: Self)
        ensures
            res.display_mask == Some(mask),
            res.character_limits is None,
            res.allowed_values is None,
            !res.external_validation_enabled,
    {
        ValidationConfigBuilder::new().with_display_mask(mask).build()
    }

    /// Checks inserting `character` at `position` into `current_text` (raw
    /// text): refused when it would exceed the maximum length. Display masks
    /// take no part in validation.
    pub fn validate_char_insertion(&self, current_text: &str, position: usize, character: char) -> (res:
        ValidationResult)
        ensures
            self.spec_insertion_ok(current_text@.len()) ==> res is Valid,
            !self.spec_insertion_ok(current_text@.len()) ==> (res is Error && res.message_view()
                == Some(crate::validation::limits::limit_exceeded_message())),
    {
        if let Some(limits) = &self.character_limits {
            if let Some(result) = limits.validate_insertion(current_text, position, character) {
                if !result.is_acceptable() {
                    return result;
                }
            }
        }
        ValidationResult::Valid
    }

    /// Whether `res` is the verdict on complete content `text`: limits
    /// first, then the whitelist.
    pub open spec fn is_content_result(self, text: Seq<char>, res: ValidationResult) -> bool {
        if self.character_limits matches Some(l) && l.too_long(text.len()) {
            res is Error && res.message_view() == Some(crate::validation::limits::limit_exceeded_message())
        } else {
            match self.allowed_values {
                Some(av) => if text.len() == 0 {
                    if av.allow_empty_view() {
                        res is Valid
                    } else {
                        res is Warning && res.message_view() == Some(value_required_message())
                    }
                } else if av.spec_matches(text) {
                    res is Valid
                } else {
                    res is Error && res.message_view() == Some(not_allowed_message())
                },
                None => res is Valid,
            }
        }
    }

    /// Checks complete content (raw text): limits first, then the
    /// whitelist.
    pub fn validate_content(&self, text: &str) -> (res: ValidationResult)
        ensures
            self.is_content_result(text@, res),
    {
        if let Some(limits) = &self.character_limits {
            if let Some(result) = limits.validate_content(text) {
                if !result.is_acceptable() {
                    return result;
                }
            }
        }
        if let Some(allowed) = &self.allowed_values {
            let chars = chars_of(text);
            if chars.len() == 0 {
                if !allowed.allows_empty() {
                    return ValidationResult::warning("Value required");
                }
            } else if !allowed.matches(&chars) {
                return ValidationResult::error("Value must be one of the allowed options");
            }
        }
        ValidationResult::Valid
    }

    /// Whether any validation rule or mask is configured.
    pub fn has_validation(&self) -> (res: bool)
        ensures
            res == (self.character_limits is Some || self.display_mask is Some
                || self.allowed_values is Some),
    {
        self.character_limits.is_some() || self.display_mask.is_some()
            || self.allowed_values.is_some()
    }

    /// Whether a whitelist is configured.
    pub fn has_allowed_values(&self) -> (res: bool)
        ensures
            res == self.allowed_values is Some,
    {
        self.allowed_values.is_some()
    }

    /// Whether the cursor may leave a field holding `text`.
    pub fn allows_field_switch(&self, text: &str) -> (res: bool)
        ensures
            res == match self.character_limits {
                Some(l) => !l.too_short(text@.len()),
                None => true,
            },
    {
        if let Some(limits) = &self.character_limits {
            if !limits.allows_field_switch(text) {
                return false;
            }
        }
        true
    }

    /// Why leaving a field holding `text` is blocked, if it is.
    pub fn field_switch_block_reason(&self, text: &str) -> (res: Option<String>)
        ensures
            res is Some <==> !self.allows_field_switch_spec(text@),
            res matches Some(m) ==> m@ == crate::validation::limits::below_minimum_message(),
    {
        if let Some(limits) = &self.character_limits {
            if let Some(reason) = limits.field_switch_block_reason(text) {
                return Some(reason);
            }
        }
        None
    }

    /// Whether the cursor may leave a field holding `text`.
    pub open spec fn allows_field_switch_spec(self, text: Seq<char>) -> bool {
        match self.character_limits {
            Some(l) => !l.too_short(text.len()),
            None => true,
        }
    }
}

/// Builder of validation configurations.
#[derive(Debug, Default)]
pub struct ValidationConfigBuilder {
    config: ValidationConfig,
}

impl ValidationConfigBuilder {
    /// The configuration being built.
    pub closed spec fn config_view(self) -> ValidationConfig {
        self.config
    }

    /// A builder of an empty configuration.
    pub fn new() -> (res: Self)
        ensures
            res.config_view().character_limits is None,
            res.config_view().display_mask is None,
            res.config_view().allowed_values is None,
            !res.config_view().external_validation_enabled,
            res.config_view().external_validation is None,
    {
        ValidationConfigBuilder { config: ValidationConfig::new() }
    }

    /// Sets the character limits.
    pub fn with_character_limits(self, limits: CharacterLimits) -> (res: Self)
        ensures
            res.config_view() == (ValidationConfig {
                character_limits: Some(limits),
                ..self.config_view()
            }),
    {
        let mut b = self;
        b.config.character_limits = Some(limits);
        b
    }

    /// Sets the display mask.
    pub fn with_display_mask(self, mask: DisplayMask) -> (res: Self)
        ensures
            res.config_view() == (ValidationConfig {
                display_mask: Some(mask),
                ..self.config_view()
            }),
    {
        let mut b = self;
        b.config.display_mask = Some(mask);
        b
    }

    /// Sets a maximum of `max_length` characters (and no minimum).
    pub fn with_max_length(self, max_length: usize) -> (res: Self)
        ensures
            res.config_view().character_limits matches Some(l) && l.max_view() == Some(max_length)
                && l.min_view() is None,
            res.config_view().display_mask == self.config_view().display_mask,
            res.config_view().allowed_values == self.config_view().allowed_values,
            res.config_view().external_validation_enabled
                == self.config_view().external_validation_enabled,
            res.config_view().external_validation == self.config_view().external_validation,
    {
        let mut b = self;
        b.config.character_limits = Some(CharacterLimits::new(max_length));
        b
    }

    /// Restricts the field to the exact values `values` (or empty), matched
    /// case-sensitively.
    pub fn with_allowed_values(self, values: Vec<&str>) -> (res: Self)
        ensures
            res.config_view().allowed_values matches Some(av) && av.allowed_view()
                == values@.map_values(|s: &str| s@) && av.allow_empty_view()
                && !av.case_insensitive_view(),
            res.config_view().character_limits == self.config_view().character_limits,
            res.config_view().display_mask == self.config_view().display_mask,
    {
        let av = AllowedValues::new(strs_to_strings(&values));
        let mut b = self;
        proof {
            assert(av.allowed_view() =~= values@.map_values(|s: &str| s@));
        }
        b.config.allowed_values = Some(av);
        b
    }

    /// Same as `with_allowed_values`, but matching ignores ASCII case.
    pub fn with_allowed_values_ci(self, values: Vec<&str>) -> (res: Self)
        ensures
            res.config_view().allowed_values matches Some(av) && av.allowed_view()
                == values@.map_values(|s: &str| s@) && av.allow_empty_view()
                && av.case_insensitive_view(),
            res.config_view().character_limits == self.config_view().character_limits,
            res.config_view().display_mask == self.config_view().display_mask,
    {
        let av = AllowedValues::new(strs_to_strings(&values)).case_insensitive(true);
        let mut b = self;
        proof {
            assert(av.allowed_view() =~= values@.map_values(|s: &str| s@));
        }
        b.config.allowed_values = Some(av);
        b
    }

    /// Sets whether an empty value is valid under the whitelist; without a
    /// whitelist, installs an empty one.
    pub fn with_allowed_values_allow_empty(self, allow_empty: bool) -> (res: Self)
        ensures
            res.config_view().allowed_values matches Some(av) && av.allow_empty_view()
                == allow_empty && match self.config_view().allowed_values {
                Some(old_av) => av.allowed_view() == old_av.allowed_view()
                    && av.case_insensitive_view() == old_av.case_insensitive_view(),
                None => av.allowed_view().len() == 0 && !av.case_insensitive_view(),
            },
            res.config_view().character_limits == self.config_view().character_limits,
            res.config_view().display_mask == self.config_view().display_mask,
    {
        let mut b = self;
        let av = match b.config.allowed_values.take() {
            Some(av) => av.allow_empty(allow_empty),
            None => {
                let empty: Vec<String> = Vec::new();
                let av = AllowedValues::new(empty).allow_empty(allow_empty);
                proof {
                    assert(av.allowed_view().len() == 0);
                }
                av
            },
        };
        b.config.allowed_values = Some(av);
        b
    }

    /// Enables or disables the external validation indicator.
    pub fn with_external_validation_enabled(self, enabled: bool) -> (res: Self)
        ensures
            res.config_view() == (ValidationConfig {
                external_validation_enabled: enabled,
                ..self.config_view()
            }),
    {
        let mut b = self;
        b.config.external_validation_enabled = enabled;
        b
    }

    /// The configuration built.
    pub fn build(self) -> (res: ValidationConfig)
        ensures
            res == self.config_view(),
    {
        self.config
    }
}

fn strs_to_strings(values: &Vec<&str>) -> (res: Vec<String>)
    ensures
        res@.map_values(|s: String| s@) == values@.map_values(|s: &str| s@),
{
    let mut out: Vec<String> = Vec::new();
    let mut i: usize = 0;
    while i < values.len()
        invariant
            i <= values@.len(),
            out@.len() == i,
            forall|k: int| 0 <= k < i ==> (#[trigger] out@[k])@ == values@[k]@,
        decreases values@.len() - i,
    {
        out.push(values[i].to_owned());
        i += 1;
    }
    proof {
        assert(out@.map_values(|s: String| s@) =~= values@.map_values(|s: &str| s@));
    }
    out
}

} // verus!
