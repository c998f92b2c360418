//! The storage of a single-line text input.
use vstd::prelude::*;

use crate::data_provider::DataProvider;
use crate::text::{chars_of, first_line, first_line_chars, is_single_line, lemma_first_line_single, string_of};

verus! {

/// A data provider holding one line of text.
///
/// Its text is the value of its first field. A provider that meets the
/// specifications of `DataProvider` (`obeys_provider_spec`) meets these too:
/// it keeps the first line of a text it is given.
pub trait TextInputDataProvider: DataProvider {
    /// A provider holding the first line of `text`.
    fn from_text(text: String) -> (res: Self) where Self: Sized
        ensures
            Self::obeys_provider_spec() ==> res.spec_field_count() == 1,
            Self::obeys_provider_spec() ==> res.spec_field_value(0) == first_line(text@),
    ;

    /// The text held.
    fn to_text(&self) -> (res: String)
        ensures
            Self::obeys_provider_spec() ==> res@ == self.spec_field_value(0),
            Self::obeys_provider_spec() ==> is_single_line(res@),
    ;

    /// Replaces the text held with the first line of `text`.
    fn set_text(&mut self, text: String)
        ensures
            Self::obeys_provider_spec() ==> final(self).spec_field_count() == old(self).spec_field_count(),
            Self::obeys_provider_spec() ==> final(self).spec_field_value(0) == first_line(text@),
    ;
}

/// The first line of `text` (the text before its first line break).
pub fn sanitize_single_line(text: &str) -> (res: String)
    ensures
        res@ == first_line(text@),
{
    let v = chars_of(text);
    let line = first_line_chars(&v);
    string_of(line.as_slice())
}

/// The default single-line provider: one field named `"Input"`.
#[derive(Debug)]
pub struct TextInputProvider {
    value: String,
    name: String,
}

impl Clone for TextInputProvider {
    fn clone(&self) -> (res: Self)
        ensures
            res.value_view() == self.value_view(),
            res.name_view() == self.name_view(),
    {
        proof {
            use_type_invariant(self);
        }
        TextInputProvider { value: self.value.clone(), name: self.name.clone() }
    }
}

impl TextInputProvider {
    /// The text held never holds a line break.
    #[verifier::type_invariant]
    spec fn single_line(self) -> bool {
        is_single_line(self.value@)
    }

    /// The text held.
    pub closed spec fn value_view(self) -> Seq<char> {
        self.value@
    }

    /// The field's name.
    pub closed spec fn name_view(self) -> Seq<char> {
        self.name@
    }

    /// A provider holding the first line of `text`.
    pub fn from_text(text: &str) -> (res: Self)
        ensures
            res.value_view() == first_line(text@),
            is_single_line(res.value_view()),
            res.name_view() == "Input"@,
    {
        let value = sanitize_single_line(text);
        proof {
            lemma_first_line_single(text@);
        }
        TextInputProvider { value, name: "Input".to_owned() }
    }

    /// The text held.
    pub fn to_text(&self) -> (res: String)
        ensures
            res@ == self.value_view(),
            is_single_line(res@),
    {
        proof {
            use_type_invariant(self);
        }
        self.value.clone()
    }

    /// Replaces the text held with the first line of `text`.
    pub fn set_text(&mut self, text: &str)
        ensures
            final(self).value_view() == first_line(text@),
            is_single_line(final(self).value_view()),
            final(self).name_view() == old(self).name_view(),
    {
        let value = sanitize_single_line(text);
        proof {
            lemma_first_line_single(text@);
        }
        self.value = value;
    }
}

impl Default for TextInputProvider {
    fn default() -> (res: Self)
        ensures
            res.value_view().len() == 0,
            res.name_view() == "Input"@,
    {
        TextInputProvider { value: String::new(), name: "Input".to_owned() }
    }
}

impl DataProvider for TextInputProvider {
    open spec fn obeys_provider_spec() -> bool {
        true
    }

    open spec fn spec_field_count(&self) -> nat {
        1
    }

    open spec fn spec_field_name(&self, index: int) -> Seq<char> {
        self.name_view()
    }

    open spec fn spec_stored_value(value: Seq<char>) -> Seq<char> {
        first_line(value)
    }

    open spec fn spec_field_value(&self, index: int) -> Seq<char> {
        if index == 0 {
            self.value_view()
        } else {
            Seq::empty()
        }
    }

    fn field_count(&self) -> (res: usize)
        ensures
            res == 1,
    {
        1
    }

    fn field_name(&self, _index: usize) -> (res: &str)
        ensures
            res@ == self.name_view(),
    {
        self.name.as_str()
    }

    fn field_value(&self, index: usize) -> (res: &str)
        ensures
            index == 0 ==> res@ == self.value_view(),
            index != 0 ==> res@.len() == 0,
    {
        proof {
            use_type_invariant(self);
            lemma_first_line_single(self.value@);
        }
        if index == 0 {
            proof {
                assert(is_single_line(self.value@));
                assert(first_line(self.value@) == self.value@);
                assert(Self::spec_stored_value(self.value@) == self.value@);
            }
            self.value.as_str()
        } else {
            proof {
                reveal_strlit("");
                assert(first_line(""@) =~= ""@);
            }
            ""
        }
    }

    fn set_field_value(&mut self, index: usize, value: String)
        ensures
            index == 0 ==> final(self).value_view() == first_line(value@),
            index != 0 ==> final(self).value_view() == old(self).value_view(),
            final(self).name_view() == old(self).name_view(),
    {
        if index == 0 {
            let line = sanitize_single_line(value.as_str());
            proof {
                lemma_first_line_single(value@);
            }
            self.value = line;
        }
    }
}

impl TextInputDataProvider for TextInputProvider {
    fn from_text(text: String) -> Self {
        TextInputProvider::from_text(text.as_str())
    }

    fn to_text(&self) -> (res: String)
        ensures
            res@ == self.value_view(),
            is_single_line(res@),
    {
        TextInputProvider::to_text(self)
    }

    fn set_text(&mut self, text: String)
        ensures
            final(self).value_view() == first_line(text@),
            final(self).name_view() == old(self).name_view(),
    {
        TextInputProvider::set_text(self, text.as_str())
    }
}

} // verus!
