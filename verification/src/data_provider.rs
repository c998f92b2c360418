//! The storage interface that editors read their fields from and write
//! their edits to.
use vstd::prelude::*;

verus! {

/// A fixed list of named text fields.
///
/// Editors copy the values when they are created and then hand every new
/// value of a field to `set_field_value`.
pub trait DataProvider {
    /// Whether this provider's methods meet the specifications below, in
    /// terms of `spec_field_count` and `spec_field_value`. An
    /// implementation that states and proves them says so; any other
    /// promises nothing.
    open spec fn obeys_provider_spec() -> bool {
        false
    }

    /// The number of fields, as the specifications see it.
    open spec fn spec_field_count(&self) -> nat {
        0
    }

    /// The value of field `index`, as the specifications see it.
    open spec fn spec_field_value(&self, index: int) -> Seq<char> {
        Seq::empty()
    }

    /// The form in which the provider keeps a value it is given (the value
    /// itself, unless an implementation says otherwise).
    open spec fn spec_stored_value(value: Seq<char>) -> Seq<char> {
        value
    }

    /// Number of fields.
    fn field_count(&self) -> (res: usize)
        ensures
            Self::obeys_provider_spec() ==> res == self.spec_field_count(),
    ;

    /// The name of field `index`, as the specifications see it.
    open spec fn spec_field_name(&self, index: int) -> Seq<char> {
        Seq::empty()
    }

    /// Name of field `index`.
    fn field_name(&self, index: usize) -> (res: &str)
        ensures
            Self::obeys_provider_spec() ==> res@ == self.spec_field_name(index as int),
    ;

    /// Current value of field `index`.
    fn field_value(&self, index: usize) -> (res: &str)
        ensures
            Self::obeys_provider_spec() ==> res@ == self.spec_field_value(index as int),
            Self::obeys_provider_spec() && index < self.spec_field_count() ==> Self::spec_stored_value(
                res@,
            ) == res@,
    ;

    /// Stores a new value for field `index`: the field then holds it in
    /// the provider's stored form; no other field changes, none is added or
    /// removed, and no name changes.
    fn set_field_value(&mut self, index: usize, value: String)
        ensures
            Self::obeys_provider_spec() ==> final(self).spec_field_count() == old(self).spec_field_count(),
            Self::obeys_provider_spec() && index < old(self).spec_field_count()
                ==> final(self).spec_field_value(index as int) == Self::spec_stored_value(value@),
            Self::obeys_provider_spec() ==> forall|j: int|
                0 <= j < old(self).spec_field_count() && j != index
                    ==> #[trigger] final(self).spec_field_value(j) == old(self).spec_field_value(j),
            Self::obeys_provider_spec() ==> forall|j: int|
                #[trigger] final(self).spec_field_name(j) == old(self).spec_field_name(j),
    ;

    /// The values of all fields, in order: one per field, each the value
    /// `field_value` gives.
    fn capture_content(&self) -> (res: Vec<String>)
        ensures
            Self::obeys_provider_spec() ==> res@.len() == self.spec_field_count() && forall|i: int|
                0 <= i < res@.len() ==> #[trigger] res@[i]@ == self.spec_field_value(i),
    {
        let n = self.field_count();
        let mut out: Vec<String> = Vec::new();
        let mut i: usize = 0;
        while i < n
            invariant
                i <= n,
                out@.len() == i,
                Self::obeys_provider_spec() ==> n == self.spec_field_count(),
                Self::obeys_provider_spec() ==> forall|j: int|
                    0 <= j < i ==> #[trigger] out@[j]@ == self.spec_field_value(j),
            decreases n - i,
        {
            let v = self.field_value(i).to_owned();
            out.push(v);
            i += 1;
        }
        out
    }
}

} // verus!
