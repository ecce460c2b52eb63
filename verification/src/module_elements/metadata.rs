//! Metadata records as a module sees them.

use vstd::prelude::*;

verus! {

/// A metadata record owned by a module. Its internal structure is out of
/// scope here: the owning module needs only structural equality, so the
/// record is carried as its textual content. Metadata records have no
/// symbol name and take no part in name-uniqueness checks.
#[derive(Debug)]
pub struct Metadata {
    pub content: String,
}

impl View for Metadata {
    type V = Seq<char>;

    open spec fn view(&self) -> Seq<char> {
        self.content@
    }
}

impl PartialEq for Metadata {
    /// Two metadata records are equal iff their contents are equal.
    fn eq(&self, other: &Metadata) -> (r: bool) {
        self.content == other.content
    }
}

impl vstd::std_specs::cmp::PartialEqSpecImpl for Metadata {
    open spec fn obeys_eq_spec() -> bool {
        true
    }

    open spec fn eq_spec(&self, other: &Metadata) -> bool {
        self@ == other@
    }
}

} // verus!
