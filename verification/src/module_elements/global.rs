//! Global variables as a module sees them.

use vstd::prelude::*;
use crate::attributes::linkage::Linkage;

verus! {

/// Mathematical value of a `GlobalVariable`: its symbol name and its
/// linkage.
pub struct GlobalVariableView {
    pub name: Seq<char>,
    pub linkage: Linkage,
}

/// A global variable owned by a module. Its type and initializer are out
/// of scope here: the owning module needs only its symbol name (for
/// uniqueness checks), its linkage, and structural equality.
#[derive(Debug)]
pub struct GlobalVariable {
    pub name: String,
    pub linkage: Linkage,
}

impl View for GlobalVariable {
    type V = GlobalVariableView;

    open spec fn view(&self) -> GlobalVariableView {
        GlobalVariableView { name: self.name@, linkage: self.linkage }
    }
}

impl PartialEq for GlobalVariable {
    /// Two global variables are equal iff their names and linkages are
    /// equal.
    fn eq(&self, other: &GlobalVariable) -> (r: bool) {
        self.name == other.name && self.linkage == other.linkage
    }
}

impl vstd::std_specs::cmp::PartialEqSpecImpl for GlobalVariable {
    open spec fn obeys_eq_spec() -> bool {
        true
    }

    open spec fn eq_spec(&self, other: &GlobalVariable) -> bool {
        self@ == other@
    }
}

} // verus!
