//! Functions as a module sees them.

use vstd::prelude::*;
use crate::attributes::linkage::Linkage;

verus! {

/// Mathematical value of a `Function`: its symbol name and its linkage.
pub struct FunctionView {
    pub name: Seq<char>,
    pub linkage: Linkage,
}

/// A function owned by a module. Its instructions, type and operands are
/// out of scope here: the owning module needs only its symbol name (for
/// uniqueness checks), its linkage, and structural equality.
#[derive(Debug)]
pub struct Function {
    pub name: String,
    pub linkage: Linkage,
}

impl View for Function {
    type V = FunctionView;

    open spec fn view(&self) -> FunctionView {
        FunctionView { name: self.name@, linkage: self.linkage }
    }
}

impl PartialEq for Function {
    /// Two functions are equal iff their names and linkages are equal.
    fn eq(&self, other: &Function) -> (r: bool) {
        self.name == other.name && self.linkage == other.linkage
    }
}

impl vstd::std_specs::cmp::PartialEqSpecImpl for Function {
    open spec fn obeys_eq_spec() -> bool {
        true
    }

    open spec fn eq_spec(&self, other: &Function) -> bool {
        self@ == other@
    }
}

} // verus!
