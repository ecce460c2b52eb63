//! The closed set of linkage attributes and their canonical keywords.

use vstd::prelude::*;

verus! {

/// Linkage attribute of a module-level entity (a function or a global
/// variable). It controls whether the symbol is visible outside its own
/// translation unit and how duplicate definitions are merged or discarded
/// when modules are linked together.
#[derive(Clone, Copy, Debug, PartialEq, Eq, Structural)]
pub enum Linkage {
    /// Only directly accessible by objects in the current module; may be
    /// renamed on linking to avoid collisions and shows up in no symbol
    /// table of the object file.
    Private,
    /// Like `Private`, but the value shows as a local symbol in the object
    /// file; corresponds to the `static` keyword in C.
    Internal,
    /// Never emitted into the object file: equivalent to an external
    /// declaration from the linker's perspective, kept only so that
    /// optimizations can see the definition. May be discarded at will.
    AvailableExternally,
    /// Merged with other globals of the same name at link time; an
    /// unreferenced definition may be discarded.
    LinkOnce,
    /// Same merging as `LinkOnce`, but an unreferenced definition may not
    /// be discarded; used for globals declared weak in C.
    Weak,
    /// Like `Weak`, for tentative definitions in C such as `int x;` at
    /// global scope; never used on functions.
    Common,
    /// Only for global variables of pointer-to-array type: linking two
    /// definitions appends the two arrays.
    Appending,
    /// Follows the ELF model: weak until linked, and null rather than an
    /// undefined reference if never linked.
    ExternWeak,
    /// `LinkOnce` restricted by the one-definition rule: only equivalent
    /// definitions may be merged.
    LinkOnceODR,
    /// `Weak` restricted by the one-definition rule: only equivalent
    /// definitions may be merged.
    WeakODR,
    /// The default: externally visible, participates in symbol resolution.
    External,
}

/// The canonical keyword of each linkage variant. The mapping is total
/// over the closed variant set and injective (`lemma_keyword_injective`);
/// every consumer that renders or parses linkage must use exactly these
/// keywords.
pub open spec fn linkage_keyword(l: Linkage) -> Seq<char> {
    match l {
        Linkage::Private => "private"@,
        Linkage::Internal => "internal"@,
        Linkage::AvailableExternally => "available_externally"@,
        Linkage::LinkOnce => "link_once"@,
        Linkage::Weak => "weak"@,
        Linkage::Common => "common"@,
        Linkage::Appending => "appending"@,
        Linkage::ExternWeak => "extern_weak"@,
        Linkage::LinkOnceODR => "link_once_odr"@,
        Linkage::WeakODR => "weak_odr"@,
        Linkage::External => "external"@,
    }
}

impl Linkage {
    /// Encodes this variant as its canonical textual keyword.
    pub fn encode(&self) -> (r: &'static str)
        ensures
            r@ == linkage_keyword(*self),
    {
        match self {
            Linkage::Private => "private",
            Linkage::Internal => "internal",
            Linkage::AvailableExternally => "available_externally",
            Linkage::LinkOnce => "link_once",
            Linkage::Weak => "weak",
            Linkage::Common => "common",
            Linkage::Appending => "appending",
            Linkage::ExternWeak => "extern_weak",
            Linkage::LinkOnceODR => "link_once_odr",
            Linkage::WeakODR => "weak_odr",
            Linkage::External => "external",
        }
    }
}

/// The variant-to-keyword mapping is injective: no two distinct linkage
/// variants encode to the same keyword.
pub proof fn lemma_keyword_injective(a: Linkage, b: Linkage)
    requires
        linkage_keyword(a) == linkage_keyword(b),
    ensures
        a == b,
{
    reveal_strlit("private");
    reveal_strlit("internal");
    reveal_strlit("available_externally");
    reveal_strlit("link_once");
    reveal_strlit("weak");
    reveal_strlit("common");
    reveal_strlit("appending");
    reveal_strlit("extern_weak");
    reveal_strlit("link_once_odr");
    reveal_strlit("weak_odr");
    reveal_strlit("external");
    // Keyword length, together with the first character for the keywords
    // of equal length, separates every pair of variants.
    assert(linkage_keyword(Linkage::Private).len() == 7);
    assert(linkage_keyword(Linkage::Internal).len() == 8);
    assert(linkage_keyword(Linkage::AvailableExternally).len() == 20);
    assert(linkage_keyword(Linkage::LinkOnce).len() == 9);
    assert(linkage_keyword(Linkage::Weak).len() == 4);
    assert(linkage_keyword(Linkage::Common).len() == 6);
    assert(linkage_keyword(Linkage::Appending).len() == 9);
    assert(linkage_keyword(Linkage::ExternWeak).len() == 11);
    assert(linkage_keyword(Linkage::LinkOnceODR).len() == 13);
    assert(linkage_keyword(Linkage::WeakODR).len() == 8);
    assert(linkage_keyword(Linkage::External).len() == 8);
    assert(linkage_keyword(Linkage::Internal)[0] == 'i');
    assert(linkage_keyword(Linkage::WeakODR)[0] == 'w');
    assert(linkage_keyword(Linkage::External)[0] == 'e');
    assert(linkage_keyword(Linkage::LinkOnce)[0] == 'l');
    assert(linkage_keyword(Linkage::Appending)[0] == 'a');
}

} // verus!
