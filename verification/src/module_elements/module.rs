//! The module aggregate: one translation unit, its name, and the ordered
//! functions, global variables and metadata records it owns.

use vstd::prelude::*;
use crate::module_elements::function::{Function, FunctionView};
use crate::module_elements::global::{GlobalVariable, GlobalVariableView};
use crate::module_elements::metadata::Metadata;

verus! {

/// Error conditions reported by module construction and append
/// operations. Every failure is reported to the caller as one of these
/// conditions, never as a panic or a silent no-op.
#[derive(Clone, Copy, Debug, PartialEq, Eq, Structural)]
pub enum ModuleError {
    /// The module name is empty.
    InvalidName,
    /// The appended element's name duplicates the name of a function or
    /// global variable already in the module.
    NameCollision,
}

/// Mathematical value of a `Module`: its name and the ordered sequences
/// of the values of its functions, global variables and metadata records.
pub struct ModuleView {
    pub name: Seq<char>,
    pub functions: Seq<FunctionView>,
    pub globals: Seq<GlobalVariableView>,
    pub metadata: Seq<Seq<char>>,
}

/// The value of a freshly created module: the given name and three empty
/// element sequences.
pub open spec fn created_module(name: Seq<char>) -> ModuleView {
    ModuleView {
        name,
        functions: Seq::<FunctionView>::empty(),
        globals: Seq::<GlobalVariableView>::empty(),
        metadata: Seq::<Seq<char>>::empty(),
    }
}

/// Whether the module already owns a function or a global variable whose
/// symbol name is `name`. Top-level symbol names must stay unique within
/// one module, so appends are checked against this predicate.
pub open spec fn has_symbol(m: ModuleView, name: Seq<char>) -> bool {
    ||| exists|i: int| 0 <= i < m.functions.len() && m.functions[i].name == name
    ||| exists|i: int| 0 <= i < m.globals.len() && m.globals[i].name == name
}

/// One append call in a module's build history, given by the value of
/// the appended element.
pub enum BuildStep {
    AddFunction(FunctionView),
    AddGlobal(GlobalVariableView),
    AddMetadata(Seq<char>),
}

/// The value of a module after one append call: the element's value goes
/// to the end of its sequence, except that a function or global variable
/// whose name collides with an existing symbol is refused and leaves the
/// module unchanged.
pub open spec fn step_result(m: ModuleView, step: BuildStep) -> ModuleView {
    match step {
        BuildStep::AddFunction(f) => if has_symbol(m, f.name) {
            m
        } else {
            ModuleView {
                name: m.name,
                functions: m.functions.push(f),
                globals: m.globals,
                metadata: m.metadata,
            }
        },
        BuildStep::AddGlobal(g) => if has_symbol(m, g.name) {
            m
        } else {
            ModuleView {
                name: m.name,
                functions: m.functions,
                globals: m.globals.push(g),
                metadata: m.metadata,
            }
        },
        BuildStep::AddMetadata(d) => ModuleView {
            name: m.name,
            functions: m.functions,
            globals: m.globals,
            metadata: m.metadata.push(d),
        },
    }
}

/// The value of a module after a sequence of append calls, first call
/// first.
pub open spec fn build_result(m: ModuleView, steps: Seq<BuildStep>) -> ModuleView
    decreases steps.len(),
{
    if steps.len() == 0 {
        m
    } else {
        build_result(step_result(m, steps[0]), steps.drop_first())
    }
}

/// One translation unit: an identifying name plus the ordered functions,
/// global variables and metadata records it exclusively owns. A module
/// is created empty and grows only through its own append operations;
/// its sequences are never reordered or deduplicated.
#[derive(Debug)]
pub struct Module {
    name: String,
    functions: Vec<Function>,
    globals: Vec<GlobalVariable>,
    metadata: Vec<Metadata>,
}

impl View for Module {
    type V = ModuleView;

    closed spec fn view(&self) -> ModuleView {
        ModuleView {
            name: self.name@,
            functions: self.functions@.map_values(|f: Function| f@),
            globals: self.globals@.map_values(|g: GlobalVariable| g@),
            metadata: self.metadata@.map_values(|d: Metadata| d@),
        }
    }
}

impl Module {
    /// Creates a module named `name` that owns no functions, global
    /// variables or metadata records yet. Fails with `InvalidName` if and
    /// only if the given name is empty.
    pub fn new(name: String) -> (r: Result<Module, ModuleError>)
        ensures
            match r {
                Ok(m) => name@.len() > 0 && m@ == created_module(name@),
                Err(e) => name@.len() == 0 && e == ModuleError::InvalidName,
            },
    {
        if name.as_str().is_empty() {
            return Err(ModuleError::InvalidName);
        }
        let ghost name_view = name@;
        let m = Module {
            name,
            functions: Vec::new(),
            globals: Vec::new(),
            metadata: Vec::new(),
        };
        proof {
            assert(m@.functions =~= created_module(name_view).functions);
            assert(m@.globals =~= created_module(name_view).globals);
            assert(m@.metadata =~= created_module(name_view).metadata);
        }
        Ok(m)
    }

    /// Whether a function or global variable named `name` is already in
    /// the module.
    fn contains_symbol(&self, name: &String) -> (r: bool)
        ensures
            r == has_symbol(self@, name@),
    {
        let mut i: usize = 0;
        while i < self.functions.len()
            invariant
                i <= self.functions.len(),
                forall|j: int| 0 <= j < i ==> self@.functions[j].name != name@,
            decreases self.functions.len() - i,
        {
            if self.functions[i].name == *name {
                proof {
                    assert(self@.functions[i as int].name == name@);
                }
                return true;
            }
            i = i + 1;
        }
        let mut k: usize = 0;
        while k < self.globals.len()
            invariant
                k <= self.globals.len(),
                forall|j: int| 0 <= j < k ==> self@.globals[j].name != name@,
                forall|j: int| 0 <= j < self@.functions.len() ==> self@.functions[j].name != name@,
            decreases self.globals.len() - k,
        {
            if self.globals[k].name == *name {
                proof {
                    assert(self@.globals[k as int].name == name@);
                }
                return true;
            }
            k = k + 1;
        }
        false
    }

    /// Appends `f` at the end of this module's functions. Fails with
    /// `NameCollision`, and leaves the module unchanged, if and only if
    /// a function or global variable named like `f` is already in the
    /// module.
    pub fn append_function(&mut self, f: Function) -> (r: Result<(), ModuleError>)
        ensures
            final(self)@ == step_result(old(self)@, BuildStep::AddFunction(f@)),
            match r {
                Ok(()) => !has_symbol(old(self)@, f@.name),
                Err(e) => has_symbol(old(self)@, f@.name) && e == ModuleError::NameCollision,
            },
    {
        if self.contains_symbol(&f.name) {
            return Err(ModuleError::NameCollision);
        }
        let ghost fv = f@;
        let ghost pre = self@;
        self.functions.push(f);
        proof {
            assert(self@.functions =~= pre.functions.push(fv));
            assert(self@ == step_result(pre, BuildStep::AddFunction(fv)));
        }
        Ok(())
    }

    /// Appends `g` at the end of this module's global variables. Fails
    /// with `NameCollision`, and leaves the module unchanged, if and only
    /// if a function or global variable named like `g` is already in the
    /// module.
    pub fn append_global(&mut self, g: GlobalVariable) -> (r: Result<(), ModuleError>)
        ensures
            final(self)@ == step_result(old(self)@, BuildStep::AddGlobal(g@)),
            match r {
                Ok(()) => !has_symbol(old(self)@, g@.name),
                Err(e) => has_symbol(old(self)@, g@.name) && e == ModuleError::NameCollision,
            },
    {
        if self.contains_symbol(&g.name) {
            return Err(ModuleError::NameCollision);
        }
        let ghost gv = g@;
        let ghost pre = self@;
        self.globals.push(g);
        proof {
            assert(self@.globals =~= pre.globals.push(gv));
            assert(self@ == step_result(pre, BuildStep::AddGlobal(gv)));
        }
        Ok(())
    }

    /// Appends `d` at the end of this module's metadata records. Metadata
    /// records carry no symbol name, so this never fails.
    pub fn append_metadata(&mut self, d: Metadata)
        ensures
            final(self)@ == step_result(old(self)@, BuildStep::AddMetadata(d@)),
    {
        let ghost dv = d@;
        let ghost pre = self@;
        self.metadata.push(d);
        proof {
            assert(self@.metadata =~= pre.metadata.push(dv));
            assert(self@ == step_result(pre, BuildStep::AddMetadata(dv)));
        }
    }

    /// The module's identifying name.
    pub fn name(&self) -> (r: &str)
        ensures
            r@ == self@.name,
    {
        self.name.as_str()
    }

    /// Ordered read-only view over the module's functions.
    pub fn functions(&self) -> (r: &Vec<Function>)
        ensures
            r@.map_values(|f: Function| f@) == self@.functions,
    {
        &self.functions
    }

    /// Ordered read-only view over the module's global variables.
    pub fn globals(&self) -> (r: &Vec<GlobalVariable>)
        ensures
            r@.map_values(|g: GlobalVariable| g@) == self@.globals,
    {
        &self.globals
    }

    /// Ordered read-only view over the module's metadata records.
    pub fn metadata(&self) -> (r: &Vec<Metadata>)
        ensures
            r@.map_values(|d: Metadata| d@) == self@.metadata,
    {
        &self.metadata
    }
}

/// Element-wise equality of element values is exactly equality of the
/// sequences of their values.
proof fn lemma_map_view_eq<T: View>(a: Seq<T>, b: Seq<T>)
    ensures
        (a.map_values(|t: T| t@) == b.map_values(|t: T| t@)) <==> (a.len() == b.len()
            && (forall|i: int| 0 <= i < a.len() ==> a[i]@ == b[i]@)),
{
    let av = a.map_values(|t: T| t@);
    let bv = b.map_values(|t: T| t@);
    assert(av.len() == a.len());
    assert(bv.len() == b.len());
    if a.len() == b.len() && (forall|i: int| 0 <= i < a.len() ==> a[i]@ == b[i]@) {
        assert(av =~= bv);
    }
    if av == bv {
        assert forall|i: int| 0 <= i < a.len() implies a[i]@ == b[i]@ by {
            assert(av[i] == bv[i]);
        }
    }
}

impl PartialEq for Module {
    /// Two modules are equal iff their names are equal and their three
    /// element sequences are element-wise equal, in order.
    fn eq(&self, other: &Module) -> (res: bool) {
        let res = self.name == other.name && self.functions == other.functions
            && self.globals == other.globals && self.metadata == other.metadata;
        proof {
            lemma_map_view_eq::<Function>(self.functions@, other.functions@);
            lemma_map_view_eq::<GlobalVariable>(self.globals@, other.globals@);
            lemma_map_view_eq::<Metadata>(self.metadata@, other.metadata@);
        }
        res
    }
}

impl vstd::std_specs::cmp::PartialEqSpecImpl for Module {
    open spec fn obeys_eq_spec() -> bool {
        true
    }

    open spec fn eq_spec(&self, other: &Module) -> bool {
        self@ == other@
    }
}

/// Two module values are equal exactly when their name and their three
/// element sequences are equal: equality is structural, by value, never
/// by identity.
pub proof fn lemma_module_equality_by_fields(m: ModuleView, n: ModuleView)
    ensures
        (m == n) <==> (m.name == n.name && m.functions == n.functions && m.globals == n.globals
            && m.metadata == n.metadata),
{
}

/// Append order is preserved: appending `a` and then `b` to a sequence
/// leaves every earlier element in place and yields `a` then `b` at the
/// end — never `b` then `a`, which for distinct elements is a different
/// sequence.
pub proof fn lemma_append_order<T>(s: Seq<T>, a: T, b: T)
    ensures
        s.push(a).push(b).len() == s.len() + 2,
        forall|i: int| 0 <= i < s.len() ==> s.push(a).push(b)[i] == s[i],
        s.push(a).push(b)[s.len() as int] == a,
        s.push(a).push(b)[s.len() as int + 1] == b,
        a != b ==> s.push(a).push(b) != s.push(b).push(a),
{
    assert(s.push(a).push(b)[s.len() as int] == a);
    assert(s.push(b).push(a)[s.len() as int] == b);
}

/// Module building is deterministic: the value of a module built from a
/// name by a sequence of append calls is a function of that name and
/// those calls alone, so two modules built by identical create-and-append
/// call sequences are structurally equal.
pub proof fn lemma_identical_builds_equal(name: Seq<char>, steps: Seq<BuildStep>, m: ModuleView, n: ModuleView)
    requires
        m == build_result(created_module(name), steps),
        n == build_result(created_module(name), steps),
    ensures
        m == n,
{
}

} // verus!
