use ir_core::attributes::linkage::Linkage;
use ir_core::module_elements::function::Function;
use ir_core::module_elements::global::GlobalVariable;
use ir_core::module_elements::metadata::Metadata;
use ir_core::module_elements::module::{Module, ModuleError};

fn function(name: &str, linkage: Linkage) -> Function {
    Function { name: name.to_string(), linkage }
}

fn global(name: &str, linkage: Linkage) -> GlobalVariable {
    GlobalVariable { name: name.to_string(), linkage }
}

fn metadata(content: &str) -> Metadata {
    Metadata { content: content.to_string() }
}

#[test]
fn create_module() {
    let m = Module::new("main".to_string()).unwrap();
    let fresh = Module::new("main".to_string()).unwrap();
    assert_eq!(m, fresh);
    assert_eq!(m.name(), "main");
    assert_eq!(m.functions().len(), 0);
    assert_eq!(m.globals().len(), 0);
    assert_eq!(m.metadata().len(), 0);
}

#[test]
fn empty_name_is_invalid() {
    assert_eq!(Module::new(String::new()), Err(ModuleError::InvalidName));
}

#[test]
fn append_preserves_order() {
    let mut m = Module::new("main".to_string()).unwrap();
    assert_eq!(m.append_function(function("a", Linkage::External)), Ok(()));
    assert_eq!(m.append_function(function("b", Linkage::Internal)), Ok(()));
    assert_eq!(m.functions().len(), 2);
    assert_eq!(m.functions()[0], function("a", Linkage::External));
    assert_eq!(m.functions()[1], function("b", Linkage::Internal));

    assert_eq!(m.append_global(global("g1", Linkage::Common)), Ok(()));
    assert_eq!(m.append_global(global("g2", Linkage::Weak)), Ok(()));
    assert_eq!(m.globals().len(), 2);
    assert_eq!(m.globals()[0], global("g1", Linkage::Common));
    assert_eq!(m.globals()[1], global("g2", Linkage::Weak));

    m.append_metadata(metadata("first"));
    m.append_metadata(metadata("second"));
    assert_eq!(m.metadata().len(), 2);
    assert_eq!(m.metadata()[0], metadata("first"));
    assert_eq!(m.metadata()[1], metadata("second"));
}

#[test]
fn identical_builds_are_equal() {
    let mut m = Module::new("unit".to_string()).unwrap();
    assert_eq!(m.append_function(function("f", Linkage::LinkOnceODR)), Ok(()));
    assert_eq!(m.append_global(global("g", Linkage::ExternWeak)), Ok(()));
    m.append_metadata(metadata("dbg"));

    let mut n = Module::new("unit".to_string()).unwrap();
    assert_eq!(n.append_function(function("f", Linkage::LinkOnceODR)), Ok(()));
    assert_eq!(n.append_global(global("g", Linkage::ExternWeak)), Ok(()));
    n.append_metadata(metadata("dbg"));

    assert_eq!(m, n);
}

#[test]
fn element_position_matters() {
    let mut m = Module::new("unit".to_string()).unwrap();
    assert_eq!(m.append_function(function("a", Linkage::External)), Ok(()));
    assert_eq!(m.append_function(function("b", Linkage::External)), Ok(()));

    let mut n = Module::new("unit".to_string()).unwrap();
    assert_eq!(n.append_function(function("b", Linkage::External)), Ok(()));
    assert_eq!(n.append_function(function("a", Linkage::External)), Ok(()));

    assert_ne!(m, n);
}

#[test]
fn function_then_global_with_same_name_collides() {
    let mut m = Module::new("main".to_string()).unwrap();
    assert_eq!(m.append_function(function("foo", Linkage::External)), Ok(()));
    assert_eq!(
        m.append_global(global("foo", Linkage::External)),
        Err(ModuleError::NameCollision)
    );
    // The failed append left the module unchanged.
    assert_eq!(m.globals().len(), 0);
    assert_eq!(m.functions().len(), 1);
}

#[test]
fn duplicate_function_name_collides() {
    let mut m = Module::new("main".to_string()).unwrap();
    assert_eq!(m.append_function(function("foo", Linkage::External)), Ok(()));
    assert_eq!(
        m.append_function(function("foo", Linkage::Private)),
        Err(ModuleError::NameCollision)
    );
    assert_eq!(m.functions().len(), 1);
}

#[test]
fn global_then_function_with_same_name_collides() {
    let mut m = Module::new("main".to_string()).unwrap();
    assert_eq!(m.append_global(global("bar", Linkage::Weak)), Ok(()));
    assert_eq!(
        m.append_function(function("bar", Linkage::External)),
        Err(ModuleError::NameCollision)
    );
    assert_eq!(m.functions().len(), 0);
    assert_eq!(m.globals().len(), 1);
}

#[test]
fn metadata_never_collides() {
    let mut m = Module::new("main".to_string()).unwrap();
    assert_eq!(m.append_function(function("dbg", Linkage::External)), Ok(()));
    m.append_metadata(metadata("dbg"));
    m.append_metadata(metadata("dbg"));
    assert_eq!(m.metadata().len(), 2);
}

#[test]
fn modules_with_different_names_are_unequal() {
    let m = Module::new("a".to_string()).unwrap();
    let n = Module::new("b".to_string()).unwrap();
    assert_ne!(m, n);
}

#[test]
fn elements_compare_by_value() {
    assert_eq!(function("f", Linkage::Weak), function("f", Linkage::Weak));
    assert_ne!(function("f", Linkage::Weak), function("f", Linkage::WeakODR));
    assert_ne!(function("f", Linkage::Weak), function("h", Linkage::Weak));
    assert_eq!(global("g", Linkage::Common), global("g", Linkage::Common));
    assert_ne!(global("g", Linkage::Common), global("g2", Linkage::Common));
    assert_eq!(metadata("x"), metadata("x"));
    assert_ne!(metadata("x"), metadata("y"));
}
