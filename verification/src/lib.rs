//! A small slice of a compiler back end's intermediate-representation
//! object model: the closed set of linkage attributes that govern
//! cross-translation-unit symbol visibility and merging, and the module
//! aggregate that owns the ordered functions, global variables and
//! metadata records of one translation unit.

pub mod attributes;
pub mod module_elements;
