//! The elements owned by a module: functions, global variables and
//! metadata records, and the module aggregate itself.

pub mod function;
pub mod global;
pub mod metadata;
pub mod module;
