//! Attributes carried by module-level entities.

pub mod linkage;
