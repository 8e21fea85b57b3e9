//! The documents that the repository serves, as plain values.

pub mod gradle_module_metadata;
pub mod maven_metadata;
