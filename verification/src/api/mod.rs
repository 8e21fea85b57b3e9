//! The HTTP surface, by version.

pub mod v1;
