//! Resolution of the downloadable artifacts of a versioned bundle from a
//! Maven-style repository, and the conditional-response caching that sits in
//! front of it.

pub mod api;
pub mod checksums;
pub mod digest;
pub mod hex;
pub mod maven;
pub mod parsing;
pub mod structs;
pub mod text;
pub mod types;
pub mod version;
pub mod walker;
