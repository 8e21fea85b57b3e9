//! The version index of one artifact: every version the repository holds.

use vstd::prelude::*;

verus! {

/// The listed version strings, in document order.
#[derive(Debug)]
pub struct Versions {
    pub versions: Vec<String>,
}

#[derive(Debug)]
pub struct MavenMetadataVersioning {
    pub versions: Versions,
}

/// The version index, with the coordinate that it claims to describe.
#[derive(Debug)]
pub struct MavenMetadata {
    pub group_id: String,
    pub artifact_id: String,
    pub versioning: MavenMetadataVersioning,
}

impl MavenMetadata {
    /// The version strings of the index, each as its characters.
    pub open spec fn version_texts(&self) -> Seq<Seq<char>> {
        self.versioning.versions.versions@.map_values(|s: String| s@)
    }
}

} // verus!
