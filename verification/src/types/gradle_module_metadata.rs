//! The module descriptor of one coordinate: named variants, each with the
//! dependencies it declares.

use vstd::prelude::*;

verus! {

/// The version that a dependency asks for.
#[derive(Debug)]
pub struct VersionRequirement {
    pub requires: String,
}

impl View for VersionRequirement {
    type V = Seq<char>;

    open spec fn view(&self) -> Seq<char> {
        self.requires@
    }
}

impl Clone for VersionRequirement {
    fn clone(&self) -> (r: Self)
        ensures
            r@ == self@,
    {
        VersionRequirement { requires: self.requires.clone() }
    }
}

/// The file of a third-party dependency, where it is not `{module}-{version}.jar`.
#[derive(Debug)]
pub struct ArtifactSelector {
    pub name: String,
    pub extension: String,
    pub classifier: String,
}

pub struct ArtifactSelectorView {
    pub name: Seq<char>,
    pub extension: Seq<char>,
    pub classifier: Seq<char>,
}

impl View for ArtifactSelector {
    type V = ArtifactSelectorView;

    open spec fn view(&self) -> ArtifactSelectorView {
        ArtifactSelectorView {
            name: self.name@,
            extension: self.extension@,
            classifier: self.classifier@,
        }
    }
}

impl Clone for ArtifactSelector {
    fn clone(&self) -> (r: Self)
        ensures
            r@ == self@,
    {
        ArtifactSelector {
            name: self.name.clone(),
            extension: self.extension.clone(),
            classifier: self.classifier.clone(),
        }
    }
}

#[derive(Debug)]
pub struct ThirdPartyCompatibility {
    pub artifact_selector: Option<ArtifactSelector>,
}

impl View for ThirdPartyCompatibility {
    type V = Option<ArtifactSelectorView>;

    open spec fn view(&self) -> Option<ArtifactSelectorView> {
        match self.artifact_selector {
            Some(selector) => Some(selector@),
            None => None,
        }
    }
}

impl Clone for ThirdPartyCompatibility {
    fn clone(&self) -> (r: Self)
        ensures
            r@ == self@,
    {
        let artifact_selector = match &self.artifact_selector {
            Some(selector) => Some(selector.clone()),
            None => None,
        };
        ThirdPartyCompatibility { artifact_selector }
    }
}

/// What a dependency says of itself to the loader.
#[derive(Clone, Copy, Debug, PartialEq, Eq, Structural, Hash)]
pub struct DependencyAttributes {
    /// The loader is to fetch this dependency.
    pub loader_include: bool,
    /// The dependency travels nested inside the bundle.
    pub jij: bool,
}

impl Default for DependencyAttributes {
    fn default() -> (r: Self)
        ensures
            !r.loader_include,
            !r.jij,
    {
        DependencyAttributes { loader_include: false, jij: false }
    }
}

/// One declared dependency.
#[derive(Debug)]
pub struct Dependency {
    pub group: String,
    pub module: String,
    pub version: VersionRequirement,
    pub third_party_compatibility: Option<ThirdPartyCompatibility>,
    pub attributes: DependencyAttributes,
}

pub struct DependencyView {
    pub group: Seq<char>,
    pub module: Seq<char>,
    pub version: Seq<char>,
    pub third_party_compatibility: Option<Option<ArtifactSelectorView>>,
    pub attributes: DependencyAttributes,
}

impl DependencyView {
    /// The selector that names the dependency's file, where one is declared.
    pub open spec fn selector(self) -> Option<ArtifactSelectorView> {
        match self.third_party_compatibility {
            Some(Some(selector)) => Some(selector),
            _ => None,
        }
    }

    /// What tells one resolved artifact from another: group and module.
    pub open spec fn key(self) -> (Seq<char>, Seq<char>) {
        (self.group, self.module)
    }
}

impl View for Dependency {
    type V = DependencyView;

    open spec fn view(&self) -> DependencyView {
        DependencyView {
            group: self.group@,
            module: self.module@,
            version: self.version@,
            third_party_compatibility: match self.third_party_compatibility {
                Some(compatibility) => Some(compatibility@),
                None => None,
            },
            attributes: self.attributes,
        }
    }
}

impl Clone for Dependency {
    fn clone(&self) -> (r: Self)
        ensures
            r@ == self@,
    {
        let third_party_compatibility = match &self.third_party_compatibility {
            Some(compatibility) => Some(compatibility.clone()),
            None => None,
        };
        Dependency {
            group: self.group.clone(),
            module: self.module.clone(),
            version: self.version.clone(),
            third_party_compatibility,
            attributes: self.attributes,
        }
    }
}

impl Dependency {
    /// Whether two dependencies are one resolved artifact: same group, same module.
    pub fn same_artifact(&self, other: &Dependency) -> (r: bool)
        ensures
            r == (self@.key() == other@.key()),
    {
        self.group == other.group && self.module == other.module
    }
}

/// A named facet of a descriptor. Names that this library does not know are
/// kept as `Other` and never read.
#[derive(Debug)]
pub enum Variant {
    /// The modules that make up the bundle itself.
    OneConfigModulesApiElements { dependencies: Vec<Dependency> },
    /// What a module needs at run time.
    RuntimeElements { dependencies: Vec<Dependency> },
    Other,
}

/// One fetched descriptor.
#[derive(Debug)]
pub struct GradleModuleMetadata {
    pub variants: Vec<Variant>,
}

/// The views of a list of dependencies, in order.
pub open spec fn dependency_views(deps: Seq<Dependency>) -> Seq<DependencyView> {
    deps.map_values(|d: Dependency| d@)
}

} // verus!
