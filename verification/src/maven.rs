//! Where things lie in a Maven-style repository, and what can go wrong on the
//! way there.

use vstd::prelude::*;
use vstd::string::StringExecFns;
use crate::text::{replace_char, spec_replace_char};
use crate::types::gradle_module_metadata::{Dependency, DependencyView};
use crate::types::maven_metadata::MavenMetadata;

verus! {

/// Why a resolution stopped.
#[derive(Clone, Copy, Debug)]
pub enum MavenError {
    /// The transport failed, or the repository answered with an error status
    /// (`status` then holds it).
    Reqwest { status: Option<u16> },
    /// The version index could not be read as XML.
    XmlParse,
    /// A listed version is no semantic version.
    Semver,
    /// The version index lists no version at all.
    NoVersions,
    /// The document describes another coordinate than the one asked for.
    ArtifactMismatch,
    /// A checksum resource does not hold a 256-bit digest in lower-case hex.
    InvalidChecksum,
}

impl MavenError {
    /// Whether the repository said that the resource does not exist.
    pub open spec fn spec_is_not_found(&self) -> bool {
        *self == (MavenError::Reqwest { status: Some(404u16) })
    }

    #[verifier::when_used_as_spec(spec_is_not_found)]
    pub fn is_not_found(&self) -> (r: bool)
        ensures
            r == self.spec_is_not_found(),
    {
        match self {
            MavenError::Reqwest { status: Some(code) } => *code == 404,
            _ => false,
        }
    }

    /// The sentence that describes the error to an operator.
    pub open spec fn spec_message(&self) -> Seq<char> {
        match self {
            MavenError::Reqwest { .. } => "A response/request error from reqwest"@,
            MavenError::XmlParse => "An error occurred while trying to parse an XML response"@,
            MavenError::Semver => "An error occurred while trying to parse versions with SemVer"@,
            MavenError::NoVersions =>
                "There were no artifact versions in the maven-metadata.xml file"@,
            MavenError::ArtifactMismatch =>
                "There was a mismatch between the requested module ID or group and the response"@,
            MavenError::InvalidChecksum =>
                "A checksum resource did not hold a SHA-256 digest in lower-case hex"@,
        }
    }

    pub fn message(&self) -> (r: &'static str)
        ensures
            r@ == self.spec_message(),
    {
        match self {
            MavenError::Reqwest { .. } => "A response/request error from reqwest",
            MavenError::XmlParse => "An error occurred while trying to parse an XML response",
            MavenError::Semver => "An error occurred while trying to parse versions with SemVer",
            MavenError::NoVersions =>
                "There were no artifact versions in the maven-metadata.xml file",
            MavenError::ArtifactMismatch =>
                "There was a mismatch between the requested module ID or group and the response",
            MavenError::InvalidChecksum =>
                "A checksum resource did not hold a SHA-256 digest in lower-case hex",
        }
    }
}

/// The first error in a list of results, if there is one.
pub open spec fn spec_first_error<T>(results: Seq<Result<T, MavenError>>) -> Option<MavenError>
    decreases results.len(),
{
    if results.len() == 0 {
        None
    } else {
        match results[0] {
            Err(e) => Some(e),
            Ok(_) => spec_first_error(results.drop_first()),
        }
    }
}

/// A list of results has no first error exactly when every one of them is `Ok`.
pub proof fn lemma_first_error_none<T>(results: Seq<Result<T, MavenError>>)
    ensures
        spec_first_error(results) is None <==> forall|i: int|
            0 <= i < results.len() ==> (#[trigger] results[i]) is Ok,
    decreases results.len(),
{
    if results.len() > 0 {
        let rest = results.drop_first();
        lemma_first_error_none(rest);
        if results[0] is Ok {
            assert forall|i: int| 0 <= i < rest.len() implies ((#[trigger] rest[i]) is Ok
                <==> results[i + 1] is Ok) by {}
            if spec_first_error(results) is None {
                assert forall|i: int| 0 <= i < results.len() implies (#[trigger] results[i])
                    is Ok by {
                    if i > 0 {
                        assert(rest[i - 1] is Ok);
                    }
                }
            } else {
                let k = choose|k: int| 0 <= k < rest.len() && !((#[trigger] rest[k]) is Ok);
                assert(!(results[k + 1] is Ok));
            }
        }
    }
}

/// A group as a path: its dots become slashes.
pub open spec fn spec_group_path(group: Seq<char>) -> Seq<char> {
    spec_replace_char(group, '.', '/')
}

/// The directory of one artifact: `{url}{repository}/{group path}/{artifact}`.
pub open spec fn spec_artifact_dir(
    url: Seq<char>,
    repository: Seq<char>,
    group: Seq<char>,
    artifact: Seq<char>,
) -> Seq<char> {
    url + repository + seq!['/'] + spec_group_path(group) + seq!['/'] + artifact
}

/// The file name of a dependency: the selector's
/// `{name}-{version}-{classifier}.{extension}` where one is declared, else
/// `{module}-{version}.jar`.
pub open spec fn spec_dep_filename(dep: DependencyView) -> Seq<char> {
    match dep.selector() {
        Some(selector) => selector.name + seq!['-'] + dep.version + seq!['-']
            + selector.classifier + seq!['.'] + selector.extension,
        None => dep.module + seq!['-'] + dep.version + ".jar"@,
    }
}

/// `{url}{repository}/{group path}/{module}/{version}/{file name}`.
pub open spec fn spec_dep_url(url: Seq<char>, repository: Seq<char>, dep: DependencyView) -> Seq<
    char,
> {
    spec_artifact_dir(url, repository, dep.group, dep.module) + seq!['/'] + dep.version
        + seq!['/'] + spec_dep_filename(dep)
}

fn push_artifact_dir(out: &mut String, url: &str, repository: &str, group: &str, artifact: &str)
    requires
        old(out)@.len() == 0,
    ensures
        final(out)@ == spec_artifact_dir(url@, repository@, group@, artifact@),
{
    out.append(url);
    out.append(repository);
    out.push('/');
    let path = replace_char(group, '.', '/');
    out.append(path.as_str());
    out.push('/');
    out.append(artifact);
    assert(final(out)@ =~= spec_artifact_dir(url@, repository@, group@, artifact@));
}

/// Where a dependency's file lies under the repository root `url`, in the
/// channel `repository`.
pub fn get_dep_url(url: &str, repository: &str, dep: &Dependency) -> (r: String)
    ensures
        r@ == spec_dep_url(url@, repository@, dep@),
{
    let mut filename = String::new();
    let mut plain = true;
    if let Some(compatibility) = &dep.third_party_compatibility {
        if let Some(selector) = &compatibility.artifact_selector {
            filename.append(selector.name.as_str());
            filename.push('-');
            filename.append(dep.version.requires.as_str());
            filename.push('-');
            filename.append(selector.classifier.as_str());
            filename.push('.');
            filename.append(selector.extension.as_str());
            plain = false;
        }
    }
    if plain {
        filename.append(dep.module.as_str());
        filename.push('-');
        filename.append(dep.version.requires.as_str());
        filename.append(".jar");
    }
    assert(filename@ =~= spec_dep_filename(dep@));
    let mut out = String::new();
    push_artifact_dir(&mut out, url, repository, dep.group.as_str(), dep.module.as_str());
    out.push('/');
    out.append(dep.version.requires.as_str());
    out.push('/');
    out.append(filename.as_str());
    assert(out@ =~= spec_dep_url(url@, repository@, dep@));
    out
}

/// `{url}{repository}/{group path}/{artifact}/maven-metadata.xml`.
pub open spec fn spec_maven_metadata_url(
    url: Seq<char>,
    repository: Seq<char>,
    group: Seq<char>,
    artifact: Seq<char>,
) -> Seq<char> {
    spec_artifact_dir(url, repository, group, artifact) + "/maven-metadata.xml"@
}

/// Where the version index of an artifact lies.
pub fn maven_metadata_url(url: &str, repository: &str, group: &str, artifact: &str) -> (r: String)
    ensures
        r@ == spec_maven_metadata_url(url@, repository@, group@, artifact@),
{
    let mut out = String::new();
    push_artifact_dir(&mut out, url, repository, group, artifact);
    out.append("/maven-metadata.xml");
    out
}

/// `{url}{repository}/{group path}/{artifact}/{version}/{artifact}-{version}.module`.
pub open spec fn spec_module_metadata_url(
    url: Seq<char>,
    repository: Seq<char>,
    group: Seq<char>,
    artifact: Seq<char>,
    version: Seq<char>,
) -> Seq<char> {
    spec_artifact_dir(url, repository, group, artifact) + seq!['/'] + version + seq!['/']
        + artifact + seq!['-'] + version + ".module"@
}

/// Where the module descriptor of one version of an artifact lies.
pub fn module_metadata_url(
    url: &str,
    repository: &str,
    group: &str,
    artifact: &str,
    version: &str,
) -> (r: String)
    ensures
        r@ == spec_module_metadata_url(url@, repository@, group@, artifact@, version@),
{
    let mut out = String::new();
    push_artifact_dir(&mut out, url, repository, group, artifact);
    out.push('/');
    out.append(version);
    out.push('/');
    out.append(artifact);
    out.push('-');
    out.append(version);
    out.append(".module");
    assert(out@ =~= spec_module_metadata_url(url@, repository@, group@, artifact@, version@));
    out
}

/// The checksum of a file lies beside it, under the file's name and `.sha256`.
pub open spec fn spec_checksum_url(url: Seq<char>) -> Seq<char> {
    url + ".sha256"@
}

pub fn checksum_url(url: &str) -> (r: String)
    ensures
        r@ == spec_checksum_url(url@),
{
    let mut out = String::new();
    out.append(url);
    out.append(".sha256");
    assert(out@ =~= spec_checksum_url(url@));
    out
}

/// A version index is accepted only for the coordinate that was asked for.
pub fn check_maven_metadata(group: &str, artifact: &str, metadata: MavenMetadata) -> (r: Result<
    MavenMetadata,
    MavenError,
>)
    ensures
        r == (if group@ == metadata.group_id@ && artifact@ == metadata.artifact_id@ {
            Ok::<MavenMetadata, MavenError>(metadata)
        } else {
            Err(MavenError::ArtifactMismatch)
        }),
{
    if !group.eq(metadata.group_id.as_str()) || !artifact.eq(metadata.artifact_id.as_str()) {
        return Err(MavenError::ArtifactMismatch);
    }
    Ok(metadata)
}

} // verus!
