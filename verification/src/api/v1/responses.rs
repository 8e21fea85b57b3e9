//! What the API answers with.

use vstd::prelude::*;
use vstd::string::StringExecFns;
use crate::hex::{is_digest_text, spec_is_digest_text};
use crate::maven::MavenError;

verus! {

pub const INVALID_ONECONFIG_VERSION_TITLE: &'static str =
    "The requested OneConfig version could not be found";

pub const INVALID_ONECONFIG_VERSION_INSTANCE_PREFIX: &'static str =
    "https://api.polyfrost.org/v1/problems/invalid-oneconfig-version/instance";

pub const INVALID_ONECONFIG_VERSION_TYPE: &'static str =
    "https://api.polyfrost.org/v1/problems/invalid-oneconfig-version";

/// The algorithm of a checksum.
#[derive(Clone, Copy, Debug, PartialEq, Eq, Structural)]
pub enum ChecksumType {
    Sha256,
}

impl ChecksumType {
    /// The algorithm's name on the wire.
    pub fn name(&self) -> (r: &'static str)
        ensures
            r@ == "SHA-256"@,
    {
        "SHA-256"
    }
}

/// The checksum of an artifact: 64 lower-case hex digits.
#[derive(Debug)]
pub struct Checksum {
    pub algorithm: ChecksumType,
    pub hash: String,
}

pub struct ChecksumView {
    pub algorithm: ChecksumType,
    pub hash: Seq<char>,
}

impl View for Checksum {
    type V = ChecksumView;

    open spec fn view(&self) -> ChecksumView {
        ChecksumView { algorithm: self.algorithm, hash: self.hash@ }
    }
}

impl Checksum {
    /// Whether the hash is a 256-bit digest in lower-case hex.
    pub open spec fn well_formed(&self) -> bool {
        spec_is_digest_text(self.hash@)
    }

    /// A SHA-256 checksum from the text of a checksum resource; any text
    /// that is not 64 lower-case hex digits is refused.
    pub fn sha256(hash: String) -> (r: Result<Checksum, MavenError>)
        ensures
            match r {
                Ok(checksum) => spec_is_digest_text(hash@) && checksum.well_formed()
                    && checksum@ == (ChecksumView { algorithm: ChecksumType::Sha256, hash: hash@ }),
                Err(e) => !spec_is_digest_text(hash@) && e == MavenError::InvalidChecksum,
            },
    {
        if is_digest_text(hash.as_str()) {
            Ok(Checksum { algorithm: ChecksumType::Sha256, hash })
        } else {
            Err(MavenError::InvalidChecksum)
        }
    }
}

/// One artifact to download.
#[derive(Debug)]
pub struct ArtifactResponse {
    pub group: String,
    pub name: String,
    /// The artifact travels nested inside the bundle.
    pub jij: bool,
    pub checksum: Checksum,
    /// Where clients download it: always under the public repository root.
    pub url: String,
}

pub struct ArtifactResponseView {
    pub group: Seq<char>,
    pub name: Seq<char>,
    pub jij: bool,
    pub checksum: ChecksumView,
    pub url: Seq<char>,
}

impl View for ArtifactResponse {
    type V = ArtifactResponseView;

    open spec fn view(&self) -> ArtifactResponseView {
        ArtifactResponseView {
            group: self.group@,
            name: self.name@,
            jij: self.jij,
            checksum: self.checksum@,
            url: self.url@,
        }
    }
}

/// The views of a list of artifacts, in order.
pub open spec fn artifact_views(artifacts: Seq<ArtifactResponse>) -> Seq<ArtifactResponseView> {
    artifacts.map_values(|a: ArtifactResponse| a@)
}

/// An error that a client can act on, as a problem document.
#[derive(Debug)]
pub enum ErrorResponse {
    InvalidOneConfigVersion { title: String, detail: String, instance: String },
}

pub struct ErrorResponseView {
    pub title: Seq<char>,
    pub detail: Seq<char>,
    pub instance: Seq<char>,
}

impl View for ErrorResponse {
    type V = ErrorResponseView;

    open spec fn view(&self) -> ErrorResponseView {
        match self {
            ErrorResponse::InvalidOneConfigVersion { title, detail, instance } => ErrorResponseView {
                title: title@,
                detail: detail@,
                instance: instance@,
            },
        }
    }
}

/// `The requested version {version}-{loader} could not be found in the
/// requested {repository} repository`.
pub open spec fn spec_invalid_version_detail(
    version: Seq<char>,
    loader: Seq<char>,
    repository: Seq<char>,
) -> Seq<char> {
    "The requested version "@ + version + seq!['-'] + loader
        + " could not be found in the requested "@ + repository + " repository"@
}

/// The instance of the problem: the prefix, then
/// `?version={version}&loader={loader}&repository={repository}`.
pub open spec fn spec_invalid_version_instance(
    version: Seq<char>,
    loader: Seq<char>,
    repository: Seq<char>,
) -> Seq<char> {
    INVALID_ONECONFIG_VERSION_INSTANCE_PREFIX@ + "?version="@ + version + "&loader="@ + loader
        + "&repository="@ + repository
}

impl ErrorResponse {
    /// The problem of a version and loader that the repository does not hold.
    pub fn invalid_oneconfig_version(version: &str, loader: &str, repository: &str) -> (r:
        ErrorResponse)
        ensures
            r@ == (ErrorResponseView {
                title: INVALID_ONECONFIG_VERSION_TITLE@,
                detail: spec_invalid_version_detail(version@, loader@, repository@),
                instance: spec_invalid_version_instance(version@, loader@, repository@),
            }),
    {
        let mut detail = String::from_str("The requested version ");
        detail.append(version);
        detail.push('-');
        detail.append(loader);
        detail.append(" could not be found in the requested ");
        detail.append(repository);
        detail.append(" repository");
        assert(detail@ =~= spec_invalid_version_detail(version@, loader@, repository@));
        let mut instance = String::from_str(INVALID_ONECONFIG_VERSION_INSTANCE_PREFIX);
        instance.append("?version=");
        instance.append(version);
        instance.append("&loader=");
        instance.append(loader);
        instance.append("&repository=");
        instance.append(repository);
        assert(instance@ =~= spec_invalid_version_instance(version@, loader@, repository@));
        ErrorResponse::InvalidOneConfigVersion {
            title: String::from_str(INVALID_ONECONFIG_VERSION_TITLE),
            detail,
            instance,
        }
    }

    /// The HTTP status that the problem is sent with.
    pub fn status(&self) -> (r: u16)
        ensures
            r == 404,
    {
        match self {
            ErrorResponse::InvalidOneConfigVersion { .. } => 404,
        }
    }

    /// The URI that names the kind of problem.
    pub fn problem_type(&self) -> (r: &'static str)
        ensures
            r@ == INVALID_ONECONFIG_VERSION_TYPE@,
    {
        match self {
            ErrorResponse::InvalidOneConfigVersion { .. } => INVALID_ONECONFIG_VERSION_TYPE,
        }
    }
}

} // verus!
