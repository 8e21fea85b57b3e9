//! From the set of artifacts to what clients download: for each artifact the
//! checksum resource to fetch, and the answer made of what came back.
//!
//! Checksums are fetched from the internal repository root where one is
//! configured; the address that is handed to clients is always under the
//! public one.

use vstd::prelude::*;
use crate::api::v1::responses::{
    artifact_views, ArtifactResponse, ArtifactResponseView, Checksum, ChecksumType, ChecksumView,
};
use crate::hex::spec_is_digest_text;
use crate::maven::{
    checksum_url, get_dep_url, spec_checksum_url, spec_dep_url, MavenError,
};
use crate::types::gradle_module_metadata::{Dependency, DependencyView};

verus! {

/// What one checksum fetch came back with, beside the dependency it was for.
#[derive(Debug)]
pub struct ChecksumOutcome {
    pub dependency: Dependency,
    pub checksum: Result<String, MavenError>,
}

/// The checksum resource of one dependency.
pub open spec fn spec_checksum_request(
    base: Seq<char>,
    repository: Seq<char>,
    dep: DependencyView,
) -> Seq<char> {
    spec_checksum_url(spec_dep_url(base, repository, dep))
}

/// The checksum resource to fetch for each dependency, in order.
pub fn checksum_requests(deps: &Vec<Dependency>, base: &str, repository: &str) -> (r: Vec<String>)
    ensures
        r.len() == deps.len(),
        forall|i: int|
            0 <= i < deps.len() ==> (#[trigger] r[i])@ == spec_checksum_request(
                base@,
                repository@,
                deps[i]@,
            ),
{
    let mut out: Vec<String> = Vec::new();
    let mut i: usize = 0;
    while i < deps.len()
        invariant
            i <= deps.len(),
            out.len() == i,
            forall|j: int|
                0 <= j < i ==> (#[trigger] out[j])@ == spec_checksum_request(
                    base@,
                    repository@,
                    deps[j]@,
                ),
        decreases deps.len() - i,
    {
        let url = get_dep_url(base, repository, &deps[i]);
        out.push(checksum_url(url.as_str()));
        i += 1;
    }
    out
}

/// The artifact that a dependency and its checksum make.
pub open spec fn spec_artifact(
    dep: DependencyView,
    hash: Seq<char>,
    public_maven_url: Seq<char>,
    repository: Seq<char>,
) -> ArtifactResponseView {
    ArtifactResponseView {
        group: dep.group,
        name: dep.module,
        jij: dep.attributes.jij,
        checksum: ChecksumView { algorithm: ChecksumType::Sha256, hash },
        url: spec_dep_url(public_maven_url, repository, dep),
    }
}

/// Why a checksum fetch yields no artifact, if it does not: the fetch
/// failed, or what it fetched is no 256-bit digest in lower-case hex.
pub open spec fn spec_checksum_failure(checksum: Result<String, MavenError>) -> Option<MavenError> {
    match checksum {
        Err(e) => Some(e),
        Ok(hash) => if spec_is_digest_text(hash@) {
            None
        } else {
            Some(MavenError::InvalidChecksum)
        },
    }
}

/// Why an outcome yields no artifact, if it does not.
pub open spec fn spec_failure(outcome: ChecksumOutcome) -> Option<MavenError> {
    spec_checksum_failure(outcome.checksum)
}

/// The first failure in a list of outcomes, if there is one.
pub open spec fn spec_first_failure(outcomes: Seq<ChecksumOutcome>) -> Option<MavenError>
    decreases outcomes.len(),
{
    if outcomes.len() == 0 {
        None
    } else {
        match spec_failure(outcomes[0]) {
            Some(e) => Some(e),
            None => spec_first_failure(outcomes.drop_first()),
        }
    }
}

/// The artifacts of a list of outcomes that all succeeded, in order.
pub open spec fn spec_artifacts(
    outcomes: Seq<ChecksumOutcome>,
    public_maven_url: Seq<char>,
    repository: Seq<char>,
) -> Seq<ArtifactResponseView> {
    Seq::new(
        outcomes.len(),
        |i: int|
            spec_artifact(
                outcomes[i].dependency@,
                outcomes[i].checksum->Ok_0@,
                public_maven_url,
                repository,
            ),
    )
}

/// The artifact of one dependency, from the text of its checksum resource.
pub fn artifact_for(dep: &Dependency, hash: &String, public_maven_url: &str, repository: &str) -> (r:
    Result<ArtifactResponse, MavenError>)
    ensures
        match r {
            Ok(artifact) => spec_is_digest_text(hash@) && artifact@ == spec_artifact(
                dep@,
                hash@,
                public_maven_url@,
                repository@,
            ),
            Err(e) => !spec_is_digest_text(hash@) && e == MavenError::InvalidChecksum,
        },
{
    match Checksum::sha256(hash.clone()) {
        Ok(checksum) => Ok(
            ArtifactResponse {
                group: dep.group.clone(),
                name: dep.module.clone(),
                jij: dep.attributes.jij,
                checksum,
                url: get_dep_url(public_maven_url, repository, dep),
            },
        ),
        Err(e) => Err(e),
    }
}

/// One failure among the outcomes, wherever it stands, is a first failure.
pub proof fn lemma_one_failure_fails_all(outcomes: Seq<ChecksumOutcome>, at: int)
    requires
        0 <= at < outcomes.len(),
        spec_failure(outcomes[at]) is Some,
    ensures
        spec_first_failure(outcomes) is Some,
    decreases outcomes.len(),
{
    if at > 0 && spec_failure(outcomes[0]) is None {
        lemma_one_failure_fails_all(outcomes.drop_first(), at - 1);
    }
}

/// The artifacts of the set, from what the checksum fetches came back with.
///
/// The call succeeds only if every fetch did and brought a digest: one
/// failure among them fails it with that error, the first in the list where
/// there are several, and no artifact is returned.
pub fn resolve_checksums(
    outcomes: &Vec<ChecksumOutcome>,
    public_maven_url: &str,
    repository: &str,
) -> (r: Result<Vec<ArtifactResponse>, MavenError>)
    ensures
        match spec_first_failure(outcomes@) {
            Some(e) => r == Err::<Vec<ArtifactResponse>, MavenError>(e),
            None => r is Ok && artifact_views(r->Ok_0@) == spec_artifacts(
                outcomes@,
                public_maven_url@,
                repository@,
            ),
        },
        r is Ok <==> forall|i: int|
            0 <= i < outcomes.len() ==> spec_failure(#[trigger] outcomes[i]) is None,
{
    let mut out: Vec<ArtifactResponse> = Vec::new();
    let mut i: usize = 0;
    assert(outcomes@.skip(0) =~= outcomes@);
    while i < outcomes.len()
        invariant
            i <= outcomes.len(),
            out.len() == i,
            spec_first_failure(outcomes@) == spec_first_failure(outcomes@.skip(i as int)),
            forall|j: int| 0 <= j < i ==> spec_failure(#[trigger] outcomes[j]) is None,
            forall|j: int|
                0 <= j < i ==> (#[trigger] out[j])@ == spec_artifact(
                    outcomes[j].dependency@,
                    outcomes[j].checksum->Ok_0@,
                    public_maven_url@,
                    repository@,
                ),
        decreases outcomes.len() - i,
    {
        assert(outcomes@.skip(i as int).drop_first() =~= outcomes@.skip(i + 1));
        assert(outcomes@.skip(i as int)[0] == outcomes@[i as int]);
        let outcome = &outcomes[i];
        match &outcome.checksum {
            Ok(hash) => match artifact_for(&outcome.dependency, hash, public_maven_url, repository) {
                Ok(artifact) => out.push(artifact),
                Err(e) => {
                    assert(spec_failure(outcomes@[i as int]) == Some(e));
                    return Err(e);
                },
            },
            Err(e) => {
                assert(spec_failure(outcomes@[i as int]) == Some(*e));
                return Err(*e);
            },
        }
        i += 1;
    }
    assert(outcomes@.skip(outcomes.len() as int) =~= Seq::<ChecksumOutcome>::empty());
    assert(artifact_views(out@) =~= spec_artifacts(outcomes@, public_maven_url@, repository@));
    Ok(out)
}

} // verus!
