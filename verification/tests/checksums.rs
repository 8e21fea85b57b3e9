use oneconfig_artifacts::api::v1::responses::{ArtifactResponse, Checksum, ChecksumType};
use oneconfig_artifacts::checksums::{
    artifact_for, checksum_requests, resolve_checksums, ChecksumOutcome,
};
use oneconfig_artifacts::maven::MavenError;
use oneconfig_artifacts::types::gradle_module_metadata::{
    Dependency, DependencyAttributes, VersionRequirement,
};

const DIGEST_A: &str = "2cf24dba5fb0a30e26e83b2ac5b9e29e1b161e5c1fa7425e73043362938b9824";
const DIGEST_B: &str = "e3b0c44298fc1c149afbf4c8996fb92427ae41e4649b934ca495991b7852b855";

fn dep(module: &str, jij: bool) -> Dependency {
    Dependency {
        group: "org.polyfrost".to_string(),
        module: module.to_string(),
        version: VersionRequirement { requires: "1.0".to_string() },
        third_party_compatibility: None,
        attributes: DependencyAttributes { loader_include: true, jij },
    }
}

fn outcome(module: &str, checksum: Result<&str, MavenError>) -> ChecksumOutcome {
    ChecksumOutcome { dependency: dep(module, false), checksum: checksum.map(|c| c.to_string()) }
}

fn check(artifact: &ArtifactResponse, name: &str, hash: &str, url: &str) {
    assert_eq!(artifact.group, "org.polyfrost");
    assert_eq!(artifact.name, name);
    assert_eq!(artifact.checksum.algorithm, ChecksumType::Sha256);
    assert_eq!(artifact.checksum.hash, hash);
    assert_eq!(artifact.url, url);
}

#[test]
fn checksum_requests_go_to_the_given_base() {
    let deps = vec![dep("a", false), dep("b", false)];
    assert_eq!(
        checksum_requests(&deps, "http://10.0.0.3:8080/", "releases"),
        [
            "http://10.0.0.3:8080/releases/org/polyfrost/a/1.0/a-1.0.jar.sha256",
            "http://10.0.0.3:8080/releases/org/polyfrost/b/1.0/b-1.0.jar.sha256",
        ]
    );
    assert!(checksum_requests(&vec![], "http://h/", "releases").is_empty());
}

#[test]
fn artifact_carries_the_public_address_and_the_digest() {
    let artifact = artifact_for(&dep("a", true), &DIGEST_A.to_string(), "https://repo/", "snapshots").unwrap();
    check(&artifact, "a", DIGEST_A, "https://repo/snapshots/org/polyfrost/a/1.0/a-1.0.jar");
    assert!(artifact.jij);
}

#[test]
fn artifact_of_a_text_that_is_no_digest_is_refused() {
    for text in ["", "abc", &DIGEST_A[..40], &DIGEST_A.to_uppercase(), &format!("{DIGEST_A} a-1.0.jar")] {
        let r = artifact_for(&dep("a", false), &text.to_string(), "https://repo/", "releases");
        assert!(matches!(r, Err(MavenError::InvalidChecksum)), "{text}");
    }
}

#[test]
fn checksum_of_a_digest_is_well_formed() {
    let checksum = Checksum::sha256(DIGEST_B.to_string()).unwrap();
    assert_eq!(checksum.algorithm, ChecksumType::Sha256);
    assert_eq!(checksum.hash, DIGEST_B);
    assert_eq!(checksum.algorithm.name(), "SHA-256");
    assert!(matches!(Checksum::sha256("xyz".to_string()), Err(MavenError::InvalidChecksum)));
}

#[test]
fn all_fetches_succeeded() {
    let outcomes = vec![outcome("a", Ok(DIGEST_A)), outcome("b", Ok(DIGEST_B))];
    let artifacts = resolve_checksums(&outcomes, "https://repo/", "releases").unwrap();
    assert_eq!(artifacts.len(), 2);
    check(&artifacts[0], "a", DIGEST_A, "https://repo/releases/org/polyfrost/a/1.0/a-1.0.jar");
    check(&artifacts[1], "b", DIGEST_B, "https://repo/releases/org/polyfrost/b/1.0/b-1.0.jar");
}

#[test]
fn no_fetches_give_no_artifacts() {
    assert!(resolve_checksums(&vec![], "https://repo/", "releases").unwrap().is_empty());
}

#[test]
fn one_failed_fetch_of_many_fails_the_call() {
    let n = 7;
    for failing in 0..n {
        let outcomes: Vec<ChecksumOutcome> = (0..n)
            .map(|i| {
                if i == failing {
                    outcome(&format!("m{i}"), Err(MavenError::Reqwest { status: Some(500) }))
                } else {
                    outcome(&format!("m{i}"), Ok(DIGEST_A))
                }
            })
            .collect();
        let r = resolve_checksums(&outcomes, "https://repo/", "releases");
        assert!(matches!(r, Err(MavenError::Reqwest { status: Some(500) })));
    }
}

#[test]
fn first_failure_wins() {
    let outcomes = vec![
        outcome("a", Ok(DIGEST_A)),
        outcome("b", Ok("not a digest")),
        outcome("c", Err(MavenError::Reqwest { status: None })),
    ];
    let r = resolve_checksums(&outcomes, "https://repo/", "releases");
    assert!(matches!(r, Err(MavenError::InvalidChecksum)));
    let outcomes = vec![
        outcome("a", Err(MavenError::Reqwest { status: Some(404) })),
        outcome("b", Ok("not a digest")),
    ];
    let r = resolve_checksums(&outcomes, "https://repo/", "releases");
    assert!(matches!(r, Err(MavenError::Reqwest { status: Some(404) })));
}
