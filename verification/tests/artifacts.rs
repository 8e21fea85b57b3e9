use oneconfig_artifacts::api::v1::artifacts::{
    cached_reply, descriptor_failure, descriptor_url, is_platform_artifact, oneconfig_cached,
    oneconfig_index_url, oneconfig_key, oneconfig_nested_urls, oneconfig_reply, oneconfig_set,
    oneconfig_store, oneconfig_version,
    platform_checksum_url, platform_dependency, platform_index_url, platform_reply,
    platform_version, repository, root_dependency, version_failure, ArtifactQuery, ModLoader,
    OneConfigVersionInfo, Reply, ReplyBody, ONECONFIG_CACHE_PATH,
};
use oneconfig_artifacts::api::v1::middleware::validator;
use oneconfig_artifacts::api::v1::responses::{
    ErrorResponse, INVALID_ONECONFIG_VERSION_INSTANCE_PREFIX, INVALID_ONECONFIG_VERSION_TITLE,
    INVALID_ONECONFIG_VERSION_TYPE,
};
use oneconfig_artifacts::api::v1::{ApiData, CacheValue, Header, ResponseCache};
use oneconfig_artifacts::checksums::{checksum_requests, ChecksumOutcome};
use oneconfig_artifacts::maven::{get_dep_url, MavenError};
use oneconfig_artifacts::structs;
use oneconfig_artifacts::types::gradle_module_metadata::{
    Dependency, DependencyAttributes, GradleModuleMetadata, Variant, VersionRequirement,
};
use oneconfig_artifacts::types::maven_metadata::{MavenMetadata, MavenMetadataVersioning, Versions};
use oneconfig_artifacts::version::Version;

const DIGEST: &str = "2cf24dba5fb0a30e26e83b2ac5b9e29e1b161e5c1fa7425e73043362938b9824";

fn state(internal: Option<&str>) -> ApiData {
    ApiData {
        public_maven_url: "https://repo.example/".to_string(),
        internal_maven_url: internal.map(|s| s.to_string()),
    }
}

fn query(version: &str, loader: ModLoader, snapshots: bool) -> ArtifactQuery<OneConfigVersionInfo> {
    ArtifactQuery { snapshots, version_info: OneConfigVersionInfo { version: version.to_string(), loader } }
}

fn listing(group: &str, artifact: &str, versions: &[&str]) -> MavenMetadata {
    MavenMetadata {
        group_id: group.to_string(),
        artifact_id: artifact.to_string(),
        versioning: MavenMetadataVersioning {
            versions: Versions { versions: versions.iter().map(|v| v.to_string()).collect() },
        },
    }
}

fn dep(group: &str, module: &str, version: &str, marked: bool, jij: bool) -> Dependency {
    Dependency {
        group: group.to_string(),
        module: module.to_string(),
        version: VersionRequirement { requires: version.to_string() },
        third_party_compatibility: None,
        attributes: DependencyAttributes { loader_include: marked, jij },
    }
}

fn text(reply: &Reply) -> &str {
    match &reply.body {
        ReplyBody::Text(text) => text,
        other => panic!("no text: {other:?}"),
    }
}

#[test]
fn loader_names_are_lower_case() {
    assert_eq!(ModLoader::Forge.as_str(), "forge");
    assert_eq!(ModLoader::Fabric.as_str(), "fabric");
    assert_eq!(ModLoader::Forge.to_string(), "forge");
    assert_eq!(ModLoader::Fabric.to_string(), "fabric");
}

#[test]
fn channel_follows_the_snapshots_flag() {
    assert_eq!(repository(true), "snapshots");
    assert_eq!(repository(false), "releases");
}

#[test]
fn variant_is_version_and_loader() {
    assert_eq!(query("1.8.9", ModLoader::Forge, false).version_info.variant(), "1.8.9-forge");
    assert_eq!(query("1.21.4", ModLoader::Fabric, false).version_info.variant(), "1.21.4-fabric");
}

#[test]
fn version_index_is_fetched_from_the_internal_root_where_there_is_one() {
    let q = query("1.8.9", ModLoader::Forge, true);
    assert_eq!(
        oneconfig_index_url(&state(Some("http://10.0.0.3/")), &q),
        "http://10.0.0.3/snapshots/org/polyfrost/oneconfig/1.8.9-forge/maven-metadata.xml"
    );
    assert_eq!(
        oneconfig_index_url(&state(None), &q),
        "https://repo.example/snapshots/org/polyfrost/oneconfig/1.8.9-forge/maven-metadata.xml"
    );
}

#[test]
fn unknown_root_version_is_a_404_problem() {
    let q = query("1.8.9", ModLoader::Forge, false);
    let reply = oneconfig_version(&q, Err(MavenError::Reqwest { status: Some(404) })).unwrap_err();
    assert_eq!(reply.status, 404);
    assert_eq!(reply.content_type, "application/json");
    let ReplyBody::Problem(problem) = reply.body else { panic!("no problem") };
    assert_eq!(problem.status(), 404);
    assert_eq!(problem.problem_type(), "https://api.polyfrost.org/v1/problems/invalid-oneconfig-version");
    assert_eq!(problem.problem_type(), INVALID_ONECONFIG_VERSION_TYPE);
    let ErrorResponse::InvalidOneConfigVersion { title, detail, instance } = problem;
    assert_eq!(title, "The requested OneConfig version could not be found");
    assert_eq!(title, INVALID_ONECONFIG_VERSION_TITLE);
    assert_eq!(
        detail,
        "The requested version 1.8.9-forge could not be found in the requested releases repository"
    );
    assert_eq!(
        instance,
        "https://api.polyfrost.org/v1/problems/invalid-oneconfig-version/instance?version=1.8.9&loader=forge&repository=releases"
    );
    assert!(instance.starts_with(INVALID_ONECONFIG_VERSION_INSTANCE_PREFIX));
}

#[test]
fn unknown_root_version_among_snapshots_names_the_channel() {
    let q = query("1.21.4", ModLoader::Fabric, true);
    let reply = version_failure(&q, &MavenError::Reqwest { status: Some(404) });
    let ReplyBody::Problem(ErrorResponse::InvalidOneConfigVersion { instance, detail, .. }) = reply.body
    else {
        panic!("no problem")
    };
    assert!(instance.ends_with("?version=1.21.4&loader=fabric&repository=snapshots"));
    assert_eq!(
        detail,
        "The requested version 1.21.4-fabric could not be found in the requested snapshots repository"
    );
}

#[test]
fn other_root_failures_are_server_errors() {
    let q = query("1.8.9", ModLoader::Forge, false);
    for (error, message) in [
        (MavenError::Reqwest { status: Some(500) }, "A response/request error from reqwest"),
        (MavenError::Reqwest { status: None }, "A response/request error from reqwest"),
        (MavenError::XmlParse, "An error occurred while trying to parse an XML response"),
    ] {
        let reply = oneconfig_version(&q, Err(error)).unwrap_err();
        assert_eq!(reply.status, 500);
        assert_eq!(reply.content_type, "text/plain");
        assert_eq!(text(&reply), format!("Error fetching latest oneconfig version: {message}"));
    }
}

#[test]
fn root_version_is_the_latest_listed() {
    let q = query("1.8.9", ModLoader::Forge, false);
    let index = listing("org.polyfrost.oneconfig", "1.8.9-forge", &["1.0.0-alpha.5", "1.0.0-alpha.12"]);
    assert_eq!(oneconfig_version(&q, Ok(index)).unwrap().to_text(), "1.0.0-alpha.12");
}

#[test]
fn root_index_without_versions_is_a_server_error() {
    let q = query("1.8.9", ModLoader::Forge, false);
    let reply = oneconfig_version(&q, Ok(listing("org.polyfrost.oneconfig", "1.8.9-forge", &[]))).unwrap_err();
    assert_eq!(reply.status, 500);
    assert_eq!(
        text(&reply),
        "Error fetching latest oneconfig version: There were no artifact versions in the maven-metadata.xml file"
    );
    let reply = oneconfig_version(&q, Ok(listing("org.polyfrost.oneconfig", "1.8.9-fabric", &["1.0.0"]))).unwrap_err();
    assert_eq!(
        text(&reply),
        "Error fetching latest oneconfig version: There was a mismatch between the requested module ID or group and the response"
    );
}

#[test]
fn root_dependency_is_the_bundle_at_its_version() {
    let q = query("1.8.9", ModLoader::Forge, false);
    let root = root_dependency(&q.version_info, &Version::parse("1.0.0-alpha.47").unwrap());
    assert_eq!(root.group, "org.polyfrost.oneconfig");
    assert_eq!(root.module, "1.8.9-forge");
    assert_eq!(root.version.requires, "1.0.0-alpha.47");
    assert!(root.third_party_compatibility.is_none());
    assert_eq!(root.attributes, DependencyAttributes { loader_include: false, jij: false });
    assert_eq!(
        get_dep_url("https://repo.example/", "releases", &root),
        "https://repo.example/releases/org/polyfrost/oneconfig/1.8.9-forge/1.0.0-alpha.47/1.8.9-forge-1.0.0-alpha.47.jar"
    );
    assert_eq!(
        descriptor_url("https://repo.example/", "releases", &root),
        "https://repo.example/releases/org/polyfrost/oneconfig/1.8.9-forge/1.0.0-alpha.47/1.8.9-forge-1.0.0-alpha.47.module"
    );
}

#[test]
fn nested_descriptors_are_those_of_the_own_modules() {
    let q = query("1.8.9", ModLoader::Forge, false);
    let version = Version::parse("1.0.0").unwrap();
    let descriptor = Ok(GradleModuleMetadata {
        variants: vec![Variant::OneConfigModulesApiElements {
            dependencies: vec![
                dep("org.polyfrost.oneconfig", "config", "1.0.0", true, false),
                dep("org.polyfrost", "universal", "2.0.0", true, false),
                dep("org.polyfrost.oneconfig", "hidden", "1.0.0", false, false),
                dep("org.polyfrost.oneconfig", "ui", "1.1.0", true, false),
            ],
        }],
    });
    let urls = oneconfig_nested_urls(&state(Some("http://in/")), &q, &version, &descriptor).unwrap();
    assert_eq!(
        urls,
        [
            "http://in/releases/org/polyfrost/oneconfig/config/1.0.0/config-1.0.0.module",
            "http://in/releases/org/polyfrost/oneconfig/ui/1.1.0/ui-1.1.0.module",
        ]
    );
}

#[test]
fn missing_descriptor_is_a_server_error() {
    let q = query("1.8.9", ModLoader::Forge, false);
    let version = Version::parse("1.0.0-alpha.47").unwrap();
    let expected = "Error fetching module metadata for org.polyfrost.oneconfig:1.8.9-forge:1.0.0-alpha.47";
    let reply = oneconfig_nested_urls(&state(None), &q, &version, &Err(MavenError::Reqwest { status: Some(404) }))
        .unwrap_err();
    assert_eq!(reply.status, 500);
    assert_eq!(reply.content_type, "text/plain");
    assert_eq!(text(&reply), expected);
    assert_eq!(text(&descriptor_failure(&q.version_info, &version)), expected);
    let root = GradleModuleMetadata { variants: vec![] };
    let reply = oneconfig_set(&q, &version, &root, &vec![Err(MavenError::Reqwest { status: None })]).unwrap_err();
    assert_eq!(reply.status, 500);
    assert_eq!(text(&reply), expected);
}

#[test]
fn set_of_the_route_starts_with_the_bundle() {
    let q = query("1.8.9", ModLoader::Forge, false);
    let version = Version::parse("1.0.0").unwrap();
    let root = GradleModuleMetadata {
        variants: vec![Variant::OneConfigModulesApiElements {
            dependencies: vec![dep("org.polyfrost.oneconfig", "config", "1.0.0", true, true)],
        }],
    };
    let set = oneconfig_set(&q, &version, &root, &vec![Ok(GradleModuleMetadata { variants: vec![] })]).unwrap();
    assert_eq!(set.len(), 2);
    assert_eq!(set[0].module, "1.8.9-forge");
    assert_eq!(set[1].module, "config");
    assert!(set[1].attributes.jij);
}

#[test]
fn reply_lists_every_artifact_under_the_public_root() {
    let q = query("1.8.9", ModLoader::Forge, false);
    let s = state(Some("http://in/"));
    let set = vec![
        dep("org.polyfrost.oneconfig", "1.8.9-forge", "1.0.0", false, false),
        dep("org.polyfrost.oneconfig", "config", "1.0.0", true, true),
    ];
    assert_eq!(
        checksum_requests(&set, s.fetch_base(), repository(q.snapshots)),
        [
            "http://in/releases/org/polyfrost/oneconfig/1.8.9-forge/1.0.0/1.8.9-forge-1.0.0.jar.sha256",
            "http://in/releases/org/polyfrost/oneconfig/config/1.0.0/config-1.0.0.jar.sha256",
        ]
    );
    let outcomes: Vec<ChecksumOutcome> =
        set.into_iter().map(|dependency| ChecksumOutcome { dependency, checksum: Ok(DIGEST.to_string()) }).collect();
    let reply = oneconfig_reply(&s, &q, &outcomes);
    assert_eq!(reply.status, 200);
    assert_eq!(reply.content_type, "application/json");
    let ReplyBody::Artifacts(artifacts) = reply.body else { panic!("no artifacts") };
    assert_eq!(artifacts.len(), 2);
    assert_eq!(artifacts[0].name, "1.8.9-forge");
    assert!(!artifacts[0].jij);
    assert_eq!(
        artifacts[0].url,
        "https://repo.example/releases/org/polyfrost/oneconfig/1.8.9-forge/1.0.0/1.8.9-forge-1.0.0.jar"
    );
    assert_eq!(artifacts[1].name, "config");
    assert_eq!(artifacts[1].group, "org.polyfrost.oneconfig");
    assert!(artifacts[1].jij);
    assert_eq!(artifacts[1].checksum.hash, DIGEST);
    assert_eq!(
        artifacts[1].url,
        "https://repo.example/releases/org/polyfrost/oneconfig/config/1.0.0/config-1.0.0.jar"
    );
}

#[test]
fn reply_after_one_failed_checksum_holds_no_artifact() {
    let q = query("1.8.9", ModLoader::Forge, false);
    let outcomes = vec![
        ChecksumOutcome { dependency: dep("org.polyfrost", "a", "1", true, false), checksum: Ok(DIGEST.to_string()) },
        ChecksumOutcome {
            dependency: dep("org.polyfrost", "b", "1", true, false),
            checksum: Err(MavenError::Reqwest { status: Some(404) }),
        },
        ChecksumOutcome { dependency: dep("org.polyfrost", "c", "1", true, false), checksum: Ok(DIGEST.to_string()) },
    ];
    let reply = oneconfig_reply(&state(None), &q, &outcomes);
    assert_eq!(reply.status, 500);
    assert_eq!(reply.content_type, "text/plain");
    assert_eq!(text(&reply), "Error fetching checksum for dependency: A response/request error from reqwest");
}

#[test]
fn platform_route_serves_two_artifacts() {
    assert!(is_platform_artifact("stage1"));
    assert!(is_platform_artifact("relaunch"));
    assert!(!is_platform_artifact("oneconfig"));
    assert!(!is_platform_artifact("stage1 "));
    assert!(!is_platform_artifact(""));
}

#[test]
fn platform_artifact_is_fetched_by_its_all_jar() {
    let version = Version::parse("1.2.3").unwrap();
    let dependency = platform_dependency("stage1", &version);
    assert_eq!(dependency.group, "org.polyfrost.oneconfig");
    assert_eq!(dependency.module, "stage1");
    assert_eq!(dependency.version.requires, "1.2.3");
    let selector = dependency.third_party_compatibility.unwrap().artifact_selector.unwrap();
    assert_eq!((selector.name.as_str(), selector.classifier.as_str(), selector.extension.as_str()), ("stage1", "all", "jar"));
    assert_eq!(
        platform_index_url(&state(Some("http://in/")), false, "stage1"),
        "http://in/releases/org/polyfrost/oneconfig/stage1/maven-metadata.xml"
    );
    assert_eq!(
        platform_checksum_url(&state(Some("http://in/")), true, "relaunch", &version),
        "http://in/snapshots/org/polyfrost/oneconfig/relaunch/1.2.3/relaunch-1.2.3-all.jar.sha256"
    );
}

#[test]
fn platform_reply_is_one_artifact() {
    let version = Version::parse("1.2.3").unwrap();
    let reply = platform_reply(&state(Some("http://in/")), false, "stage1", &version, Ok(DIGEST.to_string()));
    assert_eq!(reply.status, 200);
    assert_eq!(reply.content_type, "application/json");
    let ReplyBody::Artifact(artifact) = reply.body else { panic!("no artifact") };
    assert_eq!(artifact.group, "org.polyfrost.oneconfig");
    assert_eq!(artifact.name, "stage1");
    assert!(!artifact.jij);
    assert_eq!(artifact.checksum.hash, DIGEST);
    assert_eq!(
        artifact.url,
        "https://repo.example/releases/org/polyfrost/oneconfig/stage1/1.2.3/stage1-1.2.3-all.jar"
    );
}

#[test]
fn platform_failures_are_server_errors() {
    let reply = platform_version("stage1", Err(MavenError::Reqwest { status: Some(404) })).unwrap_err();
    assert_eq!(reply.status, 500);
    assert_eq!(text(&reply), "Error resolving latest stage1 version: A response/request error from reqwest");
    let index = listing("org.polyfrost.oneconfig", "relaunch", &["0.1.0", "0.3.0", "0.2.0"]);
    assert_eq!(platform_version("relaunch", Ok(index)).unwrap().to_text(), "0.3.0");
    let version = Version::parse("1.2.3").unwrap();
    let reply = platform_reply(&state(None), false, "stage1", &version, Err(MavenError::Reqwest { status: None }));
    assert_eq!(reply.status, 500);
    assert_eq!(reply.content_type, "text/plain");
    assert_eq!(
        text(&reply),
        "Error resolving latest stage1 version checksum: A response/request error from reqwest"
    );
    let reply = platform_reply(&state(None), false, "stage1", &version, Ok("sha".to_string()));
    assert_eq!(
        text(&reply),
        "Error resolving latest stage1 version checksum: A checksum resource did not hold a SHA-256 digest in lower-case hex"
    );
}

#[test]
fn internal_error_has_its_code() {
    let error = structs::ErrorResponse::internal("boom".to_string());
    assert_eq!(error.error, "INTERNAL_SERVER_ERROR");
    assert_eq!(error.message, "boom");
    let file = structs::MavenDataResponse { url: "u".to_string(), sha256: "s".to_string() };
    let bundle = structs::OneconfigDataResponse { release: file.clone(), snapshot: file.clone(), loader: file };
    assert_eq!(bundle.release.url, "u");
    assert_eq!(bundle.loader.sha256, "s");
}

#[test]
fn cache_key_is_one_form_of_the_query() {
    let key = oneconfig_key(&query("1.8.9", ModLoader::Forge, false));
    assert_eq!(key.path, "/v1/artifacts/oneconfig");
    assert_eq!(key.query, "loader=forge&snapshots=false&version=1.8.9");
    let key = oneconfig_key(&query("1.21.4", ModLoader::Fabric, true));
    assert_eq!(key.path, ONECONFIG_CACHE_PATH);
    assert_eq!(key.query, "loader=fabric&snapshots=true&version=1.21.4");
}

#[test]
fn cache_keys_differ_where_the_requests_do() {
    let queries = [
        query("1.8.9", ModLoader::Forge, false),
        query("1.8.9", ModLoader::Forge, true),
        query("1.8.9", ModLoader::Fabric, false),
        query("1.8.9&snapshots=true", ModLoader::Forge, false),
        query("", ModLoader::Forge, false),
    ];
    for i in 0..queries.len() {
        for j in 0..queries.len() {
            let (a, b) = (oneconfig_key(&queries[i]), oneconfig_key(&queries[j]));
            assert_eq!(i == j, a.path == b.path && a.query == b.query);
        }
    }
}

#[test]
fn stored_reply_is_served_without_a_pipeline() {
    let mut cache = ResponseCache::new(1 << 20, 120).unwrap();
    let q = query("1.8.9", ModLoader::Forge, false);
    assert!(oneconfig_cached(&cache, &q).is_none());
    oneconfig_store(&mut cache, &q, b"hello".to_vec());
    let reply = oneconfig_cached(&cache, &q).unwrap();
    assert_eq!(reply.status, 200);
    assert_eq!(reply.content_type, "application/json");
    let ReplyBody::Json(body) = reply.body else { panic!("no stored body") };
    assert_eq!(body, b"hello");
    assert!(oneconfig_cached(&cache, &query("1.8.9", ModLoader::Forge, true)).is_none());
    assert!(oneconfig_cached(&cache, &query("1.8.9", ModLoader::Fabric, false)).is_none());
    let stored = cache.get(&oneconfig_key(&q)).unwrap();
    assert!(stored.headers.is_empty());
    assert_eq!(validator(&stored.etag), DIGEST.as_bytes());
}

#[test]
fn query_without_version_info_has_only_the_flag() {
    let plain: ArtifactQuery = ArtifactQuery { snapshots: true, version_info: () };
    assert!(plain.snapshots);
    assert_eq!(repository(plain.snapshots), "snapshots");
}

#[test]
fn reply_of_what_the_cache_held() {
    assert!(cached_reply(None).is_none());
    let held = CacheValue {
        response: b"[1]".to_vec(),
        headers: vec![Header { name: "x-a".to_string(), value: b"1".to_vec() }],
        etag: [7u8; 32],
    };
    let reply = cached_reply(Some(held)).unwrap();
    assert_eq!(reply.status, 200);
    assert_eq!(reply.content_type, "application/json");
    let ReplyBody::Json(body) = reply.body else { panic!("no stored body") };
    assert_eq!(body, b"[1]");
}
