//! The artifact routes, as the decisions between their fetches.
//!
//! A route is answered in steps. Each step here takes what the last fetches
//! came back with and gives either what to fetch next or the reply; the
//! caller does the fetching, a whole batch at a time.

use vstd::prelude::*;
use vstd::string::StringExecFns;
use crate::api::v1::responses::{
    artifact_views, ArtifactResponse, ArtifactResponseView, ErrorResponse, ErrorResponseView,
    spec_invalid_version_detail, spec_invalid_version_instance, INVALID_ONECONFIG_VERSION_TITLE,
};
use crate::api::v1::middleware::spec_entry;
use crate::api::v1::{ApiData, CacheKey, CacheValue, CacheValueView, ResponseCache};
use crate::checksums::{
    artifact_for, resolve_checksums, spec_artifact, spec_artifacts, spec_checksum_failure,
    spec_checksum_request, spec_first_failure, ChecksumOutcome,
};
use crate::digest::sha256_digest;
use crate::maven::{
    checksum_url, get_dep_url, maven_metadata_url, module_metadata_url, spec_first_error,
    spec_maven_metadata_url, spec_module_metadata_url, MavenError,
};
use crate::types::gradle_module_metadata::{
    dependency_views, ArtifactSelector, ArtifactSelectorView, Dependency, DependencyAttributes,
    DependencyView, GradleModuleMetadata, ThirdPartyCompatibility, VersionRequirement,
};
use crate::types::maven_metadata::MavenMetadata;
use crate::version::{
    resolve_latest, spec_resolve_latest, spec_version_text, Version, VersionView,
};
use crate::walker::{
    descent_targets, level_one, resolve_artifact_set, spec_artifact_set, spec_level_one,
    spec_select, Rule, ONECONFIG_GROUP,
};

verus! {

/// The platform that a bundle is built for.
#[derive(Clone, Copy, Debug, PartialEq, Eq, Structural, Hash)]
pub enum ModLoader {
    Forge,
    Fabric,
}

impl ModLoader {
    /// The loader's name in lower case.
    pub open spec fn spec_name(&self) -> Seq<char> {
        match self {
            ModLoader::Forge => "forge"@,
            ModLoader::Fabric => "fabric"@,
        }
    }

    pub fn as_str(&self) -> (r: &'static str)
        ensures
            r@ == self.spec_name(),
    {
        match self {
            ModLoader::Forge => "forge",
            ModLoader::Fabric => "fabric",
        }
    }

    /// The loader's name in lower case, as an owned string.
    pub fn to_string(&self) -> (r: String)
        ensures
            r@ == self.spec_name(),
    {
        String::from_str(self.as_str())
    }
}

/// Which bundle is asked for.
#[derive(Debug)]
pub struct OneConfigVersionInfo {
    /// The game version that the bundle is for.
    pub version: String,
    /// The loader that the bundle is for.
    pub loader: ModLoader,
}

impl OneConfigVersionInfo {
    /// The artifact that holds the bundle: `{version}-{loader}`.
    pub open spec fn spec_variant(&self) -> Seq<char> {
        self.version@ + seq!['-'] + self.loader.spec_name()
    }

    pub fn variant(&self) -> (r: String)
        ensures
            r@ == self.spec_variant(),
    {
        let mut out = self.version.clone();
        out.push('-');
        out.append(self.loader.as_str());
        assert(out@ =~= self.spec_variant());
        out
    }
}

/// The query of an artifact route.
#[derive(Debug)]
pub struct ArtifactQuery<V = ()> {
    /// Whether to look among the snapshots and not among the releases.
    pub snapshots: bool,
    /// What else the route needs to know.
    pub version_info: V,
}

/// The channel of the repository that a query looks in.
pub open spec fn spec_repository(snapshots: bool) -> Seq<char> {
    if snapshots {
        "snapshots"@
    } else {
        "releases"@
    }
}

pub fn repository(snapshots: bool) -> (r: &'static str)
    ensures
        r@ == spec_repository(snapshots),
{
    if snapshots {
        "snapshots"
    } else {
        "releases"
    }
}

/// The body of a reply.
#[derive(Debug)]
pub enum ReplyBody {
    /// A list of artifacts, to be sent as a JSON array.
    Artifacts(Vec<ArtifactResponse>),
    /// One artifact, to be sent as a JSON object.
    Artifact(ArtifactResponse),
    /// A problem document.
    Problem(ErrorResponse),
    /// Plain text.
    Text(String),
    /// JSON that was serialized before.
    Json(Vec<u8>),
}

pub enum ReplyBodyView {
    Artifacts(Seq<ArtifactResponseView>),
    Artifact(ArtifactResponseView),
    Problem(ErrorResponseView),
    Text(Seq<char>),
    Json(Seq<u8>),
}

impl View for ReplyBody {
    type V = ReplyBodyView;

    open spec fn view(&self) -> ReplyBodyView {
        match self {
            ReplyBody::Artifacts(artifacts) => ReplyBodyView::Artifacts(artifact_views(artifacts@)),
            ReplyBody::Artifact(artifact) => ReplyBodyView::Artifact(artifact@),
            ReplyBody::Problem(problem) => ReplyBodyView::Problem(problem@),
            ReplyBody::Text(text) => ReplyBodyView::Text(text@),
            ReplyBody::Json(bytes) => ReplyBodyView::Json(bytes@),
        }
    }
}

/// What a route answers with.
#[derive(Debug)]
pub struct Reply {
    pub status: u16,
    pub content_type: &'static str,
    pub body: ReplyBody,
}

pub struct ReplyView {
    pub status: u16,
    pub content_type: Seq<char>,
    pub body: ReplyBodyView,
}

impl View for Reply {
    type V = ReplyView;

    open spec fn view(&self) -> ReplyView {
        ReplyView { status: self.status, content_type: self.content_type@, body: self.body@ }
    }
}

/// A server error that says `what` went wrong, and `detail` after a colon.
pub open spec fn spec_failure_reply(what: Seq<char>, detail: Seq<char>) -> ReplyView {
    ReplyView {
        status: 500,
        content_type: "text/plain"@,
        body: ReplyBodyView::Text(what + ": "@ + detail),
    }
}

fn failure_reply(what: &str, detail: &str) -> (r: Reply)
    ensures
        r@ == spec_failure_reply(what@, detail@),
{
    let mut text = String::from_str(what);
    text.append(": ");
    text.append(detail);
    Reply { status: 500, content_type: "text/plain", body: ReplyBody::Text(text) }
}

/// The reply where the latest version of a bundle could not be resolved: for
/// a version index that the repository does not hold, 404 and the problem of
/// an unknown version; for anything else a server error.
pub open spec fn spec_version_failure(
    info: OneConfigVersionInfo,
    snapshots: bool,
    error: MavenError,
) -> ReplyView {
    if error.spec_is_not_found() {
        ReplyView {
            status: 404,
            content_type: "application/json"@,
            body: ReplyBodyView::Problem(
                ErrorResponseView {
                    title: INVALID_ONECONFIG_VERSION_TITLE@,
                    detail: spec_invalid_version_detail(
                        info.version@,
                        info.loader.spec_name(),
                        spec_repository(snapshots),
                    ),
                    instance: spec_invalid_version_instance(
                        info.version@,
                        info.loader.spec_name(),
                        spec_repository(snapshots),
                    ),
                },
            ),
        }
    } else {
        spec_failure_reply("Error fetching latest oneconfig version"@, error.spec_message())
    }
}

pub fn version_failure(query: &ArtifactQuery<OneConfigVersionInfo>, error: &MavenError) -> (r:
    Reply)
    ensures
        r@ == spec_version_failure(query.version_info, query.snapshots, *error),
{
    if error.is_not_found() {
        let problem = ErrorResponse::invalid_oneconfig_version(
            query.version_info.version.as_str(),
            query.version_info.loader.as_str(),
            repository(query.snapshots),
        );
        Reply { status: 404, content_type: "application/json", body: ReplyBody::Problem(problem) }
    } else {
        failure_reply("Error fetching latest oneconfig version", error.message())
    }
}

/// The bundle itself as a dependency: the first artifact of every set.
pub open spec fn spec_root_dependency(info: OneConfigVersionInfo, version: VersionView) -> DependencyView {
    DependencyView {
        group: ONECONFIG_GROUP@,
        module: info.spec_variant(),
        version: spec_version_text(version),
        third_party_compatibility: None,
        attributes: DependencyAttributes { loader_include: false, jij: false },
    }
}

pub fn root_dependency(info: &OneConfigVersionInfo, version: &Version) -> (r: Dependency)
    ensures
        r@ == spec_root_dependency(*info, version@),
{
    Dependency {
        group: String::from_str(ONECONFIG_GROUP),
        module: info.variant(),
        version: VersionRequirement { requires: version.to_text() },
        third_party_compatibility: None,
        attributes: DependencyAttributes { loader_include: false, jij: false },
    }
}

/// A platform-agnostic artifact as a dependency: its file is
/// `{artifact}-{version}-all.jar`.
pub open spec fn spec_platform_dependency(artifact: Seq<char>, version: VersionView) -> DependencyView {
    DependencyView {
        group: ONECONFIG_GROUP@,
        module: artifact,
        version: spec_version_text(version),
        third_party_compatibility: Some(
            Some(ArtifactSelectorView { name: artifact, extension: "jar"@, classifier: "all"@ }),
        ),
        attributes: DependencyAttributes { loader_include: false, jij: false },
    }
}

pub fn platform_dependency(artifact: &str, version: &Version) -> (r: Dependency)
    ensures
        r@ == spec_platform_dependency(artifact@, version@),
{
    Dependency {
        group: String::from_str(ONECONFIG_GROUP),
        module: String::from_str(artifact),
        version: VersionRequirement { requires: version.to_text() },
        third_party_compatibility: Some(
            ThirdPartyCompatibility {
                artifact_selector: Some(
                    ArtifactSelector {
                        name: String::from_str(artifact),
                        extension: String::from_str("jar"),
                        classifier: String::from_str("all"),
                    },
                ),
            },
        ),
        attributes: DependencyAttributes { loader_include: false, jij: false },
    }
}

/// The reply where a module descriptor could not be fetched:
/// `Error fetching module metadata for {group}:{version}-{loader}:{latest}`.
pub open spec fn spec_descriptor_failure(info: OneConfigVersionInfo, version: VersionView) -> ReplyView {
    ReplyView {
        status: 500,
        content_type: "text/plain"@,
        body: ReplyBodyView::Text(
            "Error fetching module metadata for "@ + ONECONFIG_GROUP@ + seq![':']
                + info.spec_variant() + seq![':'] + spec_version_text(version),
        ),
    }
}

pub fn descriptor_failure(info: &OneConfigVersionInfo, version: &Version) -> (r: Reply)
    ensures
        r@ == spec_descriptor_failure(*info, version@),
{
    let mut text = String::from_str("Error fetching module metadata for ");
    text.append(ONECONFIG_GROUP);
    text.push(':');
    text.append(info.variant().as_str());
    text.push(':');
    text.append(version.to_text().as_str());
    assert(text@ =~= "Error fetching module metadata for "@ + ONECONFIG_GROUP@ + seq![':']
        + info.spec_variant() + seq![':'] + spec_version_text(version@));
    Reply { status: 500, content_type: "text/plain", body: ReplyBody::Text(text) }
}

/// Where the version index of a bundle lies.
pub fn oneconfig_index_url(state: &ApiData, query: &ArtifactQuery<OneConfigVersionInfo>) -> (r:
    String)
    ensures
        r@ == spec_maven_metadata_url(
            state.spec_fetch_base(),
            spec_repository(query.snapshots),
            ONECONFIG_GROUP@,
            query.version_info.spec_variant(),
        ),
{
    maven_metadata_url(
        state.fetch_base(),
        repository(query.snapshots),
        ONECONFIG_GROUP,
        query.version_info.variant().as_str(),
    )
}

/// The latest version of a bundle, from what the fetch of its version index
/// came back with; where none can be had, the reply.
pub fn oneconfig_version(
    query: &ArtifactQuery<OneConfigVersionInfo>,
    index: Result<MavenMetadata, MavenError>,
) -> (r: Result<Version, Reply>)
    ensures
        match spec_resolve_latest(ONECONFIG_GROUP@, query.version_info.spec_variant(), index) {
            Ok(version) => r is Ok && r->Ok_0@ == version,
            Err(e) => r is Err && r->Err_0@ == spec_version_failure(
                query.version_info,
                query.snapshots,
                e,
            ),
        },
{
    let variant = query.version_info.variant();
    match resolve_latest(ONECONFIG_GROUP, variant.as_str(), index) {
        Ok(version) => Ok(version),
        Err(e) => Err(version_failure(query, &e)),
    }
}

/// Where the module descriptor of a dependency lies.
pub open spec fn spec_descriptor_url(base: Seq<char>, repository: Seq<char>, dep: DependencyView) -> Seq<char> {
    spec_module_metadata_url(base, repository, dep.group, dep.module, dep.version)
}

pub fn descriptor_url(base: &str, repository: &str, dep: &Dependency) -> (r: String)
    ensures
        r@ == spec_descriptor_url(base@, repository@, dep@),
{
    module_metadata_url(
        base,
        repository,
        dep.group.as_str(),
        dep.module.as_str(),
        dep.version.requires.as_str(),
    )
}

/// The module descriptors to fetch once the bundle's own descriptor is
/// there: one for each of the bundle's own modules on the first level, in
/// order. Where the bundle's descriptor could not be fetched, the reply.
pub fn oneconfig_nested_urls(
    state: &ApiData,
    query: &ArtifactQuery<OneConfigVersionInfo>,
    version: &Version,
    descriptor: &Result<GradleModuleMetadata, MavenError>,
) -> (r: Result<Vec<String>, Reply>)
    ensures
        match *descriptor {
            Err(_) => r is Err && r->Err_0@ == spec_descriptor_failure(
                query.version_info,
                version@,
            ),
            Ok(root) => {
                let targets = spec_select(spec_level_one(root), Rule::Descends);
                &&& r is Ok
                &&& r->Ok_0.len() == targets.len()
                &&& forall|i: int|
                    0 <= i < targets.len() ==> (#[trigger] r->Ok_0[i])@ == spec_descriptor_url(
                        state.spec_fetch_base(),
                        spec_repository(query.snapshots),
                        targets[i],
                    )
            },
        },
{
    match descriptor {
        Err(_) => Err(descriptor_failure(&query.version_info, version)),
        Ok(root) => {
            let first = level_one(root);
            let targets = descent_targets(&first);
            let ghost views = dependency_views(targets@);
            let mut out: Vec<String> = Vec::new();
            let mut i: usize = 0;
            while i < targets.len()
                invariant
                    i <= targets.len(),
                    out.len() == i,
                    views == dependency_views(targets@),
                    forall|j: int|
                        0 <= j < i ==> (#[trigger] out[j])@ == spec_descriptor_url(
                            state.spec_fetch_base(),
                            spec_repository(query.snapshots),
                            views[j],
                        ),
                decreases targets.len() - i,
            {
                assert(views[i as int] == targets[i as int]@);
                out.push(descriptor_url(state.fetch_base(), repository(query.snapshots), &targets[i]));
                i += 1;
            }
            Ok(out)
        },
    }
}

/// The set of artifacts of a bundle, from its descriptor and what came back
/// for the descriptors of its modules; where one of them could not be
/// fetched, the reply.
pub fn oneconfig_set(
    query: &ArtifactQuery<OneConfigVersionInfo>,
    version: &Version,
    descriptor: &GradleModuleMetadata,
    nested: &Vec<Result<GradleModuleMetadata, MavenError>>,
) -> (r: Result<Vec<Dependency>, Reply>)
    ensures
        match spec_first_error(nested@) {
            Some(_) => r is Err && r->Err_0@ == spec_descriptor_failure(
                query.version_info,
                version@,
            ),
            None => r is Ok && dependency_views(r->Ok_0@) == spec_artifact_set(
                spec_root_dependency(query.version_info, version@),
                *descriptor,
                nested@,
            ),
        },
        r matches Ok(set) ==> set.len() > 0 && (forall|i: int, j: int|
            0 <= i < j < set.len() ==> (#[trigger] set[i])@.key() != (#[trigger] set[j])@.key()),
{
    let root = root_dependency(&query.version_info, version);
    match resolve_artifact_set(&root, descriptor, nested) {
        Ok(set) => Ok(set),
        Err(_) => Err(descriptor_failure(&query.version_info, version)),
    }
}

/// The reply of the bundle route, from what the checksum fetches came back
/// with: the artifacts where every one succeeded, else a server error and no
/// artifact at all.
pub open spec fn spec_oneconfig_reply(
    state: ApiData,
    snapshots: bool,
    outcomes: Seq<ChecksumOutcome>,
) -> ReplyView {
    match spec_first_failure(outcomes) {
        Some(e) => spec_failure_reply(
            "Error fetching checksum for dependency"@,
            e.spec_message(),
        ),
        None => ReplyView {
            status: 200,
            content_type: "application/json"@,
            body: ReplyBodyView::Artifacts(
                spec_artifacts(outcomes, state.public_maven_url@, spec_repository(snapshots)),
            ),
        },
    }
}

pub fn oneconfig_reply(
    state: &ApiData,
    query: &ArtifactQuery<OneConfigVersionInfo>,
    outcomes: &Vec<ChecksumOutcome>,
) -> (r: Reply)
    ensures
        r@ == spec_oneconfig_reply(*state, query.snapshots, outcomes@),
{
    match resolve_checksums(
        outcomes,
        state.public_maven_url.as_str(),
        repository(query.snapshots),
    ) {
        Ok(artifacts) => Reply {
            status: 200,
            content_type: "application/json",
            body: ReplyBody::Artifacts(artifacts),
        },
        Err(e) => failure_reply("Error fetching checksum for dependency", e.message()),
    }
}

/// Whether the platform-agnostic route serves an artifact of this name.
pub fn is_platform_artifact(artifact: &str) -> (r: bool)
    ensures
        r == (artifact@ == "stage1"@ || artifact@ == "relaunch"@),
{
    artifact.eq("stage1") || artifact.eq("relaunch")
}

/// Where the version index of a platform-agnostic artifact lies.
pub fn platform_index_url(state: &ApiData, snapshots: bool, artifact: &str) -> (r: String)
    ensures
        r@ == spec_maven_metadata_url(
            state.spec_fetch_base(),
            spec_repository(snapshots),
            ONECONFIG_GROUP@,
            artifact@,
        ),
{
    maven_metadata_url(state.fetch_base(), repository(snapshots), ONECONFIG_GROUP, artifact)
}

/// `Error resolving latest {artifact} version`.
pub open spec fn spec_platform_what(artifact: Seq<char>) -> Seq<char> {
    "Error resolving latest "@ + artifact + " version"@
}

fn platform_what(artifact: &str) -> (r: String)
    ensures
        r@ == spec_platform_what(artifact@),
{
    let mut what = String::from_str("Error resolving latest ");
    what.append(artifact);
    what.append(" version");
    what
}

/// The latest version of a platform-agnostic artifact, from what the fetch
/// of its version index came back with; where none can be had, a server
/// error.
pub fn platform_version(artifact: &str, index: Result<MavenMetadata, MavenError>) -> (r: Result<
    Version,
    Reply,
>)
    ensures
        match spec_resolve_latest(ONECONFIG_GROUP@, artifact@, index) {
            Ok(version) => r is Ok && r->Ok_0@ == version,
            Err(e) => r is Err && r->Err_0@ == spec_failure_reply(
                spec_platform_what(artifact@),
                e.spec_message(),
            ),
        },
{
    match resolve_latest(ONECONFIG_GROUP, artifact, index) {
        Ok(version) => Ok(version),
        Err(e) => Err(failure_reply(platform_what(artifact).as_str(), e.message())),
    }
}

/// Where the checksum of the latest version of a platform-agnostic artifact
/// lies.
pub fn platform_checksum_url(state: &ApiData, snapshots: bool, artifact: &str, version: &Version) -> (r:
    String)
    ensures
        r@ == spec_checksum_request(
            state.spec_fetch_base(),
            spec_repository(snapshots),
            spec_platform_dependency(artifact@, version@),
        ),
{
    let dep = platform_dependency(artifact, version);
    let url = get_dep_url(state.fetch_base(), repository(snapshots), &dep);
    checksum_url(url.as_str())
}

/// The reply of the platform-agnostic route, from what the fetch of the
/// artifact's checksum came back with: the artifact, or a server error.
pub open spec fn spec_platform_reply(
    state: ApiData,
    snapshots: bool,
    artifact: Seq<char>,
    version: VersionView,
    checksum: Result<String, MavenError>,
) -> ReplyView {
    match spec_checksum_failure(checksum) {
        Some(e) => spec_failure_reply(
            spec_platform_what(artifact) + " checksum"@,
            e.spec_message(),
        ),
        None => ReplyView {
            status: 200,
            content_type: "application/json"@,
            body: ReplyBodyView::Artifact(
                spec_artifact(
                    spec_platform_dependency(artifact, version),
                    checksum->Ok_0@,
                    state.public_maven_url@,
                    spec_repository(snapshots),
                ),
            ),
        },
    }
}

pub fn platform_reply(
    state: &ApiData,
    snapshots: bool,
    artifact: &str,
    version: &Version,
    checksum: Result<String, MavenError>,
) -> (r: Reply)
    ensures
        r@ == spec_platform_reply(*state, snapshots, artifact@, version@, checksum),
{
    let dep = platform_dependency(artifact, version);
    let made = match &checksum {
        Ok(hash) => artifact_for(
            &dep,
            hash,
            state.public_maven_url.as_str(),
            repository(snapshots),
        ),
        Err(e) => Err(*e),
    };
    match made {
        Ok(response) => Reply {
            status: 200,
            content_type: "application/json",
            body: ReplyBody::Artifact(response),
        },
        Err(e) => {
            let mut what = platform_what(artifact);
            what.append(" checksum");
            failure_reply(what.as_str(), e.message())
        },
    }
}

/// The path that responses of the bundle route are cached under.
pub const ONECONFIG_CACHE_PATH: &'static str = "/v1/artifacts/oneconfig";

/// `true` or `false`.
pub open spec fn spec_flag(flag: bool) -> Seq<char> {
    if flag {
        "true"@
    } else {
        "false"@
    }
}

/// The key of a bundle request in the response cache. The query is written
/// in one fixed form, `loader={loader}&snapshots={flag}&version={version}`,
/// however the request wrote it.
pub open spec fn spec_oneconfig_key(info: OneConfigVersionInfo, snapshots: bool) -> (
    Seq<char>,
    Seq<char>,
) {
    (
        ONECONFIG_CACHE_PATH@,
        "loader="@ + info.loader.spec_name() + "&snapshots="@ + spec_flag(snapshots)
            + "&version="@ + info.version@,
    )
}

pub fn oneconfig_key(query: &ArtifactQuery<OneConfigVersionInfo>) -> (r: CacheKey)
    ensures
        r@ == spec_oneconfig_key(query.version_info, query.snapshots),
{
    let mut text = String::from_str("loader=");
    text.append(query.version_info.loader.as_str());
    text.append("&snapshots=");
    text.append(if query.snapshots {
        "true"
    } else {
        "false"
    });
    text.append("&version=");
    text.append(query.version_info.version.as_str());
    assert(text@ =~= spec_oneconfig_key(query.version_info, query.snapshots).1);
    CacheKey { path: String::from_str(ONECONFIG_CACHE_PATH), query: text }
}

/// Two bundle requests have one key exactly when they ask for the same
/// version and loader in the same channel.
pub proof fn lemma_oneconfig_key_tells_requests_apart(
    a: ArtifactQuery<OneConfigVersionInfo>,
    b: ArtifactQuery<OneConfigVersionInfo>,
)
    ensures
        spec_oneconfig_key(a.version_info, a.snapshots) == spec_oneconfig_key(
            b.version_info,
            b.snapshots,
        ) <==> a.snapshots == b.snapshots && a.version_info.loader == b.version_info.loader
            && a.version_info.version@ == b.version_info.version@,
{
    reveal_strlit("loader=");
    reveal_strlit("forge");
    reveal_strlit("fabric");
    reveal_strlit("&snapshots=");
    reveal_strlit("true");
    reveal_strlit("false");
    reveal_strlit("&version=");
    let ka = spec_oneconfig_key(a.version_info, a.snapshots).1;
    let kb = spec_oneconfig_key(b.version_info, b.snapshots).1;
    let ha = "loader="@ + a.version_info.loader.spec_name() + "&snapshots="@ + spec_flag(
        a.snapshots,
    ) + "&version="@;
    let hb = "loader="@ + b.version_info.loader.spec_name() + "&snapshots="@ + spec_flag(
        b.snapshots,
    ) + "&version="@;
    assert(ka =~= ha + a.version_info.version@);
    assert(kb =~= hb + b.version_info.version@);
    if ka == kb {
        if a.version_info.loader != b.version_info.loader {
            assert(ka[8] != kb[8]);
        }
        if a.snapshots != b.snapshots {
            let at = (7 + a.version_info.loader.spec_name().len() + 11) as int;
            assert(ka[at] != kb[at]);
        }
        assert(ha =~= hb);
        assert(a.version_info.version@ =~= ka.skip(ha.len() as int));
        assert(b.version_info.version@ =~= kb.skip(hb.len() as int));
    }
}

/// The reply that is made of what the response cache held for a request:
/// none where it held nothing, else 200 and the stored body as JSON.
pub open spec fn spec_cached_reply(found: Option<CacheValueView>) -> Option<ReplyView> {
    match found {
        None => None,
        Some(value) => Some(
            ReplyView {
                status: 200,
                content_type: "application/json"@,
                body: ReplyBodyView::Json(value.response),
            },
        ),
    }
}

/// Makes the reply of what the response cache held for a request.
pub fn cached_reply(found: Option<CacheValue>) -> (r: Option<Reply>)
    ensures
        match found {
            None => r is None,
            Some(value) => r is Some && Some(r->Some_0@) == spec_cached_reply(Some(value@)),
        },
{
    match found {
        Some(value) => Some(
            Reply {
                status: 200,
                content_type: "application/json",
                body: ReplyBody::Json(value.response),
            },
        ),
        None => None,
    }
}

/// The reply to a bundle request from the response cache, where the cache
/// still holds one: the body that was last stored for the request's key, and
/// nothing is fetched. Whether the cache still holds one is for the cache to
/// say; what is made of its answer is `cached_reply`.
pub fn oneconfig_cached(cache: &ResponseCache, query: &ArtifactQuery<OneConfigVersionInfo>) -> (r:
    Option<Reply>)
    ensures
        r matches Some(reply) ==> {
            let key = spec_oneconfig_key(query.version_info, query.snapshots);
            &&& cache.stored().contains_key(key)
            &&& reply@ == (ReplyView {
                status: 200,
                content_type: "application/json"@,
                body: ReplyBodyView::Json(cache.stored()[key].response),
            })
        },
{
    let key = oneconfig_key(query);
    cached_reply(cache.get(&key))
}

/// Stores the serialized body of a successful reply to a bundle request in
/// the response cache, in place of what was there for the request's key.
pub fn oneconfig_store(
    cache: &mut ResponseCache,
    query: &ArtifactQuery<OneConfigVersionInfo>,
    body: Vec<u8>,
)
    ensures
        final(cache).stored() == old(cache).stored().insert(
            spec_oneconfig_key(query.version_info, query.snapshots),
            spec_entry(Seq::empty(), body@),
        ),
{
    let etag = sha256_digest(body.as_slice());
    let value = CacheValue { response: body, headers: Vec::new(), etag };
    assert(value@.headers =~= Seq::empty());
    cache.insert(oneconfig_key(query), value);
}

} // verus!
