//! Semantic versions: read with the `semver` crate, held as plain values, and
//! ordered by the crate's total order.

use vstd::prelude::*;
use vstd::string::StringExecFns;
use std::cmp::Ordering;
use crate::maven::{check_maven_metadata, MavenError};
use crate::text::{push_decimal, spec_decimal};
use crate::types::maven_metadata::MavenMetadata;

verus! {

/// `semver::Error`: why a text is no semantic version. It is carried, never
/// read.
#[verifier::external_type_specification]
#[verifier::external_body]
pub struct ExSemverError(semver::Error);

/// How one value stands to another in an order.
#[derive(Clone, Copy, Debug, PartialEq, Eq, Structural)]
pub enum Precedence {
    Less,
    Equal,
    Greater,
}

/// A semantic version: three numbers, and the pre-release and build texts,
/// each empty where the version has none.
#[derive(Debug)]
pub struct Version {
    pub major: u64,
    pub minor: u64,
    pub patch: u64,
    pub pre: String,
    pub build: String,
}

pub struct VersionView {
    pub major: u64,
    pub minor: u64,
    pub patch: u64,
    pub pre: Seq<char>,
    pub build: Seq<char>,
}

impl View for Version {
    type V = VersionView;

    open spec fn view(&self) -> VersionView {
        VersionView {
            major: self.major,
            minor: self.minor,
            patch: self.patch,
            pre: self.pre@,
            build: self.build@,
        }
    }
}

impl Clone for Version {
    fn clone(&self) -> (r: Self)
        ensures
            r@ == self@,
    {
        Version {
            major: self.major,
            minor: self.minor,
            patch: self.patch,
            pre: self.pre.clone(),
            build: self.build.clone(),
        }
    }
}

/// What `semver::Version::parse` makes of a text: the version it reads, or
/// nothing where the text is no semantic version.
pub uninterp spec fn semver_parse(text: Seq<char>) -> Option<VersionView>;

/// How `semver::Prerelease` orders two pre-release texts, or nothing where
/// one of them is no pre-release text.
pub uninterp spec fn prerelease_order(a: Seq<char>, b: Seq<char>) -> Option<Precedence>;

/// How `semver::BuildMetadata` orders two build texts, or nothing where one
/// of them is no build text.
pub uninterp spec fn build_order(a: Seq<char>, b: Seq<char>) -> Option<Precedence>;

/// Calls `semver::Version::parse` and copies the five public fields of what
/// it returns. The result is a function of the text alone: it is `Ok` exactly
/// where `semver_parse` names a version, and then holds that version.
#[verifier::external_body]
fn parse_semver(text: &str) -> (r: Result<Version, semver::Error>)
    ensures
        match r {
            Ok(v) => semver_parse(text@) == Some(v@),
            Err(_) => semver_parse(text@) is None,
        },
{
    let v = semver::Version::parse(text)?;
    Ok(
        Version {
            major: v.major,
            minor: v.minor,
            patch: v.patch,
            pre: v.pre.as_str().to_owned(),
            build: v.build.as_str().to_owned(),
        },
    )
}

/// How two pre-release texts are ordered, or nothing where one of them is no
/// pre-release text. A version without pre-release text is a release, and a
/// release comes after every pre-release; two texts that are both there are
/// ordered as `semver::Prerelease` orders them.
pub open spec fn spec_prerelease_order(a: Seq<char>, b: Seq<char>) -> Option<Precedence> {
    if a.len() == 0 && b.len() == 0 {
        Some(Precedence::Equal)
    } else if prerelease_order(a, b) is None {
        None
    } else if a.len() == 0 {
        Some(Precedence::Greater)
    } else if b.len() == 0 {
        Some(Precedence::Less)
    } else {
        prerelease_order(a, b)
    }
}

/// How two build texts are ordered, or nothing where one of them is no build
/// text. Two versions without build text are equal in this; all else is
/// ordered as `semver::BuildMetadata` orders it.
pub open spec fn spec_build_order(a: Seq<char>, b: Seq<char>) -> Option<Precedence> {
    if a.len() == 0 && b.len() == 0 {
        Some(Precedence::Equal)
    } else {
        build_order(a, b)
    }
}

/// Calls `Ord::cmp` of `semver::Prerelease` on the two texts, each read with
/// `Prerelease::new`. The result is a function of the two texts alone. The
/// empty text reads as the empty pre-release, which is equal to itself and
/// greater than any other.
#[verifier::external_body]
fn order_prerelease(a: &str, b: &str) -> (r: Option<Precedence>)
    ensures
        r == prerelease_order(a@, b@),
        r == spec_prerelease_order(a@, b@),
{
    let x = semver::Prerelease::new(a).ok()?;
    let y = semver::Prerelease::new(b).ok()?;
    Some(
        match x.cmp(&y) {
            Ordering::Less => Precedence::Less,
            Ordering::Equal => Precedence::Equal,
            Ordering::Greater => Precedence::Greater,
        },
    )
}

/// Calls `Ord::cmp` of `semver::BuildMetadata` on the two texts, each read
/// with `BuildMetadata::new`. The result is a function of the two texts
/// alone. The empty text reads as the empty build text, which is equal to
/// itself.
#[verifier::external_body]
fn order_build(a: &str, b: &str) -> (r: Option<Precedence>)
    ensures
        r == build_order(a@, b@),
        r == spec_build_order(a@, b@),
{
    let x = semver::BuildMetadata::new(a).ok()?;
    let y = semver::BuildMetadata::new(b).ok()?;
    Some(
        match x.cmp(&y) {
            Ordering::Less => Precedence::Less,
            Ordering::Equal => Precedence::Equal,
            Ordering::Greater => Precedence::Greater,
        },
    )
}

/// The order of two numbers.
pub open spec fn spec_number_order(a: u64, b: u64) -> Precedence {
    if a < b {
        Precedence::Less
    } else if a == b {
        Precedence::Equal
    } else {
        Precedence::Greater
    }
}

/// The order of two versions by major, minor and patch alone, read from left
/// to right.
pub open spec fn spec_release_order(a: VersionView, b: VersionView) -> Precedence {
    if a.major != b.major {
        spec_number_order(a.major, b.major)
    } else if a.minor != b.minor {
        spec_number_order(a.minor, b.minor)
    } else {
        spec_number_order(a.patch, b.patch)
    }
}

/// The total order of versions: by major, minor and patch; where these are
/// equal, by the pre-release texts; where those do not decide, by the build
/// texts.
pub open spec fn spec_version_order(a: VersionView, b: VersionView) -> Precedence {
    if spec_release_order(a, b) != Precedence::Equal {
        spec_release_order(a, b)
    } else {
        match spec_prerelease_order(a.pre, b.pre) {
            Some(Precedence::Less) => Precedence::Less,
            Some(Precedence::Greater) => Precedence::Greater,
            _ => match spec_build_order(a.build, b.build) {
                Some(order) => order,
                None => Precedence::Equal,
            },
        }
    }
}

/// Versions without pre-release and build texts are ordered by their
/// numbers alone.
pub proof fn lemma_plain_versions_by_numbers(a: VersionView, b: VersionView)
    requires
        a.pre.len() == 0 && a.build.len() == 0,
        b.pre.len() == 0 && b.build.len() == 0,
    ensures
        spec_version_order(a, b) == spec_release_order(a, b),
{
}

/// A release comes after each of its pre-releases: of two versions with the
/// same numbers, the one without pre-release text is the greater.
pub proof fn lemma_release_follows_prerelease(release: VersionView, earlier: VersionView)
    requires
        spec_release_order(release, earlier) == Precedence::Equal,
        release.pre.len() == 0,
        earlier.pre.len() > 0,
        prerelease_order(release.pre, earlier.pre) is Some,
        prerelease_order(earlier.pre, release.pre) is Some,
    ensures
        spec_version_order(release, earlier) == Precedence::Greater,
        spec_version_order(earlier, release) == Precedence::Less,
{
}

/// The later of two versions; of two that the order does not tell apart, the
/// second.
pub open spec fn spec_later(a: VersionView, b: VersionView) -> VersionView {
    if spec_version_order(a, b) == Precedence::Greater {
        a
    } else {
        b
    }
}

/// The latest of a non-empty list of versions: the later of the latest among
/// all but the last, and the last.
pub open spec fn spec_latest(versions: Seq<VersionView>) -> VersionView
    decreases versions.len(),
{
    if versions.len() <= 1 {
        versions[0]
    } else {
        spec_later(spec_latest(versions.drop_last()), versions.last())
    }
}

/// The version's text: `{major}.{minor}.{patch}`, then `-{pre}` and
/// `+{build}` where they are not empty.
pub open spec fn spec_version_text(v: VersionView) -> Seq<char> {
    spec_decimal(v.major as nat) + seq!['.'] + spec_decimal(v.minor as nat) + seq!['.']
        + spec_decimal(v.patch as nat) + (if v.pre.len() > 0 {
        seq!['-'] + v.pre
    } else {
        Seq::<char>::empty()
    }) + (if v.build.len() > 0 {
        seq!['+'] + v.build
    } else {
        Seq::<char>::empty()
    })
}

fn order_numbers(a: u64, b: u64) -> (r: Precedence)
    ensures
        r == spec_number_order(a, b),
{
    if a < b {
        Precedence::Less
    } else if a == b {
        Precedence::Equal
    } else {
        Precedence::Greater
    }
}

impl Version {
    /// Reads a semantic version.
    pub fn parse(text: &str) -> (r: Result<Version, MavenError>)
        ensures
            match r {
                Ok(v) => semver_parse(text@) == Some(v@),
                Err(e) => semver_parse(text@) is None && e == MavenError::Semver,
            },
    {
        match parse_semver(text) {
            Ok(v) => Ok(v),
            Err(_) => Err(MavenError::Semver),
        }
    }

    /// How `self` stands to `other` in the total order of versions.
    pub fn compare(&self, other: &Version) -> (r: Precedence)
        ensures
            r == spec_version_order(self@, other@),
    {
        if self.major != other.major {
            return order_numbers(self.major, other.major);
        }
        if self.minor != other.minor {
            return order_numbers(self.minor, other.minor);
        }
        if self.patch != other.patch {
            return order_numbers(self.patch, other.patch);
        }
        match order_prerelease(self.pre.as_str(), other.pre.as_str()) {
            Some(Precedence::Less) => Precedence::Less,
            Some(Precedence::Greater) => Precedence::Greater,
            _ => match order_build(self.build.as_str(), other.build.as_str()) {
                Some(order) => order,
                None => Precedence::Equal,
            },
        }
    }

    /// The version as text.
    pub fn to_text(&self) -> (r: String)
        ensures
            r@ == spec_version_text(self@),
    {
        let mut out = String::new();
        push_decimal(&mut out, self.major);
        out.push('.');
        push_decimal(&mut out, self.minor);
        out.push('.');
        push_decimal(&mut out, self.patch);
        if self.pre.as_str().unicode_len() > 0 {
            out.push('-');
            out.append(self.pre.as_str());
        }
        if self.build.as_str().unicode_len() > 0 {
            out.push('+');
            out.append(self.build.as_str());
        }
        assert(out@ =~= spec_version_text(self@));
        out
    }
}

/// The listed texts, each as the version that it reads as.
pub open spec fn spec_parsed(texts: Seq<Seq<char>>) -> Seq<VersionView> {
    texts.map_values(|t: Seq<char>| semver_parse(t).unwrap())
}

/// Whether every listed text reads as a version.
pub open spec fn spec_all_parse(texts: Seq<Seq<char>>) -> bool {
    forall|i: int| 0 <= i < texts.len() ==> (#[trigger] semver_parse(texts[i])) is Some
}

/// The latest version among listed texts: one text that is no semantic
/// version fails the whole list, and an empty list has no latest version.
pub open spec fn spec_latest_artifact(texts: Seq<Seq<char>>) -> Result<VersionView, MavenError> {
    if !spec_all_parse(texts) {
        Err(MavenError::Semver)
    } else if texts.len() == 0 {
        Err(MavenError::NoVersions)
    } else {
        Ok(spec_latest(spec_parsed(texts)))
    }
}

/// A result with its version as a view.
pub open spec fn spec_version_result(r: Result<Version, MavenError>) -> Result<
    VersionView,
    MavenError,
> {
    match r {
        Ok(v) => Ok(v@),
        Err(e) => Err(e),
    }
}

/// The latest version that an index lists.
///
/// By major, minor and patch no listed version is above it; among those that
/// agree in all three the order of pre-release and build texts decides.
pub fn latest_artifact(metadata: &MavenMetadata) -> (r: Result<Version, MavenError>)
    ensures
        spec_version_result(r) == spec_latest_artifact(metadata.version_texts()),
        r is Ok ==> forall|i: int|
            0 <= i < metadata.version_texts().len() ==> spec_release_order(
                r->Ok_0@,
                #[trigger] spec_parsed(metadata.version_texts())[i],
            ) != Precedence::Less,
{
    let texts = &metadata.versioning.versions.versions;
    let ghost views = metadata.version_texts();
    let mut parsed: Vec<Version> = Vec::new();
    let mut i: usize = 0;
    while i < texts.len()
        invariant
            views == metadata.version_texts(),
            texts == &metadata.versioning.versions.versions,
            i <= texts.len(),
            parsed.len() == i,
            forall|j: int| 0 <= j < i ==> semver_parse(views[j]) == Some(#[trigger] parsed[j]@),
            forall|j: int| 0 <= j < i ==> (#[trigger] semver_parse(views[j])) is Some,
        decreases texts.len() - i,
    {
        match Version::parse(texts[i].as_str()) {
            Ok(v) => parsed.push(v),
            Err(e) => {
                assert(semver_parse(views[i as int]) is None);
                return Err(e);
            },
        }
        i += 1;
    }
    assert(spec_all_parse(views));
    if parsed.len() == 0 {
        return Err(MavenError::NoVersions);
    }
    let ghost all = spec_parsed(views);
    assert(all.len() == parsed.len());
    assert(forall|j: int| 0 <= j < all.len() ==> all[j] == parsed[j]@);
    let mut best: usize = 0;
    let mut k: usize = 1;
    assert(all.take(1).drop_last() =~= all.take(0));
    while k < parsed.len()
        invariant
            all == spec_parsed(views),
            all.len() == parsed.len(),
            forall|j: int| 0 <= j < all.len() ==> all[j] == parsed[j]@,
            1 <= k <= parsed.len(),
            best < k,
            parsed[best as int]@ == spec_latest(all.take(k as int)),
            forall|j: int|
                0 <= j < k ==> spec_release_order(parsed[best as int]@, #[trigger] all[j])
                    != Precedence::Less,
        decreases parsed.len() - k,
    {
        let order = parsed[best].compare(&parsed[k]);
        proof {
            let upto = all.take(k + 1);
            assert(upto.drop_last() =~= all.take(k as int));
            assert(upto.last() == all[k as int]);
        }
        if order != Precedence::Greater {
            best = k;
        }
        k += 1;
    }
    assert(all.take(parsed.len() as int) =~= all);
    Ok(parsed[best].clone())
}

/// What a version index resolves to: the error of its fetch where that
/// failed, a mismatch where it describes another coordinate, else the latest
/// version it lists.
pub open spec fn spec_resolve_latest(
    group: Seq<char>,
    artifact: Seq<char>,
    index: Result<MavenMetadata, MavenError>,
) -> Result<VersionView, MavenError> {
    match index {
        Err(e) => Err(e),
        Ok(metadata) => if group == metadata.group_id@ && artifact == metadata.artifact_id@ {
            spec_latest_artifact(metadata.version_texts())
        } else {
            Err(MavenError::ArtifactMismatch)
        },
    }
}

/// Resolves the latest version of an artifact from what the fetch of its
/// version index came back with.
pub fn resolve_latest(group: &str, artifact: &str, index: Result<MavenMetadata, MavenError>) -> (r:
    Result<Version, MavenError>)
    ensures
        spec_version_result(r) == spec_resolve_latest(group@, artifact@, index),
{
    match index {
        Err(e) => Err(e),
        Ok(metadata) => match check_maven_metadata(group, artifact, metadata) {
            Ok(metadata) => latest_artifact(&metadata),
            Err(e) => Err(e),
        },
    }
}

} // verus!
