//! Release versions and the choice of an update.
//!
//! Versions are parsed and ordered by the `semver` crate. A parsed version
//! is held as its plain components; its view is the tuple
//! `(major, minor, patch, pre-release, build metadata)`.
use vstd::prelude::*;

verus! {

#[verifier::external_type_specification]
#[verifier::external_body]
pub struct ExSemverVersion(semver::Version);

#[verifier::external_type_specification]
#[verifier::external_body]
pub struct ExSemverError(semver::Error);

/// The components of a version: major, minor, patch, pre-release text and
/// build-metadata text.
pub type VersionParts = (u64, u64, u64, Seq<char>, Seq<char>);

/// What `semver::Version::parse` gives for `text`: `None` where it
/// reports an error, else the components of the version.
pub uninterp spec fn semver_parse(text: Seq<char>) -> Option<(u64, u64, u64, Seq<char>, Seq<char>)>;

/// For two distinct, non-empty pre-release texts: whether `semver` orders
/// `a` before `b` (dot-separated identifiers, numeric ones by value and
/// before alphanumeric ones, alphanumeric ones in ASCII order, a shorter
/// list first when it is a prefix of the other).
pub uninterp spec fn prerelease_precedes(a: Seq<char>, b: Seq<char>) -> bool;

/// For two distinct build-metadata texts: whether `semver` orders `a`
/// before `b`.
pub uninterp spec fn build_precedes(a: Seq<char>, b: Seq<char>) -> bool;

/// Sign of the comparison of two integers.
pub open spec fn sign_of_order(a: u64, b: u64) -> int {
    if a < b {
        -1
    } else if a == b {
        0
    } else {
        1
    }
}

/// How `semver` orders two pre-release texts: equal texts are equal, a
/// version without pre-release ranks above one with a pre-release.
pub open spec fn prerelease_rank(a: Seq<char>, b: Seq<char>) -> int {
    if a == b {
        0
    } else if a.len() == 0 {
        1
    } else if b.len() == 0 {
        -1
    } else if prerelease_precedes(a, b) {
        -1
    } else {
        1
    }
}

/// How `semver` orders two build-metadata texts.
pub open spec fn build_rank(a: Seq<char>, b: Seq<char>) -> int {
    if a == b {
        0
    } else if build_precedes(a, b) {
        -1
    } else {
        1
    }
}

/// The order of `semver::Version`: lexicographic over major, minor, patch,
/// pre-release and build metadata. Negative: `a` is older; zero: equal;
/// positive: `a` is newer.
pub open spec fn version_rank(a: VersionParts, b: VersionParts) -> int {
    if a.0 != b.0 {
        sign_of_order(a.0, b.0)
    } else if a.1 != b.1 {
        sign_of_order(a.1, b.1)
    } else if a.2 != b.2 {
        sign_of_order(a.2, b.2)
    } else if a.3 != b.3 {
        prerelease_rank(a.3, b.3)
    } else {
        build_rank(a.4, b.4)
    }
}

/// A version parsed by `semver`: its components, and the parsed value they
/// were read from.
pub struct SemVersion {
    major: u64,
    minor: u64,
    patch: u64,
    pre: String,
    build: String,
    parsed: semver::Version,
}

impl View for SemVersion {
    type V = VersionParts;

    closed spec fn view(&self) -> VersionParts {
        (self.major, self.minor, self.patch, self.pre@, self.build@)
    }
}

/// Calls `semver::Version::parse` and keeps the components of the version
/// it returns beside it. Claimed: the call succeeds exactly where
/// `semver_parse` is `Some`, and then gives those components.
#[verifier::external_body]
pub(crate) fn parse_version(text: &str) -> (res: Result<SemVersion, semver::Error>)
    ensures
        res is Ok <==> semver_parse(text@) is Some,
        res matches Ok(v) ==> semver_parse(text@) == Some(v@),
{
    semver::Version::parse(text).map(
        |v|
            SemVersion {
                major: v.major,
                minor: v.minor,
                patch: v.patch,
                pre: v.pre.as_str().to_string(),
                build: v.build.as_str().to_string(),
                parsed: v,
            },
    )
}

/// Compares the two versions with `semver::Version`'s `Ord`, which is
/// derived and so lexicographic over the fields, and gives the sign of
/// the result. Claimed: the sign is `version_rank` of the components (the
/// components are those `parse_version` read from the same value).
#[verifier::external_body]
pub(crate) fn compare_versions(a: &SemVersion, b: &SemVersion) -> (res: i8)
    ensures
        res == version_rank(a@, b@),
        a@.0 == b@.0 && a@.1 == b@.1 && a@.2 == b@.2 && a@.3 != b@.3 && a@.3.len() > 0
            && b@.3.len() > 0 ==> (res < 0 <==> prerelease_precedes(a@.3, b@.3)),
        a@.0 == b@.0 && a@.1 == b@.1 && a@.2 == b@.2 && a@.3 == b@.3 && a@.4 != b@.4 ==> (res
            < 0 <==> build_precedes(a@.4, b@.4)),
{
    match a.parsed.cmp(&b.parsed) {
        core::cmp::Ordering::Less => -1,
        core::cmp::Ordering::Equal => 0,
        core::cmp::Ordering::Greater => 1,
    }
}

/// Whether the components `latest` make a newer version than `current`.
pub open spec fn is_newer(latest: VersionParts, current: VersionParts) -> bool {
    version_rank(latest, current) > 0
}

/// The outcome of an update check on the published releases (newest
/// first) and the running version: `None` where a version cannot be
/// parsed, `Some(None)` where there is no update, `Some(Some(v))` where
/// the newest release `v` is newer than the running version.
pub open spec fn update_choice(releases: Seq<Seq<char>>, current: Seq<char>) -> Option<
    Option<Seq<char>>,
> {
    if releases.len() == 0 {
        Some(None)
    } else {
        match semver_parse(current) {
            None => None,
            Some(c) => match semver_parse(releases[0]) {
                None => None,
                Some(l) => if is_newer(l, c) {
                    Some(Some(releases[0]))
                } else {
                    Some(None)
                },
            },
        }
    }
}

/// The texts of a list of strings.
pub open spec fn texts(v: Seq<String>) -> Seq<Seq<char>> {
    v.map_values(|s: String| s@)
}

/// Which version of an update check could not be parsed.
#[derive(Debug)]
pub enum VersionError {
    /// The running version.
    Running(semver::Error),
    /// The newest release's version.
    Release(semver::Error),
}

/// The view of an update check's result.
pub open spec fn update_result_view(res: Result<Option<String>, VersionError>) -> Option<
    Option<Seq<char>>,
> {
    match res {
        Ok(Some(s)) => Some(Some(s@)),
        Ok(None) => Some(None),
        Err(_) => None,
    }
}

/// Decides whether the newest published release is an update for the
/// running version. `releases` lists the published versions, newest first.
/// With no release there is no update; else the running version is parsed
/// first, then the newest release, and an error of either is returned.
pub fn select_update(releases: &Vec<String>, current: &str) -> (res: Result<
    Option<String>,
    VersionError,
>)
    ensures
        update_result_view(res) == update_choice(texts(releases@), current@),
        res matches Err(VersionError::Running(_)) <==> releases@.len() > 0 && semver_parse(
            current@,
        ) is None,
        res matches Err(VersionError::Release(_)) <==> releases@.len() > 0 && semver_parse(
            current@,
        ) is Some && semver_parse(releases@[0]@) is None,
{
    if releases.len() == 0 {
        return Ok(None);
    }
    let latest_text = &releases[0];
    let current_version = match parse_version(current) {
        Ok(v) => v,
        Err(e) => return Err(VersionError::Running(e)),
    };
    let latest_version = match parse_version(latest_text.as_str()) {
        Ok(v) => v,
        Err(e) => return Err(VersionError::Release(e)),
    };
    assert(texts(releases@)[0] == latest_text@);
    if compare_versions(&latest_version, &current_version) > 0 {
        Ok(Some(latest_text.clone()))
    } else {
        Ok(None)
    }
}

/// With no published release there is never an update.
pub proof fn lemma_no_release_no_update(current: Seq<char>)
    ensures
        update_choice(Seq::empty(), current) == Some(Option::<Seq<char>>::None),
{
}

/// A version is never an update for itself: where the newest release is
/// the running version, the check reports no update.
pub proof fn lemma_same_version_is_no_update(current: Seq<char>, others: Seq<Seq<char>>)
    requires
        semver_parse(current) is Some,
    ensures
        update_choice(seq![current] + others, current) == Some(Option::<Seq<char>>::None),
{
    let releases = seq![current] + others;
    assert(releases[0] == current);
}

/// Only the newest release is considered: releases after it do not change
/// the outcome.
pub proof fn lemma_only_newest_release_counts(
    newest: Seq<char>,
    older: Seq<Seq<char>>,
    current: Seq<char>,
)
    ensures
        update_choice(seq![newest] + older, current) == update_choice(seq![newest], current),
{
    assert((seq![newest] + older)[0] == newest);
}

/// A higher major, minor or patch number is an update whatever the
/// pre-release and build metadata.
pub proof fn lemma_higher_number_is_newer(latest: VersionParts, current: VersionParts)
    requires
        latest.0 > current.0 || (latest.0 == current.0 && latest.1 > current.1) || (latest.0
            == current.0 && latest.1 == current.1 && latest.2 > current.2),
    ensures
        is_newer(latest, current),
        !is_newer(current, latest),
{
}

/// A release is newer than any pre-release of the same numbers.
pub proof fn lemma_release_is_newer_than_its_prerelease(
    latest: VersionParts,
    current: VersionParts,
)
    requires
        latest.0 == current.0,
        latest.1 == current.1,
        latest.2 == current.2,
        latest.3.len() == 0,
        current.3.len() > 0,
    ensures
        is_newer(latest, current),
        !is_newer(current, latest),
{
}

} // verus!
