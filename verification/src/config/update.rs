//! Whether a newer release of the program has been published.

use crate::utils::text::{after_first, before_first, split_at_first, split_on, split_text, texts_of};
use semver::Version;
use vstd::prelude::*;

verus! {

#[verifier::external_type_specification]
#[verifier::external_body]
pub struct ExVersion(semver::Version);

/// Whether a text is a version as `semver` reads it.
pub uninterp spec fn is_version_text(text: Seq<char>) -> bool;

/// Calls `Version::parse`, which reads a version of three numbers with an
/// optional pre-release and build, and fails on any other text.
#[verifier::external_body]
fn parse_version(text: &str) -> (version: Option<Version>)
    ensures
        version is Some <==> is_version_text(text@),
{
    match Version::parse(text) {
        Ok(version) => Some(version),
        Err(_) => None,
    }
}

/// Compares two versions with `>`, the order that `semver` gives them.
#[verifier::external_body]
fn version_is_greater(latest: &Version, current: &Version) -> bool {
    latest > current
}

/// Why it cannot be said whether there is a newer release.
#[derive(Debug, Clone, Copy, PartialEq, Eq, Structural)]
pub enum UpdateError {
    /// The program's own version is no version.
    InvalidCurrentVersion,
    /// The answer does not name a release.
    ReleaseNotFound,
    /// The release that the answer names is no version.
    InvalidReleaseVersion,
}

/// The name of the release in an answer: of what stands between the first
/// `tag_name` and the next, the part between the second and the third
/// quotation mark.
pub open spec fn release_tag_of(response: Seq<char>) -> Option<Seq<char>> {
    match after_first("tag_name"@, response) {
        Some(rest) => {
            let pieces = split_on(before_first("tag_name"@, rest), '"');
            if pieces.len() > 2 {
                Some(pieces[2])
            } else {
                None
            }
        },
        None => None,
    }
}

/// The name of the release in an answer.
pub fn release_tag(response: &str) -> (tag: Option<String>)
    ensures
        tag is Some <==> release_tag_of(response@) is Some,
        tag matches Some(name) ==> release_tag_of(response@) == Some(name@),
{
    proof {
        reveal_strlit("tag_name");
    }
    let rest = match split_at_first(response, "tag_name") {
        Some((_, rest)) => rest,
        None => {
            return None;
        },
    };
    let field = match split_at_first(rest, "tag_name") {
        Some((field, _)) => field,
        None => rest,
    };
    let mut pieces = split_text(field, '"');
    if pieces.len() > 2 {
        pieces.truncate(3);
        let name = pieces.pop().unwrap();
        Some(name)
    } else {
        None
    }
}

/// Whether a text is a version.
pub fn is_valid_version(text: &str) -> (valid: bool)
    ensures
        valid == is_version_text(text@),
{
    parse_version(text).is_some()
}

/// Whether the release that an answer names is newer than the program. It
/// cannot be said where the program's version is no version, where the
/// answer names no release, or where the release's name is no version, in
/// this order.
pub fn update_available(current_version: &str, response: &str) -> (newer: Result<
    bool,
    UpdateError,
>)
    ensures
        newer is Ok <==> is_version_text(current_version@) && release_tag_of(response@) is Some
            && is_version_text(release_tag_of(response@)->0),
        newer matches Err(e) ==> e == (if !is_version_text(current_version@) {
            UpdateError::InvalidCurrentVersion
        } else if release_tag_of(response@) is None {
            UpdateError::ReleaseNotFound
        } else {
            UpdateError::InvalidReleaseVersion
        }),
{
    let current = match parse_version(current_version) {
        Some(version) => version,
        None => {
            return Err(UpdateError::InvalidCurrentVersion);
        },
    };
    let tag = match release_tag(response) {
        Some(tag) => tag,
        None => {
            return Err(UpdateError::ReleaseNotFound);
        },
    };
    match parse_version(tag.as_str()) {
        Some(latest) => Ok(version_is_greater(&latest, &current)),
        None => Err(UpdateError::InvalidReleaseVersion),
    }
}

} // verus!
