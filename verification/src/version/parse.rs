//! Reading versions from text.

use vstd::prelude::*;
use crate::error::{ErrorKind, ErrorView, UpdateError, result_view};
use crate::text::{chars_of, string_of};
use crate::version::Version;
use crate::version::scan::{find_version, first_version, first_version_text};

verus! {

/// What `semver::Version::parse` makes of a text: the three numbers of the
/// version that it reads, or the message of the error with which it refuses
/// the text.
pub uninterp spec fn semver_parse(text: Seq<char>) -> Result<(u64, u64, u64), Seq<char>>;

/// The outcome of a parse with its message taken as a sequence of
/// characters.
pub open spec fn parsed_view(parsed: Result<(u64, u64, u64), String>) -> Result<
    (u64, u64, u64),
    Seq<char>,
> {
    match parsed {
        Ok(numbers) => Ok(numbers),
        Err(message) => Err(message@),
    }
}

/// Calls `semver::Version::parse` and hands back the major, minor and patch
/// number of the version read, or the text of the error. Nothing is claimed
/// of the outcome but that it depends on the text alone.
#[verifier::external_body]
fn semver_numbers(text: &str) -> (r: Result<(u64, u64, u64), String>)
    ensures
        parsed_view(r) == semver_parse(text@),
{
    match semver::Version::parse(text) {
        Ok(version) => Ok((version.major, version.minor, version.patch)),
        Err(error) => Err(error.to_string()),
    }
}

/// The version that a parse has read, or the error that it gave.
pub open spec fn version_of_parsed(parsed: Result<(u64, u64, u64), Seq<char>>) -> Result<
    Version,
    ErrorView,
> {
    match parsed {
        Ok((major, minor, patch)) => Ok(Version { major, minor, patch }),
        Err(message) => Err(ErrorView { kind: ErrorKind::Parse, message }),
    }
}

/// The version that `text` spells as a whole.
pub open spec fn parse_spec(text: Seq<char>) -> Result<Version, ErrorView> {
    version_of_parsed(semver_parse(text))
}

/// The version that stands first in `tag`.
pub open spec fn extract_spec(tag: Seq<char>) -> Result<Version, ErrorView> {
    match first_version_text(tag) {
        Some(text) => parse_spec(text),
        None => Err(ErrorView { kind: ErrorKind::Parse, message: "No version number found"@ }),
    }
}

/// Makes a version of the numbers that a parse has read, and a parse error
/// of its message.
pub fn version_from_parsed(parsed: Result<(u64, u64, u64), String>) -> (r: Result<
    Version,
    UpdateError,
>)
    ensures
        result_view(r) == version_of_parsed(parsed_view(parsed)),
{
    match parsed {
        Ok((major, minor, patch)) => Ok(Version::new(major, minor, patch)),
        Err(message) => Err(UpdateError::with_message(ErrorKind::Parse, message)),
    }
}

impl Version {
    /// Reads a version from a text that holds nothing else.
    pub fn parse(text: &str) -> (r: Result<Version, UpdateError>)
        ensures
            result_view(r) == parse_spec(text@),
    {
        version_from_parsed(semver_numbers(text))
    }
}

/// The text of the first version in `tag`: the first place where three runs
/// of decimal digits stand with a dot between each two of them.
pub fn extract_text(tag: &str) -> (r: Option<String>)
    ensures
        match r {
            Some(text) => first_version_text(tag@) == Some(text@),
            None => first_version_text(tag@) is None,
        },
{
    let chars = chars_of(tag);
    match find_version(chars.as_slice()) {
        Some((start, end)) => Some(string_of(chars.as_slice(), start, end)),
        None => None,
    }
}

/// Reads the first version in `tag`, whatever stands before or behind it.
/// Fails with a parse error where no version stands in `tag`, or where its
/// text is refused as a version.
pub fn extract(tag: &str) -> (r: Result<Version, UpdateError>)
    ensures
        result_view(r) == extract_spec(tag@),
{
    match extract_text(tag) {
        Some(text) => Version::parse(text.as_str()),
        None => Err(UpdateError::new(ErrorKind::Parse, "No version number found")),
    }
}

} // verus!
