//! Deciding whether a published release is newer than the running version.
//!
//! Fetching the latest release is the caller's part; this module strips the
//! `v` prefix of the release tag, parses both versions with `semver`, and
//! offers the release when it is newer.

use vstd::prelude::*;

use crate::text::spec_digits;

verus! {

pub const REPO_OWNER: &'static str = "arounre";
pub const REPO_NAME: &'static str = "controlay";

/// The HTTP status with which the release service refuses too many requests;
/// the check then ends quietly, without an error.
pub const RATE_LIMITED_STATUS: u16 = 403;

/// A release that is newer than the running version.
#[derive(Clone)]
pub struct UpdateInfo {
    pub version: String,
    pub url: String,
}

/// Why an update check failed.
#[derive(Debug)]
pub enum UpdateError {
    /// The request failed or the service answered with an error status.
    Request(String),
    /// A version string is not a SemVer version; the message says why.
    InvalidVersion(String),
}

#[verifier::external_type_specification]
#[verifier::external_body]
pub struct ExSemverVersion(semver::Version);

#[verifier::external_type_specification]
#[verifier::external_body]
pub struct ExSemverError(semver::Error);

/// Whether `semver::Version::parse` accepts `text`.
pub uninterp spec fn semver_parses(text: Seq<char>) -> bool;

/// Whether the version parsed from `a` is greater than the one parsed from
/// `b` in `semver::Version`'s ordering (major, minor, patch, pre-release, then
/// build metadata).
pub uninterp spec fn semver_greater(a: Seq<char>, b: Seq<char>) -> bool;

/// A parsed SemVer version together with the text it was parsed from, and
/// its major, minor and patch numbers.
struct ParsedVersion {
    version: semver::Version,
    text: String,
    major: u64,
    minor: u64,
    patch: u64,
}

/// The plain SemVer text of version numbers `(major, minor, patch)`, such as
/// `1.2.3`: three decimal numbers without leading zeros, joined by dots.
pub open spec fn version_text(n: (u64, u64, u64)) -> Seq<char> {
    spec_digits(n.0 as nat) + seq!['.'] + spec_digits(n.1 as nat) + seq!['.'] + spec_digits(
        n.2 as nat,
    )
}

/// `(a_major, a_minor, a_patch)` comes after `(b_major, b_minor, b_patch)`
/// in lexicographic order.
pub open spec fn numbers_after(a: (u64, u64, u64), b: (u64, u64, u64)) -> bool {
    ||| a.0 > b.0
    ||| a.0 == b.0 && a.1 > b.1
    ||| a.0 == b.0 && a.1 == b.1 && a.2 > b.2
}

impl ParsedVersion {
    /// The text this version was parsed from.
    spec fn source(&self) -> Seq<char> {
        self.text@
    }

    /// Its major, minor and patch numbers.
    spec fn numbers(&self) -> (u64, u64, u64) {
        (self.major, self.minor, self.patch)
    }
}

/// Whether the numbers of `a` come after those of `b`.
fn numbers_greater(a: &ParsedVersion, b: &ParsedVersion) -> (r: bool)
    ensures
        r == numbers_after(a.numbers(), b.numbers()),
{
    a.major > b.major || (a.major == b.major && (a.minor > b.minor || (a.minor == b.minor
        && a.patch > b.patch)))
}

/// Parses `text` with `semver::Version::parse`. The contract claims that the
/// parse succeeds exactly when `semver_parses` holds of the text, and that
/// the result remembers the text; the numbers are copied from the parsed
/// version's `major`, `minor` and `patch` fields. It also claims, from the
/// grammar in `parse.rs` (three dot-separated decimal numbers without leading
/// zeros, each fitting a `u64`, then nothing), that a plain version text
/// parses to its numbers. What the error holds is left unsaid.
#[verifier::external_body]
fn parse_version(text: &str) -> (r: Result<ParsedVersion, semver::Error>)
    ensures
        r is Ok <==> semver_parses(text@),
        r matches Ok(v) ==> v.source() == text@,
        r is Ok || !exists|n: (u64, u64, u64)| #[trigger] version_text(n) == text@,
        r matches Ok(v) ==> forall|n: (u64, u64, u64)|
            #[trigger] version_text(n) == text@ ==> v.numbers() == n,
{
    match semver::Version::parse(text) {
        Ok(version) => Ok(ParsedVersion {
            major: version.major,
            minor: version.minor,
            patch: version.patch,
            version,
            text: String::from(text),
        }),
        Err(e) => Err(e),
    }
}

/// Compares two parsed versions with `semver::Version`'s `>`. The contract
/// claims that the result is `semver_greater` of the texts they were parsed
/// from, and that it follows the derived ordering of `Version`, whose first
/// fields are major, minor and patch: when the numbers differ, they decide.
#[verifier::external_body]
fn version_greater(a: &ParsedVersion, b: &ParsedVersion) -> (r: bool)
    ensures
        r == semver_greater(a.source(), b.source()),
        numbers_after(a.numbers(), b.numbers()) ==> r,
        numbers_after(b.numbers(), a.numbers()) ==> !r,
{
    a.version > b.version
}

/// Formats a `semver::Error` with its `Display` implementation; nothing is
/// claimed of the message.
#[verifier::external_body]
fn semver_error_message(e: semver::Error) -> String {
    e.to_string()
}

/// `text` without its leading `v` characters.
pub open spec fn spec_strip_v(text: Seq<char>) -> Seq<char>
    decreases text.len(),
{
    if text.len() > 0 && text[0] == 'v' {
        spec_strip_v(text.drop_first())
    } else {
        text
    }
}

/// Removes every leading `v` from a release tag.
pub fn strip_v_prefix(tag: &str) -> (r: &str)
    ensures
        r@ == spec_strip_v(tag@),
{
    let n = tag.unicode_len();
    let mut i: usize = 0;
    assert(tag@.subrange(0, n as int) =~= tag@);
    while i < n && tag.get_char(i) == 'v'
        invariant
            n == tag@.len(),
            i <= n,
            spec_strip_v(tag@) == spec_strip_v(tag@.subrange(i as int, n as int)),
        decreases n - i,
    {
        assert(tag@.subrange(i as int, n as int).drop_first() =~= tag@.subrange(
            i + 1,
            n as int,
        ));
        i = i + 1;
    }
    tag.substring_char(i, n)
}

/// The outcome of comparing a release tag with the running version.
pub open spec fn spec_release_outcome(current: Seq<char>, tag: Seq<char>) -> Option<bool> {
    let remote = spec_strip_v(tag);
    if !semver_parses(remote) || !semver_parses(current) {
        None
    } else {
        Some(semver_greater(remote, current))
    }
}

/// Decides whether the release tagged `tag_name` (at `html_url`) is an update
/// for the running `current_version`: both versions must parse, and the
/// release is offered when it is greater.
pub fn evaluate_release(current_version: &str, tag_name: &str, html_url: String) -> (r: Result<
    Option<UpdateInfo>,
    UpdateError,
>)
    ensures
        r is Err <==> spec_release_outcome(current_version@, tag_name@) is None,
        r matches Ok(None) <==> spec_release_outcome(current_version@, tag_name@) == Some(false),
        r matches Ok(Some(info)) ==> {
            &&& spec_release_outcome(current_version@, tag_name@) == Some(true)
            &&& info.version@ == spec_strip_v(tag_name@)
            &&& info.url@ == html_url@
        },
        r matches Err(e) ==> e is InvalidVersion,
        forall|a: (u64, u64, u64), b: (u64, u64, u64)|
            #![trigger version_text(a), version_text(b)]
            version_text(a) == spec_strip_v(tag_name@) && version_text(b) == current_version@
                ==> {
                &&& numbers_after(a, b) ==> (r matches Ok(Some(_)))
                &&& numbers_after(b, a) ==> (r matches Ok(None))
            },
{
    let remote_text = strip_v_prefix(tag_name);
    let remote = match parse_version(remote_text) {
        Ok(v) => v,
        Err(e) => return Err(UpdateError::InvalidVersion(semver_error_message(e))),
    };
    let current = match parse_version(current_version) {
        Ok(v) => v,
        Err(e) => return Err(UpdateError::InvalidVersion(semver_error_message(e))),
    };
    // The numbers decide when they differ; pre-release and build metadata
    // only settle ties.
    let greater = version_greater(&remote, &current);
    let newer = if numbers_greater(&remote, &current) {
        true
    } else if numbers_greater(&current, &remote) {
        false
    } else {
        greater
    };
    proof {
        assert forall|a: (u64, u64, u64), b: (u64, u64, u64)|
            version_text(a) == spec_strip_v(tag_name@) && version_text(b) == current_version@
            implies remote.numbers() == a && current.numbers() == b by {
            assert(version_text(a) == remote_text@);
        }
    }
    if newer {
        Ok(Some(UpdateInfo { version: String::from_str(remote_text), url: html_url }))
    } else {
        Ok(None)
    }
}

/// Whether an answer with HTTP `status` ends the check quietly.
pub fn is_rate_limited(status: u16) -> (r: bool)
    ensures
        r == (status == RATE_LIMITED_STATUS),
{
    status == RATE_LIMITED_STATUS
}

} // verus!
