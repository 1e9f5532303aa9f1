//! Kernel versions: three numbers ordered from left to right, and how one is
//! read from what a kernel binary prints.
//!
//! The text is searched with the `regex` crate and its numbers are read by the
//! `semver` crate; the shape of what is handed from one to the other is checked
//! here.

use crate::text::{chars_of, decimal_value, leading_run, run_from, CharClass};
use regex::Regex;
use semver::Version;
use vstd::prelude::*;

verus! {

/// A kernel version: major, minor and patch number.
#[derive(Clone, Copy, Debug, PartialEq, Eq, Structural)]
pub struct KernelVersion {
    pub major: u64,
    pub minor: u64,
    pub patch: u64,
}

impl KernelVersion {
    /// The version `0.0.0`, below which no version lies.
    pub open spec fn zero() -> KernelVersion {
        KernelVersion { major: 0, minor: 0, patch: 0 }
    }

    /// Whether `self` is strictly newer than `other`: the numbers are compared
    /// from left to right, and the first that differs decides.
    pub open spec fn newer_than(self, other: KernelVersion) -> bool {
        ||| self.major > other.major
        ||| (self.major == other.major && self.minor > other.minor)
        ||| (self.major == other.major && self.minor == other.minor && self.patch > other.patch)
    }

    /// The version with the given numbers.
    pub fn new(major: u64, minor: u64, patch: u64) -> (v: KernelVersion)
        ensures
            v == (KernelVersion { major, minor, patch }),
    {
        KernelVersion { major, minor, patch }
    }

    /// Whether `self` is strictly newer than `other`.
    pub fn is_newer_than(&self, other: &KernelVersion) -> (b: bool)
        ensures
            b == self.newer_than(*other),
    {
        self.major > other.major
            || (self.major == other.major && self.minor > other.minor)
            || (self.major == other.major && self.minor == other.minor
                && self.patch > other.patch)
    }
}

/// The pattern that finds the version in the output of a kernel binary: the
/// word `Version:`, white space if there is any, and three numbers with dots
/// between them. The numbers with their dots are the first capture group.
pub const VERSION_PATTERN: &'static str = "Version:\\s*(\\d+\\.\\d+\\.\\d+)";

/// The value of one number of a version: none where the digits start with a
/// superfluous zero or denote more than a `u64` holds.
pub open spec fn component_value(digits: Seq<char>) -> Option<u64> {
    if digits.len() > 1 && digits[0] == '0' {
        None
    } else if decimal_value(digits) > u64::MAX {
        None
    } else {
        Some(decimal_value(digits) as u64)
    }
}

/// The three parts of a text that is cut after its first run of digits and
/// again after the run that follows: what stands before the first cut, between
/// the cuts and after the second, the characters at the cuts left out.
pub open spec fn core_parts(s: Seq<char>) -> (Seq<char>, Seq<char>, Seq<char>) {
    let a = leading_run(s, CharClass::Digit) as int;
    let rest = s.skip(a + 1);
    let b = leading_run(rest, CharClass::Digit) as int;
    (s.take(a), rest.take(b), rest.skip(b + 1))
}

/// Whether `s` is three non-empty runs of decimal digits with a dot between
/// the first and the second and between the second and the third, and nothing
/// else.
pub open spec fn is_version_core(s: Seq<char>) -> bool {
    let a = leading_run(s, CharClass::Digit) as int;
    let rest = s.skip(a + 1);
    let b = leading_run(rest, CharClass::Digit) as int;
    let last = rest.skip(b + 1);
    &&& 0 < a < s.len()
    &&& s[a] == '.'
    &&& 0 < b < rest.len()
    &&& rest[b] == '.'
    &&& 0 < last.len()
    &&& leading_run(last, CharClass::Digit) == last.len()
}

/// The version that a text of that shape denotes, if each of its numbers has
/// a value.
pub open spec fn version_of_core(s: Seq<char>) -> Option<KernelVersion> {
    let (major, minor, patch) = core_parts(s);
    match (component_value(major), component_value(minor), component_value(patch)) {
        (Some(a), Some(b), Some(c)) => Some(KernelVersion { major: a, minor: b, patch: c }),
        _ => None,
    }
}

/// The version that a text denotes: none unless the text has the shape
/// [`is_version_core`].
pub open spec fn version_of_text(text: Seq<char>) -> Option<KernelVersion> {
    if is_version_core(text) {
        version_of_core(text)
    } else {
        None
    }
}

/// What the `regex` crate captures: the text of group `group` in the leftmost
/// match of `pattern` in `haystack`. None where the pattern does not compile,
/// where it matches nowhere, or where the group took no part in the match.
pub uninterp spec fn regex_group(pattern: Seq<char>, haystack: Seq<char>, group: usize) -> Option<
    Seq<char>,
>;

/// The version that the output of a kernel binary reports.
pub open spec fn version_of_output(stdout: Seq<char>) -> Option<KernelVersion> {
    match regex_group(VERSION_PATTERN@, stdout, 1) {
        Some(text) => version_of_text(text),
        None => None,
    }
}

/// Compiles `pattern` with `regex::Regex::new`, searches `haystack` with
/// `Regex::captures` and hands out the text of group `group` (`Captures::get`,
/// `Match::as_str`). Nothing is claimed of the result but that it is the one
/// named [`regex_group`]: the same pattern, haystack and group always give the
/// same capture.
#[verifier::external_body]
fn regex_capture(pattern: &str, haystack: &str, group: usize) -> (r: Option<String>)
    ensures
        (match r {
            Some(text) => Some(text@),
            None => None,
        }) == regex_group(pattern@, haystack@, group),
{
    match Regex::new(pattern) {
        Ok(re) => match re.captures(haystack) {
            Some(caps) => match caps.get(group) {
                Some(found) => Some(found.as_str().to_string()),
                None => None,
            },
            None => None,
        },
        Err(_) => None,
    }
}

/// Reads a version with `semver::Version::parse`. On a text of the shape
/// [`is_version_core`] that function reads each run of digits as one number,
/// refuses a number written with a leading zero or too large for a `u64`, and
/// otherwise returns the three numbers with no pre-release and no build part.
#[verifier::external_body]
fn semver_parse(text: &str) -> (r: Option<KernelVersion>)
    requires
        is_version_core(text@),
    ensures
        r == version_of_core(text@),
{
    match Version::parse(text) {
        Ok(v) => Some(KernelVersion { major: v.major, minor: v.minor, patch: v.patch }),
        Err(_) => None,
    }
}

/// Whether `text` has the shape of a version: see [`is_version_core`].
pub fn has_version_shape(text: &str) -> (b: bool)
    ensures
        b == is_version_core(text@),
{
    let chars = chars_of(text);
    let n = chars.len();
    let a = run_from(&chars, 0, CharClass::Digit);
    assert(chars@.skip(0) =~= chars@);
    if a == 0 || a >= n || chars[a] != '.' {
        return false;
    }
    let ghost rest = chars@.skip(a + 1);
    let b = run_from(&chars, a + 1, CharClass::Digit);
    if b == 0 || a + 1 + b >= n || chars[a + 1 + b] != '.' {
        return false;
    }
    assert(rest[b as int] == chars@[a + 1 + b]);
    let ghost last = rest.skip(b + 1);
    assert(last =~= chars@.skip(a + 1 + b + 1));
    let c = run_from(&chars, a + 1 + b + 1, CharClass::Digit);
    c > 0 && a + 1 + b + 1 + c == n
}

/// The version that `text` denotes: the three numbers of a text of the shape
/// `1.2.3`, none for any other text and none where a number is written with a
/// leading zero or does not fit a `u64`.
pub fn parse_version_text(text: &str) -> (r: Option<KernelVersion>)
    ensures
        r == version_of_text(text@),
{
    if has_version_shape(text) {
        semver_parse(text)
    } else {
        None
    }
}

/// The version that a kernel binary reports. `output` is what the binary
/// printed when started with the argument `version`, or none where it could
/// not be run. The version is searched with [`VERSION_PATTERN`] and what the
/// pattern captures is read by [`parse_version_text`].
pub fn get_binary_version(output: Option<&str>) -> (r: Option<KernelVersion>)
    ensures
        r == match output {
            Some(stdout) => version_of_output(stdout@),
            None => None,
        },
{
    match output {
        Some(stdout) => match regex_capture(VERSION_PATTERN, stdout, 1) {
            Some(text) => parse_version_text(text.as_str()),
            None => None,
        },
        None => None,
    }
}

} // verus!
