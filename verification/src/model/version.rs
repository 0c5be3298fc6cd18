//! Version numbers that definitions declare.

use vstd::prelude::*;

verus! {

/// A version made of three numbers: major, minor and patch.
#[derive(Clone, Copy, Debug, PartialEq, Eq, Structural)]
pub struct Version {
    pub major: u64,
    pub minor: u64,
    pub patch: u64,
}

/// The ten decimal digits, each at the index of its value.
pub open spec fn decimal_digits() -> Seq<char> {
    seq!['0', '1', '2', '3', '4', '5', '6', '7', '8', '9']
}

/// The decimal text of a number, without leading zeros.
pub open spec fn decimal_text(value: nat) -> Seq<char>
    decreases value,
{
    if value < 10 {
        seq![decimal_digits()[value as int]]
    } else {
        decimal_text(value / 10).push(decimal_digits()[(value % 10) as int])
    }
}

/// The text of a version: its three numbers in decimal, joined by dots.
pub open spec fn version_text(version: Version) -> Seq<char> {
    decimal_text(version.major as nat) + seq!['.'] + decimal_text(version.minor as nat) + seq!['.']
        + decimal_text(version.patch as nat)
}

/// Formats through the `Display` impl of `semver::Version`, applied to
/// `semver::Version::new(major, minor, patch)`, which has neither a
/// pre-release nor build metadata. The contract claims the three numbers in
/// decimal, joined by dots.
#[verifier::external_body]
fn format_version(major: u64, minor: u64, patch: u64) -> (text: String)
    ensures
        text@ == version_text(Version { major, minor, patch }),
{
    semver::Version::new(major, minor, patch).to_string()
}

impl Version {
    /// The version with the given three numbers.
    pub fn new(major: u64, minor: u64, patch: u64) -> (version: Version)
        ensures
            version == (Version { major, minor, patch }),
    {
        Version { major, minor, patch }
    }

    /// The text of the version, such as `0.1.0`.
    pub fn to_string(&self) -> (text: String)
        ensures
            text@ == version_text(*self),
    {
        format_version(self.major, self.minor, self.patch)
    }
}

} // verus!
