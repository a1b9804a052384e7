//! Three-component versions and their canonical text.

use vstd::prelude::*;

verus! {

/// The character of a single decimal digit.
pub open spec fn digit_char(d: nat) -> char {
    if d == 0 { '0' }
    else if d == 1 { '1' }
    else if d == 2 { '2' }
    else if d == 3 { '3' }
    else if d == 4 { '4' }
    else if d == 5 { '5' }
    else if d == 6 { '6' }
    else if d == 7 { '7' }
    else if d == 8 { '8' }
    else { '9' }
}

/// The decimal digits of `n`, without leading zeros.
pub open spec fn decimal_text(n: nat) -> Seq<char>
    decreases n,
{
    if n < 10 {
        seq![digit_char(n)]
    } else {
        decimal_text(n / 10) + seq![digit_char(n % 10)]
    }
}

/// The canonical text `major.minor.patch`.
pub open spec fn version_text(major: u64, minor: u64, patch: u64) -> Seq<char> {
    decimal_text(major as nat) + seq!['.'] + decimal_text(minor as nat) + seq!['.']
        + decimal_text(patch as nat)
}

/// What `semver::Version::parse` makes of a text: the three numbers, the
/// pre-release text and the build-metadata text, or `None` where it fails.
pub uninterp spec fn semver_parse(s: Seq<char>) -> Option<(u64, u64, u64, Seq<char>, Seq<char>)>;

/// `r` is what `semver` reads in `s`, in plain values.
pub open spec fn reads_as(s: Seq<char>, r: Option<(u64, u64, u64, String, String)>) -> bool {
    match r {
        None => semver_parse(s) is None,
        Some(p) => semver_parse(s) == Some((p.0, p.1, p.2, p.3@, p.4@)),
    }
}

/// Where `s` is the canonical text of three numbers, `r` holds exactly those
/// numbers and no pre-release or build metadata.
pub open spec fn canonical_reading(s: Seq<char>, r: Option<(u64, u64, u64, String, String)>) -> bool {
    forall|a: u64, b: u64, c: u64|
        #[trigger] version_text(a, b, c) == s ==> (r matches Some(p) && p.0 == a && p.1 == b
            && p.2 == c && p.3@.len() == 0 && p.4@.len() == 0)
}

/// Relies on `semver::Version::parse`: the result is a function of the text,
/// and the canonical text `a.b.c` parses to exactly `a`, `b`, `c` with empty
/// pre-release and build metadata.
#[verifier::external_body]
fn parse_semver(s: &str) -> (r: Option<(u64, u64, u64, String, String)>)
    ensures
        r is None <==> semver_parse(s@) is None,
        reads_as(s@, r),
        canonical_reading(s@, r),
{
    match semver::Version::parse(s) {
        Ok(v) => Some((v.major, v.minor, v.patch, v.pre.as_str().to_string(), v.build.as_str().to_string())),
        Err(_) => None,
    }
}

/// Relies on `semver::Version`'s `Display`: a version without pre-release or
/// build metadata is written `major.minor.patch` in plain decimal.
#[verifier::external_body]
fn render_semver(major: u64, minor: u64, patch: u64) -> (r: String)
    ensures
        r@ == version_text(major, minor, patch),
{
    semver::Version::new(major, minor, patch).to_string()
}

/// A version `major.minor.patch`, ordered component by component.
#[derive(PartialEq, Eq, Structural, Clone, Copy, Debug, PartialOrd, Ord, Hash)]
pub struct Version {
    pub major: u64,
    pub minor: u64,
    pub patch: u64,
}

/// A text that does not parse as a three-component version.
#[derive(Clone, Debug)]
pub struct VersionError {
    pub text: String,
}

/// The version that a text denotes, if any: `semver`'s reading of it, kept
/// only where it has neither pre-release nor build metadata.
pub open spec fn parsed_version(s: Seq<char>) -> Option<Version> {
    match semver_parse(s) {
        Some(p) => if p.3.len() == 0 && p.4.len() == 0 {
            Some(Version { major: p.0, minor: p.1, patch: p.2 })
        } else {
            None
        },
        None => None,
    }
}

impl Version {
    /// The canonical text of this version.
    pub open spec fn text(self) -> Seq<char> {
        version_text(self.major, self.minor, self.patch)
    }

    pub fn new(major: u64, minor: u64, patch: u64) -> (r: Version)
        ensures
            r == (Version { major, minor, patch }),
    {
        Version { major, minor, patch }
    }

    /// The canonical text `major.minor.patch`.
    pub fn to_text(&self) -> (r: String)
        ensures
            r@ == self.text(),
    {
        render_semver(self.major, self.minor, self.patch)
    }

    /// Parses a version. The canonical text of a version gives back that
    /// same version; any other text gives what `semver` reads in it, and an
    /// error where that reading fails or carries pre-release or build data.
    pub fn parse(s: &str) -> (r: Result<Version, VersionError>)
        ensures
            match parsed_version(s@) {
                Some(v) => r == Ok::<Version, VersionError>(v),
                None => r is Err && r->Err_0.text@ == s@,
            },
            forall|v: Version| #[trigger] v.text() == s@ ==> r == Ok::<Version, VersionError>(v),
    {
        match parse_semver(s) {
            Some(p) => {
                if p.3.as_str().unicode_len() == 0 && p.4.as_str().unicode_len() == 0 {
                    Ok(Version { major: p.0, minor: p.1, patch: p.2 })
                } else {
                    Err(VersionError { text: s.to_string() })
                }
            },
            None => Err(VersionError { text: s.to_string() }),
        }
    }
}

} // verus!
