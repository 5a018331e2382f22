//! Semantic versions: parsed by the `semver` crate, ordered by precedence.
//!
//! A [`Version`] remembers the text it was parsed from next to the numbers
//! and identifiers the parser found in it, so that it can be written back
//! unchanged and compared without parsing again.

use std::cmp::Ordering;
use vstd::prelude::*;

verus! {

/// What a semantic version text stands for: three numbers, and the
/// pre-release and build identifiers (empty where the text has none).
pub struct SemVer {
    pub major: u64,
    pub minor: u64,
    pub patch: u64,
    pub pre: Seq<char>,
    pub build: Seq<char>,
}

/// How one version, number or identifier stands to another.
#[derive(Clone, Copy, Debug, PartialEq, Eq, Structural)]
pub enum Precedence {
    Lower,
    Same,
    Higher,
}

/// The error of a text that is no semantic version.
#[derive(Clone, Copy, Debug, PartialEq, Eq, Structural)]
pub struct InvalidVersion;

/// The result of `semver::Version::parse` on `text`: the fields of the
/// version it returns, or `None` where it returns an error.
pub uninterp spec fn semver_parse(text: Seq<char>) -> Option<SemVer>;

/// The order in which `semver` puts the pre-release identifiers `left` and
/// `right`; a text that is no pre-release identifier counts as the empty one.
pub uninterp spec fn prerelease_order(left: Seq<char>, right: Seq<char>) -> Precedence;

/// `semver::Error`, the error of its parsers. It is carried through as it
/// is; nothing is claimed of what it holds.
#[verifier::external_type_specification]
#[verifier::external_body]
pub struct ExSemverError(semver::Error);

/// How `a` stands to `b` as numbers.
pub open spec fn rank(a: u64, b: u64) -> Precedence {
    if a < b {
        Precedence::Lower
    } else if a == b {
        Precedence::Same
    } else {
        Precedence::Higher
    }
}

impl Precedence {
    /// `self` unless it is `Same`, in which case `next` decides.
    pub open spec fn or_spec(self, next: Precedence) -> Precedence {
        if self == Precedence::Same {
            next
        } else {
            self
        }
    }

    /// Returns `self` unless it is `Same`, in which case `next` decides.
    pub fn or(self, next: Precedence) -> (r: Precedence)
        ensures
            r == self.or_spec(next),
    {
        match self {
            Precedence::Same => next,
            _ => self,
        }
    }
}

impl SemVer {
    /// Major, then minor, then patch, the first difference deciding.
    pub open spec fn number_precedence(self, other: SemVer) -> Precedence {
        rank(self.major, other.major).or_spec(
            rank(self.minor, other.minor).or_spec(rank(self.patch, other.patch)),
        )
    }

    /// Semantic-version precedence: the numbers first, and between equal
    /// numbers the pre-release identifiers. Build identifiers play no part.
    pub open spec fn precedence(self, other: SemVer) -> Precedence {
        self.number_precedence(other).or_spec(prerelease_order(self.pre, other.pre))
    }

    /// `self` is older than `other`.
    pub open spec fn precedes(self, other: SemVer) -> bool {
        self.precedence(other) == Precedence::Lower
    }
}

/// Calls `semver::Version::parse` and hands out the fields of the version
/// it returns, or its error. Trusted: the outcome is the one that
/// [`semver_parse`] names for this text.
#[verifier::external_body]
fn semver_fields(text: &str) -> (r: Result<(u64, u64, u64, String, String), semver::Error>)
    ensures
        match r {
            Ok(f) => semver_parse(text@) == Some(
                (SemVer { major: f.0, minor: f.1, patch: f.2, pre: f.3@, build: f.4@ }),
            ),
            Err(_) => semver_parse(text@) is None,
        },
{
    match semver::Version::parse(text) {
        Ok(v) => Ok(
            (v.major, v.minor, v.patch, v.pre.as_str().to_owned(), v.build.as_str().to_owned()),
        ),
        Err(e) => Err(e),
    }
}

/// Compares two pre-release identifiers with `Ord::cmp` of
/// `semver::Prerelease`, each made by `semver::Prerelease::new`. Trusted:
/// the outcome is the one that [`prerelease_order`] names for the two texts,
/// and equal texts compare as `Same`.
#[verifier::external_body]
fn compare_prerelease(left: &str, right: &str) -> (r: Precedence)
    ensures
        r == prerelease_order(left@, right@),
        left@ == right@ ==> r == Precedence::Same,
{
    let a = semver::Prerelease::new(left).unwrap_or_default();
    let b = semver::Prerelease::new(right).unwrap_or_default();
    match a.cmp(&b) {
        Ordering::Less => Precedence::Lower,
        Ordering::Equal => Precedence::Same,
        Ordering::Greater => Precedence::Higher,
    }
}

/// Returns how `a` stands to `b`.
pub fn compare_numbers(a: u64, b: u64) -> (r: Precedence)
    ensures
        r == rank(a, b),
{
    if a < b {
        Precedence::Lower
    } else if a == b {
        Precedence::Same
    } else {
        Precedence::Higher
    }
}

/// A semantic version together with the text it was parsed from.
#[derive(Debug, PartialEq, Eq)]
pub struct Version {
    text: String,
    major: u64,
    minor: u64,
    patch: u64,
    pre: String,
    build: String,
}

impl View for Version {
    type V = SemVer;

    closed spec fn view(&self) -> SemVer {
        SemVer {
            major: self.major,
            minor: self.minor,
            patch: self.patch,
            pre: self.pre@,
            build: self.build@,
        }
    }
}

impl Clone for Version {
    fn clone(&self) -> (r: Self)
        ensures
            r == *self,
    {
        proof {
            use_type_invariant(self);
        }
        Version {
            text: self.text.clone(),
            major: self.major,
            minor: self.minor,
            patch: self.patch,
            pre: self.pre.clone(),
            build: self.build.clone(),
        }
    }
}

impl Version {
    /// The text this version was parsed from.
    pub closed spec fn text(&self) -> Seq<char> {
        self.text@
    }

    /// The fields are what the parser finds in the text. This holds of
    /// every version that a program can hold.
    #[verifier::type_invariant]
    pub open spec fn wf(&self) -> bool {
        semver_parse(self.text()) == Some(self@)
    }

    /// Parses a semantic version. Fails exactly on the texts that
    /// `semver` rejects.
    pub fn parse(text: &str) -> (r: Result<Version, InvalidVersion>)
        ensures
            match r {
                Ok(v) => v.wf() && v.text() == text@,
                Err(_) => semver_parse(text@) is None,
            },
    {
        match semver_fields(text) {
            Ok(f) => Ok(
                Version {
                    text: text.to_owned(),
                    major: f.0,
                    minor: f.1,
                    patch: f.2,
                    pre: f.3,
                    build: f.4,
                },
            ),
            Err(_) => Err(InvalidVersion),
        }
    }

    /// Returns the text this version was parsed from.
    pub fn as_str(&self) -> (s: &str)
        ensures
            s@ == self.text(),
    {
        self.text.as_str()
    }

    pub fn major(&self) -> (n: u64)
        ensures
            n == self@.major,
    {
        self.major
    }

    pub fn minor(&self) -> (n: u64)
        ensures
            n == self@.minor,
    {
        self.minor
    }

    pub fn patch(&self) -> (n: u64)
        ensures
            n == self@.patch,
    {
        self.patch
    }

    /// Returns the pre-release identifiers, empty where there are none.
    pub fn pre(&self) -> (s: &str)
        ensures
            s@ == self@.pre,
    {
        self.pre.as_str()
    }

    /// Returns the build identifiers, empty where there are none.
    pub fn build(&self) -> (s: &str)
        ensures
            s@ == self@.build,
    {
        self.build.as_str()
    }

    /// Returns how this version stands to `other` by precedence.
    pub fn precedence(&self, other: &Version) -> (r: Precedence)
        ensures
            r == self@.precedence(other@),
            self@.pre == other@.pre ==> r == self@.number_precedence(other@),
    {
        let by_number = compare_numbers(self.major, other.major).or(
            compare_numbers(self.minor, other.minor).or(compare_numbers(self.patch, other.patch)),
        );
        match by_number {
            Precedence::Same => compare_prerelease(self.pre.as_str(), other.pre.as_str()),
            _ => by_number,
        }
    }

    /// Tells whether this version is older than `other`.
    pub fn precedes(&self, other: &Version) -> (r: bool)
        ensures
            r == self@.precedes(other@),
            self@.pre == other@.pre ==> r == (self@.number_precedence(other@) == Precedence::Lower),
    {
        match self.precedence(other) {
            Precedence::Lower => true,
            _ => false,
        }
    }
}

} // verus!
