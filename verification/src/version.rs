//! Semantic versions of firmware builds.
//!
//! Versions are read and ordered by the `semver` crate. A [`Version`] keeps
//! what the crate made of a text as plain values, so that contracts can speak
//! of them.

use std::cmp::Ordering;
use vstd::prelude::*;

verus! {

/// The mathematical content of a version: its three numbers, and the
/// pre-release and build identifiers, each empty when absent.
pub struct VersionView {
    pub major: nat,
    pub minor: nat,
    pub patch: nat,
    pub pre: Seq<char>,
    pub build: Seq<char>,
}

/// What `semver::Version::parse` makes of a text: the version's content where
/// the crate accepts the text, `None` where it refuses it.
pub uninterp spec fn parsed_version(text: Seq<char>) -> Option<VersionView>;

/// Where `semver`'s `Ord` places `a` relative to `b`: -1 below, 0 equal,
/// 1 above.
pub uninterp spec fn version_order(a: VersionView, b: VersionView) -> int;

/// How two versions compare.
#[derive(Clone, Copy, Debug, PartialEq, Eq, Structural)]
pub enum Precedence {
    Lower,
    Same,
    Higher,
}

impl Precedence {
    /// -1, 0 or 1.
    pub open spec fn sign(self) -> int {
        match self {
            Precedence::Lower => -1,
            Precedence::Same => 0,
            Precedence::Higher => 1,
        }
    }
}

/// The three numbers of `a`, read left to right, against those of `b`.
pub open spec fn numbers_order(a: VersionView, b: VersionView) -> int {
    if a.major != b.major {
        if a.major < b.major { -1 } else { 1 }
    } else if a.minor != b.minor {
        if a.minor < b.minor { -1 } else { 1 }
    } else if a.patch != b.patch {
        if a.patch < b.patch { -1 } else { 1 }
    } else {
        0
    }
}

/// What one comparison of `a` with `b` tells: its outcome `r`, the outcome of
/// the reverse comparison, and how the pair chains with any third version.
pub open spec fn compared(r: Precedence, a: VersionView, b: VersionView) -> bool {
    &&& r.sign() == version_order(a, b)
    &&& version_order(b, a) == -r.sign()
    &&& (r.sign() == 0) == (a == b)
    &&& numbers_order(a, b) != 0 ==> r.sign() == numbers_order(a, b)
    &&& forall|c: VersionView|
        r.sign() <= 0 && #[trigger] version_order(b, c) <= 0 ==> version_order(a, c) <= 0
    &&& forall|c: VersionView|
        r.sign() >= 0 && #[trigger] version_order(c, b) <= 0 ==> version_order(c, a) <= 0
    &&& forall|c: VersionView|
        r.sign() > 0 && #[trigger] version_order(c, b) <= 0 ==> version_order(c, a) < 0
}

/// A semantic version that the `semver` crate has accepted.
#[derive(Debug)]
pub struct Version {
    major: u64,
    minor: u64,
    patch: u64,
    pre: String,
    build: String,
    text: String,
}

impl View for Version {
    type V = VersionView;

    closed spec fn view(&self) -> VersionView {
        VersionView {
            major: self.major as nat,
            minor: self.minor as nat,
            patch: self.patch as nat,
            pre: self.pre@,
            build: self.build@,
        }
    }
}

/// Why a text is no version, in the words of the `semver` crate.
#[derive(Debug)]
pub struct ParseFailure {
    pub reason: String,
}

/// The error of `semver::Version::parse`, carried as it is.
#[verifier::external_type_specification]
#[verifier::external_body]
pub struct ExSemverError(semver::Error);

/// Calls `semver::Version::parse` and copies the fields of what it returns.
/// Trusted: the outcome is a function of the text alone, named
/// `parsed_version`.
#[verifier::external_body]
fn semver_parse(text: &str) -> (r: Result<Version, semver::Error>)
    ensures
        r matches Ok(v) ==> parsed_version(text@) == Some(v@) && v.text_view() == text@,
        r is Err ==> parsed_version(text@) is None,
{
    match semver::Version::parse(text) {
        Ok(v) => Ok(
            Version {
                major: v.major,
                minor: v.minor,
                patch: v.patch,
                pre: v.pre.as_str().to_owned(),
                build: v.build.as_str().to_owned(),
                text: text.to_owned(),
            },
        ),
        Err(e) => Err(e),
    }
}

/// Calls the `Display` of `semver::Error`. Nothing is claimed of the words.
#[verifier::external_body]
fn semver_error_text(error: &semver::Error) -> String {
    error.to_string()
}

/// Calls `Ord::cmp` of `semver::Version` on the two versions, each read again
/// from its own text. Trusted, of the outcome of this call: it is
/// `version_order` of the two contents; the reverse comparison gives the
/// opposite; it is zero exactly for equal contents; where the three numbers
/// differ they decide; and it chains with any third version, as the crate
/// documents under "Total ordering".
#[verifier::external_body]
fn semver_order(a: &Version, b: &Version) -> (r: Precedence)
    requires
        a.well_formed(),
        b.well_formed(),
    ensures
        r.sign() == version_order(a@, b@),
        version_order(b@, a@) == -r.sign(),
        (r.sign() == 0) == (a@ == b@),
        numbers_order(a@, b@) != 0 ==> r.sign() == numbers_order(a@, b@),
        forall|c: VersionView|
            r.sign() <= 0 && #[trigger] version_order(b@, c) <= 0 ==> version_order(a@, c) <= 0,
        forall|c: VersionView|
            r.sign() >= 0 && #[trigger] version_order(c, b@) <= 0 ==> version_order(c, a@) <= 0,
        forall|c: VersionView|
            r.sign() > 0 && #[trigger] version_order(c, b@) <= 0 ==> version_order(c, a@) < 0,
{
    let x = semver::Version::parse(&a.text).unwrap();
    let y = semver::Version::parse(&b.text).unwrap();
    match x.cmp(&y) {
        Ordering::Less => Precedence::Lower,
        Ordering::Equal => Precedence::Same,
        Ordering::Greater => Precedence::Higher,
    }
}

impl Version {
    /// The text that the version was read from.
    pub closed spec fn text_view(&self) -> Seq<char> {
        self.text@
    }

    /// Every version is what `semver` makes of its own text.
    #[verifier::type_invariant]
    pub closed spec fn well_formed(&self) -> bool {
        parsed_version(self.text@) == Some(self@)
    }

    /// Reads a version from its text.
    pub fn parse(text: &str) -> (r: Result<Version, ParseFailure>)
        ensures
            r matches Ok(v) ==> parsed_version(text@) == Some(v@) && v.text_view() == text@,
            r is Err <==> parsed_version(text@) is None,
    {
        match semver_parse(text) {
            Ok(v) => Ok(v),
            Err(e) => Err(ParseFailure { reason: semver_error_text(&e) }),
        }
    }

    /// Places `self` relative to `other` in the order of `semver`.
    pub fn compare(&self, other: &Version) -> (r: Precedence)
        ensures
            compared(r, self@, other@),
    {
        proof {
            use_type_invariant(self);
            use_type_invariant(other);
        }
        semver_order(self, other)
    }

    /// Whether the two versions agree in every part.
    pub fn same(&self, other: &Version) -> (r: bool)
        ensures
            r == (self@ == other@),
    {
        self.major == other.major && self.minor == other.minor && self.patch == other.patch
            && self.pre == other.pre && self.build == other.build
    }

    pub fn major(&self) -> (r: u64)
        ensures
            r == self@.major,
    {
        self.major
    }

    pub fn minor(&self) -> (r: u64)
        ensures
            r == self@.minor,
    {
        self.minor
    }

    pub fn patch(&self) -> (r: u64)
        ensures
            r == self@.patch,
    {
        self.patch
    }

    /// The pre-release identifiers, empty for a release.
    pub fn pre(&self) -> (r: &str)
        ensures
            r@ == self@.pre,
    {
        self.pre.as_str()
    }

    /// The build metadata, empty when there is none.
    pub fn build(&self) -> (r: &str)
        ensures
            r@ == self@.build,
    {
        self.build.as_str()
    }

    /// The version as it is written.
    pub fn text(&self) -> (r: &str)
        ensures
            r@ == self.text_view(),
    {
        self.text.as_str()
    }

    /// A copy of the version.
    pub fn duplicate(&self) -> (r: Version)
        ensures
            r@ == self@,
            r.text_view() == self.text_view(),
    {
        proof {
            use_type_invariant(self);
        }
        Version {
            major: self.major,
            minor: self.minor,
            patch: self.patch,
            pre: self.pre.clone(),
            build: self.build.clone(),
            text: self.text.clone(),
        }
    }
}

} // verus!
