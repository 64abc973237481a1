//! Semantic versions: read and ordered by the `semver` crate, written by
//! this library.

use crate::text::{decimal, to_decimal};
use vstd::prelude::*;
use vstd::string::*;

verus! {

/// A semantic version: three numbers, and the pre-release and build
/// identifiers, each empty where the version has none.
#[derive(Debug, PartialEq, Eq)]
pub struct Version {
    pub major: u64,
    pub minor: u64,
    pub patch: u64,
    pub pre: String,
    pub build: String,
}

/// The mathematical value of a [`Version`].
pub ghost struct VersionView {
    pub major: nat,
    pub minor: nat,
    pub patch: nat,
    pub pre: Seq<char>,
    pub build: Seq<char>,
}

impl View for Version {
    type V = VersionView;

    open spec fn view(&self) -> VersionView {
        VersionView {
            major: self.major as nat,
            minor: self.minor as nat,
            patch: self.patch as nat,
            pre: self.pre@,
            build: self.build@,
        }
    }
}

/// What `semver::Version::parse` makes of `text`: the version it reads, or
/// `None` where it refuses the text.
pub uninterp spec fn semver_parse(text: Seq<char>) -> Option<VersionView>;

/// Whether `semver` orders the version `a` strictly before `b`; `None` where
/// `semver` refuses the pre-release or build identifiers of either.
pub uninterp spec fn semver_less(a: VersionView, b: VersionView) -> Option<bool>;

/// Whether `semver` accepts `v` as a version.
pub open spec fn is_semver(v: VersionView) -> bool {
    semver_less(v, v) is Some
}

/// Whether `a` comes strictly before `b` in semantic-version order.
pub open spec fn precedes(a: VersionView, b: VersionView) -> bool {
    semver_less(a, b) == Some(true)
}

/// Calls `semver::Version::parse` and copies the fields of its result.
/// The contract names the result, and claims that `semver` accepts the
/// identifiers of a version that it has read itself.
#[verifier::external_body]
fn semver_read(text: &str) -> (r: Option<Version>)
    ensures
        match r {
            Some(v) => semver_parse(text@) == Some(v@) && is_semver(v@),
            None => semver_parse(text@) is None,
        },
{
    match semver::Version::parse(text) {
        Ok(v) => Some(
            Version {
                major: v.major,
                minor: v.minor,
                patch: v.patch,
                pre: v.pre.as_str().to_owned(),
                build: v.build.as_str().to_owned(),
            },
        ),
        Err(_) => None,
    }
}

/// Rebuilds both versions as `semver::Version` and compares them with its
/// `<`. The contract names the result, and claims of it what makes `<` a
/// strict total order on the versions that `semver` accepts: it is defined
/// exactly where both are accepted, never holds between equal versions,
/// holds one way or the other between different ones, and is transitive.
#[verifier::external_body]
fn semver_before(a: &Version, b: &Version) -> (r: Option<bool>)
    ensures
        r == semver_less(a@, b@),
        r is Some <==> (is_semver(a@) && is_semver(b@)),
        a@ == b@ ==> r != Some(true),
        r == Some(false) && a@ != b@ ==> semver_less(b@, a@) == Some(true),
        forall|c: VersionView| r == Some(true) && precedes(b@, c) ==> precedes(a@, c),
{
    let pre = (semver::Prerelease::new(&a.pre), semver::Prerelease::new(&b.pre));
    let build = (semver::BuildMetadata::new(&a.build), semver::BuildMetadata::new(&b.build));
    match (pre, build) {
        ((Ok(ap), Ok(bp)), (Ok(ab), Ok(bb))) => {
            let x = semver::Version { major: a.major, minor: a.minor, patch: a.patch, pre: ap, build: ab };
            let y = semver::Version { major: b.major, minor: b.minor, patch: b.patch, pre: bp, build: bb };
            Some(x < y)
        },
        _ => None,
    }
}

/// A version as it is written: the three numbers in decimal, joined by
/// dots, then the pre-release identifiers after a hyphen and the build
/// identifiers after a plus sign, each only where the version has them.
pub open spec fn version_text(v: VersionView) -> Seq<char> {
    let numbers = decimal(v.major) + "."@ + decimal(v.minor) + "."@ + decimal(v.patch);
    let pre = if v.pre.len() > 0 {
        "-"@ + v.pre
    } else {
        Seq::empty()
    };
    let build = if v.build.len() > 0 {
        "+"@ + v.build
    } else {
        Seq::empty()
    };
    numbers + pre + build
}

impl Version {
    /// A version of three numbers, without pre-release or build identifiers.
    pub fn new(major: u64, minor: u64, patch: u64) -> (r: Version)
        ensures
            r@ == (VersionView {
                major: major as nat,
                minor: minor as nat,
                patch: patch as nat,
                pre: Seq::empty(),
                build: Seq::empty(),
            }),
    {
        Version { major, minor, patch, pre: String::new(), build: String::new() }
    }

    /// Writes this version as text.
    pub fn to_string(&self) -> (r: String)
        ensures
            r@ == version_text(self@),
    {
        let mut out = to_decimal(self.major);
        out.append(".");
        out.append(to_decimal(self.minor).as_str());
        out.append(".");
        out.append(to_decimal(self.patch).as_str());
        let ghost numbers = out@;
        if self.pre.as_str().unicode_len() > 0 {
            out.append("-");
            out.append(self.pre.as_str());
        }
        let ghost with_pre = out@;
        if self.build.as_str().unicode_len() > 0 {
            out.append("+");
            out.append(self.build.as_str());
        }
        proof {
            let pre = if self@.pre.len() > 0 {
                "-"@ + self@.pre
            } else {
                Seq::empty()
            };
            let build = if self@.build.len() > 0 {
                "+"@ + self@.build
            } else {
                Seq::empty()
            };
            assert(with_pre =~= numbers + pre);
            assert(out@ =~= with_pre + build);
        }
        out
    }

    /// Reads `text` as a semantic version.
    pub fn parse(text: &str) -> (r: Option<Version>)
        ensures
            match r {
                Some(v) => semver_parse(text@) == Some(v@) && is_semver(v@),
                None => semver_parse(text@) is None,
            },
    {
        semver_read(text)
    }

    /// Tests whether this version comes strictly before `other` in
    /// semantic-version order; `None` where either is no semantic version.
    pub fn before(&self, other: &Version) -> (r: Option<bool>)
        ensures
            r == semver_less(self@, other@),
            r is Some <==> (is_semver(self@) && is_semver(other@)),
            self@ == other@ ==> r != Some(true),
            r == Some(false) && self@ != other@ ==> precedes(other@, self@),
            forall|c: VersionView| r == Some(true) && precedes(other@, c) ==> precedes(self@, c),
    {
        semver_before(self, other)
    }

    /// A copy of this version.
    pub fn duplicate(&self) -> (r: Version)
        ensures
            r@ == self@,
    {
        Version {
            major: self.major,
            minor: self.minor,
            patch: self.patch,
            pre: self.pre.clone(),
            build: self.build.clone(),
        }
    }

    /// Tests whether two versions are the same in every part.
    pub fn same(&self, other: &Version) -> (r: bool)
        ensures
            r == (self@ == other@),
    {
        self.major == other.major && self.minor == other.minor && self.patch == other.patch
            && self.pre == other.pre && self.build == other.build
    }
}

} // verus!
