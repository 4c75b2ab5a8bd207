//! Versions of a release: parsing, text form, and the names derived from them.

use vstd::prelude::*;
use vstd::string::*;
use crate::error::VersionError;
use crate::text::{decimal, decimal_text};

verus! {

/// The kind of version bump that a release makes.
#[derive(Clone, Copy, Debug, PartialEq, Eq, Structural)]
pub enum VersionBump {
    /// Increment the major number.
    Major,
    /// Increment the minor number.
    Minor,
    /// Increment the patch number.
    Patch,
    /// Move to a pre-release of the next version.
    Prerelease,
    /// Set an exact version.
    Exact,
}

impl VersionBump {
    /// The name of the kind.
    pub open spec fn label(self) -> Seq<char> {
        match self {
            VersionBump::Major => "major"@,
            VersionBump::Minor => "minor"@,
            VersionBump::Patch => "patch"@,
            VersionBump::Prerelease => "prerelease"@,
            VersionBump::Exact => "exact"@,
        }
    }

    /// Computes [`VersionBump::label`].
    pub fn name(self) -> (s: String)
        ensures
            s@ == self.label(),
    {
        match self {
            VersionBump::Major => String::from_str("major"),
            VersionBump::Minor => String::from_str("minor"),
            VersionBump::Patch => String::from_str("patch"),
            VersionBump::Prerelease => String::from_str("prerelease"),
            VersionBump::Exact => String::from_str("exact"),
        }
    }
}

/// A semantic version held as plain values.
#[derive(Debug)]
pub struct Version {
    /// Major number.
    pub major: u64,
    /// Minor number.
    pub minor: u64,
    /// Patch number.
    pub patch: u64,
    /// Pre-release tag, empty where there is none.
    pub pre: String,
    /// Build metadata, empty where there is none.
    pub build: String,
}

/// What `semver` makes of a text: the three numbers, the pre-release tag and
/// the build metadata of the version it reads, or `None` where it rejects
/// the text.
pub uninterp spec fn semver_parse(text: Seq<char>) -> Option<(u64, u64, u64, Seq<char>, Seq<char>)>;

/// Calls `semver::Version::parse` and copies the fields of the version it
/// returns. The contract gives the outcome the name `semver_parse`; the
/// parser reads nothing but the text.
#[verifier::external_body]
fn parse_semver(text: &str) -> (r: Result<Version, semver::Error>)
    ensures
        match r {
            Ok(v) => semver_parse(text@) == Some(v.parts()),
            Err(_) => semver_parse(text@) is None,
        },
{
    match semver::Version::parse(text) {
        Ok(v) => Ok(
            Version {
                major: v.major,
                minor: v.minor,
                patch: v.patch,
                pre: v.pre.as_str().to_string(),
                build: v.build.as_str().to_string(),
            },
        ),
        Err(e) => Err(e),
    }
}

/// Where the last identifier of a pre-release tag begins: after its last dot.
pub open spec fn last_identifier_start(tag: Seq<char>) -> int
    decreases tag.len(),
{
    if tag.len() == 0 {
        0
    } else if tag.last() == '.' {
        tag.len() as int
    } else {
        last_identifier_start(tag.drop_last())
    }
}

/// The character is a decimal digit.
pub open spec fn is_digit(c: char) -> bool {
    48 <= c as u32 <= 57
}

/// The number that a run of digits stands for; `None` where a character is
/// no digit or the number does not fit.
pub open spec fn number_of(digits: Seq<char>) -> Option<u64>
    decreases digits.len(),
{
    if digits.len() == 0 {
        Some(0)
    } else {
        match number_of(digits.drop_last()) {
            Some(v) => if is_digit(digits.last()) && v * 10 + (digits.last() as u32 - 48) <= u64::MAX {
                Some((v * 10 + (digits.last() as u32 - 48)) as u64)
            } else {
                None
            },
            None => None,
        }
    }
}

/// The pre-release tag that follows `tag`. Where the last identifier of
/// `tag` is a number, that number goes up by one; where it is not, `.0` is
/// added. `None` where the number is at its limit.
pub open spec fn next_tag(tag: Seq<char>) -> Option<Seq<char>> {
    let start = last_identifier_start(tag);
    let last = tag.subrange(start, tag.len() as int);
    if last.len() > 0 && number_of(last) is Some {
        if number_of(last).unwrap() < u64::MAX {
            Some(tag.subrange(0, start) + decimal_text((number_of(last).unwrap() + 1) as nat))
        } else {
            None
        }
    } else {
        Some(tag + ".0"@)
    }
}

/// Computes [`next_tag`].
fn move_tag_on(tag: &str) -> (r: Option<String>)
    ensures
        match next_tag(tag@) {
            Some(next) => r matches Some(s) && s@ == next,
            None => r is None,
        },
{
    let n = tag.unicode_len();
    let mut start: usize = n;
    let mut searching = true;
    assert(tag@.subrange(0, n as int) =~= tag@);
    while searching && start > 0
        invariant
            start <= n,
            n == tag@.len(),
            last_identifier_start(tag@) == last_identifier_start(tag@.subrange(0, start as int)),
            !searching ==> start > 0 && tag@[start - 1] == '.',
        decreases start, (if searching {
            1int
        } else {
            0int
        }),
    {
        let ghost head = tag@.subrange(0, start as int);
        if tag.get_char(start - 1) == '.' {
            searching = false;
        } else {
            assert(head.drop_last() =~= tag@.subrange(0, start - 1));
            start = start - 1;
        }
    }
    proof {
        let head = tag@.subrange(0, start as int);
        if start > 0 && !searching {
            assert(head.last() == '.');
        }
        assert(tag@.subrange(0, n as int) =~= tag@);
    }
    assert(last_identifier_start(tag@) == start);
    let ghost last = tag@.subrange(start as int, n as int);
    let mut value: u64 = 0;
    let mut numeric = true;
    let mut j: usize = start;
    while j < n
        invariant
            start <= j <= n,
            n == tag@.len(),
            number_of(tag@.subrange(start as int, j as int)) == (if numeric {
                Some(value)
            } else {
                None::<u64>
            }),
        decreases n - j,
    {
        let c = tag.get_char(j);
        let code: u32 = c as u32;
        proof {
            let grown = tag@.subrange(start as int, j + 1);
            assert(grown.drop_last() =~= tag@.subrange(start as int, j as int));
            assert(grown.last() == c);
        }
        if numeric {
            if 48 <= code && code <= 57 {
                let d: u64 = (code - 48) as u64;
                match value.checked_mul(10) {
                    Some(tens) => match tens.checked_add(d) {
                        Some(sum) => {
                            value = sum;
                        },
                        None => {
                            numeric = false;
                        },
                    },
                    None => {
                        numeric = false;
                    },
                }
            } else {
                numeric = false;
            }
        }
        j = j + 1;
    }
    if start < n && numeric {
        match value.checked_add(1) {
            Some(next) => {
                let head = tag.substring_char(0, start);
                Some(String::from_str(head).concat(decimal(next).as_str()))
            },
            None => None,
        }
    } else {
        Some(String::from_str(tag).concat(".0"))
    }
}

impl Version {
    /// The five parts of the version as plain values.
    pub open spec fn parts(self) -> (u64, u64, u64, Seq<char>, Seq<char>) {
        (self.major, self.minor, self.patch, self.pre@, self.build@)
    }

    /// The text form: the three numbers joined by dots, then the pre-release
    /// tag after a hyphen and the build metadata after a plus sign, each only
    /// where it is not empty.
    pub open spec fn text(self) -> Seq<char> {
        let numbers = decimal_text(self.major as nat) + "."@ + decimal_text(self.minor as nat) + "."@
            + decimal_text(self.patch as nat);
        let tagged = if self.pre@.len() == 0 {
            numbers
        } else {
            numbers + "-"@ + self.pre@
        };
        if self.build@.len() == 0 {
            tagged
        } else {
            tagged + "+"@ + self.build@
        }
    }

    /// A release version without pre-release tag or build metadata.
    pub fn new(major: u64, minor: u64, patch: u64) -> (v: Version)
        ensures
            v.parts() == (major, minor, patch, Seq::<char>::empty(), Seq::<char>::empty()),
    {
        Version { major, minor, patch, pre: String::new(), build: String::new() }
    }

    /// A copy of this version.
    pub fn duplicate(&self) -> (v: Version)
        ensures
            v == *self,
    {
        Version {
            major: self.major,
            minor: self.minor,
            patch: self.patch,
            pre: self.pre.clone(),
            build: self.build.clone(),
        }
    }

    /// Turns the outcome of the parser into the library's result: the
    /// version as it is, or `ParseFailed` with the text that was rejected.
    pub fn from_parse_result(text: &str, parsed: Result<Version, semver::Error>) -> (r: Result<
        Version,
        VersionError,
    >)
        ensures
            match (parsed, r) {
                (Ok(v), Ok(w)) => w == v,
                (Err(e), Err(VersionError::ParseFailed { version, source })) => version@ == text@
                    && source == e,
                _ => false,
            },
    {
        match parsed {
            Ok(v) => Ok(v),
            Err(e) => Err(VersionError::ParseFailed { version: String::from_str(text), source: e }),
        }
    }

    /// Reads a version from its text form.
    pub fn parse(text: &str) -> (r: Result<Version, VersionError>)
        ensures
            match r {
                Ok(v) => semver_parse(text@) == Some(v.parts()),
                Err(VersionError::ParseFailed { version, .. }) => semver_parse(text@) is None
                    && version@ == text@,
                Err(_) => false,
            },
    {
        let parsed = parse_semver(text);
        Version::from_parse_result(text, parsed)
    }

    /// Writes the version in its text form.
    pub fn to_text(&self) -> (s: String)
        ensures
            s@ == self.text(),
    {
        let mut s = decimal(self.major);
        s.append(".");
        s.append(decimal(self.minor).as_str());
        s.append(".");
        s.append(decimal(self.patch).as_str());
        if !self.pre.as_str().is_empty() {
            s.append("-");
            s.append(self.pre.as_str());
        }
        if !self.build.as_str().is_empty() {
            s.append("+");
            s.append(self.build.as_str());
        }
        s
    }

    /// The version after a bump, as its three numbers and its pre-release
    /// tag; build metadata is dropped.
    ///
    /// A major, minor or patch bump raises the number that it names by one
    /// and returns the numbers after it to zero; the result bears no tag. A
    /// pre-release bump of a version without tag leads to the first
    /// pre-release, `0`, of the next patch; that of a tagged version keeps
    /// the numbers and moves the tag on (see [`next_tag`]). `None` where a
    /// number is at its limit, and for an exact version, which only the
    /// caller can name.
    pub open spec fn bumped(self, bump: VersionBump) -> Option<(u64, u64, u64, Seq<char>)> {
        match bump {
            VersionBump::Major => if self.major < u64::MAX {
                Some(((self.major + 1) as u64, 0u64, 0u64, Seq::empty()))
            } else {
                None
            },
            VersionBump::Minor => if self.minor < u64::MAX {
                Some((self.major, (self.minor + 1) as u64, 0u64, Seq::empty()))
            } else {
                None
            },
            VersionBump::Patch => if self.patch < u64::MAX {
                Some((self.major, self.minor, (self.patch + 1) as u64, Seq::empty()))
            } else {
                None
            },
            VersionBump::Prerelease => if self.pre@.len() == 0 {
                if self.patch < u64::MAX {
                    Some((self.major, self.minor, (self.patch + 1) as u64, "0"@))
                } else {
                    None
                }
            } else {
                match next_tag(self.pre@) {
                    Some(tag) => Some((self.major, self.minor, self.patch, tag)),
                    None => None,
                }
            },
            VersionBump::Exact => None,
        }
    }

    /// The version that a bump of this version leads to. Fails with
    /// `UnsupportedBump` exactly where [`Version::bumped`] gives nothing.
    pub fn bump(&self, bump: VersionBump) -> (r: Result<Version, VersionError>)
        ensures
            match self.bumped(bump) {
                Some(next) => r matches Ok(v) && v.parts() == (
                    next.0,
                    next.1,
                    next.2,
                    next.3,
                    Seq::<char>::empty(),
                ),
                None => r matches Err(VersionError::UnsupportedBump { bump: kind, version })
                    && kind@ == bump.label() && version@ == self.text(),
            },
    {
        let next: Option<Version> = match bump {
            VersionBump::Major => match self.major.checked_add(1) {
                Some(major) => Some(Version::new(major, 0, 0)),
                None => None,
            },
            VersionBump::Minor => match self.minor.checked_add(1) {
                Some(minor) => Some(Version::new(self.major, minor, 0)),
                None => None,
            },
            VersionBump::Patch => match self.patch.checked_add(1) {
                Some(patch) => Some(Version::new(self.major, self.minor, patch)),
                None => None,
            },
            VersionBump::Prerelease => {
                if self.pre.as_str().is_empty() {
                    match self.patch.checked_add(1) {
                        Some(patch) => Some(
                            Version {
                                major: self.major,
                                minor: self.minor,
                                patch,
                                pre: String::from_str("0"),
                                build: String::new(),
                            },
                        ),
                        None => None,
                    }
                } else {
                    match move_tag_on(self.pre.as_str()) {
                        Some(pre) => Some(
                            Version {
                                major: self.major,
                                minor: self.minor,
                                patch: self.patch,
                                pre,
                                build: String::new(),
                            },
                        ),
                        None => None,
                    }
                }
            },
            VersionBump::Exact => None,
        };
        match next {
            Some(version) => Ok(version),
            None => Err(VersionError::UnsupportedBump { bump: bump.name(), version: self.to_text() }),
        }
    }

    /// The name of the tag that marks this version: `v` and the text form.
    pub open spec fn tag(self) -> Seq<char> {
        "v"@ + self.text()
    }

    /// Computes [`Version::tag`].
    pub fn tag_name(&self) -> (s: String)
        ensures
            s@ == self.tag(),
    {
        String::from_str("v").concat(self.to_text().as_str())
    }
}

} // verus!
