//! The supported ZooKeeper versions, their canonical text, and the rule that
//! decides which version changes are upgrades.

use crate::decimal::decimal_text;
use vstd::prelude::*;

verus! {

/// The numeric core `major.minor.patch` of a semantic version.
#[derive(Clone, Copy, Debug, PartialEq, Eq, Structural)]
pub struct SemVer {
    pub major: u64,
    pub minor: u64,
    pub patch: u64,
}

impl SemVer {
    /// Dotted text of the core, each number in base 10.
    pub open spec fn spec_text(self) -> Seq<char> {
        decimal_text(self.major as nat) + seq!['.'] + decimal_text(self.minor as nat) + seq!['.']
            + decimal_text(self.patch as nat)
    }

    /// Semantic-version precedence of cores: major first, then minor, then patch.
    pub open spec fn spec_precedes(self, other: SemVer) -> bool {
        ||| self.major < other.major
        ||| self.major == other.major && self.minor < other.minor
        ||| self.major == other.major && self.minor == other.minor && self.patch < other.patch
    }

    /// Whether `self` comes strictly before `other` in semantic-version order.
    pub fn precedes(&self, other: &SemVer) -> (r: bool)
        ensures
            r == self.spec_precedes(*other),
    {
        if self.major != other.major {
            self.major < other.major
        } else if self.minor != other.minor {
            self.minor < other.minor
        } else {
            self.patch < other.patch
        }
    }
}

#[verifier::external_type_specification]
#[verifier::external_body]
pub struct ExSemverError(semver::Error);

/// Relies on `semver::Version::parse`: a text made of three base-10 numbers
/// without leading zeros, joined by dots, with no pre-release or build part,
/// parses to the version with those numbers as major, minor and patch.
#[verifier::external_body]
fn parse_semver(text: &str) -> (r: Result<SemVer, semver::Error>)
    ensures
        forall|v: SemVer| #[trigger] v.spec_text() == text@ ==> r is Ok && r->Ok_0 == v,
{
    semver::Version::parse(text).map(|v| SemVer { major: v.major, minor: v.minor, patch: v.patch })
}

/// Why a version text or a version change was refused.
#[derive(Clone, Copy, Debug, PartialEq, Eq, Structural)]
pub enum VersionError {
    /// The text names none of the supported versions.
    UnknownVersion,
    /// The canonical text of a version is not a semantic version.
    ParseFailure,
}

/// The ZooKeeper versions that a cluster can run.
#[allow(non_camel_case_types)]
#[derive(Clone, Copy, Debug, PartialEq, Eq, Structural)]
pub enum ZooKeeperVersion {
    v3_4_14,
    v3_5_8,
}

/// The supported version whose canonical text is `text`, if there is one.
pub open spec fn version_of_text(text: Seq<char>) -> Option<ZooKeeperVersion> {
    if text == ZooKeeperVersion::v3_4_14.spec_text() {
        Some(ZooKeeperVersion::v3_4_14)
    } else if text == ZooKeeperVersion::v3_5_8.spec_text() {
        Some(ZooKeeperVersion::v3_5_8)
    } else {
        None
    }
}

/// Whether moving a cluster from version `from` to version `to` is an upgrade.
pub open spec fn upgrade_allowed(from: ZooKeeperVersion, to: ZooKeeperVersion) -> bool {
    from.spec_release().spec_precedes(to.spec_release())
}

impl ZooKeeperVersion {
    /// The release that this version names.
    pub open spec fn spec_release(self) -> SemVer {
        match self {
            ZooKeeperVersion::v3_4_14 => SemVer { major: 3, minor: 4, patch: 14 },
            ZooKeeperVersion::v3_5_8 => SemVer { major: 3, minor: 5, patch: 8 },
        }
    }

    /// Canonical text of the version, such as `3.4.14`.
    pub open spec fn spec_text(self) -> Seq<char> {
        self.spec_release().spec_text()
    }

    /// The canonical text of the version.
    pub fn to_string(&self) -> (r: String)
        ensures
            r@ == self.spec_text(),
    {
        assert(decimal_text(1) == seq!['1']);
        match self {
            ZooKeeperVersion::v3_4_14 => {
                let r = String::from_str("3.4.14");
                proof {
                    reveal_strlit("3.4.14");
                }
                assert(r@ =~= self.spec_text());
                r
            },
            ZooKeeperVersion::v3_5_8 => {
                let r = String::from_str("3.5.8");
                proof {
                    reveal_strlit("3.5.8");
                }
                assert(r@ =~= self.spec_text());
                r
            },
        }
    }

    /// The supported version whose canonical text is `s`; `UnknownVersion`
    /// when `s` names none of them.
    pub fn from_str(s: &str) -> (r: Result<ZooKeeperVersion, VersionError>)
        ensures
            r == match version_of_text(s@) {
                Some(v) => Ok::<ZooKeeperVersion, VersionError>(v),
                None => Err(VersionError::UnknownVersion),
            },
    {
        let text = String::from_str(s);
        if text == ZooKeeperVersion::v3_4_14.to_string() {
            Ok(ZooKeeperVersion::v3_4_14)
        } else if text == ZooKeeperVersion::v3_5_8.to_string() {
            Ok(ZooKeeperVersion::v3_5_8)
        } else {
            Err(VersionError::UnknownVersion)
        }
    }

    /// Whether moving from `self` to `to` is an upgrade: `true` exactly when
    /// `to` is a strictly later release. Staying on a version or going back
    /// is no error, only not an upgrade.
    pub fn is_valid_upgrade(&self, to: &Self) -> (r: Result<bool, VersionError>)
        ensures
            r == Ok::<bool, VersionError>(upgrade_allowed(*self, *to)),
    {
        let from_text = self.to_string();
        let to_text = to.to_string();
        assert(self.spec_release().spec_text() == from_text@);
        assert(to.spec_release().spec_text() == to_text@);
        let from_version = match parse_semver(from_text.as_str()) {
            Ok(v) => v,
            Err(_) => return Err(VersionError::ParseFailure),
        };
        let to_version = match parse_semver(to_text.as_str()) {
            Ok(v) => v,
            Err(_) => return Err(VersionError::ParseFailure),
        };
        Ok(from_version.precedes(&to_version))
    }
}

/// The two supported versions have different texts.
proof fn lemma_texts_differ()
    ensures
        ZooKeeperVersion::v3_4_14.spec_text() != ZooKeeperVersion::v3_5_8.spec_text(),
{
    let a = ZooKeeperVersion::v3_4_14.spec_text();
    let b = ZooKeeperVersion::v3_5_8.spec_text();
    assert(a[2] == '4');
    assert(b[2] == '5');
}

/// No version is an upgrade of itself.
pub proof fn lemma_upgrade_irreflexive(v: ZooKeeperVersion)
    ensures
        !upgrade_allowed(v, v),
{
}

/// The upgrade relation orders the supported versions strictly and totally:
/// never reflexive, never both ways, transitive, and any two different
/// versions are related one way or the other.
pub proof fn lemma_upgrade_strict_total_order(a: ZooKeeperVersion, b: ZooKeeperVersion, c: ZooKeeperVersion)
    ensures
        !upgrade_allowed(a, a),
        upgrade_allowed(a, b) ==> !upgrade_allowed(b, a),
        upgrade_allowed(a, b) && upgrade_allowed(b, c) ==> upgrade_allowed(a, c),
        a != b ==> upgrade_allowed(a, b) || upgrade_allowed(b, a),
{
}

/// Reading the text of a version gives that version back, and a text that
/// reads as a version is that version's text: each version has exactly one
/// text and each text at most one version.
pub proof fn lemma_text_round_trip(v: ZooKeeperVersion, text: Seq<char>)
    ensures
        version_of_text(v.spec_text()) == Some(v),
        version_of_text(text) matches Some(w) ==> w.spec_text() == text,
{
    lemma_texts_differ();
}

} // verus!
