//! Semantic versions: reading them from text, ordering, bumping and writing
//! them back.
//!
//! Text is read by the `semver` crate. What it makes of a plain
//! `MAJOR.MINOR.PATCH` numeral is stated here in full; what it makes of any
//! other text goes by the name [`semver_parse`].

use crate::text::{
    chars_of, decimal, digit_char, is_digit, lemma_decimal_digits, lemma_decimal_injective,
    push_decimal,
};
use vstd::prelude::*;

verus! {

/// A semantic version, ordered by major, then minor, then patch number.
#[derive(Clone, Copy, Debug, PartialEq, Eq, Structural, PartialOrd, Ord, Hash)]
pub struct SemanticVersion {
    pub major: u64,
    pub minor: u64,
    pub patch: u64,
}

/// How far a release moves the version on.
#[derive(Clone, Copy, Debug, PartialEq, Eq, Structural)]
pub enum VersionBump {
    /// Nothing in the history asks for a new version.
    Nothing,
    /// Only fixes.
    Patch,
    /// At least one feature, nothing breaking.
    Minor,
    /// At least one breaking change.
    Major,
}

/// The bump that a release gets when no commit in its history asks for one.
pub const BUMP_WITHOUT_QUALIFYING_COMMITS: VersionBump = VersionBump::Patch;

/// A text that could not be read as a semantic version.
#[derive(Clone, Debug)]
pub struct InvalidVersion {
    /// The text as it was given.
    pub text: String,
    /// What is wrong with it, in the words of `semver`.
    pub detail: String,
}

/// The numeral `MAJOR.MINOR.PATCH`.
pub open spec fn dotted(major: u64, minor: u64, patch: u64) -> Seq<char> {
    decimal(major as nat) + seq!['.'] + decimal(minor as nat) + seq!['.'] + decimal(patch as nat)
}

/// Whether `text` is a numeral `MAJOR.MINOR.PATCH` of three numbers that fit
/// in 64 bits.
pub open spec fn is_plain_version(text: Seq<char>) -> bool {
    exists|major: u64, minor: u64, patch: u64| text == dotted(major, minor, patch)
}

/// What `semver::Version::parse` makes of `text`: the major, minor and patch
/// numbers of the version it reads, or the message of the error it reports.
pub uninterp spec fn semver_parse(text: Seq<char>) -> Result<(u64, u64, u64), Seq<char>>;

/// The version that `text` denotes, if any. A plain numeral denotes its three
/// numbers. Any other text denotes what `semver` reads from it: the three
/// numbers whose numeral begins the text, where `semver` takes what follows
/// them as a pre-release or build suffix, and nothing where it does not.
pub open spec fn parsed_version(text: Seq<char>) -> Option<SemanticVersion> {
    if is_plain_version(text) {
        let (major, minor, patch) = choose|major: u64, minor: u64, patch: u64|
            text == dotted(major, minor, patch);
        Some(SemanticVersion { major, minor, patch })
    } else {
        match semver_parse(text) {
            Ok((major, minor, patch)) => if dotted(major, minor, patch).is_prefix_of(text) {
                Some(SemanticVersion { major, minor, patch })
            } else {
                None
            },
            Err(_) => None,
        }
    }
}

/// What is wrong with a text that denotes no version, in the words of
/// `semver`.
pub open spec fn refusal_of(text: Seq<char>) -> Seq<char> {
    match semver_parse(text) {
        Ok(_) => Seq::empty(),
        Err(message) => message,
    }
}

/// `text` without its leading `v`, if it has one.
pub open spec fn without_v(text: Seq<char>) -> Seq<char> {
    if text.len() > 0 && text[0] == 'v' {
        text.skip(1)
    } else {
        text
    }
}

/// The version that a tag name denotes where the leading `v` is optional.
pub open spec fn version_of_tag(tag: Seq<char>) -> Option<SemanticVersion> {
    parsed_version(without_v(tag))
}

/// The version that a tag name denotes where the leading `v` is required.
pub open spec fn version_of_v_tag(tag: Seq<char>) -> Option<SemanticVersion> {
    if tag.len() > 0 && tag[0] == 'v' {
        parsed_version(tag.skip(1))
    } else {
        None
    }
}

impl SemanticVersion {
    /// The numeral `MAJOR.MINOR.PATCH` of this version.
    pub open spec fn text(self) -> Seq<char> {
        dotted(self.major, self.minor, self.patch)
    }

    /// Whether this version comes strictly before `other`.
    pub open spec fn precedes(self, other: SemanticVersion) -> bool {
        ||| self.major < other.major
        ||| self.major == other.major && self.minor < other.minor
        ||| self.major == other.major && self.minor == other.minor && self.patch < other.patch
    }

    /// Whether this version does not come after `other`.
    pub open spec fn at_most(self, other: SemanticVersion) -> bool {
        !other.precedes(self)
    }

    /// The bump that is applied for `bump`: a release without qualifying
    /// commits gets [`BUMP_WITHOUT_QUALIFYING_COMMITS`].
    pub open spec fn effective(bump: VersionBump) -> VersionBump {
        if bump == VersionBump::Nothing {
            BUMP_WITHOUT_QUALIFYING_COMMITS
        } else {
            bump
        }
    }

    /// Whether the number that `bump` increments can still grow.
    pub open spec fn allows(self, bump: VersionBump) -> bool {
        match Self::effective(bump) {
            VersionBump::Major => self.major < u64::MAX,
            VersionBump::Minor => self.minor < u64::MAX,
            VersionBump::Patch => self.patch < u64::MAX,
            VersionBump::Nothing => true,
        }
    }

    /// The version after `bump`: a major bump increments the major number and
    /// resets the other two, a minor bump increments the minor number and
    /// resets the patch number, a patch bump increments the patch number.
    pub open spec fn bumped(self, bump: VersionBump) -> SemanticVersion {
        match Self::effective(bump) {
            VersionBump::Major => SemanticVersion {
                major: (self.major + 1) as u64,
                minor: 0,
                patch: 0,
            },
            VersionBump::Minor => SemanticVersion {
                major: self.major,
                minor: (self.minor + 1) as u64,
                patch: 0,
            },
            VersionBump::Patch => SemanticVersion {
                major: self.major,
                minor: self.minor,
                patch: (self.patch + 1) as u64,
            },
            VersionBump::Nothing => self,
        }
    }

    /// The version with the given three numbers.
    pub fn new(major: u64, minor: u64, patch: u64) -> (version: SemanticVersion)
        ensures
            version == (SemanticVersion { major, minor, patch }),
    {
        SemanticVersion { major, minor, patch }
    }

    /// Reads a version from `text`, which carries no leading `v`.
    pub fn parse(text: &str) -> (parsed: Result<SemanticVersion, InvalidVersion>)
        ensures
            parsed matches Ok(version) ==> parsed_version(text@) == Some(version)
                && version.text().is_prefix_of(text@),
            parsed matches Err(invalid) ==> parsed_version(text@) is None && invalid.text@
                == text@ && invalid.detail@ == refusal_of(text@),
    {
        match semver_version_parse(text) {
            Ok(version) => {
                proof {
                    if is_plain_version(text@) {
                        let (a, b, c) = choose|a: u64, b: u64, c: u64| text@ == dotted(a, b, c);
                        lemma_dotted_injective(
                            a,
                            b,
                            c,
                            version.major,
                            version.minor,
                            version.patch,
                        );
                    }
                }
                Ok(version)
            },
            Err(detail) => Err(InvalidVersion { text: String::from_str(text), detail }),
        }
    }

    /// Reads a version from a tag name, whose leading `v` is optional.
    pub fn parse_tag(tag: &str) -> (parsed: Result<SemanticVersion, InvalidVersion>)
        ensures
            parsed matches Ok(version) ==> version_of_tag(tag@) == Some(version),
            parsed matches Err(invalid) ==> version_of_tag(tag@) is None && invalid.text@
                == without_v(tag@) && invalid.detail@ == refusal_of(without_v(tag@)),
    {
        Self::parse(strip_v(tag))
    }

    /// Reads a version from a tag name, whose leading `v` is required.
    pub fn parse_v_tag(tag: &str) -> (parsed: Option<SemanticVersion>)
        ensures
            parsed == version_of_v_tag(tag@),
    {
        let chars = chars_of(tag);
        if chars.len() > 0 && chars[0] == 'v' {
            match Self::parse(strip_v(tag)) {
                Ok(version) => Some(version),
                Err(_) => None,
            }
        } else {
            None
        }
    }

    /// Appends the numeral of this version to `out`.
    pub fn push_to(&self, out: &mut String)
        ensures
            final(out)@ == old(out)@ + self.text(),
    {
        proof {
            reveal_strlit(".");
        }
        push_decimal(out, self.major);
        out.append(".");
        push_decimal(out, self.minor);
        out.append(".");
        push_decimal(out, self.patch);
    }

    /// The numeral `MAJOR.MINOR.PATCH` of this version.
    pub fn render(&self) -> (text: String)
        ensures
            text@ == self.text(),
    {
        let mut text = String::new();
        self.push_to(&mut text);
        text
    }

    /// Whether this version comes strictly before `other`.
    pub fn is_before(&self, other: &SemanticVersion) -> (before: bool)
        ensures
            before == self.precedes(*other),
    {
        if self.major != other.major {
            self.major < other.major
        } else if self.minor != other.minor {
            self.minor < other.minor
        } else {
            self.patch < other.patch
        }
    }

    /// Whether the number that `bump` increments can still grow.
    pub fn can_bump(&self, bump: VersionBump) -> (ok: bool)
        ensures
            ok == self.allows(bump),
    {
        match effective_bump(bump) {
            VersionBump::Major => self.major < u64::MAX,
            VersionBump::Minor => self.minor < u64::MAX,
            VersionBump::Patch => self.patch < u64::MAX,
            VersionBump::Nothing => true,
        }
    }

    /// The version after `bump`.
    pub fn bump(&self, bump: VersionBump) -> (next: SemanticVersion)
        requires
            self.allows(bump),
        ensures
            next == self.bumped(bump),
    {
        match effective_bump(bump) {
            VersionBump::Major => SemanticVersion { major: self.major + 1, minor: 0, patch: 0 },
            VersionBump::Minor => SemanticVersion {
                major: self.major,
                minor: self.minor + 1,
                patch: 0,
            },
            VersionBump::Patch => SemanticVersion {
                major: self.major,
                minor: self.minor,
                patch: self.patch + 1,
            },
            VersionBump::Nothing => *self,
        }
    }
}

/// `tag` without its leading `v`, if it has one.
pub fn strip_v(tag: &str) -> (rest: &str)
    ensures
        rest@ == without_v(tag@),
{
    let chars = chars_of(tag);
    if chars.len() > 0 && chars[0] == 'v' {
        tag.substring_char(1, chars.len())
    } else {
        tag
    }
}

/// The bump that is applied for `bump`.
pub fn effective_bump(bump: VersionBump) -> (applied: VersionBump)
    ensures
        applied == SemanticVersion::effective(bump),
{
    match bump {
        VersionBump::Nothing => BUMP_WITHOUT_QUALIFYING_COMMITS,
        _ => bump,
    }
}

/// Calls `semver::Version::parse`, keeps the major, minor and patch numbers
/// of the version it returns, and writes the error it reports out as its
/// message. The contract gives the outcome the name [`semver_parse`], and
/// claims two things of it. The numeral of the three numbers that are read
/// begins the text: each is read from its digits, which have no sign and no
/// leading zero. And a text that is nothing but a numeral
/// `MAJOR.MINOR.PATCH` of three 64-bit numbers is read as those three
/// numbers.
#[verifier::external_body]
fn semver_version_parse(text: &str) -> (parsed: Result<SemanticVersion, String>)
    ensures
        (match parsed {
            Ok(read) => semver_parse(text@) == Ok::<(u64, u64, u64), Seq<char>>(
                (read.major, read.minor, read.patch),
            ) && read.text().is_prefix_of(text@),
            Err(message) => semver_parse(text@) == Err::<(u64, u64, u64), Seq<char>>(message@),
        }),
        is_plain_version(text@) ==> (match parsed {
            Ok(read) => read.text() == text@,
            Err(_) => false,
        }),
{
    match semver::Version::parse(text) {
        Ok(version) => Ok(
            SemanticVersion { major: version.major, minor: version.minor, patch: version.patch },
        ),
        Err(error) => Err(error.to_string()),
    }
}

/// Two numerals `digits.rest` that are the same text have the same digits
/// before their first dot.
proof fn lemma_same_first_field(a: nat, rest_a: Seq<char>, b: nat, rest_b: Seq<char>)
    requires
        decimal(a) + seq!['.'] + rest_a == decimal(b) + seq!['.'] + rest_b,
    ensures
        a == b,
        rest_a == rest_b,
{
    let left = decimal(a);
    let right = decimal(b);
    let whole = left + seq!['.'] + rest_a;
    let same = right + seq!['.'] + rest_b;
    lemma_decimal_digits(a);
    lemma_decimal_digits(b);
    assert(!is_digit('.'));
    if left.len() < right.len() {
        assert(whole[left.len() as int] == '.');
        assert(is_digit(right[left.len() as int]));
    }
    if right.len() < left.len() {
        assert(same[right.len() as int] == '.');
        assert(is_digit(left[right.len() as int]));
    }
    assert(left =~= whole.take(left.len() as int));
    assert(right =~= same.take(right.len() as int));
    lemma_decimal_injective(a, b);
    assert(rest_a =~= whole.skip(left.len() as int + 1));
    assert(rest_b =~= same.skip(right.len() as int + 1));
}

/// A numeral `MAJOR.MINOR.PATCH` is the numeral of one triple of numbers only.
pub proof fn lemma_dotted_injective(a: u64, b: u64, c: u64, x: u64, y: u64, z: u64)
    requires
        dotted(a, b, c) == dotted(x, y, z),
    ensures
        a == x,
        b == y,
        c == z,
{
    let tail_a = decimal(b as nat) + seq!['.'] + decimal(c as nat);
    let tail_x = decimal(y as nat) + seq!['.'] + decimal(z as nat);
    assert(dotted(a, b, c) =~= decimal(a as nat) + seq!['.'] + tail_a);
    assert(dotted(x, y, z) =~= decimal(x as nat) + seq!['.'] + tail_x);
    lemma_same_first_field(a as nat, tail_a, x as nat, tail_x);
    lemma_same_first_field(b as nat, decimal(c as nat), y as nat, decimal(z as nat));
    lemma_decimal_injective(c as nat, z as nat);
}

/// The version that a text denotes is the one whose numeral begins the
/// text.
pub proof fn lemma_version_begins_text(text: Seq<char>)
    ensures
        parsed_version(text) matches Some(version) ==> version.text().is_prefix_of(text),
{
}

/// The numeral of a version denotes that version.
pub proof fn lemma_text_denotes_version(version: SemanticVersion)
    ensures
        parsed_version(version.text()) == Some(version),
{
    let text = version.text();
    let (a, b, c) = choose|a: u64, b: u64, c: u64| text == dotted(a, b, c);
    lemma_dotted_injective(a, b, c, version.major, version.minor, version.patch);
}

} // verus!
