//! Semantic versions: their `vMAJOR.MINOR.PATCH` text form, parsing, and the
//! bump rules that compute the next release from the latest one.
use vstd::prelude::*;
use vstd::string::*;

verus! {

/// A semantic version. The numeric triple is held without the `v` prefix;
/// `pre` and `build` hold the pre-release and build-metadata text, empty when
/// absent.
#[derive(Debug, PartialEq, Eq)]
pub struct Version {
    pub major: u64,
    pub minor: u64,
    pub patch: u64,
    pub pre: String,
    pub build: String,
}

/// The decimal digit `d` as a character.
pub open spec fn digit_char(d: nat) -> char {
    seq!['0', '1', '2', '3', '4', '5', '6', '7', '8', '9'][d as int]
}

/// The canonical decimal text of `n`: no sign, no leading zeros.
pub open spec fn decimal(n: nat) -> Seq<char>
    decreases n,
{
    if n < 10 {
        seq![digit_char(n)]
    } else {
        decimal(n / 10).push(digit_char(n % 10))
    }
}

/// `a.b.c` in decimal.
pub open spec fn triple_text(a: u64, b: u64, c: u64) -> Seq<char> {
    decimal(a as nat) + seq!['.'] + decimal(b as nat) + seq!['.'] + decimal(c as nat)
}

/// `text` preceded by `mark`, or nothing when `text` is empty.
pub open spec fn marked(mark: char, text: Seq<char>) -> Seq<char> {
    if text.len() == 0 {
        Seq::empty()
    } else {
        seq![mark] + text
    }
}

impl Version {
    /// The version's text without the `v` prefix: `a.b.c`, then `-pre` and
    /// `+build` where those are present.
    pub open spec fn text(&self) -> Seq<char> {
        triple_text(self.major, self.minor, self.patch) + marked('-', self.pre@) + marked(
            '+',
            self.build@,
        )
    }

    /// The version as a tag name: `v` followed by its text.
    pub open spec fn tag_text(&self) -> Seq<char> {
        seq!['v'] + self.text()
    }

    /// A plain `a.b.c` version, with no pre-release or build text.
    pub open spec fn is_plain(&self, a: u64, b: u64, c: u64) -> bool {
        &&& self.major == a
        &&& self.minor == b
        &&& self.patch == c
        &&& self.pre@.len() == 0
        &&& self.build@.len() == 0
    }

    /// The plain version `major.minor.patch`.
    pub fn new(major: u64, minor: u64, patch: u64) -> (r: Version)
        ensures
            r.is_plain(major, minor, patch),
    {
        Version { major, minor, patch, pre: String::new(), build: String::new() }
    }

    /// The sentinel `v0.0.0` that stands for the latest release when there is
    /// none.
    pub fn zero() -> (r: Version)
        ensures
            r.is_plain(0, 0, 0),
    {
        Version::new(0, 0, 0)
    }

    /// A copy of this version.
    pub fn duplicate(&self) -> (r: Version)
        ensures
            r == *self,
    {
        Version {
            major: self.major,
            minor: self.minor,
            patch: self.patch,
            pre: self.pre.clone(),
            build: self.build.clone(),
        }
    }

    /// The version rendered as a tag name, `v` followed by its text.
    pub fn to_tag(&self) -> (r: String)
        ensures
            r@ == self.tag_text(),
    {
        let mut out = String::from_str("v");
        proof {
            reveal_strlit("v");
        }
        push_decimal(&mut out, self.major);
        out.append(".");
        push_decimal(&mut out, self.minor);
        out.append(".");
        push_decimal(&mut out, self.patch);
        if self.pre.unicode_len() > 0 {
            out.append("-");
            out.append(self.pre.as_str());
        }
        if self.build.unicode_len() > 0 {
            out.append("+");
            out.append(self.build.as_str());
        }
        proof {
            reveal_strlit(".");
            reveal_strlit("-");
            reveal_strlit("+");
            assert(out@ =~= self.tag_text());
        }
        out
    }
}

/// The one-character text of the decimal digit `d`.
fn digit_str(d: u64) -> (r: &'static str)
    requires
        d < 10,
    ensures
        r@ == seq![digit_char(d as nat)],
{
    proof {
        reveal_strlit("0");
        reveal_strlit("1");
        reveal_strlit("2");
        reveal_strlit("3");
        reveal_strlit("4");
        reveal_strlit("5");
        reveal_strlit("6");
        reveal_strlit("7");
        reveal_strlit("8");
        reveal_strlit("9");
    }
    let r = if d == 0 {
        "0"
    } else if d == 1 {
        "1"
    } else if d == 2 {
        "2"
    } else if d == 3 {
        "3"
    } else if d == 4 {
        "4"
    } else if d == 5 {
        "5"
    } else if d == 6 {
        "6"
    } else if d == 7 {
        "7"
    } else if d == 8 {
        "8"
    } else {
        "9"
    };
    assert(r@ =~= seq![digit_char(d as nat)]);
    r
}

/// Appends the decimal text of `n` to `out`.
pub(crate) fn push_decimal(out: &mut String, n: u64)
    ensures
        final(out)@ == old(out)@ + decimal(n as nat),
    decreases n,
{
    if n >= 10 {
        push_decimal(out, n / 10);
    }
    out.append(digit_str(n % 10));
    proof {
        assert(final(out)@ =~= old(out)@ + decimal(n as nat));
    }
}


/// What `semver::Version::parse` yields on `text`: the numeric triple, the
/// pre-release text and the build text, or nothing when it rejects the text.
pub uninterp spec fn semver_parsed(text: Seq<char>) -> Option<(u64, u64, u64, Seq<char>, Seq<char>)>;

#[verifier::external_type_specification]
#[verifier::external_body]
pub struct ExSemverError(semver::Error);

/// Relies on `semver::Version::parse`, which reads `a.b.c` with optional
/// `-pre` and `+build` parts. Its source reads a plain `a.b.c` whose numbers
/// are canonical decimals of `u64` values as `Version::new(a, b, c)`.
#[verifier::external_body]
fn semver_parse(text: &str) -> (r: Result<Version, semver::Error>)
    ensures
        r is Ok ==> semver_parsed(text@) == Some(parts(r->Ok_0)),
        r is Err <==> semver_parsed(text@) is None,
        forall|a: u64, b: u64, c: u64|
            #![trigger triple_text(a, b, c)]
            text@ == triple_text(a, b, c) ==> r is Ok && r->Ok_0.is_plain(a, b, c),
{
    match semver::Version::parse(text) {
        Ok(v) => Ok(
            Version {
                major: v.major,
                minor: v.minor,
                patch: v.patch,
                pre: v.pre.as_str().to_string(),
                build: v.build.as_str().to_string(),
            },
        ),
        Err(e) => Err(e),
    }
}

/// Why a release could not be cut.
#[derive(Debug, PartialEq, Eq)]
pub enum ReleaseError {
    /// The target is neither a bump keyword nor a `v`-prefixed version; holds
    /// the target as given.
    InvalidBumpTarget(String),
    /// A version text (an explicit target or the latest tag) is malformed;
    /// holds the text as given.
    InvalidVersionFormat(String),
    /// The bumped component would not fit in 64 bits.
    VersionOverflow,
    /// Bringing the branch up to date with upstream failed; holds the reason.
    PullFailed(String),
    /// The version hook failed; holds its message and a remediation hint.
    HookFailed(String),
    /// Creating the tag failed; holds the reason.
    TagFailed(String),
}

/// What parsing `text` as a `v`-prefixed version yields: the semantic
/// version parse of what follows the `v`, or nothing without a `v`.
pub open spec fn version_parsed(text: Seq<char>) -> Option<(u64, u64, u64, Seq<char>, Seq<char>)> {
    if text.len() > 0 && text[0] == 'v' {
        semver_parsed(text.drop_first())
    } else {
        None
    }
}

/// The parts of `v` in the shape `version_parsed` yields.
pub open spec fn parts(v: Version) -> (u64, u64, u64, Seq<char>, Seq<char>) {
    (v.major, v.minor, v.patch, v.pre@, v.build@)
}

/// `r` is what parsing `text` as a `v`-prefixed version gives: the parsed
/// version, or `InvalidVersionFormat` with the text; and a plain `va.b.c`
/// text always gives the version `a.b.c`.
pub open spec fn parse_outcome(text: Seq<char>, r: Result<Version, ReleaseError>) -> bool {
    &&& match r {
        Ok(v) => version_parsed(text) == Some(parts(v)),
        Err(e) => version_parsed(text) is None && (e matches ReleaseError::InvalidVersionFormat(t)
            && t@ == text),
    }
    &&& forall|a: u64, b: u64, c: u64|
        #![trigger triple_text(a, b, c)]
        text == seq!['v'] + triple_text(a, b, c) ==> (r matches Ok(v) && v.is_plain(a, b, c))
}

/// Parses a `v`-prefixed version such as `v1.2.3` or `v3.0.0-rc1`.
pub fn parse_version(text: &str) -> (r: Result<Version, ReleaseError>)
    ensures
        parse_outcome(text@, r),
{
    let n = text.unicode_len();
    if n == 0 || text.get_char(0) != 'v' {
        proof {
            assert forall|a: u64, b: u64, c: u64|
                #![trigger triple_text(a, b, c)]
                text@ != seq!['v'] + triple_text(a, b, c) by {
                if text@ == seq!['v'] + triple_text(a, b, c) {
                    assert(text@[0] == 'v');
                }
            }
        }
        return Err(ReleaseError::InvalidVersionFormat(String::from_str(text)));
    }
    let rest = text.substring_char(1, n);
    assert(rest@ == text@.drop_first());
    proof {
        assert forall|a: u64, b: u64, c: u64|
            #![trigger triple_text(a, b, c)]
            text@ == seq!['v'] + triple_text(a, b, c) implies rest@ == triple_text(a, b, c) by {
            assert((seq!['v'] + triple_text(a, b, c)).drop_first() =~= triple_text(a, b, c));
        }
    }
    match semver_parse(rest) {
        Ok(v) => Ok(v),
        Err(_) => Err(ReleaseError::InvalidVersionFormat(String::from_str(text))),
    }
}

/// Formatting the version parsed from a plain `va.b.c` text gives that text
/// back.
pub proof fn lemma_format_parse_round_trip(a: u64, b: u64, c: u64, r: Result<Version, ReleaseError>)
    requires
        parse_outcome(seq!['v'] + triple_text(a, b, c), r),
    ensures
        r matches Ok(v) && v.tag_text() == seq!['v'] + triple_text(a, b, c),
{
    let _ = triple_text(a, b, c);
    lemma_plain_tag_text(r->Ok_0, a, b, c);
}

/// The tag text of a plain version is `v` and its numeric triple.
pub proof fn lemma_plain_tag_text(v: Version, a: u64, b: u64, c: u64)
    requires
        v.is_plain(a, b, c),
    ensures
        v.tag_text() == seq!['v'] + triple_text(a, b, c),
{
    assert(v.text() =~= triple_text(a, b, c));
}


/// Whether two texts hold the same characters.
pub fn same_text(a: &str, b: &str) -> (r: bool)
    ensures
        r == (a@ == b@),
{
    let n = a.unicode_len();
    if n != b.unicode_len() {
        return false;
    }
    let mut i: usize = 0;
    while i < n
        invariant
            n == a@.len(),
            n == b@.len(),
            i <= n,
            forall|j: int| 0 <= j < i ==> a@[j] == b@[j],
        decreases n - i,
    {
        if a.get_char(i) != b.get_char(i) {
            return false;
        }
        i = i + 1;
    }
    assert(a@ =~= b@);
    true
}

/// How to choose the next version: bump one component, or name the version
/// outright.
#[derive(Debug, PartialEq, Eq)]
pub enum BumpTarget {
    Major,
    Minor,
    Patch,
    Explicit(Version),
}

/// One of the bump keywords `major`, `minor` and `patch`.
pub open spec fn is_keyword(s: Seq<char>) -> bool {
    s == "major"@ || s == "minor"@ || s == "patch"@
}

/// A text that begins with `v`.
pub open spec fn starts_with_v(s: Seq<char>) -> bool {
    s.len() > 0 && s[0] == 'v'
}

/// `r` is what reading `target` gives: the keyword's bump, an explicit
/// version parsed from a `v`-prefixed text, or `InvalidBumpTarget` with the
/// target as given.
pub open spec fn target_outcome(target: Seq<char>, r: Result<BumpTarget, ReleaseError>) -> bool {
    if target == "major"@ {
        r matches Ok(BumpTarget::Major)
    } else if target == "minor"@ {
        r matches Ok(BumpTarget::Minor)
    } else if target == "patch"@ {
        r matches Ok(BumpTarget::Patch)
    } else if starts_with_v(target) {
        match r {
            Ok(BumpTarget::Explicit(v)) => parse_outcome(target, Ok(v)),
            Ok(_) => false,
            Err(e) => parse_outcome(target, Err(e)),
        }
    } else {
        r matches Err(ReleaseError::InvalidBumpTarget(t)) && t@ == target
    }
}

/// Reads a bump target: `major`, `minor`, `patch`, or an explicit
/// `v`-prefixed version.
pub fn parse_target(target: &str) -> (r: Result<BumpTarget, ReleaseError>)
    ensures
        target_outcome(target@, r),
{
    if same_text(target, "major") {
        Ok(BumpTarget::Major)
    } else if same_text(target, "minor") {
        Ok(BumpTarget::Minor)
    } else if same_text(target, "patch") {
        Ok(BumpTarget::Patch)
    } else if target.unicode_len() > 0 && target.get_char(0) == 'v' {
        match parse_version(target) {
            Ok(v) => Ok(BumpTarget::Explicit(v)),
            Err(e) => Err(e),
        }
    } else {
        Err(ReleaseError::InvalidBumpTarget(String::from_str(target)))
    }
}

/// `r` is the version that `target` selects after `latest`: the bumped
/// component plus one with the lower ones zeroed (pre-release and build text
/// dropped), `VersionOverflow` where that component is already the largest,
/// or the explicit version as it is.
pub open spec fn bump_outcome(target: BumpTarget, latest: Version, r: Result<Version, ReleaseError>) -> bool {
    match target {
        BumpTarget::Major => if latest.major == u64::MAX {
            r matches Err(ReleaseError::VersionOverflow)
        } else {
            r matches Ok(v) && v.is_plain((latest.major + 1) as u64, 0, 0)
        },
        BumpTarget::Minor => if latest.minor == u64::MAX {
            r matches Err(ReleaseError::VersionOverflow)
        } else {
            r matches Ok(v) && v.is_plain(latest.major, (latest.minor + 1) as u64, 0)
        },
        BumpTarget::Patch => if latest.patch == u64::MAX {
            r matches Err(ReleaseError::VersionOverflow)
        } else {
            r matches Ok(v) && v.is_plain(latest.major, latest.minor, (latest.patch + 1) as u64)
        },
        BumpTarget::Explicit(e) => r == Ok::<Version, ReleaseError>(e),
    }
}

/// The tag of the version that `target` selects after a latest version with
/// the given parts, or nothing where the bumped component would overflow.
pub open spec fn bumped_tag(target: BumpTarget, latest: (u64, u64, u64, Seq<char>, Seq<char>)) -> Option<Seq<char>> {
    match target {
        BumpTarget::Major => if latest.0 == u64::MAX {
            None
        } else {
            Some(seq!['v'] + triple_text((latest.0 + 1) as u64, 0, 0))
        },
        BumpTarget::Minor => if latest.1 == u64::MAX {
            None
        } else {
            Some(seq!['v'] + triple_text(latest.0, (latest.1 + 1) as u64, 0))
        },
        BumpTarget::Patch => if latest.2 == u64::MAX {
            None
        } else {
            Some(seq!['v'] + triple_text(latest.0, latest.1, (latest.2 + 1) as u64))
        },
        BumpTarget::Explicit(e) => Some(e.tag_text()),
    }
}

impl BumpTarget {
    /// The next version after `latest` under this target. An explicit version
    /// is taken as it is, whether or not it comes after `latest`.
    pub fn apply(&self, latest: &Version) -> (r: Result<Version, ReleaseError>)
        ensures
            bump_outcome(*self, *latest, r),
    {
        match self {
            BumpTarget::Major => if latest.major == u64::MAX {
                Err(ReleaseError::VersionOverflow)
            } else {
                Ok(Version::new(latest.major + 1, 0, 0))
            },
            BumpTarget::Minor => if latest.minor == u64::MAX {
                Err(ReleaseError::VersionOverflow)
            } else {
                Ok(Version::new(latest.major, latest.minor + 1, 0))
            },
            BumpTarget::Patch => if latest.patch == u64::MAX {
                Err(ReleaseError::VersionOverflow)
            } else {
                Ok(Version::new(latest.major, latest.minor, latest.patch + 1))
            },
            BumpTarget::Explicit(v) => Ok(v.duplicate()),
        }
    }
}

/// Computes the next version from a target argument and the latest version.
pub fn resolve(target: &str, latest: &Version) -> (r: Result<Version, ReleaseError>)
    ensures
        target@ == "major"@ ==> bump_outcome(BumpTarget::Major, *latest, r),
        target@ == "minor"@ ==> bump_outcome(BumpTarget::Minor, *latest, r),
        target@ == "patch"@ ==> bump_outcome(BumpTarget::Patch, *latest, r),
        !is_keyword(target@) && starts_with_v(target@) ==> parse_outcome(target@, r),
        !is_keyword(target@) && !starts_with_v(target@) ==> (r matches Err(
            ReleaseError::InvalidBumpTarget(t),
        ) && t@ == target@),
{
    proof {
        reveal_strlit("major");
        reveal_strlit("minor");
        reveal_strlit("patch");
        assert("minor"@[1] != "major"@[1]);
        assert("patch"@[0] != "major"@[0]);
        assert("patch"@[0] != "minor"@[0]);
    }
    match parse_target(target) {
        Ok(t) => t.apply(latest),
        Err(e) => Err(e),
    }
}


/// The length of a decimal text, for numbers of up to four digits.
pub proof fn lemma_decimal_len(n: nat)
    ensures
        n < 10 ==> decimal(n).len() == 1,
        10 <= n < 100 ==> decimal(n).len() == 2,
        100 <= n < 1000 ==> decimal(n).len() == 3,
        1000 <= n ==> decimal(n).len() >= 4,
    decreases n,
{
    if n >= 10 {
        lemma_decimal_len(n / 10);
    }
}

} // verus!
