//! Turning release tags into comparable semantic versions.
use vstd::prelude::*;
use vstd::string::*;

use crate::tools::Exe;

verus! {

/// A semantic version reduced to the triple that orders releases.
#[derive(Debug, Clone, Copy, PartialEq, Eq, Structural)]
pub struct SemVer {
    pub major: u64,
    pub minor: u64,
    pub patch: u64,
}

pub open spec fn is_digit(c: char) -> bool {
    '0' <= c && c <= '9'
}

/// The tag with everything before its first ASCII digit removed.
pub open spec fn sanitized(s: Seq<char>) -> Seq<char>
    decreases s.len(),
{
    if s.len() == 0 || is_digit(s[0]) {
        s
    } else {
        sanitized(s.drop_first())
    }
}

pub open spec fn digit_char(d: nat) -> char {
    seq!['0', '1', '2', '3', '4', '5', '6', '7', '8', '9'][d as int]
}

pub open spec fn digit_value(c: char) -> nat {
    if c == '1' { 1 } else if c == '2' { 2 } else if c == '3' { 3 } else if c == '4' { 4 }
    else if c == '5' { 5 } else if c == '6' { 6 } else if c == '7' { 7 } else if c == '8' { 8 }
    else if c == '9' { 9 } else { 0 }
}

/// Canonical decimal text of a number: no sign, no leading zeros.
pub open spec fn dec(n: nat) -> Seq<char>
    decreases n,
{
    if n < 10 {
        seq![digit_char(n)]
    } else {
        dec(n / 10) + seq![digit_char(n % 10)]
    }
}

pub open spec fn all_digits(s: Seq<char>) -> bool {
    forall|i: int| 0 <= i < s.len() ==> is_digit(#[trigger] s[i])
}

pub open spec fn digits_value(s: Seq<char>) -> nat
    decreases s.len(),
{
    if s.len() == 0 {
        0
    } else {
        digits_value(s.drop_last()) * 10 + digit_value(s.last())
    }
}

/// What `u64::from_str` accepts: an optional `+`, then one or more digits whose value fits.
pub open spec fn u64_of_text(s: Seq<char>) -> Option<u64> {
    let d = if s.len() > 0 && s[0] == '+' { s.drop_first() } else { s };
    if d.len() > 0 && all_digits(d) && digits_value(d) <= u64::MAX {
        Some(digits_value(d) as u64)
    } else {
        None
    }
}

/// The `(major, minor, patch)` that semver's strict parser reads from a text, if it accepts it.
pub uninterp spec fn semver_core(s: Seq<char>) -> Option<(u64, u64, u64)>;

pub open spec fn to_semver(t: Option<(u64, u64, u64)>) -> Option<SemVer> {
    match t {
        Some(v) => Some(SemVer { major: v.0, minor: v.1, patch: v.2 }),
        None => None,
    }
}

/// The normalized version of a release tag: strict semver first, then a bare
/// integer as `<n>.0.0`, then the text with `.0` appended.
pub open spec fn normalized(s: Seq<char>) -> Option<SemVer> {
    let t = sanitized(s);
    if semver_core(t) is Some {
        to_semver(semver_core(t))
    } else if u64_of_text(t) is Some {
        Some(SemVer { major: u64_of_text(t).unwrap(), minor: 0, patch: 0 })
    } else {
        to_semver(semver_core(t + seq!['.', '0']))
    }
}

pub open spec fn older(a: SemVer, b: SemVer) -> bool {
    a.major < b.major || (a.major == b.major && (a.minor < b.minor || (a.minor == b.minor
        && a.patch < b.patch)))
}

/// Relies on semver's `Version::parse`, which reads `major.minor.patch` with
/// optional pre-release and build parts; the pre-release and build parts are
/// not kept. The result depends on the text alone.
#[verifier::external_body]
fn parse_semver(s: &str) -> (r: Option<(u64, u64, u64)>)
    ensures
        r == semver_core(s@),
{
    semver::Version::parse(s).ok().map(|v| (v.major, v.minor, v.patch))
}

/// Relies on `u64::from_str`: an optional `+` followed by decimal digits whose value fits.
#[verifier::external_body]
pub(crate) fn parse_u64(s: &str) -> (r: Option<u64>)
    ensures
        r == u64_of_text(s@),
{
    s.parse::<u64>().ok()
}

proof fn lemma_sanitized_step(s: Seq<char>, i: int)
    requires
        0 <= i < s.len(),
        !is_digit(s[i]),
    ensures
        sanitized(s.skip(i)) == sanitized(s.skip(i + 1)),
{
    assert(s.skip(i).drop_first() =~= s.skip(i + 1));
}

/// Drops every character before the first ASCII digit, keeping the rest intact.
pub fn sanitize_version_prefix(ver_string: &str) -> (r: String)
    ensures
        r@ == sanitized(ver_string@),
{
    let n = ver_string.unicode_len();
    let mut i: usize = 0;
    assert(ver_string@.skip(0) =~= ver_string@);
    while i < n
        invariant
            n == ver_string@.len(),
            i <= n,
            sanitized(ver_string@) == sanitized(ver_string@.skip(i as int)),
        ensures
            i <= n,
            sanitized(ver_string@) == sanitized(ver_string@.skip(i as int)),
            i == n || is_digit(ver_string@[i as int]),
        decreases n - i,
    {
        let c = ver_string.get_char(i);
        if '0' <= c && c <= '9' {
            break;
        }
        proof {
            lemma_sanitized_step(ver_string@, i as int);
        }
        i = i + 1;
    }
    let rest = ver_string.substring_char(i, n);
    assert(rest@ =~= ver_string@.skip(i as int));
    String::from_str(rest)
}

/// Normalizes a release tag, or returns `None` when no reading of it is a version.
pub fn normalize_version(ver_string: &str) -> (r: Option<SemVer>)
    ensures
        r == normalized(ver_string@),
{
    let t = sanitize_version_prefix(ver_string);
    match parse_semver(t.as_str()) {
        Some(v) => Some(SemVer { major: v.0, minor: v.1, patch: v.2 }),
        None => match parse_u64(t.as_str()) {
            Some(n) => Some(SemVer { major: n, minor: 0, patch: 0 }),
            None => {
                let padded = t.concat(".0");
                proof {
                    reveal_strlit(".0");
                }
                assert(padded@ =~= sanitized(ver_string@) + seq!['.', '0']);
                match parse_semver(padded.as_str()) {
                    Some(v) => Some(SemVer { major: v.0, minor: v.1, patch: v.2 }),
                    None => None,
                }
            },
        },
    }
}

impl SemVer {
    /// Orders by major, then minor, then patch.
    pub fn is_older_than(&self, other: &SemVer) -> (r: bool)
        ensures
            r == older(*self, *other),
    {
        self.major < other.major || (self.major == other.major && (self.minor < other.minor || (
        self.minor == other.minor && self.patch < other.patch)))
    }
}

impl Exe {
    /// Drops every character before the first ASCII digit of a release tag.
    pub fn sanitize_version_prefix(ver_string: &str) -> (r: String)
        ensures
            r@ == sanitized(ver_string@),
    {
        sanitize_version_prefix(ver_string)
    }

    /// Reads a release tag as a semantic version, if any reading of it is one.
    pub fn normalize_version(ver_string: &str) -> (r: Option<SemVer>)
        ensures
            r == normalized(ver_string@),
    {
        normalize_version(ver_string)
    }
}

} // verus!
