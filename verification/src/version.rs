//! Versions: reading them, ordering them, writing them.

use crate::precedence::{
    check_series, compare_number, compare_prerelease, lemma_prerelease_flip, lemma_prerelease_same,
    lemma_prerelease_transitive, number_order, prerelease_order, valid_series, Precedence,
};
use crate::text::{chars_of, decimal, extend, push_decimal, same_text, string_of, string_of_range};
use vstd::prelude::*;

verus! {

/// What a version holds: three numbers, a pre-release string and a build
/// string, each of the two empty where the version has none.
pub struct VersionView {
    pub major: nat,
    pub minor: nat,
    pub patch: nat,
    pub pre: Seq<char>,
    pub build: Seq<char>,
}

impl VersionView {
    /// The numbers fit in 64 bits, the pre-release is empty or a series of
    /// identifiers without leading zeros, and the build is empty or a series
    /// of identifiers.
    pub open spec fn well_formed(self) -> bool {
        &&& self.major <= u64::MAX
        &&& self.minor <= u64::MAX
        &&& self.patch <= u64::MAX
        &&& self.pre.len() == 0 || valid_series(self.pre, true)
        &&& self.build.len() == 0 || valid_series(self.build, false)
    }

    /// The version as text: the numbers with dots between them, then `-` and
    /// the pre-release where there is one, then `+` and the build where there
    /// is one.
    pub open spec fn text(self) -> Seq<char> {
        decimal(self.major) + seq!['.'] + decimal(self.minor) + seq!['.'] + decimal(self.patch) + (
        if self.pre.len() == 0 {
            Seq::<char>::empty()
        } else {
            seq!['-'] + self.pre
        }) + (if self.build.len() == 0 {
            Seq::<char>::empty()
        } else {
            seq!['+'] + self.build
        })
    }

    /// The version as it is shown: `v`, then its text.
    pub open spec fn shown(self) -> Seq<char> {
        seq!['v'] + self.text()
    }

    /// How this version stands to `other`: by the major, then the minor, then
    /// the patch number, then by the pre-release. The build plays no part.
    pub open spec fn precedence(self, other: VersionView) -> Precedence {
        number_order(self.major, other.major).or(
            number_order(self.minor, other.minor).or(
                number_order(self.patch, other.patch).or(prerelease_order(self.pre, other.pre)),
            ),
        )
    }

    /// What decides the place of a version among others.
    pub open spec fn key(self) -> (nat, nat, nat, Seq<char>) {
        (self.major, self.minor, self.patch, self.pre)
    }

    /// The version that `body` writes: what the semver grammar finds in it,
    /// provided that this is well formed and that `body` is its text.
    pub open spec fn read(body: Seq<char>) -> Option<VersionView> {
        match semver_version(body) {
            Some(found) => if found.well_formed() && found.text() == body {
                Some(found)
            } else {
                None
            },
            None => None,
        }
    }

    /// The version that `text` writes, with or without a `v` before it.
    pub open spec fn parse(text: Seq<char>) -> Option<VersionView> {
        VersionView::read(strip_v(text))
    }
}

/// `text` without the `v` that it starts with, if it starts with one.
pub open spec fn strip_v(text: Seq<char>) -> Seq<char> {
    if text.len() > 0 && text[0] == 'v' {
        text.drop_first()
    } else {
        text
    }
}

/// `text` without the `v` that it starts with, if it starts with one.
pub fn without_v(text: &str) -> (body: String)
    ensures
        body@ == strip_v(text@),
{
    let given = chars_of(text);
    if given.len() > 0 && given[0] == 'v' {
        string_of_range(&given, 1, given.len())
    } else {
        string_of(&given)
    }
}

/// What `semver::Version::parse` finds in `text`: `None` where it refuses the
/// text.
pub uninterp spec fn semver_version(text: Seq<char>) -> Option<VersionView>;

/// The error of `semver::Version::parse`.
#[verifier::external_type_specification]
#[verifier::external_body]
pub struct ExSemverError(semver::Error);

/// What a parser found in a text, before any of it was checked.
#[derive(Debug, Clone, PartialEq, Eq)]
pub struct Parts {
    pub major: u64,
    pub minor: u64,
    pub patch: u64,
    pub pre: String,
    pub build: String,
}

impl View for Parts {
    type V = VersionView;

    open spec fn view(&self) -> VersionView {
        VersionView {
            major: self.major as nat,
            minor: self.minor as nat,
            patch: self.patch as nat,
            pre: self.pre@,
            build: self.build@,
        }
    }
}

/// Calls `semver::Version::parse` on `text` and hands back the fields of the
/// version it built: the three numbers, and the pre-release and the build as
/// the strings that `as_str` gives. Nothing is claimed of the grammar: only
/// that the outcome is decided by the text alone.
#[verifier::external_body]
fn semver_parse(text: &str) -> (r: Result<Parts, semver::Error>)
    ensures
        match r {
            Ok(parts) => semver_version(text@) == Some(parts@),
            Err(_) => semver_version(text@) is None,
        },
{
    match semver::Version::parse(text) {
        Ok(v) => Ok(
            Parts {
                major: v.major,
                minor: v.minor,
                patch: v.patch,
                pre: v.pre.as_str().to_owned(),
                build: v.build.as_str().to_owned(),
            },
        ),
        Err(e) => Err(e),
    }
}

/// A text that writes no version.
#[derive(Debug, Clone, PartialEq, Eq)]
pub struct ParseError {
    /// The text as it was given.
    pub text: String,
}

impl View for ParseError {
    type V = Seq<char>;

    open spec fn view(&self) -> Seq<char> {
        self.text@
    }
}

/// A semantic version.
#[derive(Debug)]
pub struct Version {
    major: u64,
    minor: u64,
    patch: u64,
    pre: Vec<char>,
    build: Vec<char>,
}

impl View for Version {
    type V = VersionView;

    closed spec fn view(&self) -> VersionView {
        VersionView {
            major: self.major as nat,
            minor: self.minor as nat,
            patch: self.patch as nat,
            pre: self.pre@,
            build: self.build@,
        }
    }
}

impl Clone for Version {
    fn clone(&self) -> (copy: Version)
        ensures
            copy@ == self@,
    {
        proof {
            use_type_invariant(self);
        }
        let mut pre: Vec<char> = Vec::new();
        extend(&mut pre, &self.pre);
        let mut build: Vec<char> = Vec::new();
        extend(&mut build, &self.build);
        Version { major: self.major, minor: self.minor, patch: self.patch, pre, build }
    }
}

impl Version {
    #[verifier::type_invariant]
    spec fn valid(self) -> bool {
        self@.well_formed()
    }

    /// The release `major.minor.patch`.
    pub fn new(major: u64, minor: u64, patch: u64) -> (v: Version)
        ensures
            v@ == (VersionView {
                major: major as nat,
                minor: minor as nat,
                patch: patch as nat,
                pre: Seq::<char>::empty(),
                build: Seq::<char>::empty(),
            }),
            v@.well_formed(),
    {
        Version { major, minor, patch, pre: Vec::new(), build: Vec::new() }
    }

    /// The version of these parts, where they are well formed.
    pub fn from_parts(major: u64, minor: u64, patch: u64, pre: &str, build: &str) -> (r: Option<
        Version,
    >)
        ensures
            ({
                let parts = VersionView {
                    major: major as nat,
                    minor: minor as nat,
                    patch: patch as nat,
                    pre: pre@,
                    build: build@,
                };
                match r {
                    Some(v) => parts.well_formed() && v@ == parts,
                    None => !parts.well_formed(),
                }
            }),
    {
        let pre = chars_of(pre);
        let build = chars_of(build);
        if pre.len() > 0 && !check_series(pre.as_slice(), true) {
            return None;
        }
        if build.len() > 0 && !check_series(build.as_slice(), false) {
            return None;
        }
        Some(Version { major, minor, patch, pre, build })
    }

    /// Reads a version, with or without a `v` before it. The text behind the
    /// `v` goes to the semver grammar; what that finds is taken where it is
    /// well formed and writes the very text that was read.
    pub fn parse(value: &str) -> (r: Result<Version, ParseError>)
        ensures
            match r {
                Ok(v) => VersionView::parse(value@) == Some(v@) && v@.well_formed(),
                Err(e) => VersionView::parse(value@) is None && e@ == value@,
            },
    {
        let body = without_v(value);
        let confirmed = match semver_parse(body.as_str()) {
            Ok(parts) => Version::confirm(parts, body.as_str()),
            Err(_) => None,
        };
        match confirmed {
            Some(version) => Ok(version),
            None => Err(ParseError { text: value.to_owned() }),
        }
    }

    /// The version of the parts that a parser found in `body`, where the
    /// parts are well formed and `body` is their text.
    pub fn confirm(parts: Parts, body: &str) -> (r: Option<Version>)
        ensures
            match r {
                Some(v) => parts@.well_formed() && parts@.text() == body@ && v@ == parts@,
                None => !(parts@.well_formed() && parts@.text() == body@),
            },
    {
        match Version::from_parts(
            parts.major,
            parts.minor,
            parts.patch,
            parts.pre.as_str(),
            parts.build.as_str(),
        ) {
            Some(version) => {
                if version.writes(body) {
                    Some(version)
                } else {
                    None
                }
            },
            None => None,
        }
    }

    /// Whether `body` is the text of this version.
    pub fn writes(&self, body: &str) -> (r: bool)
        ensures
            r == (self@.text() == body@),
    {
        let mut out: Vec<char> = Vec::new();
        self.render(&mut out);
        let body = chars_of(body);
        same_text(&out, &body)
    }

    /// The version as it is shown: `v`, then the numbers with dots between
    /// them, the pre-release behind `-` and the build behind `+`.
    pub fn to_string(&self) -> (shown: String)
        ensures
            shown@ == self@.shown(),
    {
        let mut out: Vec<char> = Vec::new();
        out.push('v');
        self.render(&mut out);
        string_of(&out)
    }

    /// Appends the text of this version to `out`.
    fn render(&self, out: &mut Vec<char>)
        ensures
            final(out)@ == old(out)@ + self@.text(),
    {
        push_decimal(out, self.major);
        out.push('.');
        push_decimal(out, self.minor);
        out.push('.');
        push_decimal(out, self.patch);
        if self.pre.len() > 0 {
            out.push('-');
            extend(out, &self.pre);
        }
        if self.build.len() > 0 {
            out.push('+');
            extend(out, &self.build);
        }
    }

    /// How this version stands to `other`.
    pub fn precedence(&self, other: &Version) -> (r: Precedence)
        ensures
            r == self@.precedence(other@),
    {
        proof {
            use_type_invariant(self);
            use_type_invariant(other);
        }
        let major = compare_number(self.major, other.major);
        if major != Precedence::Same {
            return major;
        }
        let minor = compare_number(self.minor, other.minor);
        if minor != Precedence::Same {
            return minor;
        }
        let patch = compare_number(self.patch, other.patch);
        if patch != Precedence::Same {
            return patch;
        }
        compare_prerelease(self.pre.as_slice(), other.pre.as_slice())
    }

    /// The major number.
    pub fn major(&self) -> (n: u64)
        ensures
            n == self@.major,
    {
        self.major
    }

    /// The minor number.
    pub fn minor(&self) -> (n: u64)
        ensures
            n == self@.minor,
    {
        self.minor
    }

    /// The patch number.
    pub fn patch(&self) -> (n: u64)
        ensures
            n == self@.patch,
    {
        self.patch
    }

    /// The pre-release, empty where the version is a release.
    pub fn pre(&self) -> (s: String)
        ensures
            s@ == self@.pre,
    {
        string_of(&self.pre)
    }

    /// The build, empty where the version names none.
    pub fn build(&self) -> (s: String)
        ensures
            s@ == self@.build,
    {
        string_of(&self.build)
    }
}

/// Turning two versions round turns their precedence round: of two
/// versions one comes first, or neither does.
pub proof fn lemma_precedence_flip(a: VersionView, b: VersionView)
    ensures
        b.precedence(a) == a.precedence(b).flip(),
{
    lemma_prerelease_flip(a.pre, b.pre);
}

/// Precedence is transitive: what is not after `b`, when `b` is not after
/// `c`, is not after `c`, and shares the place of `c` only where all three
/// share one.
pub proof fn lemma_precedence_transitive(a: VersionView, b: VersionView, c: VersionView)
    requires
        a.precedence(b) != Precedence::Higher,
        b.precedence(c) != Precedence::Higher,
    ensures
        a.precedence(c) != Precedence::Higher,
        a.precedence(c) == Precedence::Same ==> a.precedence(b) == Precedence::Same
            && b.precedence(c) == Precedence::Same,
{
    if a.major == b.major && b.major == c.major && a.minor == b.minor && b.minor == c.minor
        && a.patch == b.patch && b.patch == c.patch {
        lemma_prerelease_transitive(a.pre, b.pre, c.pre);
    }
}

/// Two well-formed versions share a place exactly where their numbers and
/// their pre-releases are the same. Their builds may differ.
pub proof fn lemma_precedence_same(a: VersionView, b: VersionView)
    requires
        a.well_formed(),
        b.well_formed(),
    ensures
        a.precedence(b) == Precedence::Same <==> a.key() == b.key(),
{
    lemma_prerelease_same(a.pre, b.pre);
}

/// A release comes after each of its pre-releases.
pub proof fn lemma_release_after_prerelease(a: VersionView, b: VersionView)
    requires
        a.major == b.major,
        a.minor == b.minor,
        a.patch == b.patch,
        a.pre.len() == 0,
        b.pre.len() > 0,
    ensures
        a.precedence(b) == Precedence::Higher,
{
}

/// A `v` before a text that starts with none changes nothing of what the text
/// writes.
pub proof fn lemma_prefix_tolerated(text: Seq<char>)
    requires
        text.len() == 0 || text[0] != 'v',
    ensures
        VersionView::parse(seq!['v'] + text) == VersionView::parse(text),
{
    assert((seq!['v'] + text).drop_first() == text);
}

/// A version is shown as the text that wrote it, behind one `v`.
pub proof fn lemma_shown_restores(text: Seq<char>)
    requires
        VersionView::parse(text) is Some,
    ensures
        VersionView::parse(text)->0.shown() == seq!['v'] + strip_v(text),
{
}

} // verus!
