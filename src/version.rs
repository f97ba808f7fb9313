use vstd::prelude::*;
use crate::error::InstallError;

verus! {

/// The characters of a decimal digit.
pub open spec fn digit_char(d: int) -> char {
    if d == 0 {
        '0'
    } else if d == 1 {
        '1'
    } else if d == 2 {
        '2'
    } else if d == 3 {
        '3'
    } else if d == 4 {
        '4'
    } else if d == 5 {
        '5'
    } else if d == 6 {
        '6'
    } else if d == 7 {
        '7'
    } else if d == 8 {
        '8'
    } else {
        '9'
    }
}

/// The decimal numeral of `n`, without leading zeros.
pub open spec fn decimal(n: nat) -> Seq<char>
    decreases n,
{
    if n < 10 {
        seq![digit_char(n as int)]
    } else {
        decimal(n / 10).push(digit_char((n % 10) as int))
    }
}

fn digit_of(d: u64) -> (c: char)
    requires
        d < 10,
    ensures
        c == digit_char(d as int),
{
    if d == 0 {
        '0'
    } else if d == 1 {
        '1'
    } else if d == 2 {
        '2'
    } else if d == 3 {
        '3'
    } else if d == 4 {
        '4'
    } else if d == 5 {
        '5'
    } else if d == 6 {
        '6'
    } else if d == 7 {
        '7'
    } else if d == 8 {
        '8'
    } else {
        '9'
    }
}

/// Appends the decimal numeral of `n`.
pub fn push_decimal(out: &mut String, n: u64)
    ensures
        final(out)@ == old(out)@ + decimal(n as nat),
    decreases n,
{
    if n >= 10 {
        push_decimal(out, n / 10);
    }
    out.push(digit_of(n % 10));
    assert(out@ =~= old(out)@ + decimal(n as nat));
}

/// The parts of a version text as `semver::Version::parse` reads them:
/// major, minor, patch, pre-release and build metadata; none where the text
/// is not a semantic version.
pub uninterp spec fn semver_parts(text: Seq<char>) -> Option<(u64, u64, u64, Seq<char>, Seq<char>)>;

/// Relies on `semver::Version::parse` to read a version text; the
/// pre-release and build parts are handed back as their text.
#[verifier::external_body]
fn parse_semver(text: &str) -> (r: Option<SemVer>)
    ensures
        match (semver_parts(text@), r) {
            (None, None) => true,
            (Some((a, b, c, p, q)), Some(v)) => v.major == a && v.minor == b && v.patch == c
                && v.pre@ == p && v.build@ == q,
            _ => false,
        },
{
    match semver::Version::parse(text) {
        Ok(v) => Some(SemVer {
            major: v.major,
            minor: v.minor,
            patch: v.patch,
            pre: v.pre.as_str().to_owned(),
            build: v.build.as_str().to_owned(),
        }),
        Err(_) => None,
    }
}

/// A semantic version: three numbers, a pre-release tag and build metadata
/// (each tag empty where absent).
#[derive(Debug, Clone, PartialEq, Eq)]
pub struct SemVer {
    pub major: u64,
    pub minor: u64,
    pub patch: u64,
    pub pre: String,
    pub build: String,
}

/// `major.minor.patch`, then `-pre` and `+build` where those are present.
pub open spec fn version_text(
    major: u64,
    minor: u64,
    patch: u64,
    pre: Seq<char>,
    build: Seq<char>,
) -> Seq<char> {
    decimal(major as nat) + seq!['.'] + decimal(minor as nat) + seq!['.'] + decimal(patch as nat)
        + (if pre.len() == 0 {
        Seq::<char>::empty()
    } else {
        seq!['-'] + pre
    }) + (if build.len() == 0 {
        Seq::<char>::empty()
    } else {
        seq!['+'] + build
    })
}

/// Semantic-version precedence of `(major, minor, patch, pre)` below the
/// release `a.b.c`: a smaller triple, or the same triple with a pre-release tag
/// (a release outranks its pre-releases; build metadata never lowers a version).
pub open spec fn below_release(
    major: u64,
    minor: u64,
    patch: u64,
    pre: Seq<char>,
    a: u64,
    b: u64,
    c: u64,
) -> bool {
    major < a || (major == a && minor < b) || (major == a && minor == b && patch < c) || (major
        == a && minor == b && patch == c && pre.len() > 0)
}

impl SemVer {
    /// The canonical text of this version.
    pub open spec fn text(&self) -> Seq<char> {
        version_text(self.major, self.minor, self.patch, self.pre@, self.build@)
    }

    /// Whether this version carries a pre-release tag.
    pub open spec fn is_pre(&self) -> bool {
        self.pre@.len() > 0
    }

    /// Whether this version ranks below the release `a.b.c`.
    pub open spec fn below(&self, a: u64, b: u64, c: u64) -> bool {
        below_release(self.major, self.minor, self.patch, self.pre@, a, b, c)
    }

    /// Reads a version text; a text that is no semantic version is refused.
    pub fn parse(text: &str) -> (r: Result<SemVer, InstallError>)
        ensures
            match semver_parts(text@) {
                None => r is Err && r->Err_0 is InvalidVersion && r->Err_0->InvalidVersion_0@
                    == text@,
                Some((a, b, c, p, q)) => r is Ok && r->Ok_0.major == a && r->Ok_0.minor == b
                    && r->Ok_0.patch == c && r->Ok_0.pre@ == p && r->Ok_0.build@ == q,
            },
    {
        match parse_semver(text) {
            None => Err(InstallError::InvalidVersion(text.to_owned())),
            Some(v) => Ok(v),
        }
    }

    /// The canonical text: `major.minor.patch[-pre][+build]`.
    pub fn to_text(&self) -> (r: String)
        ensures
            r@ == self.text(),
    {
        let mut r = String::new();
        push_decimal(&mut r, self.major);
        r.push('.');
        push_decimal(&mut r, self.minor);
        r.push('.');
        push_decimal(&mut r, self.patch);
        if self.pre.unicode_len() > 0 {
            r.push('-');
            r.append(self.pre.as_str());
        }
        if self.build.unicode_len() > 0 {
            r.push('+');
            r.append(self.build.as_str());
        }
        assert(r@ =~= self.text());
        r
    }

    /// Whether this version carries a pre-release tag (the beta channel).
    pub fn is_prerelease(&self) -> (r: bool)
        ensures
            r == self.is_pre(),
    {
        self.pre.unicode_len() > 0
    }

    /// Whether this version ranks below the release `a.b.c`.
    pub fn is_below(&self, a: u64, b: u64, c: u64) -> (r: bool)
        ensures
            r == self.below(a, b, c),
    {
        if self.major != a {
            self.major < a
        } else if self.minor != b {
            self.minor < b
        } else if self.patch != c {
            self.patch < c
        } else {
            self.is_prerelease()
        }
    }
}

/// A game version of the catalog.
#[derive(Debug, Clone)]
pub struct MinecraftVersion {
    pub version: String,
    pub stable: bool,
}

impl PartialEq for MinecraftVersion {
    /// Game versions are equal when their identifiers are.
    fn eq(&self, other: &MinecraftVersion) -> (r: bool) {
        self.version == other.version
    }
}

impl vstd::std_specs::cmp::PartialEqSpecImpl for MinecraftVersion {
    open spec fn obeys_eq_spec() -> bool {
        true
    }

    open spec fn eq_spec(&self, other: &MinecraftVersion) -> bool {
        self.version@ == other.version@
    }
}

impl MinecraftVersion {
    /// The version identifier, as it appears in profile names.
    pub fn to_text(&self) -> (r: String)
        ensures
            r@ == self.version@,
    {
        self.version.clone()
    }
}

/// A loader version of the catalog.
#[derive(Debug, Clone)]
pub struct LoaderVersion {
    pub separator: char,
    pub build: u32,
    /// Maven coordinate of the loader artifact.
    pub maven: String,
    pub version: SemVer,
}

impl LoaderVersion {
    /// The text of the loader version, as it appears in profile names.
    pub open spec fn text(&self) -> Seq<char> {
        self.version.text()
    }

    /// Builds a catalog entry, reading `version` as a semantic version.
    pub fn from_parts(separator: char, build: u32, maven: String, version: &str) -> (r: Result<
        LoaderVersion,
        InstallError,
    >)
        ensures
            match semver_parts(version@) {
                None => r is Err && r->Err_0 is InvalidVersion && r->Err_0->InvalidVersion_0@
                    == version@,
                Some((a, b, c, p, q)) => r is Ok && r->Ok_0.separator == separator
                    && r->Ok_0.build == build && r->Ok_0.maven == maven && r->Ok_0.version.major
                    == a && r->Ok_0.version.minor == b && r->Ok_0.version.patch == c
                    && r->Ok_0.version.pre@ == p && r->Ok_0.version.build@ == q,
            },
    {
        match SemVer::parse(version) {
            Err(e) => Err(e),
            Ok(v) => Ok(LoaderVersion { separator, build, maven, version: v }),
        }
    }

    /// The text of the loader version.
    pub fn to_text(&self) -> (r: String)
        ensures
            r@ == self.text(),
    {
        self.version.to_text()
    }
}

} // verus!
