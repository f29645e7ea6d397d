use vstd::prelude::*;
use crate::text::{decimal, push_char, push_decimal, push_text};

verus! {

/// One dot-separated identifier of a pre-release or build annotation.
pub enum Identifier {
    Numeric(u64),
    AlphaNumeric(String),
}

/// What an identifier holds, as a mathematical value.
pub enum IdentifierModel {
    Numeric(u64),
    AlphaNumeric(Seq<char>),
}

impl View for Identifier {
    type V = IdentifierModel;

    open spec fn view(&self) -> IdentifierModel {
        match self {
            Identifier::Numeric(n) => IdentifierModel::Numeric(*n),
            Identifier::AlphaNumeric(s) => IdentifierModel::AlphaNumeric(s@),
        }
    }
}

/// A semantic version: `major.minor.patch`, an optional pre-release annotation and
/// optional build metadata.
pub struct Version {
    pub major: u64,
    pub minor: u64,
    pub patch: u64,
    pub pre: Vec<Identifier>,
    pub build: Vec<Identifier>,
}

/// What a version holds, as a mathematical value.
pub struct VersionModel {
    pub major: u64,
    pub minor: u64,
    pub patch: u64,
    pub pre: Seq<IdentifierModel>,
    pub build: Seq<IdentifierModel>,
}

impl View for Version {
    type V = VersionModel;

    open spec fn view(&self) -> VersionModel {
        VersionModel {
            major: self.major,
            minor: self.minor,
            patch: self.patch,
            pre: self.pre@.map_values(|i: Identifier| i@),
            build: self.build@.map_values(|i: Identifier| i@),
        }
    }
}

/// Lexicographic order on character sequences from position `i` on; a proper
/// prefix comes first.
pub open spec fn chars_lt_from(a: Seq<char>, b: Seq<char>, i: nat) -> bool
    decreases a.len() - i,
{
    if i >= a.len() {
        i < b.len()
    } else if i >= b.len() {
        false
    } else if a[i as int] != b[i as int] {
        (a[i as int] as u32) < (b[i as int] as u32)
    } else {
        chars_lt_from(a, b, i + 1)
    }
}

/// Order of identifiers: numeric ones by value, before every alphanumeric one;
/// alphanumeric ones lexicographically.
pub open spec fn identifier_lt(a: IdentifierModel, b: IdentifierModel) -> bool {
    match (a, b) {
        (IdentifierModel::Numeric(x), IdentifierModel::Numeric(y)) => x < y,
        (IdentifierModel::Numeric(_), IdentifierModel::AlphaNumeric(_)) => true,
        (IdentifierModel::AlphaNumeric(_), IdentifierModel::Numeric(_)) => false,
        (IdentifierModel::AlphaNumeric(s), IdentifierModel::AlphaNumeric(t)) => chars_lt_from(s, t, 0),
    }
}

/// Whether two identifiers are the same.
pub open spec fn identifier_eq(a: IdentifierModel, b: IdentifierModel) -> bool {
    match (a, b) {
        (IdentifierModel::Numeric(x), IdentifierModel::Numeric(y)) => x == y,
        (IdentifierModel::AlphaNumeric(s), IdentifierModel::AlphaNumeric(t)) => s =~= t,
        _ => false,
    }
}

/// Lexicographic order on identifier lists from position `i` on; a proper prefix
/// comes first.
pub open spec fn identifiers_lt_from(a: Seq<IdentifierModel>, b: Seq<IdentifierModel>, i: nat) -> bool
    decreases a.len() - i,
{
    if i >= a.len() {
        i < b.len()
    } else if i >= b.len() {
        false
    } else if !identifier_eq(a[i as int], b[i as int]) {
        identifier_lt(a[i as int], b[i as int])
    } else {
        identifiers_lt_from(a, b, i + 1)
    }
}

/// Whether two identifier lists are the same, element by element.
pub open spec fn identifiers_eq(a: Seq<IdentifierModel>, b: Seq<IdentifierModel>) -> bool {
    a.len() == b.len() && forall|k: int| 0 <= k < a.len() ==> identifier_eq(#[trigger] a[k], b[k])
}

/// Precedence: by major, minor and patch; then a version without pre-release
/// annotation after every one with; then the annotations in order. Build metadata
/// takes no part.
pub open spec fn version_lt(a: VersionModel, b: VersionModel) -> bool {
    if a.major != b.major {
        a.major < b.major
    } else if a.minor != b.minor {
        a.minor < b.minor
    } else if a.patch != b.patch {
        a.patch < b.patch
    } else if a.pre.len() == 0 {
        false
    } else if b.pre.len() == 0 {
        true
    } else {
        identifiers_lt_from(a.pre, b.pre, 0)
    }
}

/// Equal precedence: the same numbers and the same pre-release annotation; build
/// metadata takes no part.
pub open spec fn version_eq(a: VersionModel, b: VersionModel) -> bool {
    a.major == b.major && a.minor == b.minor && a.patch == b.patch && identifiers_eq(a.pre, b.pre)
}

/// `a` is at least `b` in precedence.
pub open spec fn version_ge(a: VersionModel, b: VersionModel) -> bool {
    !version_lt(a, b)
}

/// The text of an identifier.
pub open spec fn identifier_text(i: IdentifierModel) -> Seq<char> {
    match i {
        IdentifierModel::Numeric(n) => decimal(n as nat),
        IdentifierModel::AlphaNumeric(s) => s,
    }
}

/// The identifiers `ids[0..n]`, joined by dots.
pub open spec fn joined(ids: Seq<IdentifierModel>, n: nat) -> Seq<char>
    decreases n,
{
    if n == 0 || n > ids.len() {
        Seq::empty()
    } else if n == 1 {
        identifier_text(ids[0])
    } else {
        joined(ids, (n - 1) as nat).push('.') + identifier_text(ids[n - 1])
    }
}

/// The canonical text of a version: `major.minor.patch`, then `-` and the
/// pre-release identifiers, then `+` and the build identifiers, each list only
/// where it is not empty.
pub open spec fn version_text(v: VersionModel) -> Seq<char> {
    let core = decimal(v.major as nat).push('.') + decimal(v.minor as nat) + seq!['.'] + decimal(
        v.patch as nat,
    );
    let with_pre = if v.pre.len() == 0 {
        core
    } else {
        core.push('-') + joined(v.pre, v.pre.len())
    };
    if v.build.len() == 0 {
        with_pre
    } else {
        with_pre.push('+') + joined(v.build, v.build.len())
    }
}

/// The version that semver's grammar reads from the text `s`, or none where `s`
/// is not a version.
pub uninterp spec fn parsed_version(s: Seq<char>) -> Option<VersionModel>;

/// Relies on `semver::Version::parse` (semver 0.9): reads a version by the strict
/// semantic-versioning grammar; each field is carried over as it is.
#[verifier::external_body]
fn semver_parse(s: &str) -> (r: Option<Version>)
    ensures
        r is Some <==> parsed_version(s@) is Some,
        r matches Some(v) ==> parsed_version(s@) == Some(v@),
{
    let conv = |ids: Vec<semver::Identifier>| -> Vec<Identifier> {
        ids.into_iter().map(|i| match i {
            semver::Identifier::Numeric(n) => Identifier::Numeric(n),
            semver::Identifier::AlphaNumeric(a) => Identifier::AlphaNumeric(a),
        }).collect()
    };
    let v = semver::Version::parse(s).ok()?;
    Some(Version { major: v.major, minor: v.minor, patch: v.patch, pre: conv(v.pre), build: conv(v.build) })
}

impl Identifier {
    /// Whether `self` and `other` are the same identifier.
    pub fn same(&self, other: &Identifier) -> (r: bool)
        ensures
            r == identifier_eq(self@, other@),
    {
        match (self, other) {
            (Identifier::Numeric(x), Identifier::Numeric(y)) => *x == *y,
            (Identifier::AlphaNumeric(s), Identifier::AlphaNumeric(t)) => {
                let a = s.as_str();
                let b = t.as_str();
                let n = a.unicode_len();
                if n != b.unicode_len() {
                    assert(s@.len() != t@.len());
                    return false;
                }
                let mut i: usize = 0;
                while i < n
                    invariant
                        n == s@.len() == t@.len(),
                        a@ == s@,
                        b@ == t@,
                        self@ == IdentifierModel::AlphaNumeric(s@),
                        other@ == IdentifierModel::AlphaNumeric(t@),
                        i <= n,
                        forall|k: int| 0 <= k < i ==> s@[k] == t@[k],
                    decreases n - i,
                {
                    if a.get_char(i) != b.get_char(i) {
                        assert(s@[i as int] != t@[i as int]);
                        return false;
                    }
                    i = i + 1;
                }
                assert(s@ =~= t@);
                true
            },
            _ => false,
        }
    }

    /// Whether `self` comes before `other`.
    pub fn precedes(&self, other: &Identifier) -> (r: bool)
        ensures
            r == identifier_lt(self@, other@),
    {
        match (self, other) {
            (Identifier::Numeric(x), Identifier::Numeric(y)) => *x < *y,
            (Identifier::Numeric(_), Identifier::AlphaNumeric(_)) => true,
            (Identifier::AlphaNumeric(_), Identifier::Numeric(_)) => false,
            (Identifier::AlphaNumeric(s), Identifier::AlphaNumeric(t)) => {
                let a = s.as_str();
                let b = t.as_str();
                let n = a.unicode_len();
                let m = b.unicode_len();
                let mut i: usize = 0;
                while i < n && i < m
                    invariant
                        n == s@.len(),
                        m == t@.len(),
                        a@ == s@,
                        b@ == t@,
                        self@ == IdentifierModel::AlphaNumeric(s@),
                        other@ == IdentifierModel::AlphaNumeric(t@),
                        i <= n,
                        i <= m,
                        chars_lt_from(s@, t@, 0) == chars_lt_from(s@, t@, i as nat),
                    decreases n - i,
                {
                    let c = a.get_char(i);
                    let d = b.get_char(i);
                    if c != d {
                        assert(chars_lt_from(s@, t@, i as nat) == ((c as u32) < (d as u32)));
                        return (c as u32) < (d as u32);
                    }
                    assert(chars_lt_from(s@, t@, i as nat) == chars_lt_from(s@, t@, (i + 1) as nat));
                    i = i + 1;
                }
                assert(chars_lt_from(s@, t@, i as nat) == (i < m));
                i < m
            },
        }
    }

    /// Appends the text of the identifier to `s`.
    pub fn push_text_to(&self, s: &mut String)
        ensures
            final(s)@ == old(s)@ + identifier_text(self@),
    {
        match self {
            Identifier::Numeric(n) => push_decimal(s, *n),
            Identifier::AlphaNumeric(t) => push_text(s, t.as_str()),
        }
    }
}

/// Whether two identifier lists are the same.
fn identifiers_same(a: &Vec<Identifier>, b: &Vec<Identifier>) -> (r: bool)
    ensures
        r == identifiers_eq(a@.map_values(|i: Identifier| i@), b@.map_values(|i: Identifier| i@)),
{
    let ghost am = a@.map_values(|i: Identifier| i@);
    let ghost bm = b@.map_values(|i: Identifier| i@);
    if a.len() != b.len() {
        assert(am.len() != bm.len());
        return false;
    }
    let mut i: usize = 0;
    while i < a.len()
        invariant
            a.len() == b.len(),
            am == a@.map_values(|i: Identifier| i@),
            bm == b@.map_values(|i: Identifier| i@),
            i <= a.len(),
            forall|k: int| 0 <= k < i ==> identifier_eq(#[trigger] am[k], bm[k]),
        decreases a.len() - i,
    {
        if !a[i].same(&b[i]) {
            assert(!identifier_eq(am[i as int], bm[i as int]));
            return false;
        }
        i = i + 1;
    }
    true
}

/// Whether the identifier list `a` comes before `b`.
fn identifiers_precede(a: &Vec<Identifier>, b: &Vec<Identifier>) -> (r: bool)
    ensures
        r == identifiers_lt_from(
            a@.map_values(|i: Identifier| i@),
            b@.map_values(|i: Identifier| i@),
            0,
        ),
{
    let ghost am = a@.map_values(|i: Identifier| i@);
    let ghost bm = b@.map_values(|i: Identifier| i@);
    let mut i: usize = 0;
    while i < a.len() && i < b.len()
        invariant
            am == a@.map_values(|i: Identifier| i@),
            bm == b@.map_values(|i: Identifier| i@),
            i <= a.len(),
            i <= b.len(),
            identifiers_lt_from(am, bm, 0) == identifiers_lt_from(am, bm, i as nat),
        decreases a.len() - i,
    {
        if !a[i].same(&b[i]) {
            return a[i].precedes(&b[i]);
        }
        i = i + 1;
    }
    i < b.len()
}

/// Appends the identifiers of `ids`, joined by dots, to `s`.
fn push_joined(s: &mut String, ids: &Vec<Identifier>)
    ensures
        final(s)@ == old(s)@ + joined(ids@.map_values(|i: Identifier| i@), ids@.len()),
{
    let ghost m = ids@.map_values(|i: Identifier| i@);
    let ghost start = s@;
    let mut i: usize = 0;
    while i < ids.len()
        invariant
            m == ids@.map_values(|i: Identifier| i@),
            i <= ids.len(),
            s@ == start + joined(m, i as nat),
        decreases ids.len() - i,
    {
        if i > 0 {
            push_char(s, '.');
        }
        ids[i].push_text_to(s);
        proof {
            if i == 0 {
                assert(joined(m, 1) == identifier_text(m[0]));
                assert(joined(m, 0) =~= Seq::<char>::empty());
            } else {
                assert(joined(m, (i + 1) as nat) == joined(m, i as nat).push('.') + identifier_text(
                    m[i as int],
                ));
            }
        }
        assert(s@ =~= start + joined(m, (i + 1) as nat));
        i = i + 1;
    }
}

impl Version {
    /// Reads a version from `s` by the semantic-versioning grammar; none where `s`
    /// is not one.
    pub fn parse(s: &str) -> (r: Option<Version>)
        ensures
            r is Some <==> parsed_version(s@) is Some,
            r matches Some(v) ==> parsed_version(s@) == Some(v@),
    {
        semver_parse(s)
    }

    /// Whether `self` and `other` have equal precedence.
    pub fn same_as(&self, other: &Version) -> (r: bool)
        ensures
            r == version_eq(self@, other@),
    {
        self.major == other.major && self.minor == other.minor && self.patch == other.patch
            && identifiers_same(&self.pre, &other.pre)
    }

    /// Whether `self` comes strictly before `other` in precedence.
    pub fn precedes(&self, other: &Version) -> (r: bool)
        ensures
            r == version_lt(self@, other@),
    {
        if self.major != other.major {
            self.major < other.major
        } else if self.minor != other.minor {
            self.minor < other.minor
        } else if self.patch != other.patch {
            self.patch < other.patch
        } else if self.pre.len() == 0 {
            false
        } else if other.pre.len() == 0 {
            true
        } else {
            identifiers_precede(&self.pre, &other.pre)
        }
    }

    /// Whether `self` is at least `other` in precedence.
    pub fn at_least(&self, other: &Version) -> (r: bool)
        ensures
            r == version_ge(self@, other@),
    {
        !self.precedes(other)
    }

    /// The canonical text of the version.
    pub fn to_text(&self) -> (r: String)
        ensures
            r@ == version_text(self@),
    {
        let mut s = String::new();
        push_decimal(&mut s, self.major);
        push_char(&mut s, '.');
        push_decimal(&mut s, self.minor);
        push_char(&mut s, '.');
        push_decimal(&mut s, self.patch);
        if self.pre.len() > 0 {
            push_char(&mut s, '-');
            push_joined(&mut s, &self.pre);
        }
        if self.build.len() > 0 {
            push_char(&mut s, '+');
            push_joined(&mut s, &self.build);
        }
        assert(s@ =~= version_text(self@));
        s
    }
}

} // verus!
