//! The reverse-DNS package identifier: `<top-level-domain>.<vendor>.<product>`.

use vstd::prelude::*;
use vstd::string::StringExecFns;

verus! {

/// Characters allowed in an identifier segment: ASCII alphanumerics,
/// `-`, `_` and `.`.
pub open spec fn valid_id_char(c: char) -> bool {
    ('a' as u32 <= c as u32 && c as u32 <= 'z' as u32)
    || ('A' as u32 <= c as u32 && c as u32 <= 'Z' as u32)
    || ('0' as u32 <= c as u32 && c as u32 <= '9' as u32)
    || c == '-' || c == '_' || c == '.'
}

/// Every character of the segment is allowed.
pub open spec fn seg_valid(s: Seq<char>) -> bool {
    forall|i: int| 0 <= i < s.len() ==> valid_id_char(#[trigger] s[i])
}

/// Index of the first disallowed character at or after `i`, or `s.len()`.
pub open spec fn first_invalid_at(s: Seq<char>, i: int) -> int
    decreases s.len() - i,
{
    if i < 0 || i >= s.len() {
        s.len() as int
    } else if !valid_id_char(s[i]) {
        i
    } else {
        first_invalid_at(s, i + 1)
    }
}

/// Index of the first `.` at or after `i`, or `s.len()`.
pub open spec fn first_dot_at(s: Seq<char>, i: int) -> int
    decreases s.len() - i,
{
    if i < 0 || i >= s.len() {
        s.len() as int
    } else if s[i] == '.' {
        i
    } else {
        first_dot_at(s, i + 1)
    }
}

/// The exactly three `.`-separated components of `s`: the texts before the
/// first dot, between the two dots, and after the second dot. `None` when
/// `s` holds any number of dots other than two.
pub open spec fn split3(s: Seq<char>) -> Option<(Seq<char>, Seq<char>, Seq<char>)> {
    let d1 = first_dot_at(s, 0);
    if d1 == s.len() {
        None
    } else {
        let d2 = first_dot_at(s, d1 + 1);
        if d2 == s.len() {
            None
        } else if first_dot_at(s, d2 + 1) != s.len() {
            None
        } else {
            Some((s.subrange(0, d1), s.subrange(d1 + 1, d2), s.subrange(d2 + 1, s.len() as int)))
        }
    }
}

/// Whether the public-suffix list yields a registrable domain for `name`.
/// The list is compiled into its crate, so the answer is a function of
/// `name` alone.
pub uninterp spec fn psl_registrable(name: Seq<char>) -> bool;

/// The synthetic domain used to test a candidate top-level domain.
pub open spec fn example_query(s: Seq<char>) -> Seq<char> {
    "example."@ + s
}

/// A segment is a recognized top-level domain when the public-suffix list
/// yields a registrable domain for `example.<segment>`.
pub open spec fn tld_recognized(s: Seq<char>) -> bool {
    psl_registrable(example_query(s))
}

/// What identifier validation rejects, in the order the checks run.
pub enum IdIssue {
    /// The dotted text does not split into exactly three components.
    WrongFieldCount,
    /// Segment number `field` holds the disallowed character `ch`, and every
    /// earlier segment is clean.
    BadChar { field: int, ch: char },
    /// All characters are allowed, but the first segment is not a recognized
    /// top-level domain.
    UnknownTld,
}

/// The first check that fails on the three segments, or `None` when all pass:
/// characters of each segment in order, then the top-level-domain lookup.
pub open spec fn segs_issue(a: Seq<char>, b: Seq<char>, c: Seq<char>) -> Option<IdIssue> {
    if !seg_valid(a) {
        Some(IdIssue::BadChar { field: 0, ch: a[first_invalid_at(a, 0)] })
    } else if !seg_valid(b) {
        Some(IdIssue::BadChar { field: 1, ch: b[first_invalid_at(b, 0)] })
    } else if !seg_valid(c) {
        Some(IdIssue::BadChar { field: 2, ch: c[first_invalid_at(c, 0)] })
    } else if !tld_recognized(a) {
        Some(IdIssue::UnknownTld)
    } else {
        None
    }
}

/// The first `.`-separated component of a dot-joined identifier text, or the
/// empty text when it has fewer than three components.
pub open spec fn first_seg(s: Seq<char>) -> Seq<char> {
    match split3(s) {
        Some((a, b, c)) => a,
        None => Seq::empty(),
    }
}

/// The first check that fails on a dot-joined identifier text.
pub open spec fn text_issue(s: Seq<char>) -> Option<IdIssue> {
    match split3(s) {
        None => Some(IdIssue::WrongFieldCount),
        Some((a, b, c)) => segs_issue(a, b, c),
    }
}

/// Whether the returned error reports exactly the given issue; `tld` is the
/// text of the first segment, which the unrecognized-domain error carries.
pub open spec fn error_matches(e: ParseError, issue: Option<IdIssue>, tld: Seq<char>) -> bool {
    match (e, issue) {
        (ParseError::WrongNumFields, Some(IdIssue::WrongFieldCount)) => true,
        (ParseError::InvalidCharacter { ch, field }, Some(IdIssue::BadChar { field: f, ch: c })) =>
            ch == c && field as int == f,
        (ParseError::UnrecognizedTld(u), Some(IdIssue::UnknownTld)) => u.0@ == tld,
        _ => false,
    }
}

/// An AppStream package identifier.
#[derive(Clone, Debug, Eq, Hash, PartialEq)]
pub struct Id {
    tld: TopLevelDomain,
    vendor: String,
    product: String,
}

impl Id {
    /// The top-level-domain segment's text.
    pub closed spec fn spec_tld(&self) -> Seq<char> {
        self.tld@
    }

    /// The vendor segment's text.
    pub closed spec fn spec_vendor(&self) -> Seq<char> {
        self.vendor@
    }

    /// The product segment's text.
    pub closed spec fn spec_product(&self) -> Seq<char> {
        self.product@
    }

    /// A well-formed identifier: all segments hold only allowed characters
    /// and the first is a recognized top-level domain.
    pub open spec fn wf(&self) -> bool {
        segs_issue(self.spec_tld(), self.spec_vendor(), self.spec_product()) is None
    }

    /// The canonical dotted text of the identifier.
    pub open spec fn spec_text(&self) -> Seq<char> {
        self.spec_tld() + seq!['.'] + self.spec_vendor() + seq!['.'] + self.spec_product()
    }

    /// Assembles an identifier from already-validated parts.
    pub fn new(tld: TopLevelDomain, vendor: &str, product: &str) -> (r: Id)
        ensures
            r.spec_tld() == tld@,
            r.spec_vendor() == vendor@,
            r.spec_product() == product@,
    {
        Id { tld, vendor: vendor.to_owned(), product: product.to_owned() }
    }

    /// Validates three identifier segments: rejects the first disallowed
    /// character, in segment order, and then an unrecognized top-level domain.
    pub fn parse(tld: &str, vendor: &str, product: &str) -> (r: Result<Id, ParseError>)
        ensures
            match r {
                Ok(id) => segs_issue(tld@, vendor@, product@) is None
                    && id.spec_tld() == tld@
                    && id.spec_vendor() == vendor@
                    && id.spec_product() == product@,
                Err(e) => error_matches(e, segs_issue(tld@, vendor@, product@), tld@),
            },
    {
        if let Some(ch) = first_bad_char(tld) {
            return Err(ParseError::InvalidCharacter { ch, field: 0 });
        }
        if let Some(ch) = first_bad_char(vendor) {
            return Err(ParseError::InvalidCharacter { ch, field: 1 });
        }
        if let Some(ch) = first_bad_char(product) {
            return Err(ParseError::InvalidCharacter { ch, field: 2 });
        }
        match TopLevelDomain::parse(tld) {
            Ok(t) => Ok(Id::new(t, vendor, product)),
            Err(e) => Err(ParseError::UnrecognizedTld(e)),
        }
    }

    /// Validates a dot-joined identifier text, which must hold exactly three
    /// `.`-separated components; any other count is rejected before the
    /// segments are validated.
    pub fn from_text(s: &str) -> (r: Result<Id, ParseError>)
        ensures
            match r {
                Ok(id) => text_issue(s@) is None
                    && (match split3(s@) {
                        Some((a, b, c)) => id.spec_tld() == a && id.spec_vendor() == b
                            && id.spec_product() == c,
                        None => false,
                    }),
                Err(e) => error_matches(e, text_issue(s@), first_seg(s@)),
            },
    {
        let n = s.unicode_len();
        let d1 = find_dot(s, 0);
        proof {
            lemma_first_dot_is(s@, 0, d1 as int);
        }
        if d1 == n {
            return Err(ParseError::WrongNumFields);
        }
        let d2 = find_dot(s, d1 + 1);
        proof {
            lemma_first_dot_is(s@, d1 + 1, d2 as int);
        }
        if d2 == n {
            return Err(ParseError::WrongNumFields);
        }
        let d3 = find_dot(s, d2 + 1);
        proof {
            lemma_first_dot_is(s@, d2 + 1, d3 as int);
        }
        if d3 != n {
            return Err(ParseError::WrongNumFields);
        }
        let a = s.substring_char(0, d1);
        let b = s.substring_char(d1 + 1, d2);
        let c = s.substring_char(d2 + 1, n);
        Id::parse(a, b, c)
    }

    /// The canonical dotted text: the three segments joined by `.`.
    pub fn to_text(&self) -> (r: String)
        ensures
            r@ == self.spec_text(),
    {
        let mut out = self.tld.0.clone();
        out.append(".");
        out.append(self.vendor.as_str());
        out.append(".");
        out.append(self.product.as_str());
        proof {
            reveal_strlit(".");
            assert(out@ =~= self.spec_text());
        }
        out
    }

    /// The top-level-domain segment.
    pub fn tld(&self) -> (r: &TopLevelDomain)
        ensures
            r@ == self.spec_tld(),
    {
        &self.tld
    }

    /// The vendor segment's text.
    pub fn vendor(&self) -> (r: &str)
        ensures
            r@ == self.spec_vendor(),
    {
        self.vendor.as_str()
    }

    /// The product segment's text.
    pub fn product(&self) -> (r: &str)
        ensures
            r@ == self.spec_product(),
    {
        self.product.as_str()
    }
}

impl core::str::FromStr for Id {
    type Err = ParseError;

    fn from_str(s: &str) -> Result<Self, Self::Err> {
        Id::from_text(s)
    }
}

/// For every well-formed identifier whose segments hold no `.`, parsing the
/// canonical dotted text recovers the identifier: the text splits back into
/// exactly the original segments and passes every check.
pub proof fn lemma_parse_format_round_trip(id: Id)
    requires
        id.wf(),
        forall|i: int| 0 <= i < id.spec_tld().len() ==> #[trigger] id.spec_tld()[i] != '.',
        forall|i: int| 0 <= i < id.spec_vendor().len() ==> #[trigger] id.spec_vendor()[i] != '.',
        forall|i: int| 0 <= i < id.spec_product().len() ==> #[trigger] id.spec_product()[i] != '.',
    ensures
        split3(id.spec_text()) == Some((id.spec_tld(), id.spec_vendor(), id.spec_product())),
        text_issue(id.spec_text()) is None,
{
    let s = id.spec_text();
    let a = id.spec_tld();
    let b = id.spec_vendor();
    let c = id.spec_product();
    let d1 = a.len() as int;
    let d2 = a.len() + 1 + b.len();
    assert(s[d1] == '.');
    assert(s[d2 as int] == '.');
    lemma_first_dot_is(s, 0, d1);
    lemma_first_dot_is(s, d1 + 1, d2 as int);
    lemma_first_dot_is(s, d2 as int + 1, s.len() as int);
    assert(s.subrange(0, d1) =~= a);
    assert(s.subrange(d1 + 1, d2 as int) =~= b);
    assert(s.subrange(d2 as int + 1, s.len() as int) =~= c);
}

proof fn lemma_first_dot_is(s: Seq<char>, i: int, j: int)
    requires
        0 <= i <= j <= s.len(),
        forall|k: int| i <= k < j ==> #[trigger] s[k] != '.',
        j == s.len() || s[j] == '.',
    ensures
        first_dot_at(s, i) == j,
    decreases j - i,
{
    if i < j {
        lemma_first_dot_is(s, i + 1, j);
    }
}

proof fn lemma_first_invalid_is(s: Seq<char>, i: int, j: int)
    requires
        0 <= i <= j <= s.len(),
        forall|k: int| i <= k < j ==> valid_id_char(#[trigger] s[k]),
        j == s.len() || !valid_id_char(s[j]),
    ensures
        first_invalid_at(s, i) == j,
    decreases j - i,
{
    if i < j {
        lemma_first_invalid_is(s, i + 1, j);
    }
}

fn is_valid_id_char(c: char) -> (r: bool)
    ensures
        r == valid_id_char(c),
{
    let u = c as u32;
    ('a' as u32 <= u && u <= 'z' as u32) || ('A' as u32 <= u && u <= 'Z' as u32)
        || ('0' as u32 <= u && u <= '9' as u32) || c == '-' || c == '_' || c == '.'
}

/// The first disallowed character of a segment, if any.
fn first_bad_char(s: &str) -> (r: Option<char>)
    ensures
        match r {
            None => seg_valid(s@),
            Some(c) => !seg_valid(s@) && c == s@[first_invalid_at(s@, 0)],
        },
{
    let n = s.unicode_len();
    let mut i: usize = 0;
    while i < n
        invariant
            0 <= i <= n,
            n == s@.len(),
            forall|k: int| 0 <= k < i ==> valid_id_char(#[trigger] s@[k]),
        decreases n - i,
    {
        let c = s.get_char(i);
        if !is_valid_id_char(c) {
            proof {
                lemma_first_invalid_is(s@, 0, i as int);
            }
            return Some(c);
        }
        i = i + 1;
    }
    None
}

/// The index of the first `.` at or after `from`, or the length of `s`.
fn find_dot(s: &str, from: usize) -> (r: usize)
    requires
        from <= s@.len(),
    ensures
        from <= r <= s@.len(),
        forall|k: int| from <= k < r ==> #[trigger] s@[k] != '.',
        r == s@.len() || s@[r as int] == '.',
{
    let n = s.unicode_len();
    let mut i: usize = from;
    while i < n
        invariant
            from <= i <= n,
            n == s@.len(),
            forall|k: int| from <= k < i ==> #[trigger] s@[k] != '.',
        decreases n - i,
    {
        if s.get_char(i) == '.' {
            return i;
        }
        i = i + 1;
    }
    n
}

/// A top-level domain recognized by the public-suffix list.
#[derive(Clone, Debug, Eq, Hash, PartialEq)]
pub struct TopLevelDomain(String);

impl View for TopLevelDomain {
    type V = Seq<char>;

    closed spec fn view(&self) -> Seq<char> {
        self.0@
    }
}

impl TopLevelDomain {
    /// Accepts a segment only when the public-suffix list recognizes it as a
    /// top-level domain.
    pub fn parse(s: &str) -> (r: Result<TopLevelDomain, UnrecognizedTldError>)
        ensures
            match r {
                Ok(t) => tld_recognized(s@) && t@ == s@,
                Err(e) => !tld_recognized(s@) && e.0@ == s@,
            },
    {
        let mut q = String::from_str("example.");
        q.append(s);
        proof {
            assert(q@ == example_query(s@));
        }
        if psl_domain_exists(q.as_str()) {
            Ok(TopLevelDomain(s.to_owned()))
        } else {
            Err(UnrecognizedTldError(s.to_owned()))
        }
    }

    /// The domain's text.
    pub fn as_str(&self) -> (r: &str)
        ensures
            r@ == self@,
    {
        self.0.as_str()
    }
}

impl core::str::FromStr for TopLevelDomain {
    type Err = UnrecognizedTldError;

    fn from_str(s: &str) -> Result<Self, Self::Err> {
        TopLevelDomain::parse(s)
    }
}

/// Relies on `psl::List::domain` (through the `psl::Psl` trait): whether the
/// public-suffix list yields a registrable domain for `name`. The list is
/// compiled into the crate, so the result depends on `name` alone.
#[verifier::external_body]
fn psl_domain_exists(name: &str) -> (r: bool)
    ensures
        r == psl_registrable(name@),
{
    psl::Psl::domain(&psl::List, name.as_bytes()).is_some()
}

/// What identifier validation rejects.
#[derive(Clone, Debug, Eq, Hash, PartialEq)]
pub enum ParseError {
    /// The dotted text does not hold exactly three `.`-separated components.
    WrongNumFields,
    /// A segment holds a character outside the allowed set.
    InvalidCharacter { ch: char, field: usize },
    /// The first segment is not a recognized top-level domain.
    UnrecognizedTld(UnrecognizedTldError),
}

/// A segment that the public-suffix list does not recognize as a top-level
/// domain; carries the offending segment text.
#[derive(Clone, Debug, Eq, Hash, PartialEq)]
pub struct UnrecognizedTldError(pub String);

} // verus!
