//! The copyright notice taken from the document's single leading comment.
//!
//! The whole trimmed comment must match `Copyright <years> <holder>`, where
//! `<years>` is one or more four-digit years separated by `-` or `, `, and
//! `<holder>` is the unmodified remainder after the space that follows the
//! years.

use vstd::prelude::*;
use crate::text::{trim_seq, trim_spaces};

verus! {

/// A decimal digit.
pub open spec fn is_digit(c: char) -> bool {
    '0' as u32 <= c as u32 && c as u32 <= '9' as u32
}

/// Four digits starting at index `i`.
pub open spec fn year_at(s: Seq<char>, i: int) -> bool {
    &&& 0 <= i
    &&& i + 4 <= s.len()
    &&& is_digit(s[i])
    &&& is_digit(s[i + 1])
    &&& is_digit(s[i + 2])
    &&& is_digit(s[i + 3])
}

/// Some four-digit run occurs somewhere in `s`.
pub open spec fn has_year(s: Seq<char>) -> bool {
    exists|i: int| year_at(s, i)
}

/// End (exclusive) of the longest year-range token starting at `i`: a
/// four-digit year, then as many `, `- or `-`-separated four-digit years as
/// the text offers. Equals `i` when no year starts there.
pub open spec fn years_end(s: Seq<char>, i: int) -> int
    decreases s.len() - i,
{
    if !year_at(s, i) {
        i
    } else if i + 6 <= s.len() && s[i + 4] == ',' && s[i + 5] == ' ' && year_at(s, i + 6) {
        years_end(s, i + 6)
    } else if i + 5 <= s.len() && s[i + 4] == '-' && year_at(s, i + 5) {
        years_end(s, i + 5)
    } else {
        i + 4
    }
}

/// The literal prefix `Copyright ` at the start of `s`.
pub open spec fn copyright_prefix(s: Seq<char>) -> bool {
    &&& s.len() >= 10
    &&& s[0] == 'C'
    &&& s[1] == 'o'
    &&& s[2] == 'p'
    &&& s[3] == 'y'
    &&& s[4] == 'r'
    &&& s[5] == 'i'
    &&& s[6] == 'g'
    &&& s[7] == 'h'
    &&& s[8] == 't'
    &&& s[9] == ' '
}

/// The whole text matches `Copyright <years> <holder>`: the prefix, a
/// year-range token, and a space before the (possibly empty) holder text.
pub open spec fn grammar_ok(s: Seq<char>) -> bool {
    &&& copyright_prefix(s)
    &&& year_at(s, 10)
    &&& years_end(s, 10) < s.len()
    &&& s[years_end(s, 10)] == ' '
}

/// The year-range token of a text matching the grammar.
pub open spec fn year_token(s: Seq<char>) -> Seq<char>
    recommends
        grammar_ok(s),
{
    s.subrange(10, years_end(s, 10))
}

/// The holder text of a text matching the grammar: everything after the
/// space that ends the year-range token.
pub open spec fn holder_text(s: Seq<char>) -> Seq<char>
    recommends
        grammar_ok(s),
{
    s.subrange(years_end(s, 10) + 1, s.len() as int)
}

/// An extracted comment that passes copyright validation as a whole.
pub open spec fn notice_ok(input: Option<Seq<char>>) -> bool {
    input matches Some(t) && grammar_ok(trim_seq(t))
}

/// Whether the error reports exactly what validation rejects on `input`:
/// a missing comment, a trimmed comment with no year run anywhere, or a
/// trimmed comment that has a year run but does not match the grammar.
pub open spec fn error_reports(e: ParseError, input: Option<Seq<char>>) -> bool {
    match e {
        ParseError::MissingCopyright => input is None,
        ParseError::MalformedDateRange(s) => input matches Some(text) && s@ == trim_seq(text)
            && !has_year(trim_seq(text)),
        ParseError::InvalidCopyright(s) => input matches Some(text) && s@ == trim_seq(text)
            && has_year(trim_seq(text)) && !grammar_ok(trim_seq(text)),
    }
}

/// A validated copyright notice: the year-range token and the holder text.
#[derive(Clone, Debug, Eq, PartialEq)]
pub struct Copyright {
    year: String,
    holder: String,
}

impl Copyright {
    /// The year-range token, e.g. `2014-2018`.
    pub closed spec fn spec_year(&self) -> Seq<char> {
        self.year@
    }

    /// The holder text.
    pub closed spec fn spec_holder(&self) -> Seq<char> {
        self.holder@
    }

    /// The year-range token, e.g. `2014-2018`.
    pub fn year(&self) -> (r: &str)
        ensures
            r@ == self.spec_year(),
    {
        self.year.as_str()
    }

    /// The holder text.
    pub fn holder(&self) -> (r: &str)
        ensures
            r@ == self.spec_holder(),
    {
        self.holder.as_str()
    }

    /// Validates the leading comment: absent comments are rejected, then a
    /// comment with no four-digit year anywhere, then one whose trimmed text
    /// does not match `Copyright <years> <holder>` as a whole.
    pub fn construct(input: Option<String>) -> (r: Result<Copyright, ParseError>)
        ensures
            match r {
                Ok(c) => input matches Some(text) && grammar_ok(trim_seq(text@))
                    && c.spec_year() == year_token(trim_seq(text@))
                    && c.spec_holder() == holder_text(trim_seq(text@)),
                Err(e) => error_reports(e, input.deep_view()),
            },
    {
        let text = match input {
            None => {
                return Err(ParseError::MissingCopyright);
            },
            Some(t) => t,
        };
        let trimmed = trim_spaces(text.as_str());
        if !has_year_run(trimmed) {
            return Err(ParseError::MalformedDateRange(trimmed.to_owned()));
        }
        match parse_notice(trimmed) {
            Some((year, holder)) => Ok(Copyright { year, holder }),
            None => Err(ParseError::InvalidCopyright(trimmed.to_owned())),
        }
    }
}

fn is_digit_char(c: char) -> (r: bool)
    ensures
        r == is_digit(c),
{
    let u = c as u32;
    '0' as u32 <= u && u <= '9' as u32
}

/// Four digits starting at index `i` of `s`.
fn year_run_at(s: &str, i: usize) -> (r: bool)
    requires
        i <= s@.len(),
    ensures
        r == year_at(s@, i as int),
{
    let n = s.unicode_len();
    if n - i < 4 {
        return false;
    }
    is_digit_char(s.get_char(i)) && is_digit_char(s.get_char(i + 1))
        && is_digit_char(s.get_char(i + 2)) && is_digit_char(s.get_char(i + 3))
}

/// Whether a four-digit run occurs anywhere in `s`.
fn has_year_run(s: &str) -> (r: bool)
    ensures
        r == has_year(s@),
{
    let n = s.unicode_len();
    let mut i: usize = 0;
    while i < n
        invariant
            0 <= i <= n,
            n == s@.len(),
            forall|j: int| 0 <= j < i ==> !year_at(s@, j),
        decreases n - i,
    {
        if year_run_at(s, i) {
            return true;
        }
        i = i + 1;
    }
    proof {
        assert forall|j: int| !year_at(s@, j) by {
            if 0 <= j < n {
                assert(!year_at(s@, j));
            }
        }
    }
    false
}

/// End of the longest year-range token starting at `start`.
fn years_scan(s: &str, start: usize) -> (e: usize)
    requires
        year_at(s@, start as int),
    ensures
        e as int == years_end(s@, start as int),
        start + 4 <= e <= s@.len(),
{
    let n = s.unicode_len();
    let mut i: usize = start;
    loop
        invariant
            year_at(s@, i as int),
            i + 4 <= n,
            n == s@.len(),
            years_end(s@, start as int) == years_end(s@, i as int),
            start <= i,
        ensures
            year_at(s@, i as int),
            years_end(s@, i as int) == i + 4,
            start <= i,
            i + 4 <= n,
        decreases n - i,
    {
        if n - i >= 6 && s.get_char(i + 4) == ',' && s.get_char(i + 5) == ' '
            && year_run_at(s, i + 6) {
            i = i + 6;
        } else if n - i >= 5 && s.get_char(i + 4) == '-' && year_run_at(s, i + 5) {
            i = i + 5;
        } else {
            break;
        }
    }
    i + 4
}

/// Checks the whole text against `Copyright <years> <holder>` and splits out
/// the year-range token and the holder text.
fn parse_notice(t: &str) -> (r: Option<(String, String)>)
    ensures
        match r {
            Some((y, h)) => grammar_ok(t@) && y@ == year_token(t@) && h@ == holder_text(t@),
            None => !grammar_ok(t@),
        },
{
    let n = t.unicode_len();
    if n < 10 {
        return None;
    }
    if !(t.get_char(0) == 'C' && t.get_char(1) == 'o' && t.get_char(2) == 'p'
        && t.get_char(3) == 'y' && t.get_char(4) == 'r' && t.get_char(5) == 'i'
        && t.get_char(6) == 'g' && t.get_char(7) == 'h' && t.get_char(8) == 't'
        && t.get_char(9) == ' ') {
        return None;
    }
    if !year_run_at(t, 10) {
        return None;
    }
    let e = years_scan(t, 10);
    if e == n {
        return None;
    }
    if t.get_char(e) != ' ' {
        return None;
    }
    let year = t.substring_char(10, e).to_owned();
    let holder = t.substring_char(e + 1, n).to_owned();
    Some((year, holder))
}

/// What copyright validation rejects.
#[derive(Clone, Debug, Eq, PartialEq)]
pub enum ParseError {
    /// The document has no leading comment to read a notice from.
    MissingCopyright,
    /// The trimmed comment holds no four-digit year anywhere; carries the
    /// trimmed text.
    MalformedDateRange(String),
    /// The trimmed comment does not match `Copyright <years> <holder>` as a
    /// whole; carries the trimmed text.
    InvalidCopyright(String),
}

} // verus!
