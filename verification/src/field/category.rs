//! Categories drawn from a fixed, closed vocabulary.

use vstd::prelude::*;
use crate::text::str_eq;

verus! {

/// The fixed category vocabulary; matching is exact and case-sensitive.
pub open spec fn in_vocabulary(s: Seq<char>) -> bool {
    ||| s == "Audio"@
    ||| s == "AudioVideo"@
    ||| s == "Development"@
    ||| s == "Education"@
    ||| s == "Game"@
    ||| s == "Graphics"@
    ||| s == "Network"@
    ||| s == "Office"@
    ||| s == "Science"@
    ||| s == "Settings"@
    ||| s == "System"@
    ||| s == "Utility"@
    ||| s == "Video"@
}

/// Every declared name is in the vocabulary.
pub open spec fn all_known(ss: Seq<Seq<char>>) -> bool {
    forall|i: int| 0 <= i < ss.len() ==> in_vocabulary(#[trigger] ss[i])
}

/// `u` is the first declared name outside the vocabulary.
pub open spec fn first_unknown_is(u: Seq<char>, ss: Seq<Seq<char>>) -> bool {
    exists|j: int|
        {
            &&& 0 <= j < ss.len()
            &&& !in_vocabulary(#[trigger] ss[j])
            &&& u == ss[j]
            &&& forall|k: int| 0 <= k < j ==> in_vocabulary(#[trigger] ss[k])
        }
}

/// The side table of canonical categories implied by certain non-canonical
/// names; empty for every other name. Reserved for future normalization: no
/// validator consults it yet.
pub open spec fn spec_related(s: Seq<char>) -> Seq<Seq<char>> {
    if s == "Building"@ || s == "Debugger"@ || s == "IDE"@ {
        seq!["Development"@]
    } else {
        Seq::empty()
    }
}

/// The canonical categories implied by a non-canonical name, per the side
/// table; empty for names the table does not know.
pub fn related_categories(s: &str) -> (r: Vec<Category>)
    ensures
        r@.len() == spec_related(s@).len(),
        forall|i: int| 0 <= i < r@.len() ==> #[trigger] r@[i]@ == spec_related(s@)[i],
{
    let mut out: Vec<Category> = Vec::new();
    if str_eq(s, "Building") || str_eq(s, "Debugger") || str_eq(s, "IDE") {
        out.push(Category("Development".to_owned()));
    }
    out
}

/// One category from the fixed vocabulary.
#[derive(Clone, Debug, Eq, Hash, PartialEq)]
pub struct Category(String);

impl View for Category {
    type V = Seq<char>;

    closed spec fn view(&self) -> Seq<char> {
        self.0@
    }
}

impl Category {
    /// Accepts exactly the members of the vocabulary, case-sensitively.
    pub fn parse(s: &str) -> (r: Result<Category, ParseError>)
        ensures
            match r {
                Ok(c) => in_vocabulary(s@) && c@ == s@,
                Err(ParseError::UnknownCategory(u)) => !in_vocabulary(s@) && u@ == s@,
            },
    {
        if str_eq(s, "Audio") || str_eq(s, "AudioVideo") || str_eq(s, "Development")
            || str_eq(s, "Education") || str_eq(s, "Game") || str_eq(s, "Graphics")
            || str_eq(s, "Network") || str_eq(s, "Office") || str_eq(s, "Science")
            || str_eq(s, "Settings") || str_eq(s, "System") || str_eq(s, "Utility")
            || str_eq(s, "Video") {
            Ok(Category(s.to_owned()))
        } else {
            Err(ParseError::UnknownCategory(s.to_owned()))
        }
    }

    /// The category's text.
    pub fn as_str(&self) -> (r: &str)
        ensures
            r@ == self@,
    {
        self.0.as_str()
    }
}

impl core::str::FromStr for Category {
    type Err = ParseError;

    fn from_str(s: &str) -> Result<Self, Self::Err> {
        Category::parse(s)
    }
}

/// The categories a document declares, in declaration order, duplicates
/// preserved.
#[derive(Clone, Debug, Eq, Hash, PartialEq)]
pub struct Categories(Vec<Category>);

impl View for Categories {
    type V = Seq<Category>;

    closed spec fn view(&self) -> Seq<Category> {
        self.0@
    }
}

impl Categories {
    /// Validates the declared category names in order; an empty list means
    /// no categories element was present and yields no value. The first
    /// unknown name aborts validation.
    pub fn construct(input: Vec<String>) -> (r: Result<Option<Categories>, ParseError>)
        ensures
            match r {
                Ok(None) => input@.len() == 0,
                Ok(Some(cats)) => input@.len() > 0 && all_known(input.deep_view())
                    && cats@.len() == input@.len()
                    && (forall|i: int|
                        0 <= i < cats@.len() ==> #[trigger] cats@[i]@ == input.deep_view()[i]),
                Err(ParseError::UnknownCategory(u)) => !all_known(input.deep_view())
                    && first_unknown_is(u@, input.deep_view()),
            },
    {
        if input.len() == 0 {
            return Ok(None);
        }
        let mut parsed: Vec<Category> = Vec::new();
        let mut i: usize = 0;
        while i < input.len()
            invariant
                0 <= i <= input@.len(),
                parsed@.len() == i,
                forall|k: int| 0 <= k < i ==> in_vocabulary(#[trigger] input.deep_view()[k]),
                forall|k: int| 0 <= k < i ==> #[trigger] parsed@[k]@ == input.deep_view()[k],
            decreases input@.len() - i,
        {
            proof {
                assert(input.deep_view()[i as int] == input@[i as int]@);
            }
            match Category::parse(input[i].as_str()) {
                Ok(c) => {
                    parsed.push(c);
                },
                Err(e) => {
                    proof {
                        let j = i as int;
                        assert(!in_vocabulary(input.deep_view()[j]));
                    }
                    return Err(e);
                },
            }
            i = i + 1;
        }
        Ok(Some(Categories(parsed)))
    }

    /// The validated categories, in declaration order.
    pub fn as_slice(&self) -> (r: &[Category])
        ensures
            r@ == self@,
    {
        self.0.as_slice()
    }
}

/// What category validation rejects.
#[derive(Clone, Debug, Eq, Hash, PartialEq)]
pub enum ParseError {
    /// A declared name outside the vocabulary; carries the name.
    UnknownCategory(String),
}

} // verus!
