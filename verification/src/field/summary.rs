//! The component's one-line summary: free text with no structural invariant.

use vstd::prelude::*;

verus! {

/// The component's one-line summary.
#[derive(Clone, Debug, Eq, Hash, PartialEq)]
pub struct Summary(String);

impl View for Summary {
    type V = Seq<char>;

    closed spec fn view(&self) -> Seq<char> {
        self.0@
    }
}

impl Summary {
    /// Accepts any extracted text as the summary.
    pub fn construct(input: String) -> (r: Result<Summary, SummaryLoadError>)
        ensures
            r matches Ok(n) && n@ == input@,
    {
        Ok(Summary(input))
    }

    /// The summary's text.
    pub fn as_str(&self) -> (r: &str)
        ensures
            r@ == self@,
    {
        self.0.as_str()
    }
}

impl From<String> for Summary {
    fn from(s: String) -> (r: Summary)
        ensures
            r@ == s@,
    {
        Summary(s)
    }
}

impl vstd::std_specs::convert::FromSpecImpl<String> for Summary {
    open spec fn obeys_from_spec() -> bool {
        true
    }

    closed spec fn from_spec(s: String) -> Summary {
        Summary(s)
    }
}

/// Failure to obtain the `summary` field (never produced by `construct`,
/// which accepts all text; kept as the field's error type).
#[derive(Clone, Debug, Eq, PartialEq)]
pub struct SummaryLoadError;

} // verus!
