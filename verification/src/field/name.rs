//! The component's display name: free text with no structural invariant.

use vstd::prelude::*;

verus! {

/// The component's display name.
#[derive(Clone, Debug, Eq, Hash, PartialEq)]
pub struct Name(String);

impl View for Name {
    type V = Seq<char>;

    closed spec fn view(&self) -> Seq<char> {
        self.0@
    }
}

impl Name {
    /// Accepts any extracted text as the display name.
    pub fn construct(input: String) -> (r: Result<Name, NameLoadError>)
        ensures
            r matches Ok(n) && n@ == input@,
    {
        Ok(Name(input))
    }

    /// The name's text.
    pub fn as_str(&self) -> (r: &str)
        ensures
            r@ == self@,
    {
        self.0.as_str()
    }
}

impl From<String> for Name {
    fn from(s: String) -> (r: Name)
        ensures
            r@ == s@,
    {
        Name(s)
    }
}

impl vstd::std_specs::convert::FromSpecImpl<String> for Name {
    open spec fn obeys_from_spec() -> bool {
        true
    }

    closed spec fn from_spec(s: String) -> Name {
        Name(s)
    }
}

/// Failure to obtain the `name` field (never produced by `construct`, which
/// accepts all text; kept as the field's error type).
#[derive(Clone, Debug, Eq, PartialEq)]
pub struct NameLoadError;

} // verus!
