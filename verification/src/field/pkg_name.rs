//! The distribution package name: free text with no structural invariant.

use vstd::prelude::*;

verus! {

/// The name of the package that ships the component.
#[derive(Clone, Debug, Eq, Hash, PartialEq)]
pub struct PkgName(String);

impl View for PkgName {
    type V = Seq<char>;

    closed spec fn view(&self) -> Seq<char> {
        self.0@
    }
}

impl PkgName {
    /// Accepts any extracted text as the package name.
    pub fn construct(input: String) -> (r: Result<PkgName, PkgNameLoadError>)
        ensures
            r matches Ok(n) && n@ == input@,
    {
        Ok(PkgName(input))
    }

    /// The package name's text.
    pub fn as_str(&self) -> (r: &str)
        ensures
            r@ == self@,
    {
        self.0.as_str()
    }
}

impl From<String> for PkgName {
    fn from(s: String) -> (r: PkgName)
        ensures
            r@ == s@,
    {
        PkgName(s)
    }
}

impl vstd::std_specs::convert::FromSpecImpl<String> for PkgName {
    open spec fn obeys_from_spec() -> bool {
        true
    }

    closed spec fn from_spec(s: String) -> PkgName {
        PkgName(s)
    }
}

/// Failure to obtain the `pkgname` field (never produced by `construct`,
/// which accepts all text; kept as the field's error type).
#[derive(Clone, Debug, Eq, PartialEq)]
pub struct PkgNameLoadError;

} // verus!
