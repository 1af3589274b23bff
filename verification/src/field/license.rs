//! SPDX license expressions, validated by the SPDX grammar checker and kept
//! as their original text.

use vstd::prelude::*;

verus! {

/// What the SPDX grammar checker decides for an expression text: `Ok` when
/// every identifier is recognized and the boolean structure is well-formed;
/// `Err(Some(id))` when `id` is the rejected unknown identifier;
/// `Err(None)` when the structure is malformed. The checker's identifier
/// tables are compiled into its crate, so the verdict is a function of the
/// expression text alone.
pub uninterp spec fn spdx_outcome(expr: Seq<char>) -> Result<(), Option<Seq<char>>>;

/// A valid SPDX expression.
pub open spec fn spdx_valid(expr: Seq<char>) -> bool {
    spdx_outcome(expr) is Ok
}

/// An optional license field is acceptable when absent or valid.
pub open spec fn license_ok(input: Option<Seq<char>>) -> bool {
    match input {
        None => true,
        Some(s) => spdx_valid(s),
    }
}

/// Whether the error reports exactly what the checker rejected on `expr`.
pub open spec fn error_of(e: ParseError, expr: Seq<char>) -> bool {
    match e {
        ParseError::UnknownLicenseId(id) => spdx_outcome(expr) matches Err(Some(t)) && id@ == t,
        ParseError::InvalidStructure => spdx_outcome(expr) matches Err(None),
    }
}

/// A validated SPDX license expression; the original text is the normalized
/// form.
#[derive(Clone, Debug, Eq, Hash, PartialEq)]
pub struct License(String);

impl View for License {
    type V = Seq<char>;

    closed spec fn view(&self) -> Seq<char> {
        self.0@
    }
}

impl License {
    /// Validates an expression text, keeping it unchanged on success.
    pub fn new(expr: String) -> (r: Result<License, ParseError>)
        ensures
            match r {
                Ok(l) => spdx_valid(expr@) && l@ == expr@,
                Err(e) => !spdx_valid(expr@) && error_of(e, expr@),
            },
    {
        match check_license_expr(expr.as_str()) {
            Ok(()) => Ok(License(expr)),
            Err(e) => Err(e),
        }
    }

    /// Validates an optional license field: an absent field yields no value
    /// and no error.
    pub fn construct(input: Option<String>) -> (r: Result<Option<License>, ParseError>)
        ensures
            match r {
                Ok(None) => input is None,
                Ok(Some(l)) => input matches Some(s) && spdx_valid(s@) && l@ == s@,
                Err(e) => input matches Some(s) && !spdx_valid(s@) && error_of(e, s@),
            },
    {
        match input {
            None => Ok(None),
            Some(s) => match License::new(s) {
                Ok(l) => Ok(Some(l)),
                Err(e) => Err(e),
            },
        }
    }

    /// The expression text.
    pub fn as_str(&self) -> (r: &str)
        ensures
            r@ == self@,
    {
        self.0.as_str()
    }
}

impl core::str::FromStr for License {
    type Err = ParseError;

    fn from_str(s: &str) -> Result<Self, Self::Err> {
        License::new(s.to_owned())
    }
}

/// Relies on `license_exprs::validate_license_expr`: checks every
/// whitespace-separated token against the crate's SPDX license and exception
/// tables and the AND/OR/WITH structure around them. The unknown-identifier
/// token is carried over; the detail of a malformed structure is dropped.
#[verifier::external_body]
fn check_license_expr(expr: &str) -> (r: Result<(), ParseError>)
    ensures
        match r {
            Ok(()) => spdx_outcome(expr@) is Ok,
            Err(ParseError::UnknownLicenseId(id)) => spdx_outcome(expr@) matches Err(Some(t))
                && id@ == t,
            Err(ParseError::InvalidStructure) => spdx_outcome(expr@) matches Err(None),
        },
{
    match license_exprs::validate_license_expr(expr) {
        Ok(()) => Ok(()),
        Err(license_exprs::ParseError::UnknownLicenseId(id)) => {
            Err(ParseError::UnknownLicenseId(id.to_owned()))
        },
        Err(license_exprs::ParseError::InvalidStructure(_)) => Err(ParseError::InvalidStructure),
    }
}

/// What license validation rejects.
#[derive(Clone, Debug, Eq, Hash, PartialEq)]
pub enum ParseError {
    /// A token that is neither an operator nor a recognized license or
    /// exception identifier; carries the token.
    UnknownLicenseId(String),
    /// The boolean structure of the expression is malformed.
    InvalidStructure,
}

} // verus!
