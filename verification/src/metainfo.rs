//! The front door: raw document text in, a validated document or the first
//! error out.

use vstd::prelude::*;
use crate::reader::{reader_from_str, xml_parses};
use crate::text::{trim_seq, trim_spaces};
use crate::AppStream;

verus! {

/// A document accepted for validation: the reader built over its text, or
/// the error met while building the reader, kept until `validate` runs.
pub struct Metainfo<'d>(Result<xpath_reader::Reader<'d>, ParseError>);

impl<'d> Metainfo<'d> {
    /// The held state: the reader, or the error that building it produced.
    pub closed spec fn spec_inner(self) -> Result<xpath_reader::Reader<'d>, ParseError> {
        self.0
    }

    /// Trims the document text and builds the reader over it. A reader is
    /// held exactly when the trimmed text parses as an XML document; any
    /// other text is kept as the document-level error, for `validate` to
    /// report.
    pub fn from_str(xml: &'d str) -> (r: Metainfo<'d>)
        ensures
            r.spec_inner() is Ok <==> xml_parses(trim_seq(xml@)),
            r.spec_inner() matches Err(e) ==> e matches ParseError::InvalidXml(_),
    {
        let trimmed = trim_spaces(xml);
        match reader_from_str(trimmed) {
            Ok(rd) => Metainfo(Ok(rd)),
            Err(e) => Metainfo(Err(ParseError::InvalidXml(e))),
        }
    }

    /// Validates every field of the document in the fixed order, or reports
    /// the first failure; a document that never parsed reports the error
    /// held since `from_str`.
    pub fn validate(self) -> (r: Result<AppStream, ParseError>)
        ensures
            match self.spec_inner() {
                Err(e) => r == Result::<AppStream, ParseError>::Err(e),
                Ok(rd) => crate::parse_reports(r, rd),
            },
            r matches Ok(doc) ==> doc.wf() && doc.spec_icons() is None,
    {
        match self.0 {
            Err(e) => Err(e),
            Ok(rd) => AppStream::parse(&rd),
        }
    }
}

/// The first failure of a validation run.
#[derive(Debug)]
pub enum ParseError {
    /// A field's raw value could not be extracted from the document.
    Xpath(xpath_reader::Error),
    /// A field's raw value failed its validation.
    FieldParseFail(FieldError),
    /// The text could not be parsed as an XML document at all; carries the
    /// reader's parse error.
    InvalidXml(xpath_reader::Error),
}

/// Which field failed validation, and how.
#[derive(Debug)]
pub enum FieldError {
    Copyright(crate::field::copyright::ParseError),
    Id(crate::field::id::ParseError),
    Name(crate::field::name::NameLoadError),
    PkgName(crate::field::pkg_name::PkgNameLoadError),
    Summary(crate::field::summary::SummaryLoadError),
    License(crate::field::license::ParseError),
    Category(crate::field::category::ParseError),
}

} // verus!
