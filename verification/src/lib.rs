//! Validation of AppStream component metadata documents.
//!
//! A metadata document is XML text holding a leading copyright comment and a
//! `component` element with the fields of one software component. Validation
//! extracts each field's raw value and converts it into a domain-checked
//! type, in a fixed order, stopping at the first field that fails.

use vstd::prelude::*;

pub mod comp_type;
pub mod component;
pub mod field;
pub mod metainfo;
mod reader;
pub mod text;

use crate::field::category::{all_known, in_vocabulary, Categories};
use crate::field::copyright::{grammar_ok, holder_text, notice_ok, year_token, Copyright};
use crate::field::icon::Icon;
use crate::field::id::{error_matches, first_seg, split3, text_issue, Id};
use crate::field::license::{error_of, license_ok, spdx_valid, License};
use crate::field::name::Name;
use crate::field::pkg_name::PkgName;
use crate::field::summary::Summary;
use crate::metainfo::{FieldError, ParseError};
use crate::reader::{
    doc_opt_string_at, doc_string_at, doc_strings_at, read_opt_string, read_string, read_strings,
};
use crate::text::trim_seq;

verus! {

/// The raw value of every field of one document, as the reader hands them
/// out, before any validation.
#[derive(Clone, Debug)]
pub struct RawMeta {
    /// Text of the leading comment, when there is one.
    pub comment: Option<String>,
    /// Text of the `id` element.
    pub id: String,
    /// Text of the `pkgname` element.
    pub pkg_name: String,
    /// Text of the `name` element.
    pub name: String,
    /// Text of the `summary` element.
    pub summary: String,
    /// Text of the `license` element, when present and nonempty.
    pub license: Option<String>,
    /// Text of the `metadata_license` element, when present and nonempty.
    pub metadata_license: Option<String>,
    /// Texts of the `category` elements, in document order.
    pub categories: Vec<String>,
}

impl RawMeta {
    /// Every field passes its validation.
    pub open spec fn all_fields_ok(self) -> bool {
        &&& notice_ok(self.comment.deep_view())
        &&& text_issue(self.id@) is None
        &&& license_ok(self.license.deep_view())
        &&& license_ok(self.metadata_license.deep_view())
        &&& all_known(self.categories.deep_view())
    }
}

/// A validated metadata document, one field per element of the source.
#[derive(Clone, Debug, Eq, PartialEq)]
pub struct AppStream {
    copyright: Copyright,
    id: Id,
    pkg_name: PkgName,
    name: Name,
    summary: Summary,
    license: Option<License>,
    metadata_license: Option<License>,
    icons: Option<Vec<Icon>>,
    categories: Option<Categories>,
}

/// An optional license field against its raw value: both absent, or the kept
/// expression text equal to the raw text.
pub open spec fn opt_license_matches(l: Option<License>, raw: Option<Seq<char>>) -> bool {
    match (l, raw) {
        (None, None) => true,
        (Some(lic), Some(s)) => lic@ == s,
        _ => false,
    }
}

/// The validated document's fields are exactly what validation of the raw
/// values yields.
pub open spec fn matches_raw(doc: AppStream, raw: RawMeta) -> bool {
    &&& raw.comment.deep_view() matches Some(t)
        && doc.spec_copyright().spec_year() == year_token(trim_seq(t))
        && doc.spec_copyright().spec_holder() == holder_text(trim_seq(t))
    &&& split3(raw.id@) matches Some((a, b, c)) && doc.spec_id().spec_tld() == a
        && doc.spec_id().spec_vendor() == b && doc.spec_id().spec_product() == c
    &&& doc.spec_pkg_name()@ == raw.pkg_name@
    &&& doc.spec_name()@ == raw.name@
    &&& doc.spec_summary()@ == raw.summary@
    &&& opt_license_matches(doc.spec_license(), raw.license.deep_view())
    &&& opt_license_matches(doc.spec_metadata_license(), raw.metadata_license.deep_view())
    &&& doc.spec_icons() is None
    &&& match doc.spec_categories() {
        None => raw.categories@.len() == 0,
        Some(cs) => raw.categories@.len() > 0 && cs@.len() == raw.categories@.len() && (forall|
            i: int,
        |
            0 <= i < cs@.len() ==> #[trigger] cs@[i]@ == raw.categories.deep_view()[i]),
    }
}

/// The error that fail-fast validation reports on `raw`: each field's error
/// comes with the proof that every field checked before it passed, so only
/// the first failing field, in the fixed order, is ever reported.
pub open spec fn reports_first_failure(e: ParseError, raw: RawMeta) -> bool {
    match e {
        ParseError::FieldParseFail(fe) => match fe {
            FieldError::Copyright(ce) => crate::field::copyright::error_reports(
                ce,
                raw.comment.deep_view(),
            ),
            FieldError::Id(ie) => notice_ok(raw.comment.deep_view()) && error_matches(
                ie,
                text_issue(raw.id@),
                first_seg(raw.id@),
            ) && text_issue(raw.id@) is Some,
            FieldError::License(le) => notice_ok(raw.comment.deep_view()) && text_issue(raw.id@)
                is None && ({
                ||| raw.license.deep_view() matches Some(s) && !spdx_valid(s) && error_of(le, s)
                ||| license_ok(raw.license.deep_view()) && (raw.metadata_license.deep_view()
                    matches Some(s) && !spdx_valid(s) && error_of(le, s))
            }),
            FieldError::Category(ce) => notice_ok(raw.comment.deep_view()) && text_issue(raw.id@)
                is None && license_ok(raw.license.deep_view()) && license_ok(
                raw.metadata_license.deep_view(),
            ) && match ce {
                crate::field::category::ParseError::UnknownCategory(u) => !all_known(
                    raw.categories.deep_view(),
                ) && crate::field::category::first_unknown_is(u@, raw.categories.deep_view()),
            },
            FieldError::Name(_) => false,
            FieldError::PkgName(_) => false,
            FieldError::Summary(_) => false,
        },
        _ => false,
    }
}

/// The outcome of the reader's extraction at the eight fixed paths of a
/// component document; each entry is `None` when the read at its path fails.
pub struct ExtractedRaw {
    pub comment: Option<Option<Seq<char>>>,
    pub id: Option<Seq<char>>,
    pub pkg_name: Option<Seq<char>>,
    pub name: Option<Seq<char>>,
    pub summary: Option<Seq<char>>,
    pub license: Option<Option<Seq<char>>>,
    pub metadata_license: Option<Option<Seq<char>>>,
    pub categories: Option<Seq<Seq<char>>>,
}

/// What the reader yields at the eight fixed paths of a component document.
pub open spec fn raw_extraction(rd: xpath_reader::Reader) -> ExtractedRaw {
    ExtractedRaw {
        comment: doc_opt_string_at(rd, "/comment()"@),
        id: doc_string_at(rd, "/component/id/text()"@),
        pkg_name: doc_string_at(rd, "/component/pkgname/text()"@),
        name: doc_string_at(rd, "/component/name/text()"@),
        summary: doc_string_at(rd, "/component/summary/text()"@),
        license: doc_opt_string_at(rd, "/component/license/text()"@),
        metadata_license: doc_opt_string_at(rd, "/component/metadata_license/text()"@),
        categories: doc_strings_at(rd, "/component/categories/category/text()"@),
    }
}

/// Every extraction at the eight paths succeeded.
pub open spec fn extraction_ok(x: ExtractedRaw) -> bool {
    &&& x.comment is Some
    &&& x.id is Some
    &&& x.pkg_name is Some
    &&& x.name is Some
    &&& x.summary is Some
    &&& x.license is Some
    &&& x.metadata_license is Some
    &&& x.categories is Some
}

/// Every extracted field passes its validation.
pub open spec fn extracted_fields_ok(x: ExtractedRaw) -> bool {
    &&& notice_ok(x.comment->0)
    &&& text_issue(x.id->0) is None
    &&& license_ok(x.license->0)
    &&& license_ok(x.metadata_license->0)
    &&& all_known(x.categories->0)
}

/// Walking the fixed order of extract-then-validate steps, the first failure
/// is an extraction failure: every earlier extraction succeeded and every
/// earlier field validated.
pub open spec fn extraction_failed_first(x: ExtractedRaw) -> bool {
    ||| x.comment is None
    ||| x.comment is Some && notice_ok(x.comment->0) && x.id is None
    ||| x.comment is Some && notice_ok(x.comment->0) && x.id is Some && text_issue(x.id->0)
        is None && x.pkg_name is None
    ||| x.comment is Some && notice_ok(x.comment->0) && x.id is Some && text_issue(x.id->0)
        is None && x.pkg_name is Some && x.name is None
    ||| x.comment is Some && notice_ok(x.comment->0) && x.id is Some && text_issue(x.id->0)
        is None && x.pkg_name is Some && x.name is Some && x.summary is None
    ||| x.comment is Some && notice_ok(x.comment->0) && x.id is Some && text_issue(x.id->0)
        is None && x.pkg_name is Some && x.name is Some && x.summary is Some
        && x.license is None
    ||| x.comment is Some && notice_ok(x.comment->0) && x.id is Some && text_issue(x.id->0)
        is None && x.pkg_name is Some && x.name is Some && x.summary is Some
        && x.license is Some && license_ok(x.license->0) && x.metadata_license is None
    ||| x.comment is Some && notice_ok(x.comment->0) && x.id is Some && text_issue(x.id->0)
        is None && x.pkg_name is Some && x.name is Some && x.summary is Some
        && x.license is Some && license_ok(x.license->0) && x.metadata_license is Some
        && license_ok(x.metadata_license->0) && x.categories is None
}

/// Walking the fixed order, the first failure is the named field's
/// validation failure: every earlier extraction succeeded, every earlier
/// field validated, and the error reports exactly what that field rejects.
pub open spec fn extracted_field_failure(fe: FieldError, x: ExtractedRaw) -> bool {
    match fe {
        FieldError::Copyright(ce) => x.comment is Some && crate::field::copyright::error_reports(
            ce,
            x.comment->0,
        ),
        FieldError::Id(ie) => x.comment is Some && notice_ok(x.comment->0) && x.id is Some
            && text_issue(x.id->0) is Some && error_matches(
            ie,
            text_issue(x.id->0),
            first_seg(x.id->0),
        ),
        FieldError::License(le) => x.comment is Some && notice_ok(x.comment->0) && x.id is Some
            && text_issue(x.id->0) is None && x.pkg_name is Some && x.name is Some
            && x.summary is Some && x.license is Some && ({
            ||| x.license->0 matches Some(s) && !spdx_valid(s) && error_of(le, s)
            ||| license_ok(x.license->0) && x.metadata_license is Some && (x.metadata_license->0
                matches Some(s) && !spdx_valid(s) && error_of(le, s))
        }),
        FieldError::Category(ce) => x.comment is Some && notice_ok(x.comment->0) && x.id is Some
            && text_issue(x.id->0) is None && x.pkg_name is Some && x.name is Some
            && x.summary is Some && x.license is Some && license_ok(x.license->0)
            && x.metadata_license is Some && license_ok(x.metadata_license->0)
            && x.categories is Some && match ce {
            crate::field::category::ParseError::UnknownCategory(u) => !all_known(x.categories->0)
                && crate::field::category::first_unknown_is(u@, x.categories->0),
        },
        FieldError::Name(_) => false,
        FieldError::PkgName(_) => false,
        FieldError::Summary(_) => false,
    }
}

/// The validated document's fields are exactly the validated extracted
/// values.
pub open spec fn matches_extracted(doc: AppStream, x: ExtractedRaw) -> bool {
    &&& x.comment->0 matches Some(t) && doc.spec_copyright().spec_year() == year_token(
        trim_seq(t),
    ) && doc.spec_copyright().spec_holder() == holder_text(trim_seq(t))
    &&& split3(x.id->0) matches Some((a, b, c)) && doc.spec_id().spec_tld() == a
        && doc.spec_id().spec_vendor() == b && doc.spec_id().spec_product() == c
    &&& doc.spec_pkg_name()@ == x.pkg_name->0
    &&& doc.spec_name()@ == x.name->0
    &&& doc.spec_summary()@ == x.summary->0
    &&& opt_license_matches(doc.spec_license(), x.license->0)
    &&& opt_license_matches(doc.spec_metadata_license(), x.metadata_license->0)
    &&& doc.spec_icons() is None
    &&& match doc.spec_categories() {
        None => (x.categories->0).len() == 0,
        Some(cs) => (x.categories->0).len() > 0 && cs@.len() == (x.categories->0).len() && (forall|
            i: int,
        |
            0 <= i < cs@.len() ==> #[trigger] cs@[i]@ == (x.categories->0)[i]),
    }
}

/// The whole contract of one validation run over a reader: success exactly
/// when every extraction and every validation passes, with the document tied
/// to the extracted values; an extraction failure reported as `Xpath` and a
/// validation failure as `FieldParseFail`, always for the first failing step
/// in the fixed order.
pub open spec fn parse_reports(r: Result<AppStream, ParseError>, rd: xpath_reader::Reader) -> bool {
    let x = raw_extraction(rd);
    match r {
        Ok(doc) => extraction_ok(x) && extracted_fields_ok(x) && doc.wf() && matches_extracted(
            doc,
            x,
        ),
        Err(ParseError::Xpath(_)) => extraction_failed_first(x),
        Err(ParseError::FieldParseFail(fe)) => extracted_field_failure(fe, x),
        Err(ParseError::InvalidXml(_)) => false,
    }
}

impl AppStream {
    /// The copyright notice.
    pub closed spec fn spec_copyright(self) -> Copyright {
        self.copyright
    }

    /// The package identifier.
    pub closed spec fn spec_id(self) -> Id {
        self.id
    }

    /// The package name.
    pub closed spec fn spec_pkg_name(self) -> PkgName {
        self.pkg_name
    }

    /// The display name.
    pub closed spec fn spec_name(self) -> Name {
        self.name
    }

    /// The one-line summary.
    pub closed spec fn spec_summary(self) -> Summary {
        self.summary
    }

    /// The component license, when one was declared.
    pub closed spec fn spec_license(self) -> Option<License> {
        self.license
    }

    /// The metadata license, when one was declared.
    pub closed spec fn spec_metadata_license(self) -> Option<License> {
        self.metadata_license
    }

    /// The declared icons (no icon validator populates them yet).
    pub closed spec fn spec_icons(self) -> Option<Seq<Icon>> {
        match self.icons {
            Some(v) => Some(v@),
            None => None,
        }
    }

    /// The declared categories, when a nonempty list was declared.
    pub closed spec fn spec_categories(self) -> Option<Categories> {
        self.categories
    }

    /// Every field is well formed: the copyright notice comes from a text
    /// matching the grammar, the identifier passes all its checks, declared
    /// licenses are valid expressions, and declared categories are vocabulary
    /// members.
    pub open spec fn wf(self) -> bool {
        &&& exists|t: Seq<char>|
            #[trigger] grammar_ok(t) && self.spec_copyright().spec_year() == year_token(t)
                && self.spec_copyright().spec_holder() == holder_text(t)
        &&& self.spec_id().wf()
        &&& match self.spec_license() {
            None => true,
            Some(l) => spdx_valid(l@),
        }
        &&& match self.spec_metadata_license() {
            None => true,
            Some(l) => spdx_valid(l@),
        }
        &&& match self.spec_categories() {
            None => true,
            Some(cs) => cs@.len() > 0 && (forall|i: int|
                0 <= i < cs@.len() ==> in_vocabulary(#[trigger] cs@[i]@)),
        }
    }

    /// Validates the raw field values in the fixed order — copyright,
    /// identifier, package name, display name, summary, license, metadata
    /// license, categories — and assembles the document, or stops at the
    /// first field that fails.
    pub fn from_raw(raw: RawMeta) -> (r: Result<AppStream, ParseError>)
        ensures
            match r {
                Ok(doc) => raw.all_fields_ok() && doc.wf() && matches_raw(doc, raw),
                Err(e) => !raw.all_fields_ok() && reports_first_failure(e, raw),
            },
    {
        let copyright = match Copyright::construct(raw.comment) {
            Ok(c) => c,
            Err(e) => {
                return Err(ParseError::FieldParseFail(FieldError::Copyright(e)));
            },
        };
        let id = match Id::from_text(raw.id.as_str()) {
            Ok(i) => i,
            Err(e) => {
                return Err(ParseError::FieldParseFail(FieldError::Id(e)));
            },
        };
        let pkg_name = match PkgName::construct(raw.pkg_name) {
            Ok(p) => p,
            Err(e) => {
                return Err(ParseError::FieldParseFail(FieldError::PkgName(e)));
            },
        };
        let name = match Name::construct(raw.name) {
            Ok(n) => n,
            Err(e) => {
                return Err(ParseError::FieldParseFail(FieldError::Name(e)));
            },
        };
        let summary = match Summary::construct(raw.summary) {
            Ok(s) => s,
            Err(e) => {
                return Err(ParseError::FieldParseFail(FieldError::Summary(e)));
            },
        };
        let license = match License::construct(raw.license) {
            Ok(l) => l,
            Err(e) => {
                return Err(ParseError::FieldParseFail(FieldError::License(e)));
            },
        };
        let metadata_license = match License::construct(raw.metadata_license) {
            Ok(l) => l,
            Err(e) => {
                return Err(ParseError::FieldParseFail(FieldError::License(e)));
            },
        };
        let categories = match Categories::construct(raw.categories) {
            Ok(c) => c,
            Err(e) => {
                return Err(ParseError::FieldParseFail(FieldError::Category(e)));
            },
        };
        let doc = AppStream {
            copyright,
            id,
            pkg_name,
            name,
            summary,
            license,
            metadata_license,
            icons: None,
            categories,
        };
        Ok(doc)
    }

    /// Extracts and validates each field over the shared reader, in the
    /// fixed order; the first failing extraction or validation aborts the
    /// run, extraction failures surfacing as `Xpath` and validation failures
    /// as `FieldParseFail`.
    pub(crate) fn parse<'d>(reader: &'d xpath_reader::Reader<'d>) -> (r: Result<
        AppStream,
        ParseError,
    >)
        ensures
            parse_reports(r, *reader),
            r matches Ok(doc) ==> doc.wf() && doc.spec_icons() is None,
    {
        let raw_comment = match read_opt_string(reader, "/comment()") {
            Ok(v) => v,
            Err(e) => {
                return Err(ParseError::Xpath(e));
            },
        };
        let copyright = match Copyright::construct(raw_comment) {
            Ok(c) => c,
            Err(e) => {
                return Err(ParseError::FieldParseFail(FieldError::Copyright(e)));
            },
        };
        let raw_id = match read_string(reader, "/component/id/text()") {
            Ok(v) => v,
            Err(e) => {
                return Err(ParseError::Xpath(e));
            },
        };
        let id = match Id::from_text(raw_id.as_str()) {
            Ok(i) => i,
            Err(e) => {
                return Err(ParseError::FieldParseFail(FieldError::Id(e)));
            },
        };
        let raw_pkg_name = match read_string(reader, "/component/pkgname/text()") {
            Ok(v) => v,
            Err(e) => {
                return Err(ParseError::Xpath(e));
            },
        };
        let pkg_name = match PkgName::construct(raw_pkg_name) {
            Ok(p) => p,
            Err(e) => {
                return Err(ParseError::FieldParseFail(FieldError::PkgName(e)));
            },
        };
        let raw_name = match read_string(reader, "/component/name/text()") {
            Ok(v) => v,
            Err(e) => {
                return Err(ParseError::Xpath(e));
            },
        };
        let name = match Name::construct(raw_name) {
            Ok(n) => n,
            Err(e) => {
                return Err(ParseError::FieldParseFail(FieldError::Name(e)));
            },
        };
        let raw_summary = match read_string(reader, "/component/summary/text()") {
            Ok(v) => v,
            Err(e) => {
                return Err(ParseError::Xpath(e));
            },
        };
        let summary = match Summary::construct(raw_summary) {
            Ok(s) => s,
            Err(e) => {
                return Err(ParseError::FieldParseFail(FieldError::Summary(e)));
            },
        };
        let raw_license = match read_opt_string(reader, "/component/license/text()") {
            Ok(v) => v,
            Err(e) => {
                return Err(ParseError::Xpath(e));
            },
        };
        let license = match License::construct(raw_license) {
            Ok(l) => l,
            Err(e) => {
                return Err(ParseError::FieldParseFail(FieldError::License(e)));
            },
        };
        let raw_metadata_license = match read_opt_string(
            reader,
            "/component/metadata_license/text()",
        ) {
            Ok(v) => v,
            Err(e) => {
                return Err(ParseError::Xpath(e));
            },
        };
        let metadata_license = match License::construct(raw_metadata_license) {
            Ok(l) => l,
            Err(e) => {
                return Err(ParseError::FieldParseFail(FieldError::License(e)));
            },
        };
        let raw_categories = match read_strings(reader, "/component/categories/category/text()") {
            Ok(v) => v,
            Err(e) => {
                return Err(ParseError::Xpath(e));
            },
        };
        let categories = match Categories::construct(raw_categories) {
            Ok(c) => c,
            Err(e) => {
                return Err(ParseError::FieldParseFail(FieldError::Category(e)));
            },
        };
        let doc = AppStream {
            copyright,
            id,
            pkg_name,
            name,
            summary,
            license,
            metadata_license,
            icons: None,
            categories,
        };
        Ok(doc)
    }

    /// The copyright notice.
    pub fn copyright(&self) -> (r: &Copyright)
        ensures
            *r == self.spec_copyright(),
    {
        &self.copyright
    }

    /// The package identifier.
    pub fn id(&self) -> (r: &Id)
        ensures
            *r == self.spec_id(),
    {
        &self.id
    }

    /// The package name.
    pub fn pkg_name(&self) -> (r: &PkgName)
        ensures
            *r == self.spec_pkg_name(),
    {
        &self.pkg_name
    }

    /// The display name.
    pub fn name(&self) -> (r: &Name)
        ensures
            *r == self.spec_name(),
    {
        &self.name
    }

    /// The one-line summary.
    pub fn summary(&self) -> (r: &Summary)
        ensures
            *r == self.spec_summary(),
    {
        &self.summary
    }

    /// The component license, when one was declared.
    pub fn license(&self) -> (r: Option<&License>)
        ensures
            match r {
                Some(l) => self.spec_license() == Some(*l),
                None => self.spec_license() is None,
            },
    {
        self.license.as_ref()
    }

    /// The metadata license, when one was declared.
    pub fn metadata_license(&self) -> (r: Option<&License>)
        ensures
            match r {
                Some(l) => self.spec_metadata_license() == Some(*l),
                None => self.spec_metadata_license() is None,
            },
    {
        self.metadata_license.as_ref()
    }

    /// The declared icons (no icon validator populates them yet).
    pub fn icons(&self) -> (r: Option<&[Icon]>)
        ensures
            match r {
                Some(s) => self.spec_icons() == Some(s@),
                None => self.spec_icons() is None,
            },
    {
        match &self.icons {
            Some(v) => Some(v.as_slice()),
            None => None,
        }
    }

    /// The declared categories, when a nonempty list was declared.
    pub fn categories(&self) -> (r: Option<&Categories>)
        ensures
            match r {
                Some(c) => self.spec_categories() == Some(*c),
                None => self.spec_categories() is None,
            },
    {
        self.categories.as_ref()
    }
}

/// Fail-fast over the validation order: when both the copyright comment and
/// the identifier are invalid, the reported error is the copyright's, never
/// the identifier's.
pub proof fn lemma_fail_fast_copyright_before_id(e: ParseError, raw: RawMeta)
    requires
        reports_first_failure(e, raw),
        !notice_ok(raw.comment.deep_view()),
        text_issue(raw.id@) is Some,
    ensures
        e matches ParseError::FieldParseFail(FieldError::Copyright(_)),
{
}

/// A document whose leading comment is absent — its optional read succeeds
/// and yields nothing — fails with the copyright validator's own error,
/// never with an extraction or document-level error, whatever the other
/// fields hold.
pub proof fn lemma_missing_comment_is_field_failure(
    r: Result<AppStream, ParseError>,
    rd: xpath_reader::Reader,
)
    requires
        parse_reports(r, rd),
        raw_extraction(rd).comment == Some(Option::<Seq<char>>::None),
    ensures
        r matches Err(ParseError::FieldParseFail(FieldError::Copyright(e)))
            && e == crate::field::copyright::ParseError::MissingCopyright,
{
}

/// Fail-fast over the validation order: when both the license and the
/// category list are invalid, the reported error is the license's, never a
/// category's.
pub proof fn lemma_fail_fast_license_before_categories(e: ParseError, raw: RawMeta)
    requires
        reports_first_failure(e, raw),
        notice_ok(raw.comment.deep_view()),
        text_issue(raw.id@) is None,
        !license_ok(raw.license.deep_view()),
        !all_known(raw.categories.deep_view()),
    ensures
        e matches ParseError::FieldParseFail(FieldError::License(_)),
{
}

} // verus!
