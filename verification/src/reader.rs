//! Trusted boundary to the XPath document reader. The XML tree and the path
//! evaluation live entirely in the outside crate; the library only moves
//! plain values across this boundary, and names what each call yields so
//! that the callers' contracts can speak of it.

use vstd::prelude::*;

verus! {

/// Declares the outside reader type so its values can flow through the
/// library's signatures; Verus sees nothing inside a value of it.
#[verifier::external_type_specification]
#[verifier::external_body]
pub struct ExReader<'d>(xpath_reader::Reader<'d>);

/// Declares the outside reader's error type, carried in the library's
/// document-level and extraction errors.
#[verifier::external_type_specification]
#[verifier::external_body]
pub struct ExXpathError(xpath_reader::Error);

/// Whether the text parses as an XML document. The parse is a function of
/// the text alone.
pub uninterp spec fn xml_parses(s: Seq<char>) -> bool;

/// The fixed paths the library reads. All of them select comment, element
/// and text nodes, which the engine orders fully by document position; only
/// for such paths is a read a function of the reader and the path (the
/// engine leaves the order of namespace nodes open).
pub open spec fn fixed_path(p: Seq<char>) -> bool {
    ||| p == "/comment()"@
    ||| p == "/component/id/text()"@
    ||| p == "/component/pkgname/text()"@
    ||| p == "/component/name/text()"@
    ||| p == "/component/summary/text()"@
    ||| p == "/component/license/text()"@
    ||| p == "/component/metadata_license/text()"@
    ||| p == "/component/categories/category/text()"@
}

/// The string value a reader yields for a mandatory read at one of the
/// fixed paths, or `None` when that read fails (the path selects nothing).
/// The reader holds a fixed document and the path selects fully ordered
/// nodes, so the result is a function of the reader value and the path.
pub uninterp spec fn doc_string_at(rd: xpath_reader::Reader, path: Seq<char>) -> Option<Seq<char>>;

/// The value a reader yields for an optional read at one of the fixed
/// paths: `None` when the read fails, `Some(None)` when the path selects
/// nothing or empty text, `Some(Some(s))` for the nonempty string value `s`.
pub uninterp spec fn doc_opt_string_at(rd: xpath_reader::Reader, path: Seq<char>) -> Option<
    Option<Seq<char>>,
>;

/// The list a reader yields for a repeated read at one of the fixed paths:
/// one string value per selected node, in document order, or `None` when
/// the read fails.
pub uninterp spec fn doc_strings_at(rd: xpath_reader::Reader, path: Seq<char>) -> Option<
    Seq<Seq<char>>,
>;

/// Relies on `xpath_reader::Reader::from_str`: parses the text as an XML
/// document with the default evaluation context; its only failure is the
/// XML parse itself.
#[verifier::external_body]
pub(crate) fn reader_from_str<'d>(xml: &str) -> (r: Result<
    xpath_reader::Reader<'d>,
    xpath_reader::Error,
>)
    ensures
        r is Ok <==> xml_parses(xml@),
{
    xpath_reader::Reader::from_str(xml, None)
}

/// Relies on `xpath_reader::Reader::read::<String>`: evaluates the path and
/// returns the string value of the first selected node; fails when the path
/// selects nothing.
#[verifier::external_body]
pub(crate) fn read_string<'d>(reader: &'d xpath_reader::Reader<'d>, path: &str) -> (r: Result<
    String,
    xpath_reader::Error,
>)
    requires
        fixed_path(path@),
    ensures
        match r {
            Ok(s) => doc_string_at(*reader, path@) == Some(s@),
            Err(_) => doc_string_at(*reader, path@) is None,
        },
{
    reader.read(path)
}

/// Relies on `xpath_reader::Reader::read::<Option<String>>`: evaluates the
/// path and returns the string value of the first selected node; a path that
/// selects nothing, or a node with empty text, yields `None`.
#[verifier::external_body]
pub(crate) fn read_opt_string<'d>(reader: &'d xpath_reader::Reader<'d>, path: &str) -> (r: Result<
    Option<String>,
    xpath_reader::Error,
>)
    requires
        fixed_path(path@),
    ensures
        match r {
            Ok(v) => doc_opt_string_at(*reader, path@) == Some(v.deep_view()) && (v matches Some(s)
                ==> s@.len() > 0),
            Err(_) => doc_opt_string_at(*reader, path@) is None,
        },
{
    reader.read(path)
}

/// Relies on `xpath_reader::Reader::read::<Vec<String>>`: evaluates the path
/// and returns one string value per selected node, in document order; a path
/// that selects nothing yields an empty list.
#[verifier::external_body]
pub(crate) fn read_strings<'d>(reader: &'d xpath_reader::Reader<'d>, path: &str) -> (r: Result<
    Vec<String>,
    xpath_reader::Error,
>)
    requires
        fixed_path(path@),
    ensures
        match r {
            Ok(v) => doc_strings_at(*reader, path@) == Some(v.deep_view()),
            Err(_) => doc_strings_at(*reader, path@) is None,
        },
{
    reader.read(path)
}

} // verus!
