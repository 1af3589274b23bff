//! End-to-end validation of whole documents.

use appstream::metainfo::{FieldError, Metainfo, ParseError};
use appstream::RawMeta;

const SIMPLE: &str = r#"
        <?xml version="1.0" encoding="utf-8" ?>
        <!-- Copyright 2014-2018 First Lastname <your@email.com>, Blah <thing@blah.org> -->
        <component type="desktop-application">
            <name>Package</name>
            <id>org.foo.bar</id>
            <summary>Does something amazing</summary>
            <pkgname>blah</pkgname>
            <metadata_license>MIT OR Apache-2.0</metadata_license>
            <icon type="local">/usr/share/icon.png</icon>
        </component>
    "#;

#[test]
fn parse_simple() {
    let metainfo = Metainfo::from_str(SIMPLE);
    let thing = metainfo.validate().expect("Failed to read metainfo");

    println!("{:?}", thing);
}

#[test]
fn simple_document_accessors_match_input() {
    let doc = Metainfo::from_str(SIMPLE).validate().expect("valid document");

    assert_eq!(doc.copyright().year(), "2014-2018");
    assert_eq!(
        doc.copyright().holder(),
        "First Lastname <your@email.com>, Blah <thing@blah.org>"
    );
    assert_eq!(doc.id().to_text(), "org.foo.bar");
    assert_eq!(doc.id().tld().as_str(), "org");
    assert_eq!(doc.id().vendor(), "foo");
    assert_eq!(doc.id().product(), "bar");
    assert_eq!(doc.name().as_str(), "Package");
    assert_eq!(doc.summary().as_str(), "Does something amazing");
    assert_eq!(doc.pkg_name().as_str(), "blah");
    assert!(doc.license().is_none());
    assert_eq!(
        doc.metadata_license().expect("metadata license").as_str(),
        "MIT OR Apache-2.0"
    );
    assert!(doc.icons().is_none());
    assert!(doc.categories().is_none());
}

const NO_COMMENT: &str = r#"
        <?xml version="1.0" encoding="utf-8" ?>
        <component type="desktop-application">
            <name>Package</name>
            <id>org.foo.bar</id>
            <summary>Does something amazing</summary>
            <pkgname>blah</pkgname>
            <metadata_license>MIT OR Apache-2.0</metadata_license>
        </component>
    "#;

#[test]
fn missing_comment_is_a_copyright_error() {
    let err = Metainfo::from_str(NO_COMMENT).validate().unwrap_err();
    match err {
        ParseError::FieldParseFail(FieldError::Copyright(e)) => {
            assert_eq!(e, appstream::field::copyright::ParseError::MissingCopyright);
        }
        other => panic!("expected a copyright validation error, got {:?}", other),
    }
}

const NO_ID: &str = r#"
        <?xml version="1.0" encoding="utf-8" ?>
        <!-- Copyright 2014 Someone -->
        <component type="desktop-application">
            <name>Package</name>
            <summary>Does something amazing</summary>
            <pkgname>blah</pkgname>
            <metadata_license>MIT</metadata_license>
        </component>
    "#;

#[test]
fn missing_mandatory_field_is_an_extraction_error() {
    // a field that is absent, rather than present but invalid, surfaces as a
    // reader-level error
    let err = Metainfo::from_str(NO_ID).validate().unwrap_err();
    assert!(matches!(err, ParseError::Xpath(_)));
}

const BAD_ID: &str = r#"
        <?xml version="1.0" encoding="utf-8" ?>
        <!-- Copyright 2014 Someone -->
        <component type="desktop-application">
            <name>Package</name>
            <id>orgfoobar</id>
            <summary>Does something amazing</summary>
            <pkgname>blah</pkgname>
            <metadata_license>MIT</metadata_license>
        </component>
    "#;

#[test]
fn invalid_id_after_valid_copyright() {
    let err = Metainfo::from_str(BAD_ID).validate().unwrap_err();
    match err {
        ParseError::FieldParseFail(FieldError::Id(e)) => {
            assert_eq!(e, appstream::field::id::ParseError::WrongNumFields);
        }
        other => panic!("expected an identifier error, got {:?}", other),
    }
}

const NOT_XML: &str = "this is no document at all <<<";

#[test]
fn unparsable_text_is_a_document_error() {
    // malformed input surfaces as the document-level error, distinct from a
    // field extraction failure
    let err = Metainfo::from_str(NOT_XML).validate().unwrap_err();
    assert!(matches!(err, ParseError::InvalidXml(_)));
}

const TWO_BAD_FIELDS: &str = r#"
        <?xml version="1.0" encoding="utf-8" ?>
        <!-- no notice here -->
        <component type="desktop-application">
            <name>Package</name>
            <id>org!foo.bar</id>
            <summary>Does something amazing</summary>
            <pkgname>blah</pkgname>
            <metadata_license>MIT OR Apache-2.0</metadata_license>
        </component>
    "#;

#[test]
fn first_invalid_field_wins() {
    // Both the comment and the identifier are invalid; the copyright check
    // runs first, so its error is the one reported.
    let err = Metainfo::from_str(TWO_BAD_FIELDS).validate().unwrap_err();
    match err {
        ParseError::FieldParseFail(FieldError::Copyright(e)) => {
            assert_eq!(
                e,
                appstream::field::copyright::ParseError::MalformedDateRange(
                    "no notice here".to_string()
                )
            );
        }
        other => panic!("expected the copyright error first, got {:?}", other),
    }
}

#[test]
fn from_raw_validates_all_fields() {
    let raw = RawMeta {
        comment: Some("  Copyright 2020 Someone <s@example.org>  ".to_string()),
        id: "org.foo.bar".to_string(),
        pkg_name: "blah".to_string(),
        name: "Package".to_string(),
        summary: "Does something".to_string(),
        license: Some("MIT".to_string()),
        metadata_license: Some("MIT OR Apache-2.0".to_string()),
        categories: vec!["Audio".to_string(), "Audio".to_string(), "Video".to_string()],
    };
    let doc = appstream::AppStream::from_raw(raw).expect("all fields valid");
    assert_eq!(doc.copyright().year(), "2020");
    assert_eq!(doc.copyright().holder(), "Someone <s@example.org>");
    assert_eq!(doc.license().expect("license").as_str(), "MIT");
    let cats = doc.categories().expect("categories");
    let names: Vec<&str> = cats.as_slice().iter().map(|c| c.as_str()).collect();
    // duplicates are preserved, in declaration order
    assert_eq!(names, vec!["Audio", "Audio", "Video"]);
}

#[test]
fn from_raw_reports_license_before_categories() {
    let raw = RawMeta {
        comment: Some("Copyright 2020 Someone".to_string()),
        id: "org.foo.bar".to_string(),
        pkg_name: "blah".to_string(),
        name: "Package".to_string(),
        summary: "Does something".to_string(),
        license: Some("not-a-license".to_string()),
        metadata_license: None,
        categories: vec!["audio".to_string()],
    };
    let err = appstream::AppStream::from_raw(raw).unwrap_err();
    match err {
        ParseError::FieldParseFail(FieldError::License(e)) => {
            assert_eq!(
                e,
                appstream::field::license::ParseError::UnknownLicenseId("not-a-license".to_string())
            );
        }
        other => panic!("expected the license error first, got {:?}", other),
    }
}

#[test]
fn from_raw_rejects_unknown_category() {
    let raw = RawMeta {
        comment: Some("Copyright 2020 Someone".to_string()),
        id: "org.foo.bar".to_string(),
        pkg_name: "blah".to_string(),
        name: "Package".to_string(),
        summary: "Does something".to_string(),
        license: None,
        metadata_license: None,
        categories: vec!["Audio".to_string(), "audio".to_string()],
    };
    let err = appstream::AppStream::from_raw(raw).unwrap_err();
    match err {
        ParseError::FieldParseFail(FieldError::Category(e)) => {
            assert_eq!(
                e,
                appstream::field::category::ParseError::UnknownCategory("audio".to_string())
            );
        }
        other => panic!("expected a category error, got {:?}", other),
    }
}

const WITH_CATEGORIES: &str = r#"
        <?xml version="1.0" encoding="utf-8" ?>
        <!-- Copyright 2014 Someone -->
        <component type="desktop-application">
            <name>Package</name>
            <id>org.foo.bar</id>
            <summary>Does something amazing</summary>
            <pkgname>blah</pkgname>
            <metadata_license>MIT</metadata_license>
            <categories>
                <category>Development</category>
                <category>Graphics</category>
            </categories>
        </component>
    "#;

#[test]
fn categories_are_read_in_order() {
    let doc = Metainfo::from_str(WITH_CATEGORIES).validate().expect("valid document");
    let cats = doc.categories().expect("categories present");
    let names: Vec<&str> = cats.as_slice().iter().map(|c| c.as_str()).collect();
    assert_eq!(names, vec!["Development", "Graphics"]);
}
