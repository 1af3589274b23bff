//! The per-field validators on concrete values.

use std::str::FromStr;

use appstream::comp_type::ComponentType;
use appstream::field::category::{Categories, Category};
use appstream::field::copyright::Copyright;
use appstream::field::icon::Icon;
use appstream::field::id::{Id, TopLevelDomain};
use appstream::field::license::License;
use appstream::field::name::Name;
use appstream::field::pkg_name::PkgName;
use appstream::field::summary::Summary;
use appstream::text::{str_eq, trim_spaces};

#[test]
fn identifier_round_trips_through_its_text() {
    let id = Id::parse("org", "foo", "bar").expect("valid identifier");
    let text = id.to_text();
    assert_eq!(text, "org.foo.bar");
    let back = Id::from_text(&text).expect("canonical text parses");
    assert_eq!(back, id);
}

#[test]
fn identifier_assembled_from_parts() {
    let tld = TopLevelDomain::parse("org").expect("org is a suffix");
    let id = Id::new(tld, "gnome", "Calculator");
    assert_eq!(id.to_text(), "org.gnome.Calculator");
}

#[test]
fn identifier_rejects_extra_components() {
    // any count of dot-separated components other than exactly three is
    // rejected before segment validation
    assert!(matches!(
        Id::from_text("org.foo.bar.baz"),
        Err(appstream::field::id::ParseError::WrongNumFields)
    ));
}

#[test]
fn identifier_names_offending_segment_and_character() {
    match Id::parse("org", "f!oo", "b?ar") {
        Err(appstream::field::id::ParseError::InvalidCharacter { ch, field }) => {
            assert_eq!(ch, '!');
            assert_eq!(field, 1);
        }
        other => panic!("expected an invalid-character error, got {:?}", other),
    }
    match Id::from_text("org.foo.b@r") {
        Err(appstream::field::id::ParseError::InvalidCharacter { ch, field }) => {
            assert_eq!(ch, '@');
            assert_eq!(field, 2);
        }
        other => panic!("expected an invalid-character error, got {:?}", other),
    }
}

#[test]
fn identifier_needs_three_components() {
    assert!(matches!(
        Id::from_text("org.foo"),
        Err(appstream::field::id::ParseError::WrongNumFields)
    ));
    assert!(matches!(
        Id::from_text("orgfoobar"),
        Err(appstream::field::id::ParseError::WrongNumFields)
    ));
}

#[test]
fn top_level_domain_checked_against_suffix_list() {
    assert_eq!(TopLevelDomain::parse("org").expect("org is a suffix").as_str(), "org");
    // an empty segment queries `example.` and finds no registrable domain
    match TopLevelDomain::parse("") {
        Err(e) => assert_eq!(e.0, ""),
        Ok(_) => panic!("an empty segment must not be a top-level domain"),
    }
    match Id::parse("", "foo", "bar") {
        Err(appstream::field::id::ParseError::UnrecognizedTld(e)) => assert_eq!(e.0, ""),
        other => panic!("expected an unrecognized-domain error, got {:?}", other),
    }
}

#[test]
fn copyright_splits_years_and_holder() {
    let c = Copyright::construct(Some(
        "Copyright 2014-2018 First Lastname <your@email.com>, Blah <thing@blah.org>".to_string(),
    ))
    .expect("valid notice");
    assert_eq!(c.year(), "2014-2018");
    assert_eq!(c.holder(), "First Lastname <your@email.com>, Blah <thing@blah.org>");
}

#[test]
fn copyright_accepts_year_lists() {
    let c = Copyright::construct(Some("  Copyright 2014, 2016-2018 Someone  ".to_string()))
        .expect("valid notice");
    assert_eq!(c.year(), "2014, 2016-2018");
    assert_eq!(c.holder(), "Someone");
}

#[test]
fn copyright_without_keyword_is_rejected() {
    let err = Copyright::construct(Some("Copyleft 2014 Someone".to_string())).unwrap_err();
    assert_eq!(
        err,
        appstream::field::copyright::ParseError::InvalidCopyright(
            "Copyleft 2014 Someone".to_string()
        )
    );
}

#[test]
fn copyright_without_year_is_rejected() {
    let err = Copyright::construct(Some("Copyright someday Someone".to_string())).unwrap_err();
    assert_eq!(
        err,
        appstream::field::copyright::ParseError::MalformedDateRange(
            "Copyright someday Someone".to_string()
        )
    );
}

#[test]
fn copyright_year_in_unrelated_text_is_rejected() {
    // a year run exists, but the whole comment does not match the grammar
    let err = Copyright::construct(Some("Generated in 2018 by a tool".to_string())).unwrap_err();
    assert_eq!(
        err,
        appstream::field::copyright::ParseError::InvalidCopyright(
            "Generated in 2018 by a tool".to_string()
        )
    );
}

#[test]
fn copyright_absent_comment_is_rejected() {
    let err = Copyright::construct(None).unwrap_err();
    assert_eq!(err, appstream::field::copyright::ParseError::MissingCopyright);
}

#[test]
fn license_accepts_valid_expression() {
    let l = License::new("MIT OR Apache-2.0".to_string()).expect("valid expression");
    assert_eq!(l.as_str(), "MIT OR Apache-2.0");
}

#[test]
fn license_rejects_unknown_identifier() {
    let err = License::from_str("not-a-license").unwrap_err();
    assert_eq!(
        err,
        appstream::field::license::ParseError::UnknownLicenseId("not-a-license".to_string())
    );
}

#[test]
fn license_rejects_malformed_structure() {
    let err = License::new("MIT MIT".to_string()).unwrap_err();
    assert_eq!(err, appstream::field::license::ParseError::InvalidStructure);
}

#[test]
fn absent_license_field_yields_no_value() {
    assert_eq!(License::construct(None).expect("no error"), None);
}

#[test]
fn category_matching_is_case_sensitive() {
    assert_eq!(Category::parse("Audio").expect("vocabulary member").as_str(), "Audio");
    let err = Category::from_str("audio").unwrap_err();
    assert_eq!(
        err,
        appstream::field::category::ParseError::UnknownCategory("audio".to_string())
    );
}

#[test]
fn categories_empty_list_yields_no_value() {
    assert_eq!(Categories::construct(vec![]).expect("no error"), None);
}

#[test]
fn related_categories_follow_the_side_table() {
    let implied = appstream::field::category::related_categories("IDE");
    let names: Vec<&str> = implied.iter().map(|c| c.as_str()).collect();
    assert_eq!(names, vec!["Development"]);
    assert!(appstream::field::category::related_categories("Audio").is_empty());
}

#[test]
fn categories_first_unknown_aborts() {
    let input = vec!["Audio".to_string(), "Desk".to_string(), "audio".to_string()];
    let err = Categories::construct(input).unwrap_err();
    assert_eq!(
        err,
        appstream::field::category::ParseError::UnknownCategory("Desk".to_string())
    );
}

#[test]
fn free_text_fields_keep_their_text() {
    let n = Name::construct("Package".to_string()).expect("no error");
    assert_eq!(n.as_str(), "Package");
    assert_eq!(Name::from("N".to_string()), Name::construct("N".to_string()).unwrap());
    let p = PkgName::construct("blah".to_string()).expect("no error");
    assert_eq!(p.as_str(), "blah");
    let s = Summary::construct("Does something".to_string()).expect("no error");
    assert_eq!(s.as_str(), "Does something");
}

#[test]
fn component_types_parse_and_format() {
    let t = ComponentType::parse("desktop-application").expect("known type");
    assert_eq!(t, ComponentType::DesktopApp);
    // the historical alias maps to the same type
    assert_eq!(ComponentType::from_str("desktop").expect("alias"), ComponentType::DesktopApp);
    assert_eq!(t.as_str(), "desktop-application");
    assert_eq!(ComponentType::parse("font").expect("known type").as_str(), "font");
    match ComponentType::parse("desktop-app") {
        Err(e) => assert_eq!(e.0, "desktop-app"),
        Ok(_) => panic!("an unknown type attribute must be rejected"),
    }
}

#[test]
fn icon_variants_follow_the_type_attribute() {
    let stock = Icon::construct("stock", "edit-copy".to_string(), None, None).expect("stock icon");
    assert_eq!(stock, Icon::Stock { id: "edit-copy".to_string() });
    let cached = Icon::construct("cached", "app.png".to_string(), None, None).expect("cached icon");
    assert_eq!(cached, Icon::Cached { name: "app.png".to_string() });
    let local = Icon::construct("local", "/usr/share/icon.png".to_string(), Some(64), None)
        .expect("local icon");
    assert_eq!(
        local,
        Icon::Local { path: "/usr/share/icon.png".to_string(), width: Some(64), height: None }
    );
    let remote = Icon::construct("remote", "https://example.org/icon.png".to_string(), None, Some(32))
        .expect("remote icon");
    assert_eq!(
        remote,
        Icon::Remote {
            url: "https://example.org/icon.png".to_string(),
            width: None,
            height: Some(32)
        }
    );
}

#[test]
fn icon_rejects_size_on_stock_and_unknown_types() {
    match Icon::construct("stock", "edit-copy".to_string(), Some(64), None) {
        Err(appstream::field::icon::ParseError::UnexpectedAttribute { field, value }) => {
            assert_eq!(field, "width");
            assert_eq!(value, "stock");
        }
        other => panic!("expected an unexpected-attribute error, got {:?}", other),
    }
    match Icon::construct("cached", "a.png".to_string(), None, Some(16)) {
        Err(appstream::field::icon::ParseError::UnexpectedAttribute { field, value }) => {
            assert_eq!(field, "height");
            assert_eq!(value, "cached");
        }
        other => panic!("expected an unexpected-attribute error, got {:?}", other),
    }
    match Icon::construct("symbolic", "x".to_string(), None, None) {
        Err(appstream::field::icon::ParseError::InvalidType(t)) => assert_eq!(t, "symbolic"),
        other => panic!("expected an invalid-type error, got {:?}", other),
    }
}

#[test]
fn component_markers_name_their_attribute() {
    assert_eq!(
        <appstream::component::DesktopApp as appstream::component::Component>::attribute(),
        "desktop"
    );
}

#[test]
fn text_helpers_trim_and_compare() {
    assert_eq!(trim_spaces("  \t hello world \r\n"), "hello world");
    // the whole Unicode white-space set is trimmed, as str::trim does
    assert_eq!(trim_spaces("\u{a0}\u{2003}padded\u{85}"), "padded");
    assert_eq!(trim_spaces("   \n\t  "), "");
    assert_eq!(trim_spaces(""), "");
    assert_eq!(trim_spaces("already"), "already");
    assert!(str_eq("same", "same"));
    assert!(!str_eq("same", "sama"));
    assert!(!str_eq("same", "sam"));
}
