//! Tests of the individual pipeline stages: keyword checking, settings
//! resolution, field collection, and block emission.

use builder_derive::ast::{Attr, AttrToken, FieldDecl};
use builder_derive::collect::{collect_fields, FieldInfo};
use builder_derive::emit::generate_impl_block;
use builder_derive::settings::{is_allowed_keyword, Error, FieldSettings};

fn ident_tok(text: &str) -> AttrToken {
    AttrToken { is_ident: true, text: text.to_string() }
}

fn attr(path: &str, args: Vec<AttrToken>) -> Attr {
    Attr { path: path.to_string(), args }
}

fn field(name: &str, ty: &str, attrs: Vec<Attr>) -> FieldDecl {
    FieldDecl { name: Some(name.to_string()), ty: ty.to_string(), attrs }
}

#[test]
fn allow_list_membership() {
    assert!(is_allowed_keyword(&"ignore".to_string()));
    assert!(!is_allowed_keyword(&"Ignore".to_string()));
    assert!(!is_allowed_keyword(&"ignored".to_string()));
    assert!(!is_allowed_keyword(&"".to_string()));
}

#[test]
fn no_annotations_resolve_to_defaults() {
    let settings = FieldSettings::try_from(&vec![]).unwrap();
    assert!(!settings.ignore);
}

#[test]
fn exclusion_keyword_sets_the_flag() {
    let attrs = vec![attr("builder", vec![ident_tok("ignore")])];
    let settings = FieldSettings::try_from(&attrs).unwrap();
    assert!(settings.ignore);
}

#[test]
fn repeated_exclusion_keyword_keeps_the_flag() {
    let attrs = vec![
        attr("builder", vec![ident_tok("ignore")]),
        attr("builder", vec![ident_tok("ignore")]),
    ];
    let settings = FieldSettings::try_from(&attrs).unwrap();
    assert!(settings.ignore);
}

#[test]
fn unrecognized_keyword_is_reported_by_name() {
    let attrs = vec![attr("builder", vec![ident_tok("frob")])];
    match FieldSettings::try_from(&attrs) {
        Err(Error::InvalidParameter(name)) => assert_eq!(name, "frob"),
        other => panic!("expected InvalidParameter, got {:?}", other.is_ok()),
    }
}

#[test]
fn resolution_short_circuits_at_the_first_failure() {
    let attrs = vec![
        attr("builder", vec![ident_tok("ignore")]),
        attr("builder", vec![ident_tok("bad_one")]),
        attr("builder", vec![ident_tok("bad_two")]),
    ];
    match FieldSettings::try_from(&attrs) {
        Err(Error::InvalidParameter(name)) => assert_eq!(name, "bad_one"),
        _ => panic!("expected InvalidParameter"),
    }
}

#[test]
fn parse_failure_is_deferred_to_resolution() {
    let attrs = vec![attr("builder", vec![ident_tok("two"), ident_tok("idents")])];
    assert!(matches!(FieldSettings::try_from(&attrs), Err(Error::ParseError)));
}

#[test]
fn error_descriptions() {
    assert_eq!(
        Error::ParseError.description(),
        "parse error: expected a single identifier"
    );
    assert_eq!(
        Error::InvalidParameter("x".to_string()).description(),
        "invalid attribute parameter `x`"
    );
    assert_eq!(Error::MissingFieldName.description(), "unnamed fields are not supported");
}

#[test]
fn collection_preserves_field_order_and_settings() {
    let fields = vec![
        field("first", "u32", vec![]),
        field("second", "String", vec![attr("builder", vec![ident_tok("ignore")])]),
        field("third", "bool", vec![attr("other", vec![])]),
    ];
    let infos = collect_fields(&fields).unwrap();
    assert_eq!(infos.len(), 3);
    assert_eq!(infos[0].name, "first");
    assert_eq!(infos[0].typ, "u32");
    assert!(!infos[0].settings.ignore);
    assert_eq!(infos[1].name, "second");
    assert!(infos[1].settings.ignore);
    assert_eq!(infos[2].name, "third");
    assert!(!infos[2].settings.ignore);
}

#[test]
fn collection_stops_at_the_first_failing_field() {
    let fields = vec![
        field("good", "u32", vec![]),
        field("bad", "u32", vec![attr("builder", vec![ident_tok("nope")])]),
        field("unreached", "u32", vec![attr("builder", vec![ident_tok("also_bad")])]),
    ];
    match collect_fields(&fields) {
        Err(Error::InvalidParameter(name)) => assert_eq!(name, "nope"),
        _ => panic!("expected InvalidParameter"),
    }
}

#[test]
fn collection_rejects_unnamed_fields() {
    let fields = vec![FieldDecl { name: None, ty: "u32".to_string(), attrs: vec![] }];
    assert!(matches!(collect_fields(&fields), Err(Error::MissingFieldName)));
}

#[test]
fn empty_inventory_emits_an_empty_block() {
    let code = generate_impl_block(&"Empty".to_string(), vec![]);
    assert_eq!(code, "impl Empty {\n}\n");
}

#[test]
fn emission_skips_excluded_entries() {
    let infos = vec![
        FieldInfo {
            name: "a".to_string(),
            typ: "u32".to_string(),
            settings: FieldSettings { ignore: false },
        },
        FieldInfo {
            name: "b".to_string(),
            typ: "u8".to_string(),
            settings: FieldSettings { ignore: true },
        },
    ];
    let code = generate_impl_block(&"Rec".to_string(), infos);
    assert_eq!(
        code,
        "impl Rec {\n    pub fn set_a(mut self, value: u32) -> Self {\n        self.a = value;\n        self\n    }\n}\n"
    );
}
