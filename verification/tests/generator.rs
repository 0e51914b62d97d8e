//! End-to-end tests of the generator on whole declarations.

use builder_derive::ast::{Attr, AttrToken, Declaration, FieldDecl};
use builder_derive::driver::builder_impl;

fn ident_tok(text: &str) -> AttrToken {
    AttrToken { is_ident: true, text: text.to_string() }
}

fn attr(path: &str, args: Vec<AttrToken>) -> Attr {
    Attr { path: path.to_string(), args }
}

fn field(name: &str, ty: &str, attrs: Vec<Attr>) -> FieldDecl {
    FieldDecl { name: Some(name.to_string()), ty: ty.to_string(), attrs }
}

fn record(name: &str, fields: Vec<FieldDecl>) -> Declaration {
    Declaration::Record { name: name.to_string(), fields }
}

fn mutator_text(name: &str, ty: &str) -> String {
    format!(
        "    pub fn set_{}(mut self, value: {}) -> Self {{\n        self.{} = value;\n        self\n    }}\n",
        name, ty, name
    )
}

#[test]
fn plain_record_generates_one_mutator_per_field() {
    let decl = record(
        "Point",
        vec![field("x", "u32", vec![]), field("y", "String", vec![])],
    );
    let out = builder_impl(decl);
    let expected = format!(
        "impl Point {{\n{}{}}}\n",
        mutator_text("x", "u32"),
        mutator_text("y", "String")
    );
    assert_eq!(out.code, expected);
    assert!(out.diagnostic.is_none());
}

#[test]
fn excluded_field_generates_no_mutator() {
    let decl = record(
        "Conf",
        vec![
            field("kept", "u64", vec![]),
            field("hidden", "bool", vec![attr("builder", vec![ident_tok("ignore")])]),
        ],
    );
    let out = builder_impl(decl);
    let expected = format!("impl Conf {{\n{}}}\n", mutator_text("kept", "u64"));
    assert_eq!(out.code, expected);
    assert!(out.diagnostic.is_none());
    assert!(!out.code.contains("set_hidden"));
}

#[test]
fn repeated_exclusion_marker_is_idempotent() {
    let decl = record(
        "Conf",
        vec![field(
            "hidden",
            "bool",
            vec![
                attr("builder", vec![ident_tok("ignore")]),
                attr("builder", vec![ident_tok("ignore")]),
            ],
        )],
    );
    let out = builder_impl(decl);
    assert_eq!(out.code, "impl Conf {\n}\n");
    assert!(out.diagnostic.is_none());
}

#[test]
fn annotations_outside_reserved_namespace_are_ignored() {
    let decl = record(
        "Rec",
        vec![field(
            "a",
            "u8",
            vec![
                attr("serde", vec![ident_tok("skip"), ident_tok("default")]),
                attr("doc", vec![AttrToken { is_ident: false, text: "=".to_string() }]),
            ],
        )],
    );
    let out = builder_impl(decl);
    let expected = format!("impl Rec {{\n{}}}\n", mutator_text("a", "u8"));
    assert_eq!(out.code, expected);
    assert!(out.diagnostic.is_none());
}

fn twice_declaration() -> Declaration {
    record(
        "Twice",
        vec![
            field("a", "u32", vec![]),
            field("b", "String", vec![attr("builder", vec![ident_tok("ignore")])]),
        ],
    )
}

#[test]
fn rerunning_generation_is_byte_identical() {
    let first = builder_impl(twice_declaration());
    let second = builder_impl(twice_declaration());
    assert_eq!(first.code, second.code);
    assert_eq!(first.diagnostic, second.diagnostic);
}

#[test]
fn unrecognized_keyword_fails_with_one_diagnostic_naming_it() {
    let decl = record(
        "Rec",
        vec![
            field("a", "u32", vec![]),
            field("b", "u32", vec![attr("builder", vec![ident_tok("frobnicate")])]),
        ],
    );
    let out = builder_impl(decl);
    assert_eq!(out.code, "");
    assert_eq!(
        out.diagnostic.as_deref(),
        Some("cannot generate the builder pattern for `Rec`: invalid attribute parameter `frobnicate`")
    );
}

#[test]
fn first_failure_in_document_order_wins() {
    let decl = record(
        "Rec",
        vec![
            field("a", "u32", vec![attr("builder", vec![ident_tok("first_bad")])]),
            field("b", "u32", vec![attr("builder", vec![ident_tok("second_bad")])]),
        ],
    );
    let out = builder_impl(decl);
    assert_eq!(out.code, "");
    assert_eq!(
        out.diagnostic.as_deref(),
        Some("cannot generate the builder pattern for `Rec`: invalid attribute parameter `first_bad`")
    );
}

#[test]
fn non_record_shape_is_rejected() {
    let out = builder_impl(Declaration::NotRecord);
    assert_eq!(out.code, "");
    assert_eq!(out.diagnostic.as_deref(), Some("`Builder` can only be derived for structs"));
}

#[test]
fn two_identifier_payload_is_a_parse_failure() {
    let decl = record(
        "Rec",
        vec![field("a", "u32", vec![attr("builder", vec![ident_tok("ignore"), ident_tok("extra")])])],
    );
    let out = builder_impl(decl);
    assert_eq!(out.code, "");
    assert_eq!(
        out.diagnostic.as_deref(),
        Some("cannot generate the builder pattern for `Rec`: parse error: expected a single identifier")
    );
}

#[test]
fn empty_payload_is_a_parse_failure() {
    let decl = record("Rec", vec![field("a", "u32", vec![attr("builder", vec![])])]);
    let out = builder_impl(decl);
    assert_eq!(out.code, "");
    assert_eq!(
        out.diagnostic.as_deref(),
        Some("cannot generate the builder pattern for `Rec`: parse error: expected a single identifier")
    );
}

#[test]
fn non_identifier_payload_is_a_parse_failure() {
    let decl = record(
        "Rec",
        vec![field(
            "a",
            "u32",
            vec![attr("builder", vec![AttrToken { is_ident: false, text: "7".to_string() }])],
        )],
    );
    let out = builder_impl(decl);
    assert_eq!(out.code, "");
    assert_eq!(
        out.diagnostic.as_deref(),
        Some("cannot generate the builder pattern for `Rec`: parse error: expected a single identifier")
    );
}

#[test]
fn all_fields_excluded_yields_empty_well_formed_block() {
    let decl = record(
        "Bare",
        vec![
            field("a", "u32", vec![attr("builder", vec![ident_tok("ignore")])]),
            field("b", "u32", vec![attr("builder", vec![ident_tok("ignore")])]),
        ],
    );
    let out = builder_impl(decl);
    assert_eq!(out.code, "impl Bare {\n}\n");
    assert!(out.diagnostic.is_none());
}

#[test]
fn unnamed_field_is_a_collection_failure() {
    let decl = Declaration::Record {
        name: "Tup".to_string(),
        fields: vec![FieldDecl { name: None, ty: "u32".to_string(), attrs: vec![] }],
    };
    let out = builder_impl(decl);
    assert_eq!(out.code, "");
    assert_eq!(
        out.diagnostic.as_deref(),
        Some("cannot generate the builder pattern for `Tup`: unnamed fields are not supported")
    );
}

#[derive(Debug, PartialEq)]
struct Something {
    field1: u32,
    field2: String,
    ignored_field: u32,
}

impl Default for Something {
    fn default() -> Self {
        Self { field1: u32::default(), field2: "a default".to_string(), ignored_field: u32::default() }
    }
}

impl Something {
    pub fn set_field1(mut self, value: u32) -> Self {
        self.field1 = value;
        self
    }

    pub fn set_field2(mut self, value: String) -> Self {
        self.field2 = value;
        self
    }
}

#[test]
fn something_end_to_end() {
    let decl = record(
        "Something",
        vec![
            field("field1", "u32", vec![]),
            field("field2", "String", vec![]),
            field("ignored_field", "u32", vec![attr("builder", vec![ident_tok("ignore")])]),
        ],
    );
    let out = builder_impl(decl);
    let expected = format!(
        "impl Something {{\n{}{}}}\n",
        mutator_text("field1", "u32"),
        mutator_text("field2", "String")
    );
    assert_eq!(out.code, expected);
    assert!(out.diagnostic.is_none());
    assert!(!out.code.contains("set_ignored_field"));

    let built = Something::default().set_field1(1).set_field2("x".to_string());
    let reference = Something { field1: 1, field2: "x".to_string(), ignored_field: u32::default() };
    assert_eq!(built, reference);
}
