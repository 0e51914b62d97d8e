//! The input model: a record declaration as the generator sees it.
//!
//! The generator works on a plain description of one type declaration: the
//! record's name, its ordered fields, and the metadata annotations attached
//! to each field.  An annotation is a path (its namespace identifier) and an
//! argument payload, kept as the ordered list of its top-level tokens.

use vstd::prelude::*;

verus! {

/// One token of an annotation's argument payload: its text, and whether the
/// token is an identifier.
pub struct AttrToken {
    pub is_ident: bool,
    pub text: String,
}

/// Mathematical model of an argument token.
pub struct SpecToken {
    pub is_ident: bool,
    pub text: Seq<char>,
}

impl View for AttrToken {
    type V = SpecToken;

    open spec fn view(&self) -> SpecToken {
        SpecToken { is_ident: self.is_ident, text: self.text@ }
    }
}

impl DeepView for AttrToken {
    type V = SpecToken;

    open spec fn deep_view(&self) -> SpecToken {
        self.view()
    }
}

/// One metadata annotation attached to a field: a path naming its namespace,
/// and the tokens of its argument payload, in order.
pub struct Attr {
    pub path: String,
    pub args: Vec<AttrToken>,
}

/// Mathematical model of an annotation.
pub struct SpecAttr {
    pub path: Seq<char>,
    pub args: Seq<SpecToken>,
}

impl View for Attr {
    type V = SpecAttr;

    open spec fn view(&self) -> SpecAttr {
        SpecAttr { path: self.path@, args: self.args.deep_view() }
    }
}

impl DeepView for Attr {
    type V = SpecAttr;

    open spec fn deep_view(&self) -> SpecAttr {
        self.view()
    }
}

/// One field of the record: its name (absent for positional fields, which the
/// generator rejects), its declared type as source text, and its annotations.
pub struct FieldDecl {
    pub name: Option<String>,
    pub ty: String,
    pub attrs: Vec<Attr>,
}

/// Mathematical model of a field declaration.
pub struct SpecField {
    pub name: Option<Seq<char>>,
    pub ty: Seq<char>,
    pub attrs: Seq<SpecAttr>,
}

impl View for FieldDecl {
    type V = SpecField;

    open spec fn view(&self) -> SpecField {
        SpecField { name: self.name.deep_view(), ty: self.ty@, attrs: self.attrs.deep_view() }
    }
}

impl DeepView for FieldDecl {
    type V = SpecField;

    open spec fn deep_view(&self) -> SpecField {
        self.view()
    }
}

/// The incoming type declaration: either a plain field record (name and
/// ordered fields), or some other shape (variant or union), which the
/// generator rejects with a diagnostic.
pub enum Declaration {
    Record { name: String, fields: Vec<FieldDecl> },
    NotRecord,
}

/// Mathematical model of a declaration.
pub enum SpecDecl {
    Record { name: Seq<char>, fields: Seq<SpecField> },
    NotRecord,
}

impl View for Declaration {
    type V = SpecDecl;

    open spec fn view(&self) -> SpecDecl {
        match self {
            Declaration::Record { name, fields } => SpecDecl::Record {
                name: name@,
                fields: fields.deep_view(),
            },
            Declaration::NotRecord => SpecDecl::NotRecord,
        }
    }
}

} // verus!
