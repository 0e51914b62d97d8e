//! The entry point wiring the stages together.
//!
//! A declaration that is not a plain field record, or whose field collection
//! fails, yields an empty augmentation and a single diagnostic; a successful
//! run yields the generated block and no diagnostic.

use vstd::prelude::*;
use vstd::string::StringExecFns;
use crate::ast::{Declaration, SpecDecl};
use crate::collect::{collect_fields, collect_spec};
use crate::emit::{generate_impl_block, impl_text, method_sigs};
use crate::settings::{error_description, SpecError};

verus! {

/// What one run of the generator produces: the augmentation's source text
/// (empty on failure), and at most one user-facing diagnostic.
pub struct Expansion {
    pub code: String,
    pub diagnostic: Option<String>,
}

/// The diagnostic for a declaration that is not a plain field record.
pub open spec fn not_record_diag() -> Seq<char> {
    "`Builder` can only be derived for structs"@
}

/// The diagnostic for a record whose field collection failed: it names the
/// record and wraps the first underlying failure's description.
pub open spec fn record_failure_diag(name: Seq<char>, e: SpecError) -> Seq<char> {
    "cannot generate the builder pattern for `"@ + name + "`: "@ + error_description(e)
}

/// The augmentation text generation yields for a declaration.
pub open spec fn gen_code_spec(d: SpecDecl) -> Seq<char> {
    match d {
        SpecDecl::NotRecord => Seq::empty(),
        SpecDecl::Record { name, fields } => match collect_spec(fields) {
            Ok(infos) => impl_text(name, method_sigs(infos)),
            Err(_) => Seq::empty(),
        },
    }
}

/// The diagnostic generation yields for a declaration, if any.
pub open spec fn gen_diag_spec(d: SpecDecl) -> Option<Seq<char>> {
    match d {
        SpecDecl::NotRecord => Some(not_record_diag()),
        SpecDecl::Record { name, fields } => match collect_spec(fields) {
            Ok(_) => None,
            Err(e) => Some(record_failure_diag(name, e)),
        },
    }
}

/// The model of an optional diagnostic value.
pub open spec fn diag_view(d: Option<String>) -> Option<Seq<char>> {
    match d {
        Some(s) => Some(s@),
        None => None,
    }
}

/// Runs the generator on one declaration: checks the shape, collects the
/// fields, and either emits the augmentation block or degrades to an empty
/// block plus one diagnostic.
pub fn builder_impl(ast: Declaration) -> (r: Expansion)
    ensures
        r.code@ == gen_code_spec(ast@),
        diag_view(r.diagnostic) == gen_diag_spec(ast@),
{
    match ast {
        Declaration::NotRecord => Expansion {
            code: String::new(),
            diagnostic: Some(String::from_str("`Builder` can only be derived for structs")),
        },
        Declaration::Record { name, fields } => match collect_fields(&fields) {
            Ok(infos) => {
                let code = generate_impl_block(&name, infos);
                Expansion { code, diagnostic: None }
            },
            Err(e) => {
                let mut msg = String::from_str("cannot generate the builder pattern for `");
                msg.append(name.as_str());
                msg.append("`: ");
                let d = e.description();
                msg.append(d.as_str());
                proof {
                    assert(msg@ =~= record_failure_diag(name@, e@));
                }
                Expansion { code: String::new(), diagnostic: Some(msg) }
            },
        },
    }
}

} // verus!
