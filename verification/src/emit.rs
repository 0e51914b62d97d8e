//! Emitting the augmentation block.
//!
//! Fields whose settings mark them excluded contribute nothing; every other
//! field yields one fluent mutator method, in declaration order.  The whole
//! output is one `impl` block attached to the record's name; with every
//! field excluded it is a well-formed empty block.

use vstd::prelude::*;
use vstd::string::StringExecFns;
use crate::collect::{FieldInfo, SpecFieldInfo};

verus! {

/// One emitted method: the field it mutates and the field's declared type.
pub struct SpecMethod {
    pub field: Seq<char>,
    pub typ: Seq<char>,
}

/// The name of the mutator generated for a field: the fixed `set_` prefix
/// followed by the field's name.
pub open spec fn mutator_name(field: Seq<char>) -> Seq<char> {
    "set_"@ + field
}

/// The methods emitted for an inventory: one per non-excluded field, in
/// declaration order.
pub open spec fn method_sigs(infos: Seq<SpecFieldInfo>) -> Seq<SpecMethod>
    decreases infos.len(),
{
    if infos.len() == 0 {
        Seq::empty()
    } else {
        let rest = method_sigs(infos.drop_last());
        let f = infos.last();
        if f.settings.ignore {
            rest
        } else {
            rest.push(SpecMethod { field: f.name, typ: f.typ })
        }
    }
}

/// The source text of one mutator method.
pub open spec fn method_text(m: SpecMethod) -> Seq<char> {
    "    pub fn "@ + mutator_name(m.field) + "(mut self, value: "@ + m.typ + ") -> Self {\n        self."@
        + m.field + " = value;\n        self\n    }\n"@
}

/// The concatenated source text of a method list, in order.
pub open spec fn methods_text(ms: Seq<SpecMethod>) -> Seq<char>
    decreases ms.len(),
{
    if ms.len() == 0 {
        Seq::empty()
    } else {
        methods_text(ms.drop_last()) + method_text(ms.last())
    }
}

/// The source text of the whole augmentation block for a record.
pub open spec fn impl_text(name: Seq<char>, ms: Seq<SpecMethod>) -> Seq<char> {
    "impl "@ + name + " {\n"@ + methods_text(ms) + "}\n"@
}

/// Synthesizes the augmentation block for the record named `struct_name`
/// from its collected field inventory.
pub fn generate_impl_block(struct_name: &String, infos: Vec<FieldInfo>) -> (r: String)
    ensures
        r@ == impl_text(struct_name@, method_sigs(infos.deep_view())),
{
    let ghost iv = infos.deep_view();
    let mut methods = String::new();
    let mut i: usize = 0;
    while i < infos.len()
        invariant
            0 <= i <= infos.len(),
            iv == infos.deep_view(),
            iv.len() == infos.len(),
            methods@ == methods_text(method_sigs(iv.take(i as int))),
        decreases infos.len() - i,
    {
        let f = &infos[i];
        let ghost methods0 = methods@;
        proof {
            assert(iv[i as int] == f@);
            assert(iv.take(i as int + 1).drop_last() =~= iv.take(i as int));
            assert(iv.take(i as int + 1).last() == iv[i as int]);
        }
        if !f.settings.ignore {
            methods.append("    pub fn ");
            methods.append("set_");
            methods.append(f.name.as_str());
            methods.append("(mut self, value: ");
            methods.append(f.typ.as_str());
            methods.append(") -> Self {\n        self.");
            methods.append(f.name.as_str());
            methods.append(" = value;\n        self\n    }\n");
            proof {
                let m = SpecMethod { field: f.name@, typ: f.typ@ };
                let ms1 = method_sigs(iv.take(i as int + 1));
                assert(ms1 == method_sigs(iv.take(i as int)).push(m));
                assert(ms1.drop_last() =~= method_sigs(iv.take(i as int)));
                assert(ms1.last() == m);
                assert(methods@ =~= methods0 + method_text(m));
                assert(methods@ == methods_text(ms1));
            }
        } else {
            proof {
                assert(method_sigs(iv.take(i as int + 1)) == method_sigs(iv.take(i as int)));
            }
        }
        i = i + 1;
    }
    proof {
        assert(iv.take(iv.len() as int) =~= iv);
    }
    let mut out = String::from_str("impl ");
    out.append(struct_name.as_str());
    out.append(" {\n");
    out.append(methods.as_str());
    out.append("}\n");
    proof {
        assert(out@ =~= impl_text(struct_name@, method_sigs(iv)));
    }
    out
}

} // verus!
