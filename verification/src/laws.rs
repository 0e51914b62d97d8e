//! The laws the generator obeys, stated and proved over the models.

use vstd::prelude::*;
use crate::ast::{SpecAttr, SpecDecl, SpecField};
use crate::collect::{collect_from, collect_spec, SpecFieldInfo};
use crate::driver::{gen_code_spec, gen_diag_spec, not_record_diag, record_failure_diag};
use crate::emit::{impl_text, method_sigs, SpecMethod};
use crate::settings::{
    allowed_keywords, is_reserved, payload_ident, payload_parses, resolve_attrs, resolve_from,
    spec_is_allowed_keyword, FieldSettings, SpecError,
};

verus! {

/// Annotations outside the reserved namespace have no effect: a run of them
/// resolves to whatever was accumulated so far.
pub proof fn lemma_resolve_skip(attrs: Seq<SpecAttr>, i: int, acc: FieldSettings)
    requires
        0 <= i <= attrs.len(),
        forall|j: int| i <= j < attrs.len() ==> !is_reserved(#[trigger] attrs[j]),
    ensures
        resolve_from(attrs, i, acc) == Ok::<FieldSettings, SpecError>(acc),
    decreases attrs.len() - i,
{
    if i < attrs.len() {
        lemma_resolve_skip(attrs, i + 1, acc);
    }
}

proof fn lemma_resolve_all_ignore(attrs: Seq<SpecAttr>, i: int, acc: FieldSettings)
    requires
        0 <= i <= attrs.len(),
        forall|j: int|
            i <= j < attrs.len() && is_reserved(#[trigger] attrs[j]) ==> payload_parses(attrs[j])
                && payload_ident(attrs[j]) == "ignore"@,
    ensures
        resolve_from(attrs, i, acc) == Ok::<FieldSettings, SpecError>(
            FieldSettings {
                ignore: acc.ignore || exists|j: int|
                    i <= j < attrs.len() && is_reserved(#[trigger] attrs[j]),
            },
        ),
    decreases attrs.len() - i,
{
    if i >= attrs.len() {
        assert(!(exists|j: int| i <= j < attrs.len() && is_reserved(#[trigger] attrs[j])));
        assert(FieldSettings { ignore: acc.ignore } == acc);
    } else if is_reserved(attrs[i]) {
        assert(spec_is_allowed_keyword("ignore"@)) by {
            assert(allowed_keywords()[0] == "ignore"@);
        }
        lemma_resolve_all_ignore(attrs, i + 1, FieldSettings { ignore: true });
        assert(i <= i < attrs.len() && is_reserved(attrs[i]));
    } else {
        lemma_resolve_all_ignore(attrs, i + 1, acc);
        if exists|j: int| i <= j < attrs.len() && is_reserved(#[trigger] attrs[j]) {
            let j = choose|j: int| i <= j < attrs.len() && is_reserved(#[trigger] attrs[j]);
            assert(j != i);
            assert(i + 1 <= j < attrs.len() && is_reserved(attrs[j]));
        }
    }
}

/// Law: a field marked with the exclusion keyword, however many times it is
/// repeated, resolves without error, and its settings mark it excluded.
pub proof fn lemma_exclusion_marker(attrs: Seq<SpecAttr>)
    requires
        forall|j: int|
            0 <= j < attrs.len() && is_reserved(#[trigger] attrs[j]) ==> payload_parses(attrs[j])
                && payload_ident(attrs[j]) == "ignore"@,
        exists|j: int| 0 <= j < attrs.len() && is_reserved(#[trigger] attrs[j]),
    ensures
        resolve_attrs(attrs) == Ok::<FieldSettings, SpecError>(FieldSettings { ignore: true }),
{
    lemma_resolve_all_ignore(attrs, 0, FieldSettings { ignore: false });
}

/// Law: a field whose settings mark it excluded contributes no method: the
/// emitted method list is that of the inventory without it.
pub proof fn lemma_excluded_no_method(infos: Seq<SpecFieldInfo>, i: int)
    requires
        0 <= i < infos.len(),
        infos[i].settings.ignore,
    ensures
        method_sigs(infos) == method_sigs(infos.remove(i)),
    decreases infos.len(),
{
    if i == infos.len() - 1 {
        assert(infos.remove(i) =~= infos.drop_last());
    } else {
        let pre = infos.drop_last();
        lemma_excluded_no_method(pre, i);
        assert(infos.remove(i).drop_last() =~= pre.remove(i));
        assert(infos.remove(i).last() == infos.last());
    }
}

proof fn lemma_sigs_no_excluded(infos: Seq<SpecFieldInfo>)
    requires
        forall|i: int| 0 <= i < infos.len() ==> !(#[trigger] infos[i]).settings.ignore,
    ensures
        method_sigs(infos).len() == infos.len(),
        forall|i: int|
            0 <= i < infos.len() ==> #[trigger] method_sigs(infos)[i] == (SpecMethod {
                field: infos[i].name,
                typ: infos[i].typ,
            }),
    decreases infos.len(),
{
    if infos.len() > 0 {
        lemma_sigs_no_excluded(infos.drop_last());
    }
}

/// A record whose fields are all named and all resolve successfully is
/// collected whole: one inventory entry per field, in declaration order,
/// carrying that field's name, type and resolved settings.
pub proof fn lemma_collect_all_resolved(fields: Seq<SpecField>, i: int)
    requires
        0 <= i <= fields.len(),
        forall|k: int|
            i <= k < fields.len() ==> (#[trigger] fields[k]).name is Some && resolve_attrs(
                fields[k].attrs,
            ) is Ok,
    ensures
        collect_from(fields, i) is Ok,
        collect_from(fields, i)->Ok_0.len() == fields.len() - i,
        forall|k: int|
            0 <= k < fields.len() - i ==> #[trigger] collect_from(fields, i)->Ok_0[k]
                == (SpecFieldInfo {
                name: fields[i + k].name->0,
                typ: fields[i + k].ty,
                settings: resolve_attrs(fields[i + k].attrs)->Ok_0,
            }),
    decreases fields.len() - i,
{
    if i < fields.len() {
        lemma_collect_all_resolved(fields, i + 1);
        let rest = collect_from(fields, i + 1)->Ok_0;
        let si = SpecFieldInfo {
            name: fields[i].name->0,
            typ: fields[i].ty,
            settings: resolve_attrs(fields[i].attrs)->Ok_0,
        };
        assert(collect_from(fields, i) == Ok::<Seq<SpecFieldInfo>, SpecError>(seq![si] + rest));
        assert forall|k: int| 0 <= k < fields.len() - i implies #[trigger] collect_from(
            fields,
            i,
        )->Ok_0[k] == (SpecFieldInfo {
            name: fields[i + k].name->0,
            typ: fields[i + k].ty,
            settings: resolve_attrs(fields[i + k].attrs)->Ok_0,
        }) by {
            if k == 0 {
                assert((seq![si] + rest)[0] == si);
            } else {
                assert((seq![si] + rest)[k] == rest[k - 1]);
            }
        }
    }
}

/// Law: for a plain-field record with distinct field names and no exclusion
/// markers (no annotation in the reserved namespace at all), generation
/// succeeds with no diagnostic, and the augmentation holds exactly one
/// mutator per field, for that field's name and type, in declaration order.
pub proof fn lemma_plain_record_full_inventory(name: Seq<char>, fields: Seq<SpecField>)
    requires
        forall|i: int| 0 <= i < fields.len() ==> (#[trigger] fields[i]).name is Some,
        forall|i: int, j: int|
            0 <= i < fields.len() && 0 <= j < fields[i].attrs.len() ==> !is_reserved(
                #[trigger] fields[i].attrs[j],
            ),
        forall|i: int, j: int|
            0 <= i < j < fields.len() ==> (#[trigger] fields[i]).name != (#[trigger] fields[j]).name,
    ensures
        gen_diag_spec(SpecDecl::Record { name, fields }) is None,
        collect_spec(fields) is Ok,
        method_sigs(collect_spec(fields)->Ok_0).len() == fields.len(),
        forall|i: int|
            0 <= i < fields.len() ==> #[trigger] method_sigs(collect_spec(fields)->Ok_0)[i]
                == (SpecMethod { field: fields[i].name->0, typ: fields[i].ty }),
        gen_code_spec(SpecDecl::Record { name, fields }) == impl_text(
            name,
            method_sigs(collect_spec(fields)->Ok_0),
        ),
{
    assert forall|k: int| 0 <= k < fields.len() implies (#[trigger] fields[k]).name is Some
        && resolve_attrs(fields[k].attrs) is Ok by {
        lemma_resolve_skip(fields[k].attrs, 0, FieldSettings { ignore: false });
    }
    lemma_collect_all_resolved(fields, 0);
    assert forall|k: int| 0 <= k < fields.len() implies resolve_attrs(
        (#[trigger] fields[k]).attrs,
    )->Ok_0 == (FieldSettings { ignore: false }) by {
        lemma_resolve_skip(fields[k].attrs, 0, FieldSettings { ignore: false });
    }
    lemma_sigs_no_excluded(collect_spec(fields)->Ok_0);
}

/// Law: for a record of named fields on which every reserved annotation
/// carries the exclusion keyword (repeated occurrences allowed), generation
/// succeeds with no diagnostic, and the inventory marks a field excluded
/// exactly when it carries at least one reserved annotation; together with
/// [`lemma_excluded_no_method`], such a field contributes no mutator.
pub proof fn lemma_exclusion_end_to_end(name: Seq<char>, fields: Seq<SpecField>)
    requires
        forall|i: int| 0 <= i < fields.len() ==> (#[trigger] fields[i]).name is Some,
        forall|i: int, j: int|
            0 <= i < fields.len() && 0 <= j < fields[i].attrs.len() && is_reserved(
                #[trigger] fields[i].attrs[j],
            ) ==> payload_parses(fields[i].attrs[j]) && payload_ident(fields[i].attrs[j])
                == "ignore"@,
    ensures
        gen_diag_spec(SpecDecl::Record { name, fields }) is None,
        collect_spec(fields) is Ok,
        collect_spec(fields)->Ok_0.len() == fields.len(),
        forall|i: int|
            0 <= i < fields.len() ==> (#[trigger] collect_spec(fields)->Ok_0[i]).settings.ignore
                == (exists|j: int|
                0 <= j < fields[i].attrs.len() && is_reserved(#[trigger] fields[i].attrs[j])),
        forall|i: int|
            0 <= i < fields.len() ==> (#[trigger] collect_spec(fields)->Ok_0[i]).name == fields[i].name->0
                && collect_spec(fields)->Ok_0[i].typ == fields[i].ty,
        gen_code_spec(SpecDecl::Record { name, fields }) == impl_text(
            name,
            method_sigs(collect_spec(fields)->Ok_0),
        ),
{
    assert forall|i: int| 0 <= i < fields.len() implies resolve_attrs(
        (#[trigger] fields[i]).attrs,
    ) == Ok::<FieldSettings, SpecError>(
        FieldSettings {
            ignore: exists|j: int|
                0 <= j < fields[i].attrs.len() && is_reserved(#[trigger] fields[i].attrs[j]),
        },
    ) by {
        lemma_resolve_all_ignore(fields[i].attrs, 0, FieldSettings { ignore: false });
    }
    lemma_collect_all_resolved(fields, 0);
}

proof fn lemma_resolve_invalid(attrs: Seq<SpecAttr>, i: int, acc: FieldSettings, j: int)
    requires
        0 <= i <= j < attrs.len(),
        is_reserved(attrs[j]),
        payload_parses(attrs[j]),
        !spec_is_allowed_keyword(payload_ident(attrs[j])),
        forall|k: int|
            i <= k < j && is_reserved(#[trigger] attrs[k]) ==> payload_parses(attrs[k])
                && spec_is_allowed_keyword(payload_ident(attrs[k])),
    ensures
        resolve_from(attrs, i, acc) == Err::<FieldSettings, SpecError>(
            SpecError::InvalidParameter(payload_ident(attrs[j])),
        ),
    decreases j - i,
{
    if i < j {
        if is_reserved(attrs[i]) {
            lemma_resolve_invalid(
                attrs,
                i + 1,
                FieldSettings { ignore: acc.ignore || payload_ident(attrs[i]) == "ignore"@ },
                j,
            );
        } else {
            lemma_resolve_invalid(attrs, i + 1, acc, j);
        }
    }
}

/// Law: if the first reserved annotation that does not carry a recognized
/// keyword fails to parse as a single identifier, resolution stops there
/// with a parse-level failure; later annotations are never applied.
pub proof fn lemma_resolve_parse_failure(attrs: Seq<SpecAttr>, j: int)
    requires
        0 <= j < attrs.len(),
        is_reserved(attrs[j]),
        !payload_parses(attrs[j]),
        forall|k: int|
            0 <= k < j && is_reserved(#[trigger] attrs[k]) ==> payload_parses(attrs[k])
                && spec_is_allowed_keyword(payload_ident(attrs[k])),
    ensures
        resolve_attrs(attrs) == Err::<FieldSettings, SpecError>(SpecError::ParseError),
{
    lemma_resolve_parse_failure_from(attrs, 0, FieldSettings { ignore: false }, j);
}

proof fn lemma_resolve_parse_failure_from(attrs: Seq<SpecAttr>, i: int, acc: FieldSettings, j: int)
    requires
        0 <= i <= j < attrs.len(),
        is_reserved(attrs[j]),
        !payload_parses(attrs[j]),
        forall|k: int|
            i <= k < j && is_reserved(#[trigger] attrs[k]) ==> payload_parses(attrs[k])
                && spec_is_allowed_keyword(payload_ident(attrs[k])),
    ensures
        resolve_from(attrs, i, acc) == Err::<FieldSettings, SpecError>(SpecError::ParseError),
    decreases j - i,
{
    if i < j {
        if is_reserved(attrs[i]) {
            lemma_resolve_parse_failure_from(
                attrs,
                i + 1,
                FieldSettings { ignore: acc.ignore || payload_ident(attrs[i]) == "ignore"@ },
                j,
            );
        } else {
            lemma_resolve_parse_failure_from(attrs, i + 1, acc, j);
        }
    }
}

proof fn lemma_collect_first_failure(fields: Seq<SpecField>, m: int, i: int, e: SpecError)
    requires
        0 <= m <= i < fields.len(),
        forall|k: int|
            m <= k < i ==> (#[trigger] fields[k]).name is Some && resolve_attrs(fields[k].attrs)
                is Ok,
        resolve_attrs(fields[i].attrs) == Err::<FieldSettings, SpecError>(e),
    ensures
        collect_from(fields, m) == Err::<Seq<SpecFieldInfo>, SpecError>(e),
    decreases i - m,
{
    if m < i {
        lemma_collect_first_failure(fields, m + 1, i, e);
    }
}

/// Law: if the first failure over the record's fields, in document order, is
/// a reserved annotation whose single identifier is not a recognized
/// keyword, generation yields no methods and exactly one diagnostic naming
/// the record and that identifier.
pub proof fn lemma_unrecognized_keyword(name: Seq<char>, fields: Seq<SpecField>, i: int, j: int)
    requires
        0 <= i < fields.len(),
        forall|k: int|
            0 <= k < i ==> (#[trigger] fields[k]).name is Some && resolve_attrs(fields[k].attrs)
                is Ok,
        0 <= j < fields[i].attrs.len(),
        is_reserved(fields[i].attrs[j]),
        payload_parses(fields[i].attrs[j]),
        !spec_is_allowed_keyword(payload_ident(fields[i].attrs[j])),
        forall|l: int|
            0 <= l < j && is_reserved(#[trigger] fields[i].attrs[l]) ==> payload_parses(
                fields[i].attrs[l],
            ) && spec_is_allowed_keyword(payload_ident(fields[i].attrs[l])),
    ensures
        gen_code_spec(SpecDecl::Record { name, fields }) == Seq::<char>::empty(),
        gen_diag_spec(SpecDecl::Record { name, fields }) == Some(
            record_failure_diag(
                name,
                SpecError::InvalidParameter(payload_ident(fields[i].attrs[j])),
            ),
        ),
{
    lemma_resolve_invalid(fields[i].attrs, 0, FieldSettings { ignore: false }, j);
    lemma_collect_first_failure(
        fields,
        0,
        i,
        SpecError::InvalidParameter(payload_ident(fields[i].attrs[j])),
    );
}

/// Law: a record whose field collection fails yields no methods at all, and
/// exactly one diagnostic, naming the record and describing the first
/// failure in document order.
pub proof fn lemma_failing_record(name: Seq<char>, fields: Seq<SpecField>)
    requires
        collect_spec(fields) is Err,
    ensures
        gen_code_spec(SpecDecl::Record { name, fields }) == Seq::<char>::empty(),
        gen_diag_spec(SpecDecl::Record { name, fields }) == Some(
            record_failure_diag(name, collect_spec(fields)->Err_0),
        ),
{
}

/// Law: a declaration that is not a plain field record yields zero methods
/// and the single unsupported-shape diagnostic.
pub proof fn lemma_non_record()
    ensures
        gen_code_spec(SpecDecl::NotRecord) == Seq::<char>::empty(),
        gen_diag_spec(SpecDecl::NotRecord) == Some(not_record_diag()),
{
}

/// Law: generation is deterministic.  The generated text and the diagnostic
/// are functions of the declaration alone, so re-running the generator on
/// the same declaration produces byte-identical output.
pub proof fn lemma_generation_deterministic(d1: SpecDecl, d2: SpecDecl)
    requires
        d1 == d2,
    ensures
        gen_code_spec(d1) == gen_code_spec(d2),
        gen_diag_spec(d1) == gen_diag_spec(d2),
{
}

} // verus!
