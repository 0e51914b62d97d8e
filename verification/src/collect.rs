//! Collecting the record's fields into an inventory.
//!
//! Each field's annotations are resolved into settings; collection stops at
//! the first field whose resolution fails, or which has no name, and returns
//! that first failure.  On success the inventory lists one entry per field,
//! in declaration order.

use vstd::prelude::*;
use crate::ast::{FieldDecl, SpecField};
use crate::settings::{resolve_attrs, Error, FieldSettings, SpecError};

verus! {

/// One collected field: its name, its declared type as source text, and its
/// resolved settings.
pub struct FieldInfo {
    pub name: String,
    pub typ: String,
    pub settings: FieldSettings,
}

/// Mathematical model of a collected field.
pub struct SpecFieldInfo {
    pub name: Seq<char>,
    pub typ: Seq<char>,
    pub settings: FieldSettings,
}

impl View for FieldInfo {
    type V = SpecFieldInfo;

    open spec fn view(&self) -> SpecFieldInfo {
        SpecFieldInfo { name: self.name@, typ: self.typ@, settings: self.settings }
    }
}

impl DeepView for FieldInfo {
    type V = SpecFieldInfo;

    open spec fn deep_view(&self) -> SpecFieldInfo {
        self.view()
    }
}

/// What collecting the fields from index `i` on yields: the inventory of the
/// remaining fields, or the first failure among them.
pub open spec fn collect_from(fields: Seq<SpecField>, i: int) -> Result<
    Seq<SpecFieldInfo>,
    SpecError,
>
    decreases fields.len() - i,
{
    if i < 0 || i >= fields.len() {
        Ok(Seq::empty())
    } else {
        match resolve_attrs(fields[i].attrs) {
            Err(e) => Err(e),
            Ok(s) => match fields[i].name {
                None => Err(SpecError::MissingFieldName),
                Some(n) => match collect_from(fields, i + 1) {
                    Err(e) => Err(e),
                    Ok(rest) => Ok(
                        seq![SpecFieldInfo { name: n, typ: fields[i].ty, settings: s }] + rest,
                    ),
                },
            },
        }
    }
}

/// What collecting a record's full field list yields.
pub open spec fn collect_spec(fields: Seq<SpecField>) -> Result<Seq<SpecFieldInfo>, SpecError> {
    collect_from(fields, 0)
}

/// The model of an exec collection result.
pub open spec fn collect_result_view(r: Result<Vec<FieldInfo>, Error>) -> Result<
    Seq<SpecFieldInfo>,
    SpecError,
> {
    match r {
        Ok(v) => Ok(v.deep_view()),
        Err(e) => Err(e@),
    }
}

/// Collects the record's fields into an inventory, one entry per field in
/// declaration order, or returns the first field's failure.
pub fn collect_fields(fields: &Vec<FieldDecl>) -> (r: Result<Vec<FieldInfo>, Error>)
    ensures
        collect_result_view(r) == collect_spec(fields.deep_view()),
{
    let ghost fv = fields.deep_view();
    let mut out: Vec<FieldInfo> = Vec::new();
    let mut i: usize = 0;
    while i < fields.len()
        invariant
            0 <= i <= fields.len(),
            fv == fields.deep_view(),
            fv.len() == fields.len(),
            (match collect_from(fv, i as int) {
                Ok(rest) => collect_from(fv, 0) == Ok::<Seq<SpecFieldInfo>, SpecError>(
                    out.deep_view() + rest,
                ),
                Err(e) => collect_from(fv, 0) == Err::<Seq<SpecFieldInfo>, SpecError>(e),
            }),
        decreases fields.len() - i,
    {
        let f = &fields[i];
        proof {
            assert(fv[i as int] == f@);
        }
        match FieldSettings::try_from(&f.attrs) {
            Err(e) => {
                proof {
                    assert(collect_from(fv, i as int) == Err::<Seq<SpecFieldInfo>, SpecError>(e@));
                }
                return Err(e);
            },
            Ok(s) => {
                match &f.name {
                    None => {
                        proof {
                            assert(collect_from(fv, i as int) == Err::<Seq<SpecFieldInfo>, SpecError>(
                                SpecError::MissingFieldName,
                            ));
                        }
                        return Err(Error::MissingFieldName);
                    },
                    Some(n) => {
                        let ghost out0 = out.deep_view();
                        let ghost si = SpecFieldInfo {
                            name: n@,
                            typ: f.ty@,
                            settings: s,
                        };
                        out.push(FieldInfo { name: n.clone(), typ: f.ty.clone(), settings: s });
                        proof {
                            assert(out.deep_view() =~= out0.push(si));
                            assert(fv[i as int].name == Some(n@));
                            assert(resolve_attrs(fv[i as int].attrs) == Ok::<
                                FieldSettings,
                                SpecError,
                            >(s));
                            match collect_from(fv, i + 1 as int) {
                                Ok(rest) => {
                                    assert(collect_from(fv, i as int) == Ok::<
                                        Seq<SpecFieldInfo>,
                                        SpecError,
                                    >(seq![si] + rest));
                                    assert(out0 + (seq![si] + rest) =~= out0.push(si) + rest);
                                },
                                Err(e) => {
                                    assert(collect_from(fv, i as int) == Err::<
                                        Seq<SpecFieldInfo>,
                                        SpecError,
                                    >(e));
                                },
                            }
                        }
                    },
                }
            },
        }
        i = i + 1;
    }
    proof {
        assert(collect_from(fv, i as int) == Ok::<Seq<SpecFieldInfo>, SpecError>(Seq::empty()));
        assert(out.deep_view() + Seq::<SpecFieldInfo>::empty() =~= out.deep_view());
    }
    Ok(out)
}

} // verus!
