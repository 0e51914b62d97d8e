//! Scanning a field's annotations and resolving them into settings.
//!
//! Annotations outside the reserved `builder` namespace are ignored.  Each
//! reserved annotation's payload must parse as exactly one identifier, which
//! must belong to the keyword allow-list; the recognized keywords are folded
//! left to right into one [`FieldSettings`] value, stopping at the first
//! failure.

use vstd::prelude::*;
use vstd::string::StringExecFns;
use crate::ast::{Attr, SpecAttr};

verus! {

/// A failure while resolving one field's annotations, or while collecting
/// the record's fields.
#[derive(Clone, Debug)]
pub enum Error {
    /// A reserved-namespace annotation whose payload is not a single
    /// identifier.
    ParseError,
    /// A reserved-namespace annotation whose single identifier is not a
    /// recognized keyword; carries the offending keyword.
    InvalidParameter(String),
    /// A field without a name (a positional field), which the generator
    /// does not support.
    MissingFieldName,
}

/// Mathematical model of an [`Error`].
pub enum SpecError {
    ParseError,
    InvalidParameter(Seq<char>),
    MissingFieldName,
}

impl View for Error {
    type V = SpecError;

    open spec fn view(&self) -> SpecError {
        match self {
            Error::ParseError => SpecError::ParseError,
            Error::InvalidParameter(s) => SpecError::InvalidParameter(s@),
            Error::MissingFieldName => SpecError::MissingFieldName,
        }
    }
}

/// What a human-readable description of the error says.
pub open spec fn error_description(e: SpecError) -> Seq<char> {
    match e {
        SpecError::ParseError => "parse error: expected a single identifier"@,
        SpecError::InvalidParameter(s) => "invalid attribute parameter `"@ + s + "`"@,
        SpecError::MissingFieldName => "unnamed fields are not supported"@,
    }
}

impl Error {
    /// A human-readable description of the failure, used in diagnostics.
    pub fn description(&self) -> (r: String)
        ensures
            r@ == error_description(self@),
    {
        match self {
            Error::ParseError => String::from_str("parse error: expected a single identifier"),
            Error::InvalidParameter(s) => {
                let mut msg = String::from_str("invalid attribute parameter `");
                msg.append(s.as_str());
                msg.append("`");
                msg
            },
            Error::MissingFieldName => String::from_str("unnamed fields are not supported"),
        }
    }
}

/// The resolved configuration of one field: whether it is excluded from
/// mutator generation.
#[derive(Clone, Copy, Debug, PartialEq, Eq, Structural)]
pub struct FieldSettings {
    pub ignore: bool,
}

/// The keyword allow-list: the single source of truth for the identifiers a
/// reserved annotation may carry.
pub open spec fn allowed_keywords() -> Seq<Seq<char>> {
    seq!["ignore"@]
}

/// Whether `keyword` is on the allow-list.
pub open spec fn spec_is_allowed_keyword(keyword: Seq<char>) -> bool {
    allowed_keywords().contains(keyword)
}

/// Decides allow-list membership of a keyword.
pub fn is_allowed_keyword(keyword: &String) -> (r: bool)
    ensures
        r == spec_is_allowed_keyword(keyword@),
{
    let ignore_kw = String::from_str("ignore");
    let r = *keyword == ignore_kw;
    proof {
        if r {
            assert(allowed_keywords()[0] == "ignore"@);
        }
        if spec_is_allowed_keyword(keyword@) {
            let i = choose|i: int|
                0 <= i < allowed_keywords().len() && allowed_keywords()[i] == keyword@;
            assert(i == 0);
        }
    }
    r
}

/// Whether an annotation belongs to the generator's reserved namespace.
pub open spec fn is_reserved(a: SpecAttr) -> bool {
    a.path == "builder"@
}

/// Whether a reserved annotation's payload parses as a single identifier.
pub open spec fn payload_parses(a: SpecAttr) -> bool {
    a.args.len() == 1 && a.args[0].is_ident
}

/// The identifier a parseable payload carries.
pub open spec fn payload_ident(a: SpecAttr) -> Seq<char> {
    a.args[0].text
}

/// The left-to-right, short-circuiting fold of the annotations from index
/// `i` on, starting from the settings accumulated so far.
pub open spec fn resolve_from(attrs: Seq<SpecAttr>, i: int, acc: FieldSettings) -> Result<
    FieldSettings,
    SpecError,
>
    decreases attrs.len() - i,
{
    if i < 0 || i >= attrs.len() {
        Ok(acc)
    } else if !is_reserved(attrs[i]) {
        resolve_from(attrs, i + 1, acc)
    } else if !payload_parses(attrs[i]) {
        Err(SpecError::ParseError)
    } else if spec_is_allowed_keyword(payload_ident(attrs[i])) {
        resolve_from(
            attrs,
            i + 1,
            FieldSettings { ignore: acc.ignore || payload_ident(attrs[i]) == "ignore"@ },
        )
    } else {
        Err(SpecError::InvalidParameter(payload_ident(attrs[i])))
    }
}

/// What resolving a field's full annotation list yields, starting from the
/// all-defaults settings.
pub open spec fn resolve_attrs(attrs: Seq<SpecAttr>) -> Result<FieldSettings, SpecError> {
    resolve_from(attrs, 0, FieldSettings { ignore: false })
}

/// The model of an exec resolution result.
pub open spec fn settings_result_view(r: Result<FieldSettings, Error>) -> Result<
    FieldSettings,
    SpecError,
> {
    match r {
        Ok(s) => Ok(s),
        Err(e) => Err(e@),
    }
}

impl FieldSettings {
    /// Resolves one field's annotation list into its settings.
    ///
    /// Annotations outside the reserved namespace are skipped; each reserved
    /// one must carry exactly one recognized keyword; the first failure in
    /// document order wins.
    pub fn try_from(attributes: &Vec<Attr>) -> (r: Result<FieldSettings, Error>)
        ensures
            settings_result_view(r) == resolve_attrs(attributes.deep_view()),
    {
        let ghost av = attributes.deep_view();
        let builder_kw = String::from_str("builder");
        let mut acc = FieldSettings { ignore: false };
        let mut i: usize = 0;
        while i < attributes.len()
            invariant
                0 <= i <= attributes.len(),
                builder_kw@ == "builder"@,
                av == attributes.deep_view(),
                av.len() == attributes.len(),
                resolve_from(av, i as int, acc) == resolve_attrs(av),
            decreases attributes.len() - i,
        {
            let a = &attributes[i];
            proof {
                assert(av[i as int] == a@);
            }
            if a.path == builder_kw {
                proof {
                    assert(is_reserved(av[i as int]));
                }
                if a.args.len() == 1 && a.args[0].is_ident {
                    proof {
                        assert(av[i as int].args[0] == a.args@[0]@);
                        assert(payload_parses(av[i as int]));
                    }
                    let kw = &a.args[0].text;
                    proof {
                        assert(kw@ == payload_ident(av[i as int]));
                    }
                    if is_allowed_keyword(kw) {
                        let ignore_kw = String::from_str("ignore");
                        let is_ignore = *kw == ignore_kw;
                        acc = FieldSettings { ignore: acc.ignore || is_ignore };
                    } else {
                        proof {
                            assert(resolve_from(av, i as int, acc) == Err::<
                                FieldSettings,
                                SpecError,
                            >(SpecError::InvalidParameter(payload_ident(av[i as int]))));
                        }
                        return Err(Error::InvalidParameter(kw.clone()));
                    }
                } else {
                    proof {
                        assert(!payload_parses(av[i as int]));
                        assert(resolve_from(av, i as int, acc) == Err::<FieldSettings, SpecError>(
                            SpecError::ParseError,
                        ));
                    }
                    return Err(Error::ParseError);
                }
            }
            i = i + 1;
        }
        Ok(acc)
    }
}

} // verus!
