//! Annotation parsing: the per-variant/per-declaration attribute payload is
//! a tiny domain grammar holding exactly one argument, either a quoted
//! template string or the bare marker identifier meaning "transparent".
//! An absent attribute is `MissingAnnotation`; any other payload is
//! `InvalidAnnotationArgument`.

use vstd::prelude::*;
use crate::model::{
    Attr, SpecAttr, SpecAttrToken, AttrToken, RenderPolicy, SpecRenderPolicy, GenError, ErrorKind,
};
use crate::text::{copy_text, spec_transparent_name, transparent_name_text, text_eq};

verus! {

broadcast use vstd::std_specs::vec::group_vec_axioms;

/// The spec-level view of a parse result.
pub open spec fn result_policy_view(r: Result<RenderPolicy, GenError>) -> Result<
    SpecRenderPolicy,
    GenError,
> {
    match r {
        Result::Ok(p) => Result::Ok(p.deep_view()),
        Result::Err(e) => Result::Err(e),
    }
}

/// What a well-formed annotation payload means: exactly one token, either
/// the transparent marker or a template string. Anything else is no policy.
pub open spec fn spec_parse_policy(tokens: Seq<SpecAttrToken>) -> Option<SpecRenderPolicy> {
    if tokens.len() == 1 {
        match tokens[0] {
            SpecAttrToken::Ident(n) => if n == spec_transparent_name() {
                Option::Some(SpecRenderPolicy::Transparent)
            } else {
                Option::None
            },
            SpecAttrToken::Str(s) => Option::Some(SpecRenderPolicy::Literal(s)),
        }
    } else {
        Option::None
    }
}

/// The render policy of a variant or declaration with the given annotation:
/// `MissingAnnotation` anchored to the owner when the attribute is absent,
/// `InvalidAnnotationArgument` anchored to the attribute when its payload
/// fits no rule.
pub open spec fn spec_policy_of(attr: Option<SpecAttr>, owner_span: u64) -> Result<
    SpecRenderPolicy,
    GenError,
> {
    match attr {
        Option::None => Result::Err(
            GenError { kind: ErrorKind::MissingAnnotation, span: owner_span },
        ),
        Option::Some(a) => match spec_parse_policy(a.tokens) {
            Option::Some(p) => Result::Ok(p),
            Option::None => Result::Err(
                GenError { kind: ErrorKind::InvalidAnnotationArgument, span: a.span },
            ),
        },
    }
}

/// Parses one attribute payload into a render policy.
pub fn parse_attr_arg(attr: &Attr) -> (r: Result<RenderPolicy, GenError>)
    ensures
        result_policy_view(r) == (match spec_parse_policy(attr.deep_view().tokens) {
            Option::Some(p) => Result::<SpecRenderPolicy, GenError>::Ok(p),
            Option::None => Result::<SpecRenderPolicy, GenError>::Err(
                GenError { kind: ErrorKind::InvalidAnnotationArgument, span: attr.span },
            ),
        }),
{
    proof {
        assert(attr.deep_view().tokens.len() == attr.tokens@.len());
    }
    if attr.tokens.len() == 1 {
        proof {
            assert(attr.deep_view().tokens[0] == attr.tokens@[0].deep_view());
        }
        match &attr.tokens[0] {
            AttrToken::Ident(n) => {
                let marker = transparent_name_text();
                if text_eq(n, &marker) {
                    Result::Ok(RenderPolicy::Transparent)
                } else {
                    Result::Err(
                        GenError { kind: ErrorKind::InvalidAnnotationArgument, span: attr.span },
                    )
                }
            },
            AttrToken::Str(s) => Result::Ok(RenderPolicy::Literal(copy_text(s))),
        }
    } else {
        Result::Err(GenError { kind: ErrorKind::InvalidAnnotationArgument, span: attr.span })
    }
}

/// Looks up and parses the annotation of a variant or declaration, the
/// owner's location anchoring a missing annotation.
pub fn policy_of(attr: &Option<Attr>, owner_span: u64) -> (r: Result<RenderPolicy, GenError>)
    ensures
        result_policy_view(r) == spec_policy_of(attr.deep_view(), owner_span),
{
    match attr {
        Option::None => Result::Err(
            GenError { kind: ErrorKind::MissingAnnotation, span: owner_span },
        ),
        Option::Some(a) => parse_attr_arg(a),
    }
}

} // verus!
