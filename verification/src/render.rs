//! Render generation: one rendering branch per variant or declaration.
//! A literal policy binds every field into scope by name (synthesized
//! names for positional fields) and substitutes them into the template
//! text; a transparent policy delegates to the cause field's own
//! rendering, and fails with `TransparentWithoutSource` when no cause
//! field exists. For sum types the branches aggregate into one exhaustive
//! dispatch, in variant order, stopping at the first failing variant.

use vstd::prelude::*;
use vstd::pervasive::unreached;
use crate::model::{
    StructDecl, EnumDecl, Variant, SpecVariant, SpecField, FieldList, SpecFieldList,
    RenderPolicy, SpecAttr, Attr, GenError, ErrorKind, spec_wf_field_list, spec_wf_enum,
    opt_text_view,
};
use crate::annotation::{spec_policy_of, policy_of};
use crate::adapter::spec_fields_have_cause;
use crate::classify::source_field_of;
use crate::model::SpecRenderPolicy;
use crate::output::{
    RenderArm, SpecRenderArm, RenderBody, SpecRenderBody, ShapeKind, texts_view,
};
use crate::text::{copy_text, positional_name, spec_positional_name};

verus! {

broadcast use vstd::std_specs::vec::group_vec_axioms;

/// The spec-level view of a render-arm result.
pub open spec fn result_render_view(r: Result<RenderArm, GenError>) -> Result<
    SpecRenderArm,
    GenError,
> {
    match r {
        Result::Ok(a) => Result::Ok(a.deep_view()),
        Result::Err(e) => Result::Err(e),
    }
}

/// The shape of a field list.
pub open spec fn spec_shape_of(fs: SpecFieldList) -> ShapeKind {
    match fs {
        SpecFieldList::Named(_) => ShapeKind::Named,
        SpecFieldList::Positional(_) => ShapeKind::Positional,
        SpecFieldList::Unit => ShapeKind::Unit,
    }
}

/// The names a literal branch binds for named fields: each field's own
/// name, in order.
pub open spec fn spec_named_bindings(nf: Seq<SpecField>) -> Seq<Seq<char>> {
    nf.map_values(|f: SpecField| f.name->0)
}

/// The names a literal branch binds for positional fields: synthesized,
/// in order.
pub open spec fn spec_positional_bindings(n: nat) -> Seq<Seq<char>> {
    Seq::new(n, |i: int| spec_positional_name(i as nat))
}

/// The names a literal branch binds, by field shape.
pub open spec fn spec_bindings_for(fs: SpecFieldList) -> Seq<Seq<char>> {
    match fs {
        SpecFieldList::Named(nf) => spec_named_bindings(nf),
        SpecFieldList::Positional(pf) => spec_positional_bindings(pf.len()),
        SpecFieldList::Unit => Seq::empty(),
    }
}

/// The rendering branch of one variant or declaration: template
/// substitution under a literal policy, delegation under a transparent
/// policy, or the policy's own error.
pub open spec fn spec_render_arm(
    variant: Option<Seq<char>>,
    fields: SpecFieldList,
    attr: Option<SpecAttr>,
    owner_span: u64,
) -> Result<SpecRenderArm, GenError> {
    match spec_policy_of(attr, owner_span) {
        Result::Err(e) => Result::Err(e),
        Result::Ok(SpecRenderPolicy::Literal(t)) => Result::Ok(
            SpecRenderArm {
                variant,
                shape: spec_shape_of(fields),
                bindings: spec_bindings_for(fields),
                body: SpecRenderBody::Template(t),
            },
        ),
        Result::Ok(SpecRenderPolicy::Transparent) => if spec_fields_have_cause(fields) {
            Result::Ok(
                SpecRenderArm {
                    variant,
                    shape: spec_shape_of(fields),
                    bindings: Seq::empty(),
                    body: SpecRenderBody::Forward,
                },
            )
        } else {
            Result::Err(
                GenError { kind: ErrorKind::TransparentWithoutSource, span: attr->0.span },
            )
        },
    }
}

/// The rendering branch of one sum-type variant.
pub open spec fn spec_variant_render_arm(v: SpecVariant) -> Result<SpecRenderArm, GenError> {
    spec_render_arm(Option::Some(v.name), v.fields, v.attr, v.span)
}

/// The branches of the first `n` variants, stopping at the first failure.
pub open spec fn spec_render_arms_upto(vs: Seq<SpecVariant>, n: int) -> Result<
    Seq<SpecRenderArm>,
    GenError,
>
    decreases n,
{
    if n <= 0 {
        Result::Ok(Seq::empty())
    } else {
        match spec_render_arms_upto(vs, n - 1) {
            Result::Err(e) => Result::Err(e),
            Result::Ok(pre) => match spec_variant_render_arm(vs[n - 1]) {
                Result::Err(e) => Result::Err(e),
                Result::Ok(a) => Result::Ok(pre.push(a)),
            },
        }
    }
}

/// The aggregated rendering dispatch of a sum type: one branch per
/// variant, or the first variant's failure.
pub open spec fn spec_enum_render(e: crate::model::SpecEnumDecl) -> Result<
    Seq<SpecRenderArm>,
    GenError,
> {
    spec_render_arms_upto(e.variants, e.variants.len() as int)
}

/// A failure among the first `m` variants stops everything after them.
pub proof fn lemma_render_upto_error(vs: Seq<SpecVariant>, m: int, n: int)
    requires
        0 <= m <= n,
        spec_render_arms_upto(vs, m) is Err,
    ensures
        spec_render_arms_upto(vs, n) == spec_render_arms_upto(vs, m),
    decreases n - m,
{
    if m < n {
        lemma_render_upto_error(vs, m, n - 1);
    }
}

/// Whether a field shape carries a cause field.
pub fn fields_have_cause(fields: &FieldList) -> (r: bool)
    ensures
        r == spec_fields_have_cause(fields.deep_view()),
{
    match fields {
        FieldList::Named(nf) => {
            proof {
                assert(fields.deep_view()->Named_0 == nf.deep_view());
            }
            match source_field_of(nf) {
                Option::Some(_) => true,
                Option::None => false,
            }
        },
        _ => false,
    }
}

/// The shape of a field list.
pub fn shape_of(fields: &FieldList) -> (r: ShapeKind)
    ensures
        r == spec_shape_of(fields.deep_view()),
{
    match fields {
        FieldList::Named(_) => ShapeKind::Named,
        FieldList::Positional(_) => ShapeKind::Positional,
        FieldList::Unit => ShapeKind::Unit,
    }
}

/// The names a literal branch binds, in field order.
#[verifier::loop_isolation(false)]
fn bindings_for(fields: &FieldList) -> (r: Vec<Vec<char>>)
    requires
        spec_wf_field_list(fields.deep_view()),
    ensures
        texts_view(r@) == spec_bindings_for(fields.deep_view()),
{
    let mut out: Vec<Vec<char>> = Vec::new();
    match fields {
        FieldList::Named(nf) => {
            proof {
                assert(fields.deep_view()->Named_0 == nf.deep_view());
            }
            let mut i: usize = 0;
            while i < nf.len()
                invariant
                    0 <= i <= nf.len(),
                    out@.len() == i,
                    forall|j: int|
                        0 <= j < i ==> out@[j]@ == #[trigger] spec_named_bindings(
                            nf.deep_view(),
                        )[j],
                decreases nf.len() - i,
            {
                match &nf[i].name {
                    Option::Some(n) => {
                        out.push(copy_text(n));
                        proof {
                            assert(nf.deep_view()[i as int] == nf[i as int].deep_view());
                        }
                    },
                    Option::None => {
                        proof {
                            assert(nf.deep_view()[i as int] == nf[i as int].deep_view());
                            assert(false);
                        }
                    },
                }
                i += 1;
            }
            proof {
                assert(texts_view(out@) =~~= spec_bindings_for(fields.deep_view()));
            }
        },
        FieldList::Positional(pf) => {
            proof {
                assert(fields.deep_view()->Positional_0 == pf.deep_view());
            }
            let mut i: usize = 0;
            while i < pf.len()
                invariant
                    0 <= i <= pf.len(),
                    out@.len() == i,
                    forall|j: int| 0 <= j < i ==> out@[j]@ == spec_positional_name(j as nat),
                decreases pf.len() - i,
            {
                out.push(positional_name(i));
                i += 1;
            }
            proof {
                assert(texts_view(out@) =~~= spec_bindings_for(fields.deep_view()));
            }
        },
        FieldList::Unit => {
            proof {
                assert(texts_view(out@) =~~= spec_bindings_for(fields.deep_view()));
            }
        },
    }
    out
}

/// The rendering branch shared by product types and sum-type variants.
fn render_arm_common(
    variant: Option<Vec<char>>,
    fields: &FieldList,
    attr: &Option<Attr>,
    owner_span: u64,
) -> (r: Result<RenderArm, GenError>)
    requires
        spec_wf_field_list(fields.deep_view()),
    ensures
        result_render_view(r) == spec_render_arm(
            opt_text_view(variant),
            fields.deep_view(),
            attr.deep_view(),
            owner_span,
        ),
{
    match policy_of(attr, owner_span) {
        Result::Err(e) => Result::Err(e),
        Result::Ok(RenderPolicy::Literal(t)) => Result::Ok(
            RenderArm {
                variant,
                shape: shape_of(fields),
                bindings: bindings_for(fields),
                body: RenderBody::Template(t),
            },
        ),
        Result::Ok(RenderPolicy::Transparent) => {
            if fields_have_cause(fields) {
                let empty_binds: Vec<Vec<char>> = Vec::new();
                proof {
                    assert(texts_view(empty_binds@) =~~= Seq::<Seq<char>>::empty());
                }
                Result::Ok(
                    RenderArm {
                        variant,
                        shape: shape_of(fields),
                        bindings: empty_binds,
                        body: RenderBody::Forward,
                    },
                )
            } else {
                match attr {
                    Option::Some(a) => Result::Err(
                        GenError { kind: ErrorKind::TransparentWithoutSource, span: a.span },
                    ),
                    Option::None => {
                        proof {
                            assert(false);
                        }
                        unreached()
                    },
                }
            }
        },
    }
}

/// Generates the rendering branch of one sum-type variant.
pub fn generate_variant_display_arm(v: &Variant) -> (r: Result<RenderArm, GenError>)
    requires
        spec_wf_field_list(v.deep_view().fields),
    ensures
        result_render_view(r) == spec_variant_render_arm(v.deep_view()),
{
    render_arm_common(Option::Some(copy_text(&v.name)), &v.fields, &v.attr, v.span)
}

/// Generates the single rendering branch of a product-type declaration.
pub fn generate_struct_display_impl(s: &StructDecl) -> (r: Result<RenderArm, GenError>)
    requires
        spec_wf_field_list(s.deep_view().fields),
    ensures
        result_render_view(r) == spec_render_arm(
            Option::None,
            s.deep_view().fields,
            s.deep_view().attr,
            s.span,
        ),
{
    render_arm_common(Option::None, &s.fields, &s.attr, s.span)
}

/// Generates the aggregated rendering dispatch of a sum type, one branch
/// per variant in variant order, stopping at the first failing variant.
#[verifier::loop_isolation(false)]
pub fn generate_enum_display_impl(e: &EnumDecl) -> (r: Result<Vec<RenderArm>, GenError>)
    requires
        spec_wf_enum(e.deep_view()),
    ensures
        match r {
            Result::Ok(arms) => spec_enum_render(e.deep_view()) == Result::<
                Seq<SpecRenderArm>,
                GenError,
            >::Ok(arms.deep_view()),
            Result::Err(er) => spec_enum_render(e.deep_view()) == Result::<
                Seq<SpecRenderArm>,
                GenError,
            >::Err(er),
        },
{
    let ghost ev = e.deep_view();
    let mut arms: Vec<RenderArm> = Vec::new();
    proof {
        assert(arms.deep_view() =~~= Seq::<SpecRenderArm>::empty());
    }
    let mut i: usize = 0;
    while i < e.variants.len()
        invariant
            0 <= i <= e.variants.len(),
            spec_render_arms_upto(ev.variants, i as int) == Result::<
                Seq<SpecRenderArm>,
                GenError,
            >::Ok(arms.deep_view()),
        decreases e.variants.len() - i,
    {
        proof {
            assert(ev.variants[i as int] == e.variants[i as int].deep_view());
        }
        match generate_variant_display_arm(&e.variants[i]) {
            Result::Err(er) => {
                proof {
                    lemma_render_upto_error(ev.variants, i as int + 1, ev.variants.len() as int);
                }
                return Result::Err(er);
            },
            Result::Ok(a) => {
                arms.push(a);
            },
        }
        i += 1;
        proof {
            assert(arms.deep_view() =~~= spec_render_arms_upto(ev.variants, i as int)->Ok_0);
        }
    }
    Result::Ok(arms)
}

} // verus!
