//! Orchestration: one top-level declaration in, everything generated for
//! it out. Product and sum types are dispatched to the passes above;
//! anything else fails with `UnsupportedDeclarationShape`. A sum type's
//! per-variant carriers are collected under one namespacing container,
//! created only when at least one variant produced a carrier; a product
//! type's carrier is emitted directly.

use vstd::prelude::*;
use crate::model::{
    StructDecl, SpecStructDecl, EnumDecl, SpecEnumDecl, SpecVariant, Item, SpecItem, GenError,
    ErrorKind, SpecRenderPolicy, spec_wf_struct, spec_wf_enum, spec_wf_item, copy_params,
};
use crate::adapter::{
    spec_fields_have_cause, spec_adapter_for_struct, spec_variant_adapter, generate_ctx,
    generate_variant_ctx,
};
use crate::annotation::spec_policy_of;
use crate::chain::{
    spec_chain_arm, spec_enum_chain, spec_variant_chain_arm, generate_struct_error_impl,
    generate_enum_error_impl, SpecErrValue, spec_chain_of, lemma_direct_chain_yields_cause,
    lemma_forwarded_chain_skips_one_level, lemma_terminal_chain_none,
};
use crate::output::ChainKind;
use crate::render::{
    spec_render_arm, spec_enum_render, generate_struct_display_impl, generate_enum_display_impl,
    fields_have_cause,
};
use crate::output::{Generated, SpecGenerated, SpecAdapterDef, AdapterDef};
use crate::text::{spec_ctx_name, ctx_name_of, copy_text};

verus! {

broadcast use vstd::std_specs::vec::group_vec_axioms;

/// The spec-level view of a generation result.
pub open spec fn result_generated_view(r: Result<Generated, GenError>) -> Result<
    SpecGenerated,
    GenError,
> {
    match r {
        Result::Ok(g) => Result::Ok(g.deep_view()),
        Result::Err(e) => Result::Err(e),
    }
}

/// The carriers a product-type declaration produces: one when it has a
/// cause field, none otherwise.
pub open spec fn spec_struct_adapters(s: SpecStructDecl) -> Seq<SpecAdapterDef> {
    if spec_fields_have_cause(s.fields) {
        seq![spec_adapter_for_struct(s)]
    } else {
        Seq::empty()
    }
}

/// The carriers of the first `n` variants of a sum type, in variant
/// order.
pub open spec fn spec_enum_adapters_upto(e: SpecEnumDecl, n: int) -> Seq<SpecAdapterDef>
    decreases n,
{
    if n <= 0 {
        Seq::empty()
    } else {
        let pre = spec_enum_adapters_upto(e, n - 1);
        match spec_variant_adapter(e, e.variants[n - 1]) {
            Option::Some(a) => pre.push(a),
            Option::None => pre,
        }
    }
}

/// The carriers a sum-type declaration produces, in variant order.
pub open spec fn spec_enum_adapters(e: SpecEnumDecl) -> Seq<SpecAdapterDef> {
    spec_enum_adapters_upto(e, e.variants.len() as int)
}

/// Everything generated for a product-type declaration, or its first
/// failure.
pub open spec fn spec_derive_struct(s: SpecStructDecl) -> Result<SpecGenerated, GenError> {
    match spec_render_arm(Option::None, s.fields, s.attr, s.span) {
        Result::Err(e) => Result::Err(e),
        Result::Ok(rarm) => match spec_chain_arm(Option::None, s.fields, s.attr, s.span) {
            Result::Err(e) => Result::Err(e),
            Result::Ok(carm) => Result::Ok(
                SpecGenerated {
                    target_name: s.name,
                    target_generics: s.generics,
                    adapters: spec_struct_adapters(s),
                    container: Option::None,
                    render: seq![rarm],
                    chain: seq![carm],
                },
            ),
        },
    }
}

/// Everything generated for a sum-type declaration, or its first
/// failure. The namespacing container exists only when at least one
/// variant produced a carrier.
pub open spec fn spec_derive_enum(e: SpecEnumDecl) -> Result<SpecGenerated, GenError> {
    match spec_enum_render(e) {
        Result::Err(er) => Result::Err(er),
        Result::Ok(render) => match spec_enum_chain(e) {
            Result::Err(er) => Result::Err(er),
            Result::Ok(chain) => Result::Ok(
                SpecGenerated {
                    target_name: e.name,
                    target_generics: e.generics,
                    adapters: spec_enum_adapters(e),
                    container: if spec_enum_adapters(e).len() > 0 {
                        Option::Some(spec_ctx_name(e.name))
                    } else {
                        Option::None
                    },
                    render,
                    chain,
                },
            ),
        },
    }
}

/// Everything generated for one top-level declaration: sum and product
/// types are processed; anything else is an unsupported shape.
pub open spec fn spec_derive(it: SpecItem) -> Result<SpecGenerated, GenError> {
    match it {
        SpecItem::Struct(s) => spec_derive_struct(s),
        SpecItem::Enum(e) => spec_derive_enum(e),
        SpecItem::Other { span } => Result::Err(
            GenError { kind: ErrorKind::UnsupportedDeclarationShape, span },
        ),
    }
}

/// Generates everything for a product-type declaration.
pub fn derive_err_struct(s: &StructDecl) -> (r: Result<Generated, GenError>)
    requires
        spec_wf_struct(s.deep_view()),
    ensures
        result_generated_view(r) == spec_derive_struct(s.deep_view()),
{
    let ghost sv = s.deep_view();
    let mut adapters: Vec<AdapterDef> = Vec::new();
    if fields_have_cause(&s.fields) {
        adapters.push(generate_ctx(s));
    }
    proof {
        assert(adapters.deep_view() =~~= spec_struct_adapters(sv));
    }
    match generate_struct_display_impl(s) {
        Result::Err(e) => Result::Err(e),
        Result::Ok(rarm) => match generate_struct_error_impl(s) {
            Result::Err(e) => Result::Err(e),
            Result::Ok(carm) => {
                let ghost rv = rarm.deep_view();
                let ghost cv = carm.deep_view();
                let mut render: Vec<crate::output::RenderArm> = Vec::new();
                render.push(rarm);
                let mut chain: Vec<crate::output::ChainArm> = Vec::new();
                chain.push(carm);
                proof {
                    assert(render.deep_view() =~~= seq![rv]);
                    assert(chain.deep_view() =~~= seq![cv]);
                }
                Result::Ok(
                    Generated {
                        target_name: copy_text(&s.name),
                        target_generics: copy_params(&s.generics),
                        adapters,
                        container: Option::None,
                        render,
                        chain,
                    },
                )
            },
        },
    }
}

/// Generates everything for a sum-type declaration.
#[verifier::loop_isolation(false)]
pub fn derive_err_enum(e: &EnumDecl) -> (r: Result<Generated, GenError>)
    requires
        spec_wf_enum(e.deep_view()),
    ensures
        result_generated_view(r) == spec_derive_enum(e.deep_view()),
{
    let ghost ev = e.deep_view();
    let mut adapters: Vec<AdapterDef> = Vec::new();
    proof {
        assert(adapters.deep_view() =~~= Seq::<SpecAdapterDef>::empty());
    }
    let mut i: usize = 0;
    while i < e.variants.len()
        invariant
            0 <= i <= e.variants.len(),
            adapters.deep_view() == spec_enum_adapters_upto(ev, i as int),
        decreases e.variants.len() - i,
    {
        proof {
            assert(ev.variants[i as int] == e.variants[i as int].deep_view());
        }
        match generate_variant_ctx(e, &e.variants[i]) {
            Option::Some(a) => {
                adapters.push(a);
            },
            Option::None => {},
        }
        i += 1;
        proof {
            assert(adapters.deep_view() =~~= spec_enum_adapters_upto(ev, i as int));
        }
    }
    match generate_enum_display_impl(e) {
        Result::Err(er) => Result::Err(er),
        Result::Ok(render) => match generate_enum_error_impl(e) {
            Result::Err(er) => Result::Err(er),
            Result::Ok(chain) => {
                let container: Option<Vec<char>> = if adapters.len() > 0 {
                    Option::Some(ctx_name_of(&e.name))
                } else {
                    Option::None
                };
                Result::Ok(
                    Generated {
                        target_name: copy_text(&e.name),
                        target_generics: copy_params(&e.generics),
                        adapters,
                        container,
                        render,
                        chain,
                    },
                )
            },
        },
    }
}

/// Generates everything for one top-level declaration; a declaration
/// that is neither a sum nor a product type is an unsupported shape,
/// reported at its own location.
pub fn derive_error(item: &Item) -> (r: Result<Generated, GenError>)
    requires
        spec_wf_item(item.deep_view()),
    ensures
        result_generated_view(r) == spec_derive(item.deep_view()),
{
    match item {
        Item::Struct(s) => derive_err_struct(s),
        Item::Enum(e) => derive_err_enum(e),
        Item::Other { span } => Result::Err(
            GenError { kind: ErrorKind::UnsupportedDeclarationShape, span: *span },
        ),
    }
}

/// Generation is a pure function of its input: two runs on an unchanged
/// declaration yield identical output.
pub proof fn lemma_generation_deterministic(
    it: SpecItem,
    r1: Result<SpecGenerated, GenError>,
    r2: Result<SpecGenerated, GenError>,
)
    requires
        r1 == spec_derive(it),
        r2 == spec_derive(it),
    ensures
        r1 == r2,
{
}

/// A product-type declaration with a cause field and a literal policy
/// generates a direct chain branch, and the accessor of any value with
/// that branch returns the cause field's value itself.
pub proof fn lemma_struct_literal_chain_yields_cause(s: SpecStructDecl)
    requires
        spec_fields_have_cause(s.fields),
        spec_policy_of(s.attr, s.span) matches Result::Ok(SpecRenderPolicy::Literal(_)),
    ensures
        spec_derive_struct(s) is Ok,
        spec_derive_struct(s)->Ok_0.chain.len() == 1,
        spec_derive_struct(s)->Ok_0.chain[0].kind == ChainKind::Direct,
        forall|v: SpecErrValue, c: SpecErrValue|
            v.kind == spec_derive_struct(s)->Ok_0.chain[0].kind && v.cause == Option::Some(
                Box::new(c),
            ) ==> spec_chain_of(v) == Option::Some(c),
{
    assert forall|v: SpecErrValue, c: SpecErrValue|
        v.kind == spec_derive_struct(s)->Ok_0.chain[0].kind && v.cause == Option::Some(
            Box::new(c),
        ) implies spec_chain_of(v) == Option::Some(c) by {
        lemma_direct_chain_yields_cause(v, c);
    }
}

/// A declaration with a transparent policy and a cause field generates a
/// forwarding chain branch: the accessor of any value with that branch
/// yields exactly what the cause's own accessor yields, one level
/// skipped.
pub proof fn lemma_struct_transparent_chain_forwards(s: SpecStructDecl)
    requires
        spec_fields_have_cause(s.fields),
        spec_policy_of(s.attr, s.span) == Result::<SpecRenderPolicy, GenError>::Ok(
            SpecRenderPolicy::Transparent,
        ),
    ensures
        spec_derive_struct(s) is Ok,
        spec_derive_struct(s)->Ok_0.chain.len() == 1,
        spec_derive_struct(s)->Ok_0.chain[0].kind == ChainKind::Forwarded,
        forall|v: SpecErrValue, c: SpecErrValue|
            v.kind == spec_derive_struct(s)->Ok_0.chain[0].kind && v.cause == Option::Some(
                Box::new(c),
            ) ==> spec_chain_of(v) == spec_chain_of(c),
{
    assert forall|v: SpecErrValue, c: SpecErrValue|
        v.kind == spec_derive_struct(s)->Ok_0.chain[0].kind && v.cause == Option::Some(
            Box::new(c),
        ) implies spec_chain_of(v) == spec_chain_of(c) by {
        lemma_forwarded_chain_skips_one_level(v, c);
    }
}

/// A sum-type variant with a transparent policy and a cause field
/// generates a forwarding chain branch: the accessor of any value with
/// that branch yields exactly what the cause's own accessor yields.
pub proof fn lemma_variant_transparent_chain_forwards(v: SpecVariant)
    requires
        spec_fields_have_cause(v.fields),
        spec_policy_of(v.attr, v.span) == Result::<SpecRenderPolicy, GenError>::Ok(
            SpecRenderPolicy::Transparent,
        ),
    ensures
        spec_variant_chain_arm(v) is Ok,
        spec_variant_chain_arm(v)->Ok_0.kind == ChainKind::Forwarded,
        forall|w: SpecErrValue, c: SpecErrValue|
            w.kind == spec_variant_chain_arm(v)->Ok_0.kind && w.cause == Option::Some(
                Box::new(c),
            ) ==> spec_chain_of(w) == spec_chain_of(c),
{
    assert forall|w: SpecErrValue, c: SpecErrValue|
        w.kind == spec_variant_chain_arm(v)->Ok_0.kind && w.cause == Option::Some(
            Box::new(c),
        ) implies spec_chain_of(w) == spec_chain_of(c) by {
        lemma_forwarded_chain_skips_one_level(w, c);
    }
}

/// A sum-type variant without a cause field generates a terminal chain
/// branch, whatever its annotation: the accessor of any value with that
/// branch yields nothing.
pub proof fn lemma_variant_without_cause_chain_terminal(v: SpecVariant)
    requires
        !spec_fields_have_cause(v.fields),
    ensures
        spec_variant_chain_arm(v) is Ok,
        spec_variant_chain_arm(v)->Ok_0.kind == ChainKind::Terminal,
        forall|w: SpecErrValue|
            w.kind == spec_variant_chain_arm(v)->Ok_0.kind ==> spec_chain_of(w) is None,
{
    assert forall|w: SpecErrValue|
        w.kind == spec_variant_chain_arm(v)->Ok_0.kind implies spec_chain_of(w) is None by {
        lemma_terminal_chain_none(w);
    }
}

} // verus!
