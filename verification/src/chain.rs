//! Chain-accessor generation: one branch per variant or declaration. A
//! value without a cause field is terminal; a literal policy exposes the
//! cause value itself; a transparent policy skips one level and exposes
//! the cause's own chain-accessor result. A spec-level model of generated
//! values ties the emitted branch kinds to what the accessor yields.

use vstd::prelude::*;
use crate::model::{
    StructDecl, EnumDecl, Variant, SpecVariant, FieldList, SpecFieldList, RenderPolicy, SpecAttr,
    Attr, GenError, SpecRenderPolicy, opt_text_view,
};
use crate::annotation::{spec_policy_of, policy_of};
use crate::adapter::spec_fields_have_cause;
use crate::render::{spec_shape_of, shape_of, fields_have_cause};
use crate::output::{ChainArm, SpecChainArm, ChainKind};
use crate::text::copy_text;

verus! {

broadcast use vstd::std_specs::vec::group_vec_axioms;

/// The spec-level view of a chain-arm result.
pub open spec fn result_chain_view(r: Result<ChainArm, GenError>) -> Result<
    SpecChainArm,
    GenError,
> {
    match r {
        Result::Ok(a) => Result::Ok(a.deep_view()),
        Result::Err(e) => Result::Err(e),
    }
}

/// What one chain-accessor branch yields, by the table: no cause field is
/// terminal, whatever the policy; a cause field with a literal policy is
/// the cause itself; a cause field with a transparent policy skips one
/// level. The annotation is consulted only when a cause field exists, so
/// only then can its errors surface here.
pub open spec fn spec_chain_arm(
    variant: Option<Seq<char>>,
    fields: SpecFieldList,
    attr: Option<SpecAttr>,
    owner_span: u64,
) -> Result<SpecChainArm, GenError> {
    if spec_fields_have_cause(fields) {
        match spec_policy_of(attr, owner_span) {
            Result::Err(e) => Result::Err(e),
            Result::Ok(SpecRenderPolicy::Transparent) => Result::Ok(
                SpecChainArm {
                    variant,
                    shape: spec_shape_of(fields),
                    kind: ChainKind::Forwarded,
                },
            ),
            Result::Ok(SpecRenderPolicy::Literal(_)) => Result::Ok(
                SpecChainArm { variant, shape: spec_shape_of(fields), kind: ChainKind::Direct },
            ),
        }
    } else {
        Result::Ok(
            SpecChainArm { variant, shape: spec_shape_of(fields), kind: ChainKind::Terminal },
        )
    }
}

/// The chain-accessor branch of one sum-type variant.
pub open spec fn spec_variant_chain_arm(v: SpecVariant) -> Result<SpecChainArm, GenError> {
    spec_chain_arm(Option::Some(v.name), v.fields, v.attr, v.span)
}

/// The branches of the first `n` variants, stopping at the first failure.
pub open spec fn spec_chain_arms_upto(vs: Seq<SpecVariant>, n: int) -> Result<
    Seq<SpecChainArm>,
    GenError,
>
    decreases n,
{
    if n <= 0 {
        Result::Ok(Seq::empty())
    } else {
        match spec_chain_arms_upto(vs, n - 1) {
            Result::Err(e) => Result::Err(e),
            Result::Ok(pre) => match spec_variant_chain_arm(vs[n - 1]) {
                Result::Err(e) => Result::Err(e),
                Result::Ok(a) => Result::Ok(pre.push(a)),
            },
        }
    }
}

/// The aggregated chain-accessor dispatch of a sum type.
pub open spec fn spec_enum_chain(e: crate::model::SpecEnumDecl) -> Result<
    Seq<SpecChainArm>,
    GenError,
> {
    spec_chain_arms_upto(e.variants, e.variants.len() as int)
}

/// A failure among the first `m` variants stops everything after them.
pub proof fn lemma_chain_upto_error(vs: Seq<SpecVariant>, m: int, n: int)
    requires
        0 <= m <= n,
        spec_chain_arms_upto(vs, m) is Err,
    ensures
        spec_chain_arms_upto(vs, n) == spec_chain_arms_upto(vs, m),
    decreases n - m,
{
    if m < n {
        lemma_chain_upto_error(vs, m, n - 1);
    }
}

/// The chain branch shared by product types and sum-type variants.
fn chain_arm_common(
    variant: Option<Vec<char>>,
    fields: &FieldList,
    attr: &Option<Attr>,
    owner_span: u64,
) -> (r: Result<ChainArm, GenError>)
    ensures
        result_chain_view(r) == spec_chain_arm(
            opt_text_view(variant),
            fields.deep_view(),
            attr.deep_view(),
            owner_span,
        ),
{
    if fields_have_cause(fields) {
        match policy_of(attr, owner_span) {
            Result::Err(e) => Result::Err(e),
            Result::Ok(RenderPolicy::Transparent) => Result::Ok(
                ChainArm { variant, shape: shape_of(fields), kind: ChainKind::Forwarded },
            ),
            Result::Ok(RenderPolicy::Literal(_)) => Result::Ok(
                ChainArm { variant, shape: shape_of(fields), kind: ChainKind::Direct },
            ),
        }
    } else {
        Result::Ok(ChainArm { variant, shape: shape_of(fields), kind: ChainKind::Terminal })
    }
}

/// Generates the chain-accessor branch of one sum-type variant.
pub fn generate_variant_error_arm(v: &Variant) -> (r: Result<ChainArm, GenError>)
    ensures
        result_chain_view(r) == spec_variant_chain_arm(v.deep_view()),
{
    chain_arm_common(Option::Some(copy_text(&v.name)), &v.fields, &v.attr, v.span)
}

/// Generates the single chain-accessor branch of a product-type
/// declaration.
pub fn generate_struct_error_impl(s: &StructDecl) -> (r: Result<ChainArm, GenError>)
    ensures
        result_chain_view(r) == spec_chain_arm(
            Option::None,
            s.deep_view().fields,
            s.deep_view().attr,
            s.span,
        ),
{
    chain_arm_common(Option::None, &s.fields, &s.attr, s.span)
}

/// Generates the aggregated chain-accessor dispatch of a sum type, one
/// branch per variant, stopping at the first failing variant.
#[verifier::loop_isolation(false)]
pub fn generate_enum_error_impl(e: &EnumDecl) -> (r: Result<Vec<ChainArm>, GenError>)
    ensures
        match r {
            Result::Ok(arms) => spec_enum_chain(e.deep_view()) == Result::<
                Seq<SpecChainArm>,
                GenError,
            >::Ok(arms.deep_view()),
            Result::Err(er) => spec_enum_chain(e.deep_view()) == Result::<
                Seq<SpecChainArm>,
                GenError,
            >::Err(er),
        },
{
    let ghost ev = e.deep_view();
    let mut arms: Vec<ChainArm> = Vec::new();
    proof {
        assert(arms.deep_view() =~~= Seq::<SpecChainArm>::empty());
    }
    let mut i: usize = 0;
    while i < e.variants.len()
        invariant
            0 <= i <= e.variants.len(),
            spec_chain_arms_upto(ev.variants, i as int) == Result::<
                Seq<SpecChainArm>,
                GenError,
            >::Ok(arms.deep_view()),
        decreases e.variants.len() - i,
    {
        proof {
            assert(ev.variants[i as int] == e.variants[i as int].deep_view());
        }
        match generate_variant_error_arm(&e.variants[i]) {
            Result::Err(er) => {
                proof {
                    lemma_chain_upto_error(ev.variants, i as int + 1, ev.variants.len() as int);
                }
                return Result::Err(er);
            },
            Result::Ok(a) => {
                arms.push(a);
            },
        }
        i += 1;
        proof {
            assert(arms.deep_view() =~~= spec_chain_arms_upto(ev.variants, i as int)->Ok_0);
        }
    }
    Result::Ok(arms)
}

/// An abstract generated error value: the kind of chain branch its
/// variant received, and its cause value, if its shape holds one.
pub struct SpecErrValue {
    pub kind: ChainKind,
    pub cause: Option<Box<SpecErrValue>>,
}

/// What the generated chain accessor yields on a value: nothing for a
/// terminal value, the cause itself under a literal policy, and the
/// cause's own accessor result under a transparent policy.
pub open spec fn spec_chain_of(v: SpecErrValue) -> Option<SpecErrValue>
    decreases v,
{
    match v.kind {
        ChainKind::Terminal => Option::None,
        ChainKind::Direct => match v.cause {
            Option::Some(c) => Option::Some(*c),
            Option::None => Option::None,
        },
        ChainKind::Forwarded => match v.cause {
            Option::Some(c) => spec_chain_of(*c),
            Option::None => Option::None,
        },
    }
}

/// The terminal sequence of underlying causes reached by repeatedly
/// following the chain accessor from a value.
pub open spec fn spec_chain_seq(v: SpecErrValue) -> Seq<SpecErrValue>
    decreases v,
{
    match v.cause {
        Option::None => Seq::empty(),
        Option::Some(c) => match v.kind {
            ChainKind::Terminal => Seq::empty(),
            ChainKind::Direct => seq![*c] + spec_chain_seq(*c),
            ChainKind::Forwarded => spec_chain_seq(*c),
        },
    }
}

/// A value whose branch is direct exposes its cause value itself: the
/// chain accessor of a declaration with a cause field and a literal
/// policy returns that field's value.
pub proof fn lemma_direct_chain_yields_cause(v: SpecErrValue, c: SpecErrValue)
    requires
        v.kind == ChainKind::Direct,
        v.cause == Option::Some(Box::new(c)),
    ensures
        spec_chain_of(v) == Option::Some(c),
{
}

/// A value whose branch forwards exposes whatever its cause's own chain
/// accessor yields: a transparent declaration whose cause's accessor
/// yields some value yields that same value.
pub proof fn lemma_forwarded_chain_skips_one_level(v: SpecErrValue, c: SpecErrValue)
    requires
        v.kind == ChainKind::Forwarded,
        v.cause == Option::Some(Box::new(c)),
    ensures
        spec_chain_of(v) == spec_chain_of(c),
{
}

/// A value whose branch is terminal exposes no cause: the chain accessor
/// of a variant without a cause field yields nothing.
pub proof fn lemma_terminal_chain_none(v: SpecErrValue)
    requires
        v.kind == ChainKind::Terminal,
    ensures
        spec_chain_of(v) is None,
{
}

/// Interposing a transparent layer never changes the terminal sequence of
/// underlying causes: following the accessor from the wrapping value
/// reaches exactly the causes reached from the wrapped one.
pub proof fn lemma_transparent_layer_preserves_chain(v: SpecErrValue, c: SpecErrValue)
    requires
        v.kind == ChainKind::Forwarded,
        v.cause == Option::Some(Box::new(c)),
    ensures
        spec_chain_seq(v) == spec_chain_seq(c),
{
}

/// A direct layer prepends its cause to the cause's own terminal
/// sequence.
pub proof fn lemma_direct_layer_prepends_cause(v: SpecErrValue, c: SpecErrValue)
    requires
        v.kind == ChainKind::Direct,
        v.cause == Option::Some(Box::new(c)),
    ensures
        spec_chain_seq(v) == seq![c] + spec_chain_seq(c),
{
}

} // verus!
