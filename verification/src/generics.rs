//! Generic-parameter-usage analysis: a tree-walk over a type expression
//! decides which declared generic parameters it references. A lifetime
//! parameter matches on occurrence of its name anywhere; a type parameter
//! matches when its identifier heads a type reference; a const parameter
//! matches as a bare value reference or as a type-reference head. The
//! subset retained for a field list is the union over its fields, kept in
//! original declaration order, so no unused parameter is ever emitted.

use vstd::prelude::*;
use crate::model::{
    TypeExpr, SpecTypeExpr, GenericParam, SpecGenericParam, ParamKind, Field, SpecField,
    copy_param,
};
use crate::text::text_eq;

verus! {

broadcast use vstd::std_specs::vec::group_vec_axioms;

/// Whether a type expression references a parameter of the given kind and
/// name, under the matching rules above.
pub open spec fn spec_type_uses_name(t: SpecTypeExpr, kind: ParamKind, name: Seq<char>) -> bool
    decreases t,
{
    match t {
        SpecTypeExpr::Path { head, args } => (kind != ParamKind::Lifetime && head == name)
            || (exists|i: int|
                0 <= i < args.len() && spec_type_uses_name(#[trigger] args[i], kind, name)),
        SpecTypeExpr::LifetimeArg { name: n } => kind == ParamKind::Lifetime && n == name,
        SpecTypeExpr::ValueRef { name: n } => kind == ParamKind::Const && n == name,
        SpecTypeExpr::ValueLit { .. } => false,
        SpecTypeExpr::Reference { lifetime, target } => (kind == ParamKind::Lifetime && lifetime
            == Option::Some(name)) || spec_type_uses_name(*target, kind, name),
        SpecTypeExpr::Array { element, length } => spec_type_uses_name(*element, kind, name)
            || spec_type_uses_name(*length, kind, name),
    }
}

/// Whether a type expression references the given declared parameter.
pub open spec fn spec_param_used(p: SpecGenericParam, t: SpecTypeExpr) -> bool {
    spec_type_uses_name(t, p.kind, p.name)
}

/// Whether any field of a list references the given declared parameter.
pub open spec fn spec_field_list_uses(p: SpecGenericParam, fs: Seq<SpecField>) -> bool {
    exists|i: int| 0 <= i < fs.len() && spec_param_used(p, (#[trigger] fs[i]).ty)
}

/// The declared parameters referenced by a type expression, in
/// declaration order.
pub open spec fn spec_required_params_of_type(
    gs: Seq<SpecGenericParam>,
    t: SpecTypeExpr,
) -> Seq<SpecGenericParam> {
    gs.filter(|p: SpecGenericParam| spec_param_used(p, t))
}

/// The declared parameters referenced by any field of a list, in
/// declaration order: the union over the fields' type expressions.
pub open spec fn spec_required_params(
    gs: Seq<SpecGenericParam>,
    fs: Seq<SpecField>,
) -> Seq<SpecGenericParam> {
    gs.filter(|p: SpecGenericParam| spec_field_list_uses(p, fs))
}

/// Minimality of the retained subset: every parameter it holds is
/// referenced by some field, and every referenced parameter is in it, so
/// no unused parameter is ever emitted and none in use is dropped.
pub proof fn lemma_required_params_minimal(gs: Seq<SpecGenericParam>, fs: Seq<SpecField>)
    ensures
        forall|i: int|
            0 <= i < spec_required_params(gs, fs).len() ==> spec_field_list_uses(
                #[trigger] spec_required_params(gs, fs)[i],
                fs,
            ),
        forall|j: int|
            0 <= j < gs.len() && spec_field_list_uses(#[trigger] gs[j], fs)
                ==> spec_required_params(gs, fs).contains(gs[j]),
{
    broadcast use vstd::seq_lib::group_filter_ensures;

}

/// The tree-walk deciding whether one parameter occurs in a type
/// expression.
#[verifier::loop_isolation(false)]
fn type_uses_name(t: &TypeExpr, kind: ParamKind, name: &Vec<char>) -> (r: bool)
    ensures
        r == spec_type_uses_name(t.deep_view(), kind, name@),
    decreases *t,
{
    match t {
        TypeExpr::Path { head, args } => {
            let head_matches = match kind {
                ParamKind::Lifetime => false,
                _ => text_eq(head, name),
            };
            if head_matches {
                return true;
            }
            let mut i: usize = 0;
            while i < args.len()
                invariant
                    0 <= i <= args.len(),
                    forall|j: int|
                        0 <= j < i ==> !spec_type_uses_name(
                            #[trigger] args.deep_view()[j],
                            kind,
                            name@,
                        ),
                decreases args.len() - i,
            {
                if type_uses_name(&args[i], kind, name) {
                    proof {
                        assert(t.deep_view()->Path_args[i as int] == args.deep_view()[
                            i as int
                        ]);
                    }
                    return true;
                }
                i += 1;
            }
            proof {
                assert(t.deep_view()->Path_head == head@);
                assert(t.deep_view()->Path_args.len() == args.len());
                assert(forall|j: int|
                    0 <= j < args.len() ==> #[trigger] t.deep_view()->Path_args[j]
                        == args.deep_view()[j]);
                assert(forall|j: int|
                    0 <= j < args.len() ==> !spec_type_uses_name(
                        #[trigger] t.deep_view()->Path_args[j],
                        kind,
                        name@,
                    ));
                assert(!spec_type_uses_name(t.deep_view(), kind, name@));
            }
            false
        },
        TypeExpr::LifetimeArg { name: n } => match kind {
            ParamKind::Lifetime => text_eq(n, name),
            _ => false,
        },
        TypeExpr::ValueRef { name: n } => match kind {
            ParamKind::Const => text_eq(n, name),
            _ => false,
        },
        TypeExpr::ValueLit { .. } => false,
        TypeExpr::Reference { lifetime, target } => {
            let lt_matches = match (kind, lifetime) {
                (ParamKind::Lifetime, Option::Some(l)) => text_eq(l, name),
                _ => false,
            };
            if lt_matches {
                true
            } else {
                type_uses_name(target, kind, name)
            }
        },
        TypeExpr::Array { element, length } => {
            if type_uses_name(element, kind, name) {
                true
            } else {
                type_uses_name(length, kind, name)
            }
        },
    }
}

/// Whether a type or const parameter with the given identifier is
/// referenced by a type expression.
pub fn is_required_generic_for_type(ty: &TypeExpr, is_const: bool, generic: &Vec<char>) -> (r:
    bool)
    ensures
        r == spec_type_uses_name(
            ty.deep_view(),
            if is_const {
                ParamKind::Const
            } else {
                ParamKind::Type
            },
            generic@,
        ),
{
    if is_const {
        type_uses_name(ty, ParamKind::Const, generic)
    } else {
        type_uses_name(ty, ParamKind::Type, generic)
    }
}

/// Whether a lifetime parameter with the given name is referenced by a
/// type expression.
pub fn is_required_lifetime_for_type(ty: &TypeExpr, lifetime: &Vec<char>) -> (r: bool)
    ensures
        r == spec_type_uses_name(ty.deep_view(), ParamKind::Lifetime, lifetime@),
{
    type_uses_name(ty, ParamKind::Lifetime, lifetime)
}

/// Whether one declared parameter is referenced by a type expression.
fn param_used(p: &GenericParam, t: &TypeExpr) -> (r: bool)
    ensures
        r == spec_param_used(p.deep_view(), t.deep_view()),
{
    type_uses_name(t, p.kind, &p.name)
}

/// The subset of declared parameters referenced by one type expression,
/// in declaration order.
#[verifier::loop_isolation(false)]
pub fn generics_required_by_type(generics: &Vec<GenericParam>, ty: &TypeExpr) -> (r: Vec<
    GenericParam,
>)
    ensures
        r.deep_view() == spec_required_params_of_type(generics.deep_view(), ty.deep_view()),
{
    let ghost gv = generics.deep_view();
    let ghost tv = ty.deep_view();
    let mut out: Vec<GenericParam> = Vec::new();
    let mut i: usize = 0;
    while i < generics.len()
        invariant
            0 <= i <= generics.len(),
            out.deep_view() == gv.subrange(0, i as int).filter(
                |p: SpecGenericParam| spec_param_used(p, tv),
            ),
        decreases generics.len() - i,
    {
        let ghost pre = gv.subrange(0, i as int);
        let ghost s2 = gv.subrange(0, i as int + 1);
        if param_used(&generics[i], ty) {
            out.push(copy_param(&generics[i]));
        }
        i += 1;
        proof {
            reveal(Seq::filter);
            assert(s2.drop_last() =~= pre);
            assert(s2.last() == gv[i - 1]);
            assert(out.deep_view() =~~= s2.filter(|p: SpecGenericParam| spec_param_used(p, tv)));
        }
    }
    proof {
        assert(gv.subrange(0, gv.len() as int) =~= gv);
    }
    out
}

/// Whether any field of a list references one declared parameter.
#[verifier::loop_isolation(false)]
fn field_list_uses(p: &GenericParam, fields: &Vec<Field>) -> (r: bool)
    ensures
        r == spec_field_list_uses(p.deep_view(), fields.deep_view()),
{
    let mut i: usize = 0;
    while i < fields.len()
        invariant
            0 <= i <= fields.len(),
            forall|j: int|
                0 <= j < i ==> !spec_param_used(
                    p.deep_view(),
                    (#[trigger] fields.deep_view()[j]).ty,
                ),
        decreases fields.len() - i,
    {
        if param_used(p, &fields[i].ty) {
            proof {
                assert((fields.deep_view()[i as int]).ty == fields[i as int].ty.deep_view());
            }
            return true;
        }
        i += 1;
    }
    false
}

/// The subset of declared parameters referenced by any field of a list:
/// the union over its fields' type expressions, re-sorted into original
/// declaration order.
#[verifier::loop_isolation(false)]
pub fn generics_required_by_fields(generics: &Vec<GenericParam>, fields: &Vec<Field>) -> (r: Vec<
    GenericParam,
>)
    ensures
        r.deep_view() == spec_required_params(generics.deep_view(), fields.deep_view()),
{
    let ghost gv = generics.deep_view();
    let ghost fv = fields.deep_view();
    let mut out: Vec<GenericParam> = Vec::new();
    let mut i: usize = 0;
    while i < generics.len()
        invariant
            0 <= i <= generics.len(),
            out.deep_view() == gv.subrange(0, i as int).filter(
                |p: SpecGenericParam| spec_field_list_uses(p, fv),
            ),
        decreases generics.len() - i,
    {
        let ghost pre = gv.subrange(0, i as int);
        let ghost s2 = gv.subrange(0, i as int + 1);
        if field_list_uses(&generics[i], fields) {
            out.push(copy_param(&generics[i]));
        }
        i += 1;
        proof {
            reveal(Seq::filter);
            assert(s2.drop_last() =~= pre);
            assert(s2.last() == gv[i - 1]);
            assert(out.deep_view() =~~= s2.filter(
                |p: SpecGenericParam| spec_field_list_uses(p, fv),
            ));
        }
    }
    proof {
        assert(gv.subrange(0, gv.len() as int) =~= gv);
    }
    out
}

} // verus!
