//! Field classification: an ordered field list is split into the retained
//! context fields and the optional reserved cause field, a field named
//! exactly "source". Absence of a cause field is a valid outcome: the
//! variant or declaration is then a terminal cause with no further chain.

use vstd::prelude::*;
use crate::model::{
    Field, SpecField, TypeExpr, SpecTypeExpr, spec_is_cause_field, copy_field, copy_type_expr,
};
use crate::text::{cause_name_text, text_eq};

verus! {

broadcast use vstd::std_specs::vec::group_vec_axioms;

/// The spec-level view of an optional index.
pub open spec fn opt_index_view(o: Option<usize>) -> Option<int> {
    match o {
        Option::Some(i) => Option::Some(i as int),
        Option::None => Option::None,
    }
}

/// The spec-level view of an optional type expression.
pub open spec fn opt_ty_view(o: Option<TypeExpr>) -> Option<SpecTypeExpr> {
    match o {
        Option::Some(t) => Option::Some(t.deep_view()),
        Option::None => Option::None,
    }
}

/// The index of the first cause field at or after position `i`, if any.
pub open spec fn spec_find_cause_from(fs: Seq<SpecField>, i: int) -> Option<int>
    decreases fs.len() - i,
{
    if i >= fs.len() {
        Option::None
    } else if spec_is_cause_field(fs[i]) {
        Option::Some(i)
    } else {
        spec_find_cause_from(fs, i + 1)
    }
}

/// The index of the cause field of an ordered field list, if any.
pub open spec fn spec_find_cause(fs: Seq<SpecField>) -> Option<int> {
    spec_find_cause_from(fs, 0)
}

/// Whether an ordered field list has a cause field.
pub open spec fn spec_has_cause(fs: Seq<SpecField>) -> bool {
    spec_find_cause(fs) is Some
}

/// The type of the cause field, if any.
pub open spec fn spec_cause_ty(fs: Seq<SpecField>) -> Option<SpecTypeExpr> {
    match spec_find_cause(fs) {
        Option::Some(i) => Option::Some(fs[i].ty),
        Option::None => Option::None,
    }
}

/// The retained context fields: every field but the cause field, in
/// original order.
pub open spec fn spec_context_fields(fs: Seq<SpecField>) -> Seq<SpecField> {
    fs.filter(|f: SpecField| !spec_is_cause_field(f))
}

/// What `spec_find_cause_from` finds: the first cause field at or after
/// the start position, with nothing before it.
pub proof fn lemma_find_cause_from_props(fs: Seq<SpecField>, i: int)
    requires
        0 <= i <= fs.len(),
    ensures
        match spec_find_cause_from(fs, i) {
            Option::Some(k) => i <= k < fs.len() && spec_is_cause_field(fs[k]) && (forall|j: int|
                i <= j < k ==> !spec_is_cause_field(fs[j])),
            Option::None => forall|j: int| i <= j < fs.len() ==> !spec_is_cause_field(fs[j]),
        },
    decreases fs.len() - i,
{
    if i < fs.len() && !spec_is_cause_field(fs[i]) {
        lemma_find_cause_from_props(fs, i + 1);
    }
}

/// Whether a field is the reserved cause field.
pub fn is_cause_field(f: &Field) -> (r: bool)
    ensures
        r == spec_is_cause_field(f.deep_view()),
{
    match &f.name {
        Option::Some(n) => {
            let c = cause_name_text();
            text_eq(n, &c)
        },
        Option::None => false,
    }
}

/// The position of the cause field of an ordered field list, if any.
#[verifier::loop_isolation(false)]
pub fn source_field_of(fields: &Vec<Field>) -> (r: Option<usize>)
    ensures
        opt_index_view(r) == spec_find_cause(fields.deep_view()),
{
    let ghost dv = fields.deep_view();
    let mut i: usize = 0;
    while i < fields.len()
        invariant
            0 <= i <= fields.len(),
            spec_find_cause(dv) == spec_find_cause_from(dv, i as int),
        decreases fields.len() - i,
    {
        if is_cause_field(&fields[i]) {
            return Option::Some(i);
        }
        i += 1;
    }
    Option::None
}

/// Splits an ordered field list into the retained context fields, in
/// original order, and the type of the cause field if one exists.
#[verifier::loop_isolation(false)]
pub fn extract_source_field(fields: &Vec<Field>) -> (r: (Vec<Field>, Option<TypeExpr>))
    ensures
        r.0.deep_view() == spec_context_fields(fields.deep_view()),
        opt_ty_view(r.1) == spec_cause_ty(fields.deep_view()),
{
    let ghost dv = fields.deep_view();
    let idx = source_field_of(fields);
    let src_ty: Option<TypeExpr> = match idx {
        Option::Some(i) => {
            proof {
                lemma_find_cause_from_props(dv, 0);
            }
            Option::Some(copy_type_expr(&fields[i].ty))
        },
        Option::None => Option::None,
    };
    let mut out: Vec<Field> = Vec::new();
    let mut i: usize = 0;
    while i < fields.len()
        invariant
            0 <= i <= fields.len(),
            out.deep_view() == dv.subrange(0, i as int).filter(
                |f: SpecField| !spec_is_cause_field(f),
            ),
        decreases fields.len() - i,
    {
        let ghost pre = dv.subrange(0, i as int);
        let ghost s2 = dv.subrange(0, i as int + 1);
        if !is_cause_field(&fields[i]) {
            out.push(copy_field(&fields[i]));
        }
        i += 1;
        proof {
            reveal(Seq::filter);
            assert(s2.drop_last() =~= pre);
            assert(s2.last() == dv[i - 1]);
            assert(out.deep_view() =~~= s2.filter(|f: SpecField| !spec_is_cause_field(f)));
        }
    }
    proof {
        assert(dv.subrange(0, dv.len() as int) =~= dv);
    }
    (out, src_ty)
}

} // verus!
