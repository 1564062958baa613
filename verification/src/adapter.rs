//! Context-adapter generation: for a variant or declaration confirmed to
//! have a cause field, one carrier declaration is emitted. It is named by
//! convention, parameterized by the minimal generic subset over its
//! retained fields, holds those fields with forced-public visibility, and
//! rebuilds the full enclosing value once given the cause. Variants whose
//! shape is positional or empty, or which lack a cause field, receive none.

use vstd::prelude::*;
use crate::model::{
    StructDecl, SpecStructDecl, EnumDecl, SpecEnumDecl, Variant, SpecVariant, Field, SpecField,
    FieldList, SpecFieldList, Visibility, copy_field_as_public, copy_params,
};
use vstd::pervasive::unreached;
use crate::classify::{
    spec_context_fields, spec_cause_ty, spec_has_cause, source_field_of, extract_source_field,
};
use crate::generics::{spec_required_params, generics_required_by_fields};
use crate::text::{spec_ctx_name, ctx_name_of, copy_text};
use crate::output::{AdapterDef, SpecAdapterDef};

verus! {

broadcast use vstd::std_specs::vec::group_vec_axioms;

/// The spec-level view of an optional adapter.
pub open spec fn opt_adapter_view(o: Option<AdapterDef>) -> Option<SpecAdapterDef> {
    match o {
        Option::Some(a) => Option::Some(a.deep_view()),
        Option::None => Option::None,
    }
}

/// A field list with every visibility forced to public.
pub open spec fn spec_public_fields(fs: Seq<SpecField>) -> Seq<SpecField> {
    fs.map_values(|f: SpecField| SpecField { name: f.name, ty: f.ty, vis: Visibility::Public })
}

/// The retained context fields with visibility forced to public.
pub open spec fn spec_adapter_fields(fs: Seq<SpecField>) -> Seq<SpecField> {
    spec_public_fields(spec_context_fields(fs))
}

/// Whether a field shape carries a cause field: only a named shape can.
pub open spec fn spec_fields_have_cause(fs: SpecFieldList) -> bool {
    match fs {
        SpecFieldList::Named(nf) => spec_has_cause(nf),
        _ => false,
    }
}

/// The carrier generated for a product-type declaration with a cause
/// field: named by convention from the declaration name, parameterized by
/// the minimal subset over the retained fields, rebuilding the declaration
/// itself.
pub open spec fn spec_adapter_for_struct(s: SpecStructDecl) -> SpecAdapterDef
    recommends
        s.fields is Named,
        spec_fields_have_cause(s.fields),
{
    let nf = s.fields->Named_0;
    SpecAdapterDef {
        name: spec_ctx_name(s.name),
        generics: spec_required_params(s.generics, spec_context_fields(nf)),
        fields: spec_adapter_fields(nf),
        source_ty: spec_cause_ty(nf)->0,
        err_name: s.name,
        err_generics: s.generics,
        variant: Option::None,
    }
}

/// The carrier generated for one sum-type variant with a cause field: it
/// carries the variant's own name and rebuilds that variant of the
/// enclosing declaration.
pub open spec fn spec_adapter_for_variant(e: SpecEnumDecl, v: SpecVariant) -> SpecAdapterDef
    recommends
        v.fields is Named,
        spec_fields_have_cause(v.fields),
{
    let nf = v.fields->Named_0;
    SpecAdapterDef {
        name: v.name,
        generics: spec_required_params(e.generics, spec_context_fields(nf)),
        fields: spec_adapter_fields(nf),
        source_ty: spec_cause_ty(nf)->0,
        err_name: e.name,
        err_generics: e.generics,
        variant: Option::Some(v.name),
    }
}

/// The carrier a variant produces, if any: only a named shape with a
/// cause field produces one.
pub open spec fn spec_variant_adapter(e: SpecEnumDecl, v: SpecVariant) -> Option<SpecAdapterDef> {
    if spec_fields_have_cause(v.fields) {
        Option::Some(spec_adapter_for_variant(e, v))
    } else {
        Option::None
    }
}

/// The retained fields of a named list, copied with public visibility.
#[verifier::loop_isolation(false)]
fn adapter_fields(fields: &Vec<Field>) -> (r: Vec<Field>)
    ensures
        r.deep_view() == spec_adapter_fields(fields.deep_view()),
{
    let ghost fv = fields.deep_view();
    let (ctx, _) = extract_source_field(fields);
    let mut out: Vec<Field> = Vec::new();
    let mut i: usize = 0;
    while i < ctx.len()
        invariant
            0 <= i <= ctx.len(),
            ctx.deep_view() == spec_context_fields(fv),
            out@.len() == i,
            forall|j: int|
                0 <= j < i ==> out.deep_view()[j] == #[trigger] spec_public_fields(
                    ctx.deep_view(),
                )[j],
        decreases ctx.len() - i,
    {
        out.push(copy_field_as_public(&ctx[i]));
        i += 1;
    }
    proof {
        assert(out.deep_view() =~~= spec_adapter_fields(fv));
    }
    out
}

/// The cause field's type, for a list known to contain one.
fn cause_ty_of(fields: &Vec<Field>) -> (r: crate::model::TypeExpr)
    requires
        spec_has_cause(fields.deep_view()),
    ensures
        Option::Some(r.deep_view()) == spec_cause_ty(fields.deep_view()),
{
    let (_, src) = extract_source_field(fields);
    match src {
        Option::Some(t) => t,
        Option::None => {
            proof {
                assert(false);
            }
            unreached()
        },
    }
}

/// Generates the carrier for a product-type declaration with a cause field.
pub fn generate_ctx(s: &StructDecl) -> (r: AdapterDef)
    requires
        s.deep_view().fields is Named,
        spec_fields_have_cause(s.deep_view().fields),
    ensures
        r.deep_view() == spec_adapter_for_struct(s.deep_view()),
{
    match &s.fields {
        FieldList::Named(nf) => {
            proof {
                assert(s.deep_view().fields->Named_0 == nf.deep_view());
            }
            let ctx = adapter_fields(nf);
            AdapterDef {
                name: ctx_name_of(&s.name),
                generics: {
                    let (cf, _) = extract_source_field(nf);
                    generics_required_by_fields(&s.generics, &cf)
                },
                fields: ctx,
                source_ty: cause_ty_of(nf),
                err_name: copy_text(&s.name),
                err_generics: copy_params(&s.generics),
                variant: Option::None,
            }
        },
        _ => {
            proof {
                assert(false);
            }
            unreached()
        },
    }
}

/// Generates the carrier for one sum-type variant with named fields and a
/// cause field; a field-less carrier results when nothing is retained.
pub fn generate_named_variant_ctx(e: &EnumDecl, v: &Variant, fields: &Vec<Field>) -> (r:
    AdapterDef)
    requires
        v.deep_view().fields == SpecFieldList::Named(fields.deep_view()),
        spec_has_cause(fields.deep_view()),
    ensures
        r.deep_view() == spec_adapter_for_variant(e.deep_view(), v.deep_view()),
{
    AdapterDef {
        name: copy_text(&v.name),
        generics: {
            let (cf, _) = extract_source_field(fields);
            generics_required_by_fields(&e.generics, &cf)
        },
        fields: adapter_fields(fields),
        source_ty: cause_ty_of(fields),
        err_name: copy_text(&e.name),
        err_generics: copy_params(&e.generics),
        variant: Option::Some(copy_text(&v.name)),
    }
}

/// Generates the carrier a variant produces, if any: only a named shape
/// with a cause field produces one.
pub fn generate_variant_ctx(e: &EnumDecl, v: &Variant) -> (r: Option<AdapterDef>)
    ensures
        opt_adapter_view(r) == spec_variant_adapter(e.deep_view(), v.deep_view()),
{
    match &v.fields {
        FieldList::Named(nf) => {
            proof {
                assert(v.deep_view().fields->Named_0 == nf.deep_view());
            }
            match source_field_of(nf) {
                Option::Some(_) => Option::Some(generate_named_variant_ctx(e, v, nf)),
                Option::None => Option::None,
            }
        },
        _ => Option::None,
    }
}

} // verus!
