//! The structured representation of what one generation run emits: the
//! context-adapter carrier declarations, the rendering branches, and the
//! cause-chain accessor branches, to be rendered to concrete syntax by a
//! host layer. Each executable type has a spec mirror reached by a view.

use vstd::prelude::*;
use crate::model::{
    Field, SpecField, GenericParam, SpecGenericParam, TypeExpr, SpecTypeExpr, opt_text_view,
};

verus! {

broadcast use vstd::std_specs::vec::group_vec_axioms;

/// The spec-level view of a list of texts.
pub open spec fn texts_view(v: Seq<Vec<char>>) -> Seq<Seq<char>> {
    Seq::new(v.len(), |i: int| v[i]@)
}

/// The field shape of the matched variant or declaration.
#[derive(Debug, Clone, Copy, PartialEq, Eq, Structural)]
pub enum ShapeKind {
    Named,
    Positional,
    Unit,
}

/// One generated context-adapter carrier: a declaration holding the
/// retained context fields with forced-public visibility, parameterized
/// by the minimal generic subset, together with the capability
/// implementation that rebuilds the full enclosing value from a cause.
#[derive(Debug, PartialEq, Eq)]
pub struct AdapterDef {
    /// The carrier type's name.
    pub name: Vec<char>,
    /// The minimal generic-parameter subset, in declaration order.
    pub generics: Vec<GenericParam>,
    /// The retained context fields, visibility forced to public.
    pub fields: Vec<Field>,
    /// The cause type the carrier can be combined with.
    pub source_ty: TypeExpr,
    /// The enclosing declaration's name.
    pub err_name: Vec<char>,
    /// The enclosing declaration's full generic-parameter list.
    pub err_generics: Vec<GenericParam>,
    /// The variant rebuilt by the reconstruction operation, for sum types.
    pub variant: Option<Vec<char>>,
}

/// Spec mirror of `AdapterDef`.
#[verifier::ext_equal]
pub struct SpecAdapterDef {
    pub name: Seq<char>,
    pub generics: Seq<SpecGenericParam>,
    pub fields: Seq<SpecField>,
    pub source_ty: SpecTypeExpr,
    pub err_name: Seq<char>,
    pub err_generics: Seq<SpecGenericParam>,
    pub variant: Option<Seq<char>>,
}

impl DeepView for AdapterDef {
    type V = SpecAdapterDef;

    open spec fn deep_view(&self) -> SpecAdapterDef {
        SpecAdapterDef {
            name: self.name@,
            generics: self.generics.deep_view(),
            fields: self.fields.deep_view(),
            source_ty: self.source_ty.deep_view(),
            err_name: self.err_name@,
            err_generics: self.err_generics.deep_view(),
            variant: opt_text_view(self.variant),
        }
    }
}

/// The body of one rendering branch.
#[derive(Debug, PartialEq, Eq)]
pub enum RenderBody {
    /// Substitute the bound fields into this template text.
    Template(Vec<char>),
    /// Delegate entirely to the cause field's own rendering.
    Forward,
}

/// Spec mirror of `RenderBody`.
#[verifier::ext_equal]
pub enum SpecRenderBody {
    Template(Seq<char>),
    Forward,
}

impl DeepView for RenderBody {
    type V = SpecRenderBody;

    open spec fn deep_view(&self) -> SpecRenderBody {
        match self {
            RenderBody::Template(t) => SpecRenderBody::Template(t@),
            RenderBody::Forward => SpecRenderBody::Forward,
        }
    }
}

/// One rendering branch: the names it binds, in field order (synthesized
/// for positional fields), and its body.
#[derive(Debug, PartialEq, Eq)]
pub struct RenderArm {
    /// The matched variant, for sum types.
    pub variant: Option<Vec<char>>,
    /// The matched field shape.
    pub shape: ShapeKind,
    /// The names bound into scope, in original field order.
    pub bindings: Vec<Vec<char>>,
    pub body: RenderBody,
}

/// Spec mirror of `RenderArm`.
#[verifier::ext_equal]
pub struct SpecRenderArm {
    pub variant: Option<Seq<char>>,
    pub shape: ShapeKind,
    pub bindings: Seq<Seq<char>>,
    pub body: SpecRenderBody,
}

impl DeepView for RenderArm {
    type V = SpecRenderArm;

    open spec fn deep_view(&self) -> SpecRenderArm {
        SpecRenderArm {
            variant: opt_text_view(self.variant),
            shape: self.shape,
            bindings: texts_view(self.bindings@),
            body: self.body.deep_view(),
        }
    }
}

/// What one chain-accessor branch yields.
#[derive(Debug, Clone, Copy, PartialEq, Eq, Structural)]
pub enum ChainKind {
    /// No cause field: the value is a terminal cause.
    Terminal,
    /// A literal policy with a cause field: the cause value itself.
    Direct,
    /// A transparent policy: the cause's own chain-accessor result.
    Forwarded,
}

/// One chain-accessor branch.
#[derive(Debug, PartialEq, Eq)]
pub struct ChainArm {
    /// The matched variant, for sum types.
    pub variant: Option<Vec<char>>,
    /// The matched field shape.
    pub shape: ShapeKind,
    pub kind: ChainKind,
}

/// Spec mirror of `ChainArm`.
#[verifier::ext_equal]
pub struct SpecChainArm {
    pub variant: Option<Seq<char>>,
    pub shape: ShapeKind,
    pub kind: ChainKind,
}

impl DeepView for ChainArm {
    type V = SpecChainArm;

    open spec fn deep_view(&self) -> SpecChainArm {
        SpecChainArm {
            variant: opt_text_view(self.variant),
            shape: self.shape,
            kind: self.kind,
        }
    }
}

/// Everything one generation run emits for a declaration.
#[derive(Debug, PartialEq, Eq)]
pub struct Generated {
    /// The processed declaration's name.
    pub target_name: Vec<char>,
    /// The processed declaration's full generic-parameter list.
    pub target_generics: Vec<GenericParam>,
    /// The generated carriers, in variant order.
    pub adapters: Vec<AdapterDef>,
    /// The namespacing container for a sum type's carriers, present only
    /// when at least one variant produced a carrier.
    pub container: Option<Vec<char>>,
    /// The rendering branches, one per variant; a single branch for a
    /// product type.
    pub render: Vec<RenderArm>,
    /// The chain-accessor branches, one per variant; a single branch for
    /// a product type.
    pub chain: Vec<ChainArm>,
}

/// Spec mirror of `Generated`.
#[verifier::ext_equal]
pub struct SpecGenerated {
    pub target_name: Seq<char>,
    pub target_generics: Seq<SpecGenericParam>,
    pub adapters: Seq<SpecAdapterDef>,
    pub container: Option<Seq<char>>,
    pub render: Seq<SpecRenderArm>,
    pub chain: Seq<SpecChainArm>,
}

impl DeepView for Generated {
    type V = SpecGenerated;

    open spec fn deep_view(&self) -> SpecGenerated {
        SpecGenerated {
            target_name: self.target_name@,
            target_generics: self.target_generics.deep_view(),
            adapters: self.adapters.deep_view(),
            container: opt_text_view(self.container),
            render: self.render.deep_view(),
            chain: self.chain.deep_view(),
        }
    }
}

} // verus!
