//! The input data model: one top-level type declaration with its annotations,
//! as plain values. Identifiers and template text are sequences of characters.
//! Each executable type has a spec-level mirror reached through `DeepView`,
//! and contracts throughout the crate speak of those mirrors.

use vstd::prelude::*;

verus! {

broadcast use vstd::std_specs::vec::group_vec_axioms;

/// The spec-level view of optional identifier text.
pub open spec fn opt_text_view(o: Option<Vec<char>>) -> Option<Seq<char>> {
    match o {
        Option::Some(v) => Option::Some(v@),
        Option::None => Option::None,
    }
}

/// A type expression: an arbitrarily nested tree of paths, generic
/// arguments, array lengths and references.
#[derive(Debug, PartialEq, Eq)]
pub enum TypeExpr {
    /// A type reference headed by one identifier, with its generic arguments.
    Path { head: Vec<char>, args: Vec<TypeExpr> },
    /// A lifetime in generic-argument position.
    LifetimeArg { name: Vec<char> },
    /// A bare value reference by name (an array length or a const argument).
    ValueRef { name: Vec<char> },
    /// A literal value (an array length or a const argument).
    ValueLit { value: u64 },
    /// A reference type, with an optional explicit lifetime.
    Reference { lifetime: Option<Vec<char>>, target: Box<TypeExpr> },
    /// An array type with an element type and a length expression.
    Array { element: Box<TypeExpr>, length: Box<TypeExpr> },
}

/// Spec mirror of `TypeExpr`.
#[verifier::ext_equal]
pub enum SpecTypeExpr {
    Path { head: Seq<char>, args: Seq<SpecTypeExpr> },
    LifetimeArg { name: Seq<char> },
    ValueRef { name: Seq<char> },
    ValueLit { value: u64 },
    Reference { lifetime: Option<Seq<char>>, target: Box<SpecTypeExpr> },
    Array { element: Box<SpecTypeExpr>, length: Box<SpecTypeExpr> },
}

pub open spec fn spec_type_expr_view(t: TypeExpr) -> SpecTypeExpr
    decreases t,
{
    match t {
        TypeExpr::Path { head, args } => SpecTypeExpr::Path {
            head: head@,
            args: Seq::new(
                args.len() as nat,
                |i: int|
                    if 0 <= i < args.len() {
                        spec_type_expr_view(args[i])
                    } else {
                        SpecTypeExpr::ValueLit { value: 0 }
                    },
            ),
        },
        TypeExpr::LifetimeArg { name } => SpecTypeExpr::LifetimeArg { name: name@ },
        TypeExpr::ValueRef { name } => SpecTypeExpr::ValueRef { name: name@ },
        TypeExpr::ValueLit { value } => SpecTypeExpr::ValueLit { value },
        TypeExpr::Reference { lifetime, target } => SpecTypeExpr::Reference {
            lifetime: opt_text_view(lifetime),
            target: Box::new(spec_type_expr_view(*target)),
        },
        TypeExpr::Array { element, length } => SpecTypeExpr::Array {
            element: Box::new(spec_type_expr_view(*element)),
            length: Box::new(spec_type_expr_view(*length)),
        },
    }
}

impl DeepView for TypeExpr {
    type V = SpecTypeExpr;

    open spec fn deep_view(&self) -> SpecTypeExpr {
        spec_type_expr_view(*self)
    }
}

/// The kind of a declared generic parameter.
#[derive(Debug, Clone, Copy, PartialEq, Eq, Structural)]
pub enum ParamKind {
    Lifetime,
    Type,
    Const,
}

/// One declared generic parameter.
#[derive(Debug, PartialEq, Eq)]
pub struct GenericParam {
    pub kind: ParamKind,
    pub name: Vec<char>,
}

/// Spec mirror of `GenericParam`.
#[verifier::ext_equal]
pub struct SpecGenericParam {
    pub kind: ParamKind,
    pub name: Seq<char>,
}

impl DeepView for GenericParam {
    type V = SpecGenericParam;

    open spec fn deep_view(&self) -> SpecGenericParam {
        SpecGenericParam { kind: self.kind, name: self.name@ }
    }
}

/// Visibility of a field.
#[derive(Debug, Clone, Copy, PartialEq, Eq, Structural)]
pub enum Visibility {
    Public,
    Inherited,
}

/// One field of a variant or declaration; positional fields have no name.
#[derive(Debug, PartialEq, Eq)]
pub struct Field {
    pub name: Option<Vec<char>>,
    pub ty: TypeExpr,
    pub vis: Visibility,
}

/// Spec mirror of `Field`.
#[verifier::ext_equal]
pub struct SpecField {
    pub name: Option<Seq<char>>,
    pub ty: SpecTypeExpr,
    pub vis: Visibility,
}

impl DeepView for Field {
    type V = SpecField;

    open spec fn deep_view(&self) -> SpecField {
        SpecField { name: opt_text_view(self.name), ty: self.ty.deep_view(), vis: self.vis }
    }
}

/// The field shape of a variant or declaration: named, positional, or none.
#[derive(Debug, PartialEq, Eq)]
pub enum FieldList {
    Named(Vec<Field>),
    Positional(Vec<Field>),
    Unit,
}

/// Spec mirror of `FieldList`.
#[verifier::ext_equal]
pub enum SpecFieldList {
    Named(Seq<SpecField>),
    Positional(Seq<SpecField>),
    Unit,
}

impl DeepView for FieldList {
    type V = SpecFieldList;

    open spec fn deep_view(&self) -> SpecFieldList {
        match self {
            FieldList::Named(fs) => SpecFieldList::Named(fs.deep_view()),
            FieldList::Positional(fs) => SpecFieldList::Positional(fs.deep_view()),
            FieldList::Unit => SpecFieldList::Unit,
        }
    }
}

/// One token of an annotation payload: the tiny domain grammar takes a
/// single identifier or a single quoted template string.
#[derive(Debug, PartialEq, Eq)]
pub enum AttrToken {
    Ident(Vec<char>),
    Str(Vec<char>),
}

/// Spec mirror of `AttrToken`.
#[verifier::ext_equal]
pub enum SpecAttrToken {
    Ident(Seq<char>),
    Str(Seq<char>),
}

impl DeepView for AttrToken {
    type V = SpecAttrToken;

    open spec fn deep_view(&self) -> SpecAttrToken {
        match self {
            AttrToken::Ident(s) => SpecAttrToken::Ident(s@),
            AttrToken::Str(s) => SpecAttrToken::Str(s@),
        }
    }
}

/// An annotation attached to a variant or declaration: its tokenized
/// payload and the source location it is anchored to.
#[derive(Debug, PartialEq, Eq)]
pub struct Attr {
    pub tokens: Vec<AttrToken>,
    pub span: u64,
}

/// Spec mirror of `Attr`.
#[verifier::ext_equal]
pub struct SpecAttr {
    pub tokens: Seq<SpecAttrToken>,
    pub span: u64,
}

impl DeepView for Attr {
    type V = SpecAttr;

    open spec fn deep_view(&self) -> SpecAttr {
        SpecAttr { tokens: self.tokens.deep_view(), span: self.span }
    }
}

/// One variant of a sum-type declaration.
#[derive(Debug, PartialEq, Eq)]
pub struct Variant {
    pub name: Vec<char>,
    pub fields: FieldList,
    pub attr: Option<Attr>,
    pub span: u64,
}

/// Spec mirror of `Variant`.
#[verifier::ext_equal]
pub struct SpecVariant {
    pub name: Seq<char>,
    pub fields: SpecFieldList,
    pub attr: Option<SpecAttr>,
    pub span: u64,
}

impl DeepView for Variant {
    type V = SpecVariant;

    open spec fn deep_view(&self) -> SpecVariant {
        SpecVariant {
            name: self.name@,
            fields: self.fields.deep_view(),
            attr: self.attr.deep_view(),
            span: self.span,
        }
    }
}

/// A product-type declaration.
#[derive(Debug, PartialEq, Eq)]
pub struct StructDecl {
    pub name: Vec<char>,
    pub generics: Vec<GenericParam>,
    pub fields: FieldList,
    pub attr: Option<Attr>,
    pub span: u64,
}

/// Spec mirror of `StructDecl`.
#[verifier::ext_equal]
pub struct SpecStructDecl {
    pub name: Seq<char>,
    pub generics: Seq<SpecGenericParam>,
    pub fields: SpecFieldList,
    pub attr: Option<SpecAttr>,
    pub span: u64,
}

impl DeepView for StructDecl {
    type V = SpecStructDecl;

    open spec fn deep_view(&self) -> SpecStructDecl {
        SpecStructDecl {
            name: self.name@,
            generics: self.generics.deep_view(),
            fields: self.fields.deep_view(),
            attr: self.attr.deep_view(),
            span: self.span,
        }
    }
}

/// A sum-type declaration.
#[derive(Debug, PartialEq, Eq)]
pub struct EnumDecl {
    pub name: Vec<char>,
    pub generics: Vec<GenericParam>,
    pub variants: Vec<Variant>,
    pub span: u64,
}

/// Spec mirror of `EnumDecl`.
#[verifier::ext_equal]
pub struct SpecEnumDecl {
    pub name: Seq<char>,
    pub generics: Seq<SpecGenericParam>,
    pub variants: Seq<SpecVariant>,
    pub span: u64,
}

impl DeepView for EnumDecl {
    type V = SpecEnumDecl;

    open spec fn deep_view(&self) -> SpecEnumDecl {
        SpecEnumDecl {
            name: self.name@,
            generics: self.generics.deep_view(),
            variants: self.variants.deep_view(),
            span: self.span,
        }
    }
}

/// One top-level declaration handed to the engine.
#[derive(Debug, PartialEq, Eq)]
pub enum Item {
    Struct(StructDecl),
    Enum(EnumDecl),
    /// Anything that is neither a sum nor a product type.
    Other { span: u64 },
}

/// Spec mirror of `Item`.
#[verifier::ext_equal]
pub enum SpecItem {
    Struct(SpecStructDecl),
    Enum(SpecEnumDecl),
    Other { span: u64 },
}

impl DeepView for Item {
    type V = SpecItem;

    open spec fn deep_view(&self) -> SpecItem {
        match self {
            Item::Struct(s) => SpecItem::Struct(s.deep_view()),
            Item::Enum(e) => SpecItem::Enum(e.deep_view()),
            Item::Other { span } => SpecItem::Other { span: *span },
        }
    }
}

/// The render policy of one variant or declaration.
#[derive(Debug, PartialEq, Eq)]
pub enum RenderPolicy {
    /// Substitute field values into fixed template text.
    Literal(Vec<char>),
    /// Defer entirely to the cause's own rendering.
    Transparent,
}

/// Spec mirror of `RenderPolicy`.
#[verifier::ext_equal]
pub enum SpecRenderPolicy {
    Literal(Seq<char>),
    Transparent,
}

impl DeepView for RenderPolicy {
    type V = SpecRenderPolicy;

    open spec fn deep_view(&self) -> SpecRenderPolicy {
        match self {
            RenderPolicy::Literal(s) => SpecRenderPolicy::Literal(s@),
            RenderPolicy::Transparent => SpecRenderPolicy::Transparent,
        }
    }
}

/// Which structural rule a failed generation violated.
#[derive(Debug, Clone, Copy, PartialEq, Eq, Structural)]
pub enum ErrorKind {
    /// The variant or declaration carries no render annotation.
    MissingAnnotation,
    /// The annotation payload is neither a template string nor the
    /// transparent marker.
    InvalidAnnotationArgument,
    /// A transparent policy with no cause field to defer to.
    TransparentWithoutSource,
    /// The declaration is neither a sum nor a product type.
    UnsupportedDeclarationShape,
}

/// A generation-time diagnostic, anchored to a source location.
#[derive(Debug, Clone, Copy, PartialEq, Eq, Structural)]
pub struct GenError {
    pub kind: ErrorKind,
    pub span: u64,
}

/// The field name that marks a variant/declaration's causal parent.
pub open spec fn spec_cause_name() -> Seq<char> {
    "source"@
}

/// Whether a field is the reserved cause field: named exactly "source".
pub open spec fn spec_is_cause_field(f: SpecField) -> bool {
    f.name is Some && f.name->0 == spec_cause_name()
}

/// Well-formedness of a field list: named fields all carry names, and
/// positional fields carry none.
pub open spec fn spec_wf_field_list(fs: SpecFieldList) -> bool {
    match fs {
        SpecFieldList::Named(s) => forall|i: int| 0 <= i < s.len() ==> s[i].name is Some,
        SpecFieldList::Positional(s) => forall|i: int| 0 <= i < s.len() ==> s[i].name is None,
        SpecFieldList::Unit => true,
    }
}

/// Well-formedness of a product-type declaration.
pub open spec fn spec_wf_struct(s: SpecStructDecl) -> bool {
    spec_wf_field_list(s.fields)
}

/// Well-formedness of a sum-type declaration.
pub open spec fn spec_wf_enum(e: SpecEnumDecl) -> bool {
    forall|i: int| 0 <= i < e.variants.len() ==> spec_wf_field_list(#[trigger] e.variants[i].fields)
}

/// Well-formedness of a top-level declaration.
pub open spec fn spec_wf_item(it: SpecItem) -> bool {
    match it {
        SpecItem::Struct(s) => spec_wf_struct(s),
        SpecItem::Enum(e) => spec_wf_enum(e),
        SpecItem::Other { .. } => true,
    }
}

/// The view of a path expression, in terms of its parts' views.
pub proof fn lemma_path_view(head: Vec<char>, args: Vec<TypeExpr>)
    ensures
        (TypeExpr::Path { head, args }).deep_view() == (SpecTypeExpr::Path {
            head: head@,
            args: args.deep_view(),
        }),
{
    let s1 = Seq::new(
        args.len() as nat,
        |i: int|
            if 0 <= i < args.len() {
                spec_type_expr_view(args[i])
            } else {
                SpecTypeExpr::ValueLit { value: 0 }
            },
    );
    assert(s1 =~= args.deep_view());
    let dv = (TypeExpr::Path { head, args }).deep_view();
    assert(dv is Path);
    assert(dv->Path_head == head@);
    assert(dv->Path_args == s1);
    assert(dv =~~= (SpecTypeExpr::Path {
        head: head@,
        args: args.deep_view(),
    }));
}

/// A copy of a type expression.
#[verifier::loop_isolation(false)]
pub fn copy_type_expr(t: &TypeExpr) -> (r: TypeExpr)
    ensures
        r.deep_view() == t.deep_view(),
    decreases *t,
{
    match t {
        TypeExpr::Path { head, args } => {
            let mut new_args: Vec<TypeExpr> = Vec::new();
            let mut i: usize = 0;
            while i < args.len()
                invariant
                    i <= args.len(),
                    new_args.len() == i,
                    forall|j: int|
                        0 <= j < i ==> new_args.deep_view()[j] == args.deep_view()[j],
                decreases args.len() - i,
            {
                let c = copy_type_expr(&args[i]);
                new_args.push(c);
                i += 1;
            }
            let new_head = crate::text::copy_text(head);
            proof {
                lemma_path_view(new_head, new_args);
                lemma_path_view(*head, *args);
                assert(new_args.deep_view() =~~= args.deep_view());
            }
            TypeExpr::Path { head: new_head, args: new_args }
        },
        TypeExpr::LifetimeArg { name } => TypeExpr::LifetimeArg {
            name: crate::text::copy_text(name),
        },
        TypeExpr::ValueRef { name } => TypeExpr::ValueRef { name: crate::text::copy_text(name) },
        TypeExpr::ValueLit { value } => TypeExpr::ValueLit { value: *value },
        TypeExpr::Reference { lifetime, target } => TypeExpr::Reference {
            lifetime: crate::text::copy_opt_text(lifetime),
            target: Box::new(copy_type_expr(target)),
        },
        TypeExpr::Array { element, length } => TypeExpr::Array {
            element: Box::new(copy_type_expr(element)),
            length: Box::new(copy_type_expr(length)),
        },
    }
}

/// A copy of a generic parameter.
pub fn copy_param(p: &GenericParam) -> (r: GenericParam)
    ensures
        r.deep_view() == p.deep_view(),
{
    GenericParam { kind: p.kind, name: crate::text::copy_text(&p.name) }
}

/// A copy of a generic-parameter list.
#[verifier::loop_isolation(false)]
pub fn copy_params(ps: &Vec<GenericParam>) -> (r: Vec<GenericParam>)
    ensures
        r.deep_view() == ps.deep_view(),
{
    let mut out: Vec<GenericParam> = Vec::new();
    let mut i: usize = 0;
    while i < ps.len()
        invariant
            0 <= i <= ps.len(),
            out.deep_view() == ps.deep_view().subrange(0, i as int),
        decreases ps.len() - i,
    {
        out.push(copy_param(&ps[i]));
        i += 1;
        proof {
            assert(out.deep_view() =~~= ps.deep_view().subrange(0, i as int));
        }
    }
    proof {
        assert(out.deep_view() =~~= ps.deep_view());
    }
    out
}

/// A copy of a field.
pub fn copy_field(f: &Field) -> (r: Field)
    ensures
        r.deep_view() == f.deep_view(),
{
    Field { name: crate::text::copy_opt_text(&f.name), ty: copy_type_expr(&f.ty), vis: f.vis }
}

/// A copy of a field with its visibility forced to public.
pub fn copy_field_as_public(f: &Field) -> (r: Field)
    ensures
        r.deep_view() == (SpecField {
            name: f.deep_view().name,
            ty: f.deep_view().ty,
            vis: Visibility::Public,
        }),
{
    Field {
        name: crate::text::copy_opt_text(&f.name),
        ty: copy_type_expr(&f.ty),
        vis: Visibility::Public,
    }
}

} // verus!
