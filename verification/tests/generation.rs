use easyerr::driver::{derive_err_enum, derive_err_struct, derive_error};
use easyerr::model::{
    Attr, AttrToken, EnumDecl, ErrorKind, Field, FieldList, GenericParam, Item, ParamKind,
    StructDecl, TypeExpr, Variant, Visibility,
};
use easyerr::output::{ChainKind, RenderBody, ShapeKind};
use easyerr::subst::{apply_template, Binding};

fn text(s: &str) -> Vec<char> {
    s.chars().collect()
}

fn path(name: &str) -> TypeExpr {
    TypeExpr::Path { head: text(name), args: vec![] }
}

fn named_field(name: &str, ty: TypeExpr) -> Field {
    Field { name: Some(text(name)), ty, vis: Visibility::Inherited }
}

fn positional_field(ty: TypeExpr) -> Field {
    Field { name: None, ty, vis: Visibility::Inherited }
}

fn literal_attr(template: &str, span: u64) -> Attr {
    Attr { tokens: vec![AttrToken::Str(text(template))], span }
}

fn transparent_attr(span: u64) -> Attr {
    Attr { tokens: vec![AttrToken::Ident(text("transparent"))], span }
}

fn rendered(template: &Vec<char>, binds: Vec<(&str, &str)>) -> String {
    let bindings: Vec<Binding> = binds
        .into_iter()
        .map(|(n, v)| Binding { name: text(n), value: text(v) })
        .collect();
    apply_template(template, &bindings).into_iter().collect()
}

#[test]
fn struct_with_source_and_no_annotation_fails_missing() {
    let s = StructDecl {
        name: text("OpaqueError"),
        generics: vec![],
        fields: FieldList::Named(vec![named_field("source", path("IoError"))]),
        attr: None,
        span: 11,
    };
    let r = derive_err_struct(&s);
    let e = r.expect_err("generation must fail without an annotation");
    assert_eq!(e.kind, ErrorKind::MissingAnnotation);
    assert_eq!(e.span, 11);
}

#[test]
fn transparent_without_source_field_fails() {
    let s = StructDecl {
        name: text("PlainError"),
        generics: vec![],
        fields: FieldList::Named(vec![named_field("x", path("u32"))]),
        attr: Some(transparent_attr(77)),
        span: 5,
    };
    let r = derive_err_struct(&s);
    let e = r.expect_err("transparent needs a cause field");
    assert_eq!(e.kind, ErrorKind::TransparentWithoutSource);
    assert_eq!(e.span, 77);
}

#[test]
fn positional_struct_renders_with_synthesized_name() {
    let s = StructDecl {
        name: text("NumberError"),
        generics: vec![],
        fields: FieldList::Positional(vec![positional_field(path("u64"))]),
        attr: Some(literal_attr("something went wrong with the number {f0}", 3)),
        span: 2,
    };
    let g = derive_err_struct(&s).expect("generation succeeds");
    assert_eq!(g.render.len(), 1);
    assert_eq!(g.render[0].shape, ShapeKind::Positional);
    assert_eq!(g.render[0].bindings, vec![text("f0")]);
    match &g.render[0].body {
        RenderBody::Template(t) => {
            assert_eq!(rendered(t, vec![("f0", "7")]), "something went wrong with the number 7");
        },
        RenderBody::Forward => panic!("expected a template body"),
    }
}

#[test]
fn empty_struct_renders_fixed_text() {
    let s = StructDecl {
        name: text("PlainError"),
        generics: vec![],
        fields: FieldList::Unit,
        attr: Some(literal_attr("something went wrong", 3)),
        span: 2,
    };
    let g = derive_err_struct(&s).expect("generation succeeds");
    assert_eq!(g.render.len(), 1);
    assert_eq!(g.render[0].shape, ShapeKind::Unit);
    assert_eq!(g.render[0].bindings.len(), 0);
    match &g.render[0].body {
        RenderBody::Template(t) => {
            assert_eq!(rendered(t, vec![]), "something went wrong");
        },
        RenderBody::Forward => panic!("expected a template body"),
    }
}

#[test]
fn positional_enum_variant_renders_value() {
    let e = EnumDecl {
        name: text("ParseError"),
        generics: vec![],
        variants: vec![Variant {
            name: text("Bad"),
            fields: FieldList::Positional(vec![positional_field(path("u64"))]),
            attr: Some(literal_attr("bad: {f0}", 9)),
            span: 8,
        }],
        span: 1,
    };
    let g = derive_err_enum(&e).expect("generation succeeds");
    assert_eq!(g.render.len(), 1);
    assert_eq!(g.render[0].variant, Some(text("Bad")));
    match &g.render[0].body {
        RenderBody::Template(t) => {
            assert_eq!(rendered(t, vec![("f0", "7")]), "bad: 7");
        },
        RenderBody::Forward => panic!("expected a template body"),
    }
}

fn sample_item() -> Item {
    Item::Enum(EnumDecl {
        name: text("ReadError"),
        generics: vec![GenericParam { kind: ParamKind::Type, name: text("T") }],
        variants: vec![
            Variant {
                name: text("Io"),
                fields: FieldList::Named(vec![
                    named_field("path", path("String")),
                    named_field("source", path("IoError")),
                ]),
                attr: Some(literal_attr("could not read {path}", 4)),
                span: 3,
            },
            Variant {
                name: text("Empty"),
                fields: FieldList::Unit,
                attr: Some(literal_attr("nothing to read", 6)),
                span: 5,
            },
        ],
        span: 1,
    })
}

#[test]
fn generation_twice_on_unchanged_declaration_is_identical() {
    let first = derive_error(&sample_item());
    let second = derive_error(&sample_item());
    assert_eq!(first, second);
}

#[test]
fn enum_generation_produces_namespaced_adapter() {
    let g = derive_error(&sample_item()).expect("generation succeeds");
    assert_eq!(g.container, Some(text("ReadCtx")));
    assert_eq!(g.adapters.len(), 1);
    assert_eq!(g.adapters[0].name, text("Io"));
    assert_eq!(g.adapters[0].variant, Some(text("Io")));
    assert_eq!(g.adapters[0].err_name, text("ReadError"));
    assert_eq!(g.adapters[0].fields.len(), 1);
    assert_eq!(g.adapters[0].fields[0].name, Some(text("path")));
    assert_eq!(g.adapters[0].fields[0].vis, Visibility::Public);
    assert_eq!(g.adapters[0].source_ty, path("IoError"));
    assert_eq!(g.chain.len(), 2);
    assert_eq!(g.chain[0].kind, ChainKind::Direct);
    assert_eq!(g.chain[1].kind, ChainKind::Terminal);
}

#[test]
fn enum_without_adapters_gets_no_container() {
    let e = EnumDecl {
        name: text("FlatError"),
        generics: vec![],
        variants: vec![Variant {
            name: text("Oops"),
            fields: FieldList::Unit,
            attr: Some(literal_attr("oops", 2)),
            span: 2,
        }],
        span: 1,
    };
    let g = derive_err_enum(&e).expect("generation succeeds");
    assert_eq!(g.container, None);
    assert_eq!(g.adapters.len(), 0);
}

#[test]
fn struct_adapter_strips_error_suffix() {
    let s = StructDecl {
        name: text("FileError"),
        generics: vec![],
        fields: FieldList::Named(vec![
            named_field("path", path("String")),
            named_field("source", path("IoError")),
        ]),
        attr: Some(literal_attr("file {path}", 3)),
        span: 2,
    };
    let g = derive_err_struct(&s).expect("generation succeeds");
    assert_eq!(g.adapters.len(), 1);
    assert_eq!(g.adapters[0].name, text("FileCtx"));
    assert_eq!(g.adapters[0].variant, None);
    assert_eq!(g.container, None);
}

#[test]
fn adapter_name_without_suffix_is_kept_whole() {
    let s = StructDecl {
        name: text("Oops"),
        generics: vec![],
        fields: FieldList::Named(vec![named_field("source", path("IoError"))]),
        attr: Some(literal_attr("oops", 3)),
        span: 2,
    };
    let g = derive_err_struct(&s).expect("generation succeeds");
    assert_eq!(g.adapters[0].name, text("OopsCtx"));
    assert_eq!(g.adapters[0].fields.len(), 0);
}

#[test]
fn minimal_generic_subset_is_exact() {
    let s = StructDecl {
        name: text("HoldError"),
        generics: vec![
            GenericParam { kind: ParamKind::Type, name: text("T") },
            GenericParam { kind: ParamKind::Type, name: text("U") },
            GenericParam { kind: ParamKind::Lifetime, name: text("a") },
            GenericParam { kind: ParamKind::Const, name: text("N") },
        ],
        fields: FieldList::Named(vec![
            named_field(
                "held",
                TypeExpr::Path { head: text("Vec"), args: vec![path("T")] },
            ),
            named_field("source", path("IoError")),
        ]),
        attr: Some(literal_attr("held", 3)),
        span: 2,
    };
    let g = derive_err_struct(&s).expect("generation succeeds");
    assert_eq!(g.adapters.len(), 1);
    assert_eq!(
        g.adapters[0].generics,
        vec![GenericParam { kind: ParamKind::Type, name: text("T") }]
    );
    assert_eq!(g.adapters[0].err_generics.len(), 4);
}

#[test]
fn transparent_struct_forwards_render_and_chain() {
    let s = StructDecl {
        name: text("WrapError"),
        generics: vec![],
        fields: FieldList::Named(vec![named_field("source", path("IoError"))]),
        attr: Some(transparent_attr(7)),
        span: 2,
    };
    let g = derive_err_struct(&s).expect("generation succeeds");
    assert_eq!(g.render.len(), 1);
    assert_eq!(g.render[0].body, RenderBody::Forward);
    assert_eq!(g.chain.len(), 1);
    assert_eq!(g.chain[0].kind, ChainKind::Forwarded);
}

#[test]
fn variant_with_only_a_cause_field_gets_a_field_less_carrier() {
    let e = EnumDecl {
        name: text("WrapError"),
        generics: vec![GenericParam { kind: ParamKind::Type, name: text("T") }],
        variants: vec![Variant {
            name: text("Inner"),
            fields: FieldList::Named(vec![named_field("source", path("IoError"))]),
            attr: Some(transparent_attr(4)),
            span: 3,
        }],
        span: 1,
    };
    let g = derive_err_enum(&e).expect("generation succeeds");
    assert_eq!(g.adapters.len(), 1);
    assert_eq!(g.adapters[0].fields.len(), 0);
    assert_eq!(g.adapters[0].generics.len(), 0);
    assert_eq!(g.container, Some(text("WrapCtx")));
    assert_eq!(g.chain[0].kind, ChainKind::Forwarded);
}

#[test]
fn unsupported_declaration_shape_is_rejected() {
    let r = derive_error(&Item::Other { span: 42 });
    let e = r.expect_err("only sum and product types are processed");
    assert_eq!(e.kind, ErrorKind::UnsupportedDeclarationShape);
    assert_eq!(e.span, 42);
}

#[test]
fn first_failing_variant_reports_its_own_error() {
    let e = EnumDecl {
        name: text("MixedError"),
        generics: vec![],
        variants: vec![
            Variant {
                name: text("Ok1"),
                fields: FieldList::Unit,
                attr: Some(literal_attr("fine", 2)),
                span: 2,
            },
            Variant {
                name: text("NoAttr"),
                fields: FieldList::Unit,
                attr: None,
                span: 33,
            },
            Variant {
                name: text("AlsoBad"),
                fields: FieldList::Unit,
                attr: Some(Attr { tokens: vec![AttrToken::Ident(text("bogus"))], span: 44 }),
                span: 9,
            },
        ],
        span: 1,
    };
    let err = derive_err_enum(&e).expect_err("second variant fails first");
    assert_eq!(err.kind, ErrorKind::MissingAnnotation);
    assert_eq!(err.span, 33);
}

#[test]
fn invalid_annotation_argument_is_reported_at_attribute() {
    let s = StructDecl {
        name: text("BadError"),
        generics: vec![],
        fields: FieldList::Unit,
        attr: Some(Attr { tokens: vec![AttrToken::Ident(text("bogus"))], span: 21 }),
        span: 2,
    };
    let err = derive_err_struct(&s).expect_err("unknown marker is invalid");
    assert_eq!(err.kind, ErrorKind::InvalidAnnotationArgument);
    assert_eq!(err.span, 21);
}

#[test]
fn annotation_with_extra_tokens_is_invalid() {
    let s = StructDecl {
        name: text("BadError"),
        generics: vec![],
        fields: FieldList::Unit,
        attr: Some(Attr {
            tokens: vec![AttrToken::Str(text("a")), AttrToken::Str(text("b"))],
            span: 22,
        }),
        span: 2,
    };
    let err = derive_err_struct(&s).expect_err("two arguments fit no rule");
    assert_eq!(err.kind, ErrorKind::InvalidAnnotationArgument);
    assert_eq!(err.span, 22);
}
