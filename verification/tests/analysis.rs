use easyerr::classify::{extract_source_field, source_field_of};
use easyerr::generics::{
    generics_required_by_fields, generics_required_by_type, is_required_generic_for_type,
    is_required_lifetime_for_type,
};
use easyerr::model::{Field, GenericParam, ParamKind, TypeExpr, Visibility};
use easyerr::subst::{apply_template, binding_value, Binding};
use easyerr::text::{ctx_name_of, positional_name};

fn text(s: &str) -> Vec<char> {
    s.chars().collect()
}

fn path(name: &str) -> TypeExpr {
    TypeExpr::Path { head: text(name), args: vec![] }
}

fn named_field(name: &str, ty: TypeExpr) -> Field {
    Field { name: Some(text(name)), ty, vis: Visibility::Inherited }
}

fn render(template: &str, binds: Vec<(&str, &str)>) -> String {
    let bindings: Vec<Binding> = binds
        .into_iter()
        .map(|(n, v)| Binding { name: text(n), value: text(v) })
        .collect();
    apply_template(&text(template), &bindings).into_iter().collect()
}

#[test]
fn source_field_is_found_by_exact_name() {
    let fields = vec![
        named_field("code", path("u32")),
        named_field("source", path("IoError")),
        named_field("note", path("String")),
    ];
    assert_eq!(source_field_of(&fields), Some(1));
    let (ctx, src) = extract_source_field(&fields);
    assert_eq!(ctx.len(), 2);
    assert_eq!(ctx[0].name, Some(text("code")));
    assert_eq!(ctx[1].name, Some(text("note")));
    assert_eq!(src, Some(path("IoError")));
}

#[test]
fn absent_source_field_is_a_valid_outcome() {
    let fields = vec![named_field("code", path("u32"))];
    assert_eq!(source_field_of(&fields), None);
    let (ctx, src) = extract_source_field(&fields);
    assert_eq!(ctx.len(), 1);
    assert_eq!(src, None);
}

#[test]
fn similarly_named_field_is_not_the_cause() {
    let fields = vec![named_field("sources", path("u32"))];
    assert_eq!(source_field_of(&fields), None);
}

#[test]
fn type_parameter_matches_as_path_head() {
    let ty = TypeExpr::Path { head: text("Vec"), args: vec![path("T")] };
    assert!(is_required_generic_for_type(&ty, false, &text("T")));
    assert!(!is_required_generic_for_type(&ty, false, &text("U")));
}

#[test]
fn const_parameter_matches_in_array_length() {
    let ty = TypeExpr::Array {
        element: Box::new(path("u8")),
        length: Box::new(TypeExpr::ValueRef { name: text("N") }),
    };
    assert!(is_required_generic_for_type(&ty, true, &text("N")));
    assert!(!is_required_generic_for_type(&ty, false, &text("N")));
}

#[test]
fn lifetime_matches_on_reference() {
    let ty = TypeExpr::Reference { lifetime: Some(text("a")), target: Box::new(path("str")) };
    assert!(is_required_lifetime_for_type(&ty, &text("a")));
    assert!(!is_required_lifetime_for_type(&ty, &text("b")));
}

#[test]
fn required_generics_keep_declaration_order() {
    let generics = vec![
        GenericParam { kind: ParamKind::Lifetime, name: text("a") },
        GenericParam { kind: ParamKind::Type, name: text("T") },
        GenericParam { kind: ParamKind::Type, name: text("U") },
    ];
    let ty = TypeExpr::Path {
        head: text("Pair"),
        args: vec![
            path("U"),
            TypeExpr::Reference { lifetime: Some(text("a")), target: Box::new(path("T")) },
        ],
    };
    let used = generics_required_by_type(&generics, &ty);
    let names: Vec<Vec<char>> = used.iter().map(|p| p.name.clone()).collect();
    assert_eq!(names, vec![text("a"), text("T"), text("U")]);
}

#[test]
fn union_over_fields_has_no_duplicates() {
    let generics = vec![
        GenericParam { kind: ParamKind::Type, name: text("T") },
        GenericParam { kind: ParamKind::Type, name: text("U") },
    ];
    let fields = vec![
        named_field("first", path("T")),
        named_field("second", path("T")),
    ];
    let used = generics_required_by_fields(&generics, &fields);
    assert_eq!(used.len(), 1);
    assert_eq!(used[0].name, text("T"));
}

#[test]
fn carrier_name_strips_trailing_suffix_only() {
    let strip: String = ctx_name_of(&text("FileError")).into_iter().collect();
    assert_eq!(strip, "FileCtx");
    let keep: String = ctx_name_of(&text("ErrorCode")).into_iter().collect();
    assert_eq!(keep, "ErrorCodeCtx");
    let bare: String = ctx_name_of(&text("Error")).into_iter().collect();
    assert_eq!(bare, "Ctx");
}

#[test]
fn positional_names_count_in_decimal() {
    let one: String = positional_name(1).into_iter().collect();
    assert_eq!(one, "f1");
    let twelve: String = positional_name(12).into_iter().collect();
    assert_eq!(twelve, "f12");
    let large: String = positional_name(105).into_iter().collect();
    assert_eq!(large, "f105");
}

#[test]
fn template_substitutes_each_reference() {
    assert_eq!(render("a {x} b {y}", vec![("x", "1"), ("y", "2")]), "a 1 b 2");
}

#[test]
fn unbound_reference_stays_literal() {
    assert_eq!(render("a {x} b", vec![("y", "2")]), "a {x} b");
}

#[test]
fn unclosed_brace_stays_literal() {
    assert_eq!(render("oops {x", vec![("x", "1")]), "oops {x");
}

#[test]
fn empty_template_renders_empty() {
    assert_eq!(render("", vec![("x", "1")]), "");
}

#[test]
fn first_binding_of_a_name_wins() {
    let binds = vec![
        Binding { name: text("x"), value: text("1") },
        Binding { name: text("x"), value: text("2") },
    ];
    assert_eq!(binding_value(&binds, &text("x")), Some(text("1")));
    assert_eq!(binding_value(&binds, &text("z")), None);
}
