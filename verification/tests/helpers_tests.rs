use cutlass::generate::{
    append_alias_ident, append_generics_full, append_generics_stripped, generate_body,
    generate_curry, generate_type_aliases,
};
use cutlass::syntax::{
    extract_arg_idents, extract_arg_pat, extract_arg_types, extract_return_type, extract_type,
    remove_traits_from_generics, FnArg, GenericParam, Generics, ItemFn, ReturnType, TypeParam,
    TypedArg,
};
use cutlass::tokens::append_decimal;

fn typed(pat: &str, ty: &str) -> FnArg {
    FnArg::Typed(TypedArg { pat: pat.to_string(), ty: ty.to_string() })
}

fn type_param(ident: &str, bounds: &str) -> GenericParam {
    GenericParam::Type(TypeParam { ident: ident.to_string(), bounds: bounds.to_string() })
}

#[test]
fn decimal_rendering() {
    let cases: [(usize, &str); 6] =
        [(0, "0"), (7, "7"), (10, "10"), (123, "123"), (1000, "1000"), (65535, "65535")];
    for (n, expect) in cases {
        let mut s = String::new();
        append_decimal(&mut s, n);
        assert_eq!(s, *expect);
    }
}

#[test]
fn alias_ident_rendering() {
    let mut s = String::new();
    append_alias_ident(&mut s, &"concat".to_string(), 12);
    assert_eq!(s, "_T12concat");
}

#[test]
fn extractors_pick_type_and_pattern() {
    let a = typed("x", "Vec<u8>");
    assert_eq!(extract_type(&a), "Vec<u8>");
    assert_eq!(extract_arg_pat(&a), "x");
    assert_eq!(extract_return_type(&ReturnType::Type("bool".to_string())), "bool");
}

#[test]
fn extractors_walk_all_args() {
    let args = vec![typed("x", "u8"), typed("y", "u16"), typed("z", "u32")];
    assert_eq!(extract_arg_types(&args), vec!["u8", "u16", "u32"]);
    assert_eq!(extract_arg_idents(&args), vec!["x", "y", "z"]);
}

#[test]
fn remove_traits_strips_bounds() {
    let g = Generics { params: vec![type_param("T1", "Copy"), type_param("T2", "Clone + Eq")] };
    let stripped = remove_traits_from_generics(&g);
    assert_eq!(stripped.params.len(), 2);
    let mut full = String::new();
    append_generics_full(&mut full, &stripped);
    assert_eq!(full, "<T1, T2>");
}

#[test]
fn generics_rendering() {
    let g = Generics { params: vec![type_param("T1", "Copy"), type_param("T2", "")] };
    let mut full = String::new();
    append_generics_full(&mut full, &g);
    assert_eq!(full, "<T1: Copy, T2>");
    let mut bare = String::new();
    append_generics_stripped(&mut bare, &g);
    assert_eq!(bare, "<T1, T2>");
}

#[test]
fn body_nests_closures_back_to_front() {
    let pats = vec!["y".to_string(), "z".to_string()];
    let body = "{ return (x, y, z); }".to_string();
    assert_eq!(generate_body(&pats, &body), "return move |y| move |z| { return (x, y, z); }");
}

#[test]
fn body_without_remaining_args_is_bare_return() {
    let pats: Vec<String> = vec![];
    let body = "{ x }".to_string();
    assert_eq!(generate_body(&pats, &body), "return { x }");
}

#[test]
fn aliases_consume_types_from_the_back() {
    let tail = vec!["u16".to_string(), "u32".to_string()];
    let aliases =
        generate_type_aliases(&tail, &"bool".to_string(), &"check".to_string(), &None);
    assert_eq!(
        aliases,
        vec![
            "type _T0check = bool",
            "type _T1check = impl Fn(u32) -> _T0check",
            "type _T2check = impl Fn(u16) -> _T1check",
        ]
    );
}

#[test]
fn aliases_carry_stripped_generics() {
    let tail = vec!["T2".to_string()];
    let g = Some(Generics { params: vec![type_param("T1", "Copy"), type_param("T2", "Copy")] });
    let aliases = generate_type_aliases(&tail, &"T1".to_string(), &"first".to_string(), &g);
    assert_eq!(
        aliases,
        vec![
            "type _T0first<T1, T2> = T1",
            "type _T1first<T1, T2> = impl Fn(T2) -> _T0first<T1, T2>",
        ]
    );
}

#[test]
fn generate_curry_matches_entry_point() {
    let f = ItemFn {
        vis: String::new(),
        name: "add".to_string(),
        generics: None,
        args: vec![typed("x", "u32"), typed("y", "u32")],
        ret: ReturnType::Type("u32".to_string()),
        body: "{ return x + y; }".to_string(),
    };
    assert_eq!(Ok(generate_curry(&f)), cutlass::curry(&f));
}
