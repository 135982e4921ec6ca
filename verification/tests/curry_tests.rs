use cutlass::curry;
use cutlass::syntax::{
    CurryError, FnArg, GenericParam, Generics, ItemFn, ReturnType, TypeParam, TypedArg,
};

fn typed(pat: &str, ty: &str) -> FnArg {
    FnArg::Typed(TypedArg { pat: pat.to_string(), ty: ty.to_string() })
}

fn type_param(ident: &str, bounds: &str) -> GenericParam {
    GenericParam::Type(TypeParam { ident: ident.to_string(), bounds: bounds.to_string() })
}

/// The declaration `fn concat<T1: Copy, T2: Copy, T3: Copy>(x: T1, y: T2, z: T3)
/// -> (T1, T2, T3) { return (x, y, z); }`.
fn concat_decl() -> ItemFn {
    ItemFn {
        vis: String::new(),
        name: "concat".to_string(),
        generics: Some(Generics {
            params: vec![
                type_param("T1", "Copy"),
                type_param("T2", "Copy"),
                type_param("T3", "Copy"),
            ],
        }),
        args: vec![typed("x", "T1"), typed("y", "T2"), typed("z", "T3")],
        ret: ReturnType::Type("(T1, T2, T3)".to_string()),
        body: "{ return (x, y, z); }".to_string(),
    }
}

#[test]
fn concat_works() {
    let out = curry(&concat_decl()).unwrap();
    assert_eq!(
        out,
        "type _T0concat<T1, T2, T3> = (T1, T2, T3); \
         type _T1concat<T1, T2, T3> = impl Fn(T3) -> _T0concat<T1, T2, T3>; \
         type _T2concat<T1, T2, T3> = impl Fn(T2) -> _T1concat<T1, T2, T3>; \
         fn concat<T1: Copy, T2: Copy, T3: Copy>(x: T1) -> _T2concat<T1, T2, T3> \
         { return move |y| move |z| { return (x, y, z); } ; }"
    );
}

#[test]
fn plain_two_args() {
    let f = ItemFn {
        vis: String::new(),
        name: "add".to_string(),
        generics: None,
        args: vec![typed("x", "u32"), typed("y", "u32")],
        ret: ReturnType::Type("u32".to_string()),
        body: "{ return x + y; }".to_string(),
    };
    let out = curry(&f).unwrap();
    assert_eq!(
        out,
        "type _T0add = u32; type _T1add = impl Fn(u32) -> _T0add; \
         fn add(x: u32) -> _T1add { return move |y| { return x + y; } ; }"
    );
}

#[test]
fn single_arg_keeps_body() {
    let f = ItemFn {
        vis: String::new(),
        name: "id".to_string(),
        generics: None,
        args: vec![typed("x", "i64")],
        ret: ReturnType::Type("i64".to_string()),
        body: "{ x }".to_string(),
    };
    let out = curry(&f).unwrap();
    assert_eq!(out, "type _T0id = i64; fn id(x: i64) -> _T0id { return { x } ; }");
}

#[test]
fn visibility_is_kept() {
    let f = ItemFn {
        vis: "pub".to_string(),
        name: "pair".to_string(),
        generics: None,
        args: vec![typed("a", "u8"), typed("b", "u8")],
        ret: ReturnType::Type("(u8, u8)".to_string()),
        body: "{ return (a, b); }".to_string(),
    };
    let out = curry(&f).unwrap();
    assert_eq!(
        out,
        "type _T0pair = (u8, u8); type _T1pair = impl Fn(u8) -> _T0pair; \
         pub fn pair(a: u8) -> _T1pair { return move |b| { return (a, b); } ; }"
    );
}

#[test]
fn unbounded_type_params_stay_bare() {
    let f = ItemFn {
        vis: String::new(),
        name: "pick".to_string(),
        generics: Some(Generics { params: vec![type_param("A", ""), type_param("B", "")] }),
        args: vec![typed("a", "A"), typed("b", "B")],
        ret: ReturnType::Type("A".to_string()),
        body: "{ return a; }".to_string(),
    };
    let out = curry(&f).unwrap();
    assert_eq!(
        out,
        "type _T0pick<A, B> = A; type _T1pick<A, B> = impl Fn(B) -> _T0pick<A, B>; \
         fn pick<A, B>(a: A) -> _T1pick<A, B> { return move |b| { return a; } ; }"
    );
}

#[test]
fn many_args_number_aliases_in_decimal() {
    let names = [
        "a0", "a1", "a2", "a3", "a4", "a5", "a6", "a7", "a8", "a9", "a10", "a11",
    ];
    let mut args = Vec::new();
    for n in names {
        args.push(typed(n, "u8"));
    }
    let f = ItemFn {
        vis: String::new(),
        name: "f".to_string(),
        generics: None,
        args,
        ret: ReturnType::Type("u8".to_string()),
        body: "{ return a0; }".to_string(),
    };
    let out = curry(&f).unwrap();
    // Twelve arguments give aliases _T0f .. _T11f; the rewritten function
    // returns the last one.
    assert!(out.contains("type _T11f = impl Fn(u8) -> _T10f; "));
    assert!(out.contains("fn f(a0: u8) -> _T11f "));
    assert!(out.contains("move |a11| { return a0; }"));
}

#[test]
fn receiver_is_rejected() {
    let f = ItemFn {
        vis: String::new(),
        name: "m".to_string(),
        generics: None,
        args: vec![FnArg::Receiver, typed("x", "u8")],
        ret: ReturnType::Type("u8".to_string()),
        body: "{ return x; }".to_string(),
    };
    assert_eq!(curry(&f), Err(CurryError::Receiver));
    assert_eq!(CurryError::Receiver.message(), "Not supported on types with `self`!");
}

#[test]
fn receiver_reported_before_missing_return_type() {
    let f = ItemFn {
        vis: String::new(),
        name: "m".to_string(),
        generics: None,
        args: vec![FnArg::Receiver],
        ret: ReturnType::Default,
        body: "{ }".to_string(),
    };
    assert_eq!(curry(&f), Err(CurryError::Receiver));
}

#[test]
fn no_args_is_rejected() {
    let f = ItemFn {
        vis: String::new(),
        name: "nullary".to_string(),
        generics: None,
        args: vec![],
        ret: ReturnType::Type("u8".to_string()),
        body: "{ return 1; }".to_string(),
    };
    assert_eq!(curry(&f), Err(CurryError::NoArgs));
    assert_eq!(CurryError::NoArgs.message(), "Not supported on functions without arguments!");
}

#[test]
fn missing_return_type_is_rejected() {
    let f = ItemFn {
        vis: String::new(),
        name: "shout".to_string(),
        generics: None,
        args: vec![typed("x", "u8")],
        ret: ReturnType::Default,
        body: "{ }".to_string(),
    };
    assert_eq!(curry(&f), Err(CurryError::NoReturnType));
    assert_eq!(
        CurryError::NoReturnType.message(),
        "Not supported on functions without return types!"
    );
}

#[test]
fn lifetime_param_is_rejected() {
    let f = ItemFn {
        vis: String::new(),
        name: "get".to_string(),
        generics: Some(Generics {
            params: vec![GenericParam::Lifetime("'a".to_string()), type_param("T", "")],
        }),
        args: vec![typed("x", "&'a T"), typed("y", "u8")],
        ret: ReturnType::Type("&'a T".to_string()),
        body: "{ return x; }".to_string(),
    };
    assert_eq!(curry(&f), Err(CurryError::NonTypeGeneric));
    assert_eq!(CurryError::NonTypeGeneric.message(), "Not support on generics with lifetime!");
}

#[test]
fn const_param_is_rejected() {
    let f = ItemFn {
        vis: String::new(),
        name: "fill".to_string(),
        generics: Some(Generics { params: vec![GenericParam::Const("const N: usize".to_string())] }),
        args: vec![typed("x", "u8"), typed("y", "u8")],
        ret: ReturnType::Type("u8".to_string()),
        body: "{ return x; }".to_string(),
    };
    assert_eq!(curry(&f), Err(CurryError::NonTypeGeneric));
}
