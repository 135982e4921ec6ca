//! A plain-value model of the pieces of a function declaration that the
//! currying rewrite reads. Every piece of syntax is carried as token text in
//! a `String`; the model keeps only as much structure as the rewrite needs to
//! inspect (which arguments are typed, which generic parameters are plain
//! type parameters, whether a return type was written).

use vstd::prelude::*;

verus! {

/// One typed (non-receiver) function argument: its pattern and its type, as
/// token text.
pub struct TypedArg {
    pub pat: String,
    pub ty: String,
}

/// One function argument: either a receiver (`self` in some form) or a
/// pattern with an explicit type.
pub enum FnArg {
    Receiver,
    Typed(TypedArg),
}

/// One type parameter: its identifier and its bound tokens (empty when the
/// parameter was written without bounds).
pub struct TypeParam {
    pub ident: String,
    pub bounds: String,
}

/// One generic parameter of the function being rewritten. Only plain type
/// parameters can be curried; lifetime and const parameters are rejected.
pub enum GenericParam {
    Lifetime(String),
    Type(TypeParam),
    Const(String),
}

/// The generic parameter list of a declaration. A function whose declaration
/// has no `<...>` at all is modelled by `None` at the use site, not by an
/// empty list.
pub struct Generics {
    pub params: Vec<GenericParam>,
}

/// The declared return type: either none was written, or the token text of
/// the written type.
pub enum ReturnType {
    Default,
    Type(String),
}

/// The parts of a function declaration that the rewrite reads: visibility
/// tokens (empty for a private function), name, generic parameters if a
/// `<...>` list was written, arguments, return type, and the body block's
/// token text (braces included).
pub struct ItemFn {
    pub vis: String,
    pub name: String,
    pub generics: Option<Generics>,
    pub args: Vec<FnArg>,
    pub ret: ReturnType,
    pub body: String,
}

/// Why a declaration cannot be curried. Each case aborts the rewrite with a
/// fixed diagnostic.
#[derive(Debug, PartialEq, Eq, Structural)]
pub enum CurryError {
    /// An argument is a receiver (`self` in some form).
    Receiver,
    /// The function has no arguments to curry.
    NoArgs,
    /// The function was written without an explicit return type.
    NoReturnType,
    /// A generic parameter is a lifetime or const parameter.
    NonTypeGeneric,
}

/// The type tokens of a typed argument.
pub open spec fn arg_ty(a: FnArg) -> Seq<char> {
    match a {
        FnArg::Typed(p) => p.ty@,
        FnArg::Receiver => Seq::<char>::empty(),
    }
}

/// The pattern tokens of a typed argument.
pub open spec fn arg_pat(a: FnArg) -> Seq<char> {
    match a {
        FnArg::Typed(p) => p.pat@,
        FnArg::Receiver => Seq::<char>::empty(),
    }
}

/// The token text of an explicit return type.
pub open spec fn ret_ty(r: ReturnType) -> Seq<char> {
    match r {
        ReturnType::Type(t) => t@,
        ReturnType::Default => Seq::<char>::empty(),
    }
}

/// Every argument is a pattern with an explicit type (no receiver).
pub open spec fn all_args_typed(args: Seq<FnArg>) -> bool {
    forall|i: int| 0 <= i < args.len() ==> args[i] is Typed
}

/// Some argument is a receiver.
pub open spec fn has_receiver(args: Seq<FnArg>) -> bool {
    exists|i: int| 0 <= i < args.len() && args[i] is Receiver
}

/// Every generic parameter is a plain type parameter.
pub open spec fn all_params_type(params: Seq<GenericParam>) -> bool {
    forall|i: int| 0 <= i < params.len() ==> params[i] is Type
}

/// The generic parameter list, if any, holds only type parameters.
pub open spec fn generics_ok(g: Option<Generics>) -> bool {
    match g {
        None => true,
        Some(gs) => all_params_type(gs.params@),
    }
}

/// A declaration the rewrite accepts: at least one argument, every argument
/// typed, an explicit return type, and only type parameters among the
/// generics.
pub open spec fn curryable(f: ItemFn) -> bool {
    &&& f.args@.len() > 0
    &&& all_args_typed(f.args@)
    &&& f.ret is Type
    &&& generics_ok(f.generics)
}

/// The fixed diagnostic for each rejected declaration shape.
pub open spec fn message_of(e: CurryError) -> Seq<char> {
    match e {
        CurryError::Receiver => "Not supported on types with `self`!"@,
        CurryError::NoArgs => "Not supported on functions without arguments!"@,
        CurryError::NoReturnType => "Not supported on functions without return types!"@,
        CurryError::NonTypeGeneric => "Not support on generics with lifetime!"@,
    }
}

impl CurryError {
    /// The diagnostic the rewrite aborts with for this error.
    pub fn message(&self) -> (m: &'static str)
        ensures
            m@ == message_of(*self),
    {
        match self {
            CurryError::Receiver => "Not supported on types with `self`!",
            CurryError::NoArgs => "Not supported on functions without arguments!",
            CurryError::NoReturnType => "Not supported on functions without return types!",
            CurryError::NonTypeGeneric => "Not support on generics with lifetime!",
        }
    }
}

/// The type of a typed argument; a receiver argument is rejected.
pub fn extract_type(a: &FnArg) -> (t: String)
    requires
        *a is Typed,
    ensures
        t@ == arg_ty(*a),
{
    match a {
        FnArg::Typed(p) => p.ty.clone(),
        FnArg::Receiver => vstd::pervasive::unreached(),
    }
}

/// The pattern of a typed argument; a receiver argument is rejected.
pub fn extract_arg_pat(a: &FnArg) -> (p: String)
    requires
        *a is Typed,
    ensures
        p@ == arg_pat(*a),
{
    match a {
        FnArg::Typed(p) => p.pat.clone(),
        FnArg::Receiver => vstd::pervasive::unreached(),
    }
}

/// The written return type; a declaration without one is rejected.
pub fn extract_return_type(a: &ReturnType) -> (t: String)
    requires
        *a is Type,
    ensures
        t@ == ret_ty(*a),
{
    match a {
        ReturnType::Type(t) => t.clone(),
        ReturnType::Default => vstd::pervasive::unreached(),
    }
}

/// The types of all arguments, in order.
pub fn extract_arg_types(fn_args: &Vec<FnArg>) -> (r: Vec<String>)
    requires
        all_args_typed(fn_args@),
    ensures
        r@.len() == fn_args@.len(),
        forall|i: int| 0 <= i < r@.len() ==> r@[i]@ == arg_ty(fn_args@[i]),
{
    let mut r: Vec<String> = Vec::new();
    let mut i: usize = 0;
    while i < fn_args.len()
        invariant
            all_args_typed(fn_args@),
            i <= fn_args@.len(),
            r@.len() == i,
            forall|j: int| 0 <= j < i ==> r@[j]@ == arg_ty(fn_args@[j]),
        decreases fn_args@.len() - i,
    {
        r.push(extract_type(&fn_args[i]));
        i = i + 1;
    }
    r
}

/// The patterns of all arguments, in order.
pub fn extract_arg_idents(fn_args: &Vec<FnArg>) -> (r: Vec<String>)
    requires
        all_args_typed(fn_args@),
    ensures
        r@.len() == fn_args@.len(),
        forall|i: int| 0 <= i < r@.len() ==> r@[i]@ == arg_pat(fn_args@[i]),
{
    let mut r: Vec<String> = Vec::new();
    let mut i: usize = 0;
    while i < fn_args.len()
        invariant
            all_args_typed(fn_args@),
            i <= fn_args@.len(),
            r@.len() == i,
            forall|j: int| 0 <= j < i ==> r@[j]@ == arg_pat(fn_args@[j]),
        decreases fn_args@.len() - i,
    {
        r.push(extract_arg_pat(&fn_args[i]));
        i = i + 1;
    }
    r
}

/// The same generic parameters with every bound removed, so that the list can
/// name a type in a position where bounds may not be repeated. A lifetime or
/// const parameter is rejected.
pub fn remove_traits_from_generics(generics: &Generics) -> (r: Generics)
    requires
        all_params_type(generics.params@),
    ensures
        r.params@.len() == generics.params@.len(),
        forall|i: int|
            0 <= i < r.params@.len() ==> ((#[trigger] r.params@[i]) matches GenericParam::Type(tp)
                && generics.params@[i] matches GenericParam::Type(tp0) && tp.ident@ == tp0.ident@
                && tp.bounds@.len() == 0),
{
    let mut new_params: Vec<GenericParam> = Vec::new();
    let mut i: usize = 0;
    while i < generics.params.len()
        invariant
            all_params_type(generics.params@),
            i <= generics.params@.len(),
            new_params@.len() == i,
            forall|j: int|
                0 <= j < i ==> ((#[trigger] new_params@[j]) matches GenericParam::Type(tp)
                    && generics.params@[j] matches GenericParam::Type(tp0) && tp.ident@
                    == tp0.ident@ && tp.bounds@.len() == 0),
        decreases generics.params@.len() - i,
    {
        let p = &generics.params[i];
        match p {
            GenericParam::Type(ty) => {
                let ident = ty.ident.clone();
                new_params.push(GenericParam::Type(TypeParam { ident, bounds: String::new() }));
            },
            _ => vstd::pervasive::unreached(),
        }
        i = i + 1;
    }
    Generics { params: new_params }
}

} // verus!
