//! The currying rewrite itself: the exact token text that a curried
//! declaration consists of (spec functions), and the executable functions
//! that produce it.
//!
//! For a function `f` with arguments `a1: T1, .., an: Tn`, return type `R`
//! and body `B`, the rewrite emits one type alias per curry step,
//!
//! ```text
//! type _T0f = R; type _T1f = impl Fn(Tn) -> _T0f; ...
//! ```
//!
//! followed by a single-argument function `fn f(a1: T1) -> _T{n-1}f` whose
//! body returns `move |a2| .. move |an| B`. When the declaration has a
//! generic parameter list, every alias and the rewritten signature carry it:
//! with its bounds where the declaration site allows them, stripped to bare
//! identifiers where it does not.

use vstd::prelude::*;
use vstd::string::StringExecFns;

use crate::syntax::{
    all_args_typed, all_params_type, arg_pat, arg_ty, curryable, extract_arg_idents,
    extract_arg_types, extract_return_type, generics_ok, has_receiver, remove_traits_from_generics,
    ret_ty, CurryError, FnArg, GenericParam, Generics, ItemFn, ReturnType,
};
use crate::tokens::{append_decimal, decimal_digits};

verus! {

/// The identifier of the `i`-th type alias generated for a function named
/// `name`: `_T{i}{name}`.
pub open spec fn alias_ident(name: Seq<char>, i: nat) -> Seq<char> {
    "_T"@ + decimal_digits(i) + name
}

/// One generic parameter as written: for a type parameter, its identifier
/// followed by its bounds when it has any.
pub open spec fn param_tokens(p: GenericParam) -> Seq<char> {
    match p {
        GenericParam::Type(tp) => if tp.bounds@.len() > 0 {
            tp.ident@ + ": "@ + tp.bounds@
        } else {
            tp.ident@
        },
        GenericParam::Lifetime(t) => t@,
        GenericParam::Const(t) => t@,
    }
}

/// One generic parameter stripped to its bare identifier.
pub open spec fn param_ident_tokens(p: GenericParam) -> Seq<char> {
    match p {
        GenericParam::Type(tp) => tp.ident@,
        GenericParam::Lifetime(t) => t@,
        GenericParam::Const(t) => t@,
    }
}

/// Generic parameters as written, joined with `", "`.
pub open spec fn params_join(ps: Seq<GenericParam>) -> Seq<char>
    decreases ps.len(),
{
    if ps.len() == 0 {
        Seq::<char>::empty()
    } else if ps.len() == 1 {
        param_tokens(ps[0])
    } else {
        params_join(ps.drop_last()) + ", "@ + param_tokens(ps.last())
    }
}

/// Bare generic parameter identifiers, joined with `", "`.
pub open spec fn params_ident_join(ps: Seq<GenericParam>) -> Seq<char>
    decreases ps.len(),
{
    if ps.len() == 0 {
        Seq::<char>::empty()
    } else if ps.len() == 1 {
        param_ident_tokens(ps[0])
    } else {
        params_ident_join(ps.drop_last()) + ", "@ + param_ident_tokens(ps.last())
    }
}

/// The generic parameter list as written (empty when the declaration has
/// none).
pub open spec fn generics_full_tokens(g: Option<Generics>) -> Seq<char> {
    match g {
        None => Seq::<char>::empty(),
        Some(gs) => "<"@ + params_join(gs.params@) + ">"@,
    }
}

/// The generic parameter list stripped to bare identifiers (empty when the
/// declaration has none), as it appears wherever an alias is named.
pub open spec fn generics_stripped_tokens(g: Option<Generics>) -> Seq<char> {
    match g {
        None => Seq::<char>::empty(),
        Some(gs) => "<"@ + params_ident_join(gs.params@) + ">"@,
    }
}

/// The `i`-th type alias declaration. `arg_types` are the types of every
/// argument but the first, in declaration order; alias `0` names the return
/// type, and alias `i` (for `i >= 1`) is a single-argument function type
/// consuming the `i`-th argument type counted from the back.
pub open spec fn type_alias_tokens(
    arg_types: Seq<Seq<char>>,
    ret: Seq<char>,
    name: Seq<char>,
    gsuf: Seq<char>,
    i: int,
) -> Seq<char> {
    if i == 0 {
        "type "@ + alias_ident(name, 0) + gsuf + " = "@ + ret
    } else {
        "type "@ + alias_ident(name, i as nat) + gsuf + " = impl Fn("@ + arg_types[arg_types.len()
            - i] + ") -> "@ + alias_ident(name, (i - 1) as nat) + gsuf
    }
}

/// The first `k` type alias declarations, each terminated with `"; "`.
pub open spec fn type_aliases_cat(
    arg_types: Seq<Seq<char>>,
    ret: Seq<char>,
    name: Seq<char>,
    gsuf: Seq<char>,
    k: int,
) -> Seq<char>
    decreases k,
{
    if k <= 0 {
        Seq::<char>::empty()
    } else {
        type_aliases_cat(arg_types, ret, name, gsuf, k - 1) + type_alias_tokens(
            arg_types,
            ret,
            name,
            gsuf,
            k - 1,
        ) + "; "@
    }
}

/// The first `k` nested closure headers: `move |p| ` for each pattern.
pub open spec fn moves_tokens(pats: Seq<Seq<char>>, k: int) -> Seq<char>
    decreases k,
{
    if k <= 0 {
        Seq::<char>::empty()
    } else {
        moves_tokens(pats, k - 1) + "move |"@ + pats[k - 1] + "| "@
    }
}

/// The curried body: `return` followed by one closure header per remaining
/// argument pattern, then the original body block.
pub open spec fn body_tokens(pats: Seq<Seq<char>>, body: Seq<char>) -> Seq<char> {
    "return "@ + moves_tokens(pats, pats.len() as int) + body
}

/// Visibility tokens followed by a separating space, or nothing for a
/// private declaration.
pub open spec fn vis_tokens(vis: Seq<char>) -> Seq<char> {
    if vis.len() > 0 {
        vis + " "@
    } else {
        Seq::<char>::empty()
    }
}

/// The types of every argument but the first, in declaration order.
pub open spec fn tail_types_of(f: ItemFn) -> Seq<Seq<char>> {
    f.args@.skip(1).map_values(|a: FnArg| arg_ty(a))
}

/// The patterns of every argument but the first, in declaration order.
pub open spec fn tail_pats_of(f: ItemFn) -> Seq<Seq<char>> {
    f.args@.skip(1).map_values(|a: FnArg| arg_pat(a))
}

/// The rewritten declaration: same visibility and name, the first argument
/// alone, the last alias as return type, and the curried body.
pub open spec fn signature_tokens(f: ItemFn) -> Seq<char> {
    vis_tokens(f.vis@) + "fn "@ + f.name@ + generics_full_tokens(f.generics) + "("@ + arg_pat(
        f.args@[0],
    ) + ": "@ + arg_ty(f.args@[0]) + ") -> "@ + alias_ident(f.name@, (f.args@.len() - 1) as nat)
        + generics_stripped_tokens(f.generics) + " { "@ + body_tokens(tail_pats_of(f), f.body@)
        + " ; }"@
}

/// Everything the rewrite emits for `f`: the alias chain, then the rewritten
/// declaration.
pub open spec fn curry_tokens(f: ItemFn) -> Seq<char> {
    type_aliases_cat(
        tail_types_of(f),
        ret_ty(f.ret),
        f.name@,
        generics_stripped_tokens(f.generics),
        f.args@.len() as int,
    ) + signature_tokens(f)
}

/// Stripping bounds from type parameters leaves a list that renders, with
/// bounds, as the bare identifiers of the original list.
proof fn lemma_params_join_stripped(ps1: Seq<GenericParam>, ps2: Seq<GenericParam>)
    requires
        ps1.len() == ps2.len(),
        forall|i: int|
            0 <= i < ps1.len() ==> ((#[trigger] ps1[i]) matches GenericParam::Type(tp)
                && ps2[i] matches GenericParam::Type(tp0) && tp.ident@ == tp0.ident@
                && tp.bounds@.len() == 0),
    ensures
        params_join(ps1) == params_ident_join(ps2),
    decreases ps1.len(),
{
    if ps1.len() == 0 {
    } else if ps1.len() == 1 {
        assert(param_tokens(ps1[0]) == param_ident_tokens(ps2[0]));
    } else {
        assert(ps1.drop_last().len() == ps2.drop_last().len());
        assert(forall|i: int|
            0 <= i < ps1.drop_last().len() ==> #[trigger] ps1.drop_last()[i] == ps1[i]);
        assert(forall|i: int|
            0 <= i < ps2.drop_last().len() ==> #[trigger] ps2.drop_last()[i] == ps2[i]);
        lemma_params_join_stripped(ps1.drop_last(), ps2.drop_last());
        assert(param_tokens(ps1.last()) == param_ident_tokens(ps2.last()));
    }
}

/// Appends `_T{i}{name}`.
pub fn append_alias_ident(out: &mut String, name: &String, i: usize)
    ensures
        final(out)@ == old(out)@ + alias_ident(name@, i as nat),
{
    out.append("_T");
    append_decimal(out, i);
    out.append(name.as_str());
    proof {
        assert(out@ =~= old(out)@ + alias_ident(name@, i as nat));
    }
}

/// Appends the generic parameter list as written: `<p1, p2, ...>`.
pub fn append_generics_full(out: &mut String, generics: &Generics)
    ensures
        final(out)@ == old(out)@ + "<"@ + params_join(generics.params@) + ">"@,
{
    out.append("<");
    let n = generics.params.len();
    let mut i: usize = 0;
    while i < n
        invariant
            n == generics.params@.len(),
            i <= n,
            out@ == old(out)@ + "<"@ + params_join(generics.params@.take(i as int)),
        decreases n - i,
    {
        if i > 0 {
            out.append(", ");
        }
        match &generics.params[i] {
            GenericParam::Type(tp) => {
                out.append(tp.ident.as_str());
                if !tp.bounds.as_str().is_empty() {
                    out.append(": ");
                    out.append(tp.bounds.as_str());
                }
            },
            GenericParam::Lifetime(t) => out.append(t.as_str()),
            GenericParam::Const(t) => out.append(t.as_str()),
        }
        proof {
            let ps = generics.params@;
            assert(ps.take(i as int + 1).drop_last() =~= ps.take(i as int));
            assert(ps.take(i as int + 1).last() == ps[i as int]);
            assert(out@ =~= old(out)@ + "<"@ + params_join(ps.take(i as int + 1)));
        }
        i = i + 1;
    }
    proof {
        assert(generics.params@.take(n as int) =~= generics.params@);
    }
    out.append(">");
    proof {
        assert(out@ =~= old(out)@ + "<"@ + params_join(generics.params@) + ">"@);
    }
}

/// Every element of `v` but the first, in order.
fn tail_of(v: &Vec<String>) -> (r: Vec<String>)
    requires
        v@.len() >= 1,
    ensures
        r@.len() == v@.len() - 1,
        forall|i: int| 0 <= i < r@.len() ==> r@[i] == v@[i + 1],
{
    let mut r: Vec<String> = Vec::new();
    let mut i: usize = 1;
    while i < v.len()
        invariant
            1 <= i <= v@.len(),
            r@.len() == i - 1,
            forall|j: int| 0 <= j < r@.len() ==> r@[j] == v@[j + 1],
        decreases v@.len() - i,
    {
        r.push(v[i].clone());
        i = i + 1;
    }
    r
}

/// The curried body for the given remaining argument patterns: `return`
/// followed by one `move` closure header per pattern, then the original body
/// block.
pub fn generate_body(fn_args: &Vec<String>, body: &String) -> (r: String)
    ensures
        r@ == body_tokens(fn_args.deep_view(), body@),
{
    let mut out = String::new();
    out.append("return ");
    proof {
        assert(out@ =~= "return "@ + moves_tokens(fn_args.deep_view(), 0));
    }
    let n = fn_args.len();
    let mut i: usize = 0;
    while i < n
        invariant
            n == fn_args@.len(),
            i <= n,
            out@ == "return "@ + moves_tokens(fn_args.deep_view(), i as int),
        decreases n - i,
    {
        out.append("move |");
        out.append(fn_args[i].as_str());
        out.append("| ");
        proof {
            assert(fn_args.deep_view()[i as int] == fn_args@[i as int]@);
            assert(out@ =~= "return "@ + moves_tokens(fn_args.deep_view(), i as int + 1));
        }
        i = i + 1;
    }
    out.append(body.as_str());
    proof {
        assert(out@ =~= body_tokens(fn_args.deep_view(), body@));
    }
    out
}

/// The chain of type alias declarations for a function `fn_name` whose
/// remaining argument types are `fn_arg_types`, whose written return type is
/// `fn_return_type`, and whose generic parameter list, if any, is
/// `fn_generics`. Element `i` of the result is the `i`-th alias.
pub fn generate_type_aliases(
    fn_arg_types: &Vec<String>,
    fn_return_type: &String,
    fn_name: &String,
    fn_generics: &Option<Generics>,
) -> (r: Vec<String>)
    requires
        generics_ok(*fn_generics),
        fn_arg_types@.len() < usize::MAX,
    ensures
        r@.len() == fn_arg_types@.len() + 1,
        forall|i: int|
            0 <= i < r@.len() ==> r@[i]@ == type_alias_tokens(
                fn_arg_types.deep_view(),
                fn_return_type@,
                fn_name@,
                generics_stripped_tokens(*fn_generics),
                i,
            ),
{
    let mut gsuf = String::new();
    match fn_generics {
        Some(gs) => append_generics_stripped(&mut gsuf, gs),
        None => {},
    }
    proof {
        assert(gsuf@ =~= generics_stripped_tokens(*fn_generics));
    }
    let mut r: Vec<String> = Vec::new();
    let mut a0 = String::new();
    a0.append("type ");
    append_alias_ident(&mut a0, fn_name, 0);
    a0.append(gsuf.as_str());
    a0.append(" = ");
    a0.append(fn_return_type.as_str());
    proof {
        assert(a0@ =~= type_alias_tokens(
            fn_arg_types.deep_view(),
            fn_return_type@,
            fn_name@,
            generics_stripped_tokens(*fn_generics),
            0,
        ));
    }
    r.push(a0);
    let n = fn_arg_types.len();
    let mut i: usize = 1;
    while i <= n
        invariant
            n == fn_arg_types@.len(),
            n < usize::MAX,
            1 <= i <= n + 1,
            r@.len() == i,
            gsuf@ == generics_stripped_tokens(*fn_generics),
            forall|j: int|
                0 <= j < i ==> r@[j]@ == type_alias_tokens(
                    fn_arg_types.deep_view(),
                    fn_return_type@,
                    fn_name@,
                    generics_stripped_tokens(*fn_generics),
                    j,
                ),
        decreases n + 1 - i,
    {
        let mut ai = String::new();
        ai.append("type ");
        append_alias_ident(&mut ai, fn_name, i);
        ai.append(gsuf.as_str());
        ai.append(" = impl Fn(");
        ai.append(fn_arg_types[n - i].as_str());
        ai.append(") -> ");
        append_alias_ident(&mut ai, fn_name, i - 1);
        ai.append(gsuf.as_str());
        proof {
            assert(fn_arg_types.deep_view()[n - i] == fn_arg_types@[n - i]@);
            assert(ai@ =~= type_alias_tokens(
                fn_arg_types.deep_view(),
                fn_return_type@,
                fn_name@,
                generics_stripped_tokens(*fn_generics),
                i as int,
            ));
        }
        r.push(ai);
        i = i + 1;
    }
    r
}

/// Appends the generic parameter list stripped to bare identifiers:
/// `<T1, T2, ...>`.
pub fn append_generics_stripped(out: &mut String, generics: &Generics)
    requires
        all_params_type(generics.params@),
    ensures
        final(out)@ == old(out)@ + "<"@ + params_ident_join(generics.params@) + ">"@,
{
    let stripped = remove_traits_from_generics(generics);
    append_generics_full(out, &stripped);
    proof {
        lemma_params_join_stripped(stripped.params@, generics.params@);
    }
}

/// The full rewrite of an accepted declaration: the alias chain followed by
/// the rewritten single-argument function.
#[verifier::rlimit(80)]
pub fn generate_curry(parsed: &ItemFn) -> (r: String)
    requires
        curryable(*parsed),
    ensures
        r@ == curry_tokens(*parsed),
{
    let arg_idents = extract_arg_idents(&parsed.args);
    let tail_idents = tail_of(&arg_idents);
    let curried_body = generate_body(&tail_idents, &parsed.body);
    let arg_types = extract_arg_types(&parsed.args);
    let tail_types = tail_of(&arg_types);
    let fn_return_type = extract_return_type(&parsed.ret);
    proof {
        broadcast use vstd::std_specs::vec::axiom_spec_len;

        assert(parsed.args@.len() == parsed.args.len());
        assert(tail_types@.len() < usize::MAX);
    }
    let type_aliases = generate_type_aliases(
        &tail_types,
        &fn_return_type,
        &parsed.name,
        &parsed.generics,
    );
    proof {
        assert forall|i: int| 0 <= i < tail_types@.len() implies tail_types.deep_view()[i]
            == tail_types_of(*parsed)[i] by {
            assert(tail_types@[i] == arg_types@[i + 1]);
        }
        assert(tail_types.deep_view() =~~= tail_types_of(*parsed));
        assert forall|i: int| 0 <= i < tail_idents@.len() implies tail_idents.deep_view()[i]
            == tail_pats_of(*parsed)[i] by {
            assert(tail_idents@[i] == arg_idents@[i + 1]);
        }
        assert(tail_idents.deep_view() =~~= tail_pats_of(*parsed));
    }
    let ghost spec_types = tail_types_of(*parsed);
    let ghost spec_ret = ret_ty(parsed.ret);
    let ghost spec_gsuf = generics_stripped_tokens(parsed.generics);
    let mut out = String::new();
    let n_alias = type_aliases.len();
    let mut i: usize = 0;
    while i < n_alias
        invariant
            n_alias == type_aliases@.len(),
            i <= n_alias,
            forall|j: int|
                0 <= j < n_alias ==> type_aliases@[j]@ == type_alias_tokens(
                    spec_types,
                    spec_ret,
                    parsed.name@,
                    spec_gsuf,
                    j,
                ),
            out@ == type_aliases_cat(spec_types, spec_ret, parsed.name@, spec_gsuf, i as int),
        decreases n_alias - i,
    {
        out.append(type_aliases[i].as_str());
        out.append("; ");
        proof {
            assert(out@ =~= type_aliases_cat(
                spec_types,
                spec_ret,
                parsed.name@,
                spec_gsuf,
                i as int + 1,
            ));
        }
        i = i + 1;
    }
    proof {
        assert(out@ == type_aliases_cat(
            spec_types,
            spec_ret,
            parsed.name@,
            spec_gsuf,
            parsed.args@.len() as int,
        ));
    }
    let signature = generate_signature(parsed, &arg_idents[0], &arg_types[0], &curried_body);
    out.append(signature.as_str());
    proof {
        assert(out@ =~= curry_tokens(*parsed));
    }
    out
}

/// The rewritten declaration alone: same visibility and name, the first
/// argument alone, the last alias as return type, and the curried body.
#[verifier::rlimit(80)]
fn generate_signature(
    parsed: &ItemFn,
    first_ident: &String,
    first_type: &String,
    curried_body: &String,
) -> (r: String)
    requires
        curryable(*parsed),
        first_ident@ == arg_pat(parsed.args@[0]),
        first_type@ == arg_ty(parsed.args@[0]),
        curried_body@ == body_tokens(tail_pats_of(*parsed), parsed.body@),
    ensures
        r@ == signature_tokens(*parsed),
{
    let mut out = String::new();
    if !parsed.vis.as_str().is_empty() {
        out.append(parsed.vis.as_str());
        out.append(" ");
    }
    proof {
        assert(out@ =~= vis_tokens(parsed.vis@));
    }
    out.append("fn ");
    out.append(parsed.name.as_str());
    match &parsed.generics {
        Some(gs) => append_generics_full(&mut out, gs),
        None => {},
    }
    proof {
        assert(out@ =~= vis_tokens(parsed.vis@) + "fn "@ + parsed.name@ + generics_full_tokens(
            parsed.generics,
        ));
    }
    let ghost head_part = out@;
    out.append("(");
    out.append(first_ident.as_str());
    out.append(": ");
    out.append(first_type.as_str());
    out.append(") -> ");
    proof {
        assert(out@ =~= head_part + "("@ + arg_pat(parsed.args@[0]) + ": "@ + arg_ty(
            parsed.args@[0],
        ) + ") -> "@);
    }
    let ghost mid_part = out@;
    append_alias_ident(&mut out, &parsed.name, parsed.args.len() - 1);
    match &parsed.generics {
        Some(gs) => append_generics_stripped(&mut out, gs),
        None => {},
    }
    proof {
        assert(out@ =~= mid_part + alias_ident(parsed.name@, (parsed.args@.len() - 1) as nat)
            + generics_stripped_tokens(parsed.generics));
    }
    let ghost tail_part = out@;
    out.append(" { ");
    out.append(curried_body.as_str());
    out.append(" ; }");
    proof {
        assert(out@ =~= tail_part + " { "@ + body_tokens(tail_pats_of(*parsed), parsed.body@)
            + " ; }"@);
        assert(out@ =~= signature_tokens(*parsed));
    }
    out
}

/// The rewrite entry point: checks the declaration's shape and either
/// returns the emitted token text or says why the declaration is rejected.
///
/// The result is `Ok` exactly for a curryable declaration; each rejected
/// shape maps to its own error, checked in this order: a receiver argument,
/// no arguments, no written return type, a non-type generic parameter.
pub fn curry(item: &ItemFn) -> (r: Result<String, CurryError>)
    ensures
        r is Ok <==> curryable(*item),
        curryable(*item) ==> (r matches Ok(s) && s@ == curry_tokens(*item)),
        has_receiver(item.args@) ==> r == Err::<String, CurryError>(CurryError::Receiver),
        !has_receiver(item.args@) && item.args@.len() == 0 ==> r == Err::<String, CurryError>(
            CurryError::NoArgs,
        ),
        !has_receiver(item.args@) && item.args@.len() > 0 && !(item.ret is Type) ==> r
            == Err::<String, CurryError>(CurryError::NoReturnType),
        !has_receiver(item.args@) && item.args@.len() > 0 && item.ret is Type && !generics_ok(
            item.generics,
        ) ==> r == Err::<String, CurryError>(CurryError::NonTypeGeneric),
{
    let mut i: usize = 0;
    while i < item.args.len()
        invariant
            i <= item.args@.len(),
            forall|j: int| 0 <= j < i ==> !((#[trigger] item.args@[j]) is Receiver),
        decreases item.args@.len() - i,
    {
        match &item.args[i] {
            FnArg::Receiver => {
                proof {
                    assert(item.args@[i as int] is Receiver);
                    assert(has_receiver(item.args@));
                    assert(!all_args_typed(item.args@));
                }
                return Err(CurryError::Receiver);
            },
            FnArg::Typed(_) => {},
        }
        i = i + 1;
    }
    proof {
        assert(all_args_typed(item.args@));
        assert(!has_receiver(item.args@));
    }
    if item.args.len() == 0 {
        return Err(CurryError::NoArgs);
    }
    match &item.ret {
        ReturnType::Default => {
            return Err(CurryError::NoReturnType);
        },
        ReturnType::Type(_) => {},
    }
    match &item.generics {
        Some(gs) => {
            let mut k: usize = 0;
            while k < gs.params.len()
                invariant
                    item.generics == Some(*gs),
                    !has_receiver(item.args@),
                    all_args_typed(item.args@),
                    item.args@.len() > 0,
                    item.ret is Type,
                    k <= gs.params@.len(),
                    forall|j: int| 0 <= j < k ==> (#[trigger] gs.params@[j]) is Type,
                decreases gs.params@.len() - k,
            {
                match &gs.params[k] {
                    GenericParam::Type(_) => {},
                    _ => {
                        proof {
                            assert(!(gs.params@[k as int] is Type));
                            assert(!all_params_type(gs.params@));
                            assert(!generics_ok(item.generics));
                        }
                        return Err(CurryError::NonTypeGeneric);
                    },
                }
                k = k + 1;
            }
            proof {
                assert(all_params_type(gs.params@));
            }
        },
        None => {},
    }
    Ok(generate_curry(item))
}

} // verus!
