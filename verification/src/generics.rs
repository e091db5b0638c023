//! Generic propagation: turning the union's generic parameter list into the
//! argument list that references the union fully instantiated.
//!
//! Each parameter passes through structurally: a type parameter becomes a
//! bare type argument of the same name, a lifetime parameter becomes that
//! lifetime as an argument, and a constant parameter becomes a bare reference
//! to the constant's name used as a type-level argument. Bounds and defaults
//! play no part. An empty parameter list yields an empty argument list, which
//! stands for a self-reference without angle brackets.

use vstd::prelude::*;

use crate::model::{
    GenericArg, GenericArgV, GenericParam, GenericParamV, ParamKind, PathTy, PathTyV,
};

verus! {

/// The argument that mirrors one generic parameter.
pub open spec fn arg_of_param(p: GenericParamV) -> GenericArgV {
    match p.kind {
        ParamKind::Lifetime => GenericArgV::LifetimeArg(p.name),
        ParamKind::Ty => GenericArgV::TyArg(p.name),
        ParamKind::Const => GenericArgV::TyArg(p.name),
    }
}

/// The argument list that mirrors a whole parameter list, in order.
pub open spec fn args_spec(ps: Seq<GenericParamV>) -> Seq<GenericArgV> {
    ps.map_values(|p: GenericParamV| arg_of_param(p))
}

/// The fully applied reference to the union itself: its name applied to the
/// arguments mirroring its own parameters.
pub open spec fn self_ty_spec(name: Seq<char>, ps: Seq<GenericParamV>) -> PathTyV {
    PathTyV { name: name, args: args_spec(ps) }
}

/// Rewrites the union's generic parameter list into the argument list needed
/// to reference the union type fully instantiated.
pub fn type_args_from_parameters(params: &Vec<GenericParam>) -> (out: Vec<GenericArg>)
    ensures
        out.deep_view() == args_spec(params.deep_view()),
{
    let n = params.len();
    let mut out: Vec<GenericArg> = Vec::new();
    let mut i: usize = 0;
    assert(out.deep_view() =~= args_spec(params.deep_view().take(0)));
    while i < n
        invariant
            n == params@.len(),
            i <= n,
            out.deep_view() == args_spec(params.deep_view().take(i as int)),
        decreases n - i,
    {
        let ghost prev = out.deep_view();
        let p = &params[i];
        let arg = match p.kind {
            ParamKind::Lifetime => GenericArg::LifetimeArg(p.name.clone()),
            ParamKind::Ty => GenericArg::TyArg(p.name.clone()),
            ParamKind::Const => GenericArg::TyArg(p.name.clone()),
        };
        assert(arg.deep_view() == arg_of_param(params.deep_view()[i as int]));
        out.push(arg);
        assert(out.deep_view() =~= prev.push(arg.deep_view()));
        assert(out.deep_view() =~= args_spec(params.deep_view().take(i + 1)));
        i = i + 1;
    }
    assert(params.deep_view().take(n as int) =~= params.deep_view());
    out
}

/// Copies a generic parameter list unchanged, for one generated conversion to
/// carry as its own.
pub fn clone_params(params: &Vec<GenericParam>) -> (out: Vec<GenericParam>)
    ensures
        out.deep_view() == params.deep_view(),
{
    let n = params.len();
    let mut out: Vec<GenericParam> = Vec::new();
    let mut i: usize = 0;
    while i < n
        invariant
            n == params@.len(),
            i <= n,
            out.deep_view() == params.deep_view().take(i as int),
        decreases n - i,
    {
        let ghost prev = out.deep_view();
        let p = &params[i];
        let copy = GenericParam { kind: p.kind, name: p.name.clone() };
        assert(copy.deep_view() == params.deep_view()[i as int]);
        out.push(copy);
        assert(out.deep_view() =~= prev.push(params.deep_view()[i as int]));
        assert(out.deep_view() =~= params.deep_view().take(i + 1));
        i = i + 1;
    }
    assert(params.deep_view().take(n as int) =~= params.deep_view());
    out
}

/// Builds the self-reference of the union: the union's name applied to the
/// arguments that mirror `params`, or the bare name when `params` is empty.
pub fn enum_self_ty(name: &String, params: &Vec<GenericParam>) -> (t: PathTy)
    ensures
        t.deep_view() == self_ty_spec(name@, params.deep_view()),
{
    PathTy { name: name.clone(), args: type_args_from_parameters(params) }
}

/// Copies a fully applied type reference unchanged.
pub fn clone_path_ty(t: &PathTy) -> (out: PathTy)
    ensures
        out.deep_view() == t.deep_view(),
{
    let n = t.args.len();
    let mut args: Vec<GenericArg> = Vec::new();
    let mut i: usize = 0;
    while i < n
        invariant
            n == t.args@.len(),
            i <= n,
            args.deep_view() == t.args.deep_view().take(i as int),
        decreases n - i,
    {
        let arg = match &t.args[i] {
            GenericArg::TyArg(s) => GenericArg::TyArg(s.clone()),
            GenericArg::LifetimeArg(s) => GenericArg::LifetimeArg(s.clone()),
        };
        let ghost prev = args.deep_view();
        assert(arg.deep_view() == t.args.deep_view()[i as int]);
        args.push(arg);
        assert(args.deep_view() =~= prev.push(t.args.deep_view()[i as int]));
        assert(args.deep_view() =~= t.args.deep_view().take(i + 1));
        i = i + 1;
    }
    assert(t.args.deep_view().take(n as int) =~= t.args.deep_view());
    let out = PathTy { name: t.name.clone(), args };
    assert(out.deep_view().args == t.deep_view().args);
    out
}

} // verus!
