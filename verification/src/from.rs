//! The wrap pipeline: one total conversion from each retained payload type
//! into the union.
//!
//! A variant takes part when it has a single unnamed field, does not carry
//! the wrap exclusion marker, and its payload type is held by no other
//! eligible variant. Wrap conversions always operate on owned values: the
//! caller supplies an owned payload and receives an owned union value.

use vstd::prelude::*;
use vstd::string::StringExecFns;

use crate::generics::{clone_params, enum_self_ty, self_ty_spec};
use crate::model::{EnumDecl, GenericParam, GenericParamV, VariantFieldEntryV, VariantV, WrapConversion, WrapConversionV};
use crate::select::{get_unnamed_single_non_ignored_variants, resolve_spec, resolve_unique, select_spec};

verus! {

/// The exclusion marker of the wrap family.
pub open spec fn wrap_ignore_marker() -> Seq<char> {
    "from_ignore"@
}

/// The wrap conversion generated for one retained entry.
pub open spec fn wrap_conv_of(e: VariantFieldEntryV, name: Seq<char>, ps: Seq<GenericParamV>) -> WrapConversionV {
    WrapConversionV { variant: e.variant, payload_ty: e.ty, params: ps, self_ty: self_ty_spec(name, ps) }
}

/// The wrap conversion of one entry, as a function value.
pub open spec fn wrap_conv_fn(name: Seq<char>, ps: Seq<GenericParamV>) -> spec_fn(
    VariantFieldEntryV,
) -> WrapConversionV {
    |e: VariantFieldEntryV| wrap_conv_of(e, name, ps)
}

/// The whole wrap output for a union declaration: one conversion per variant
/// that is eligible for the wrap family and has a unique payload type, in
/// declaration order.
pub open spec fn wrap_convs_spec(vs: Seq<VariantV>, name: Seq<char>, ps: Seq<GenericParamV>) -> Seq<
    WrapConversionV,
> {
    resolve_spec(select_spec(vs, wrap_ignore_marker())).map_values(wrap_conv_fn(name, ps))
}

/// Generates the wrap conversions for the union `name` with variant list
/// `enm` and generic parameters `generics`.
pub fn derive_enum_from(enm: &EnumDecl, name: &String, generics: &Vec<GenericParam>) -> (out: Vec<
    WrapConversion,
>)
    ensures
        out.deep_view() == wrap_convs_spec(enm.deep_view(), name@, generics.deep_view()),
{
    let marker: String = String::from_str("from_ignore");
    let selected = get_unnamed_single_non_ignored_variants(&enm.variants, &marker);
    let resolved = resolve_unique(&selected);
    assert(resolved.deep_view() == resolve_spec(select_spec(enm.deep_view(), wrap_ignore_marker())));

    let ghost g = wrap_conv_fn(name@, generics.deep_view());
    let n = resolved.len();
    let mut out: Vec<WrapConversion> = Vec::new();
    let mut i: usize = 0;
    assert(out.deep_view() =~= resolved.deep_view().take(0).map_values(g));
    while i < n
        invariant
            n == resolved@.len(),
            i <= n,
            g == wrap_conv_fn(name@, generics.deep_view()),
            out.deep_view() == resolved.deep_view().take(i as int).map_values(g),
        decreases n - i,
    {
        let e = &resolved[i];
        let conv = WrapConversion {
            variant: e.variant.clone(),
            payload_ty: e.ty.clone(),
            params: clone_params(generics),
            self_ty: enum_self_ty(name, generics),
        };
        let ghost prev = out.deep_view();
        assert(conv.deep_view() == g(resolved.deep_view()[i as int]));
        out.push(conv);
        assert(out.deep_view() =~= prev.push(conv.deep_view()));
        assert(out.deep_view() =~= resolved.deep_view().take(i + 1).map_values(g));
        i = i + 1;
    }
    assert(resolved.deep_view().take(n as int) =~= resolved.deep_view());
    out
}

} // verus!
