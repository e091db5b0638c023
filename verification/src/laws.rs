//! The laws of the generator, proved once over the contracts of the two
//! pipelines: how many conversions come out, that a wrapped payload unwraps
//! back, that a failed owned unwrap loses nothing, and that the two
//! families' exclusion markers act independently.

use vstd::prelude::*;

use crate::from::{wrap_conv_fn, wrap_convs_spec, wrap_ignore_marker};
use crate::into::{
    convs_for_entry, decorators_spec, entry_convs_fn, lemma_unwrap_convs_push, try_into_ignore_marker,
    unwrap_convs_of_entries, unwrap_convs_spec, ReferenceConfig, ReferenceDecoratorV,
};
use crate::model::{FieldShapeV, GenericParamV, VariantFieldEntryV, VariantV};
use crate::select::{
    eligible_entry, has_marker, once_pred, resolve_spec, select_fn, select_spec, ty_count, ty_pred,
};
use crate::value::{unwrap_owned_spec, UnionValue};

verus! {

/// The payload types that appear in exactly one entry.
pub open spec fn once_types(entries: Seq<VariantFieldEntryV>) -> Set<Seq<char>> {
    Set::new(|t: Seq<char>| ty_count(entries, t) == 1)
}

/// A sequence that holds `q`-elements at two positions filters under `q` to
/// at least two elements.
proof fn lemma_filter_two<A>(s: Seq<A>, q: spec_fn(A) -> bool, i: int, j: int)
    requires
        0 <= i < j < s.len(),
        q(s[i]),
        q(s[j]),
    ensures
        s.filter(q).len() >= 2,
    decreases s.len(),
{
    reveal(Seq::filter);
    let dl = s.drop_last();
    if j == s.len() - 1 {
        dl.lemma_filter_contains(q, i);
        let x = dl[i];
        assert(dl.filter(q).contains(x));
        assert(dl.filter(q).len() >= 1);
    } else {
        lemma_filter_two(dl, q, i, j);
    }
}

/// Filtering a filtered sequence yields no more elements than filtering the
/// original.
proof fn lemma_filter_filter_le<A>(s: Seq<A>, p: spec_fn(A) -> bool, q: spec_fn(A) -> bool)
    ensures
        s.filter(p).filter(q).len() <= s.filter(q).len(),
    decreases s.len(),
{
    reveal(Seq::filter);
    if s.len() == 0 {
    } else {
        let dl = s.drop_last();
        lemma_filter_filter_le(dl, p, q);
        if p(s.last()) {
            dl.filter(p).lemma_filter_push(s.last(), q);
            assert(s.filter(p) == dl.filter(p).push(s.last()));
        }
    }
}

/// The count of a payload type is the length of the filter that keeps it.
proof fn lemma_ty_count_filter_len(es: Seq<VariantFieldEntryV>, t: Seq<char>)
    ensures
        ty_count(es, t) == es.filter(ty_pred(t)).len(),
    decreases es.len(),
{
    reveal(Seq::filter);
    if es.len() == 0 {
    } else {
        lemma_ty_count_filter_len(es.drop_last(), t);
    }
}

/// A positive count names at least one position.
proof fn lemma_ty_count_pos(es: Seq<VariantFieldEntryV>, t: Seq<char>)
    requires
        ty_count(es, t) >= 1,
    ensures
        exists|i: int| 0 <= i < es.len() && es[i].ty == t,
    decreases es.len(),
{
    if es.last().ty == t {
        assert(es[es.len() - 1].ty == t);
    } else {
        lemma_ty_count_pos(es.drop_last(), t);
        let i = choose|i: int| 0 <= i < es.drop_last().len() && es.drop_last()[i].ty == t;
        assert(es[i].ty == t);
    }
}

/// The retained entries carry pairwise distinct payload types.
proof fn lemma_resolved_tys_distinct(es: Seq<VariantFieldEntryV>, i: int, j: int)
    requires
        0 <= i < resolve_spec(es).len(),
        0 <= j < resolve_spec(es).len(),
        i != j,
    ensures
        resolve_spec(es)[i].ty != resolve_spec(es)[j].ty,
{
    let resolved = resolve_spec(es);
    let p = once_pred(es);
    if resolved[i].ty == resolved[j].ty {
        let t = resolved[i].ty;
        es.lemma_filter_pred(p, i);
        assert(ty_count(es, t) == 1);
        let q = ty_pred(t);
        let (a, b): (int, int) = if i < j {
            (i, j)
        } else {
            (j, i)
        };
        lemma_filter_two(resolved, q, a, b);
        lemma_filter_filter_le(es, p, q);
        lemma_ty_count_filter_len(es, t);
        assert(false);
    }
}

/// *Uniqueness law*: the number of wrap conversions generated for a union is
/// the number of distinct payload types that appear in exactly one eligible
/// variant; a payload type shared by two or more eligible variants
/// contributes no conversion for any of them.
pub proof fn lemma_wrap_conversion_count(vs: Seq<VariantV>, name: Seq<char>, ps: Seq<GenericParamV>)
    ensures
        wrap_convs_spec(vs, name, ps).len() == once_types(select_spec(vs, wrap_ignore_marker())).len(),
        once_types(select_spec(vs, wrap_ignore_marker())).finite(),
{
    let es = select_spec(vs, wrap_ignore_marker());
    let p = once_pred(es);
    let resolved = resolve_spec(es);
    let tys = resolved.map_values(|e: VariantFieldEntryV| e.ty);
    assert(wrap_convs_spec(vs, name, ps).len() == resolved.len());
    assert(tys.len() == resolved.len());

    assert forall|i: int, j: int|
        (0 <= i < tys.len() && 0 <= j < tys.len() && i != j) implies tys[i] != tys[j] by {
        lemma_resolved_tys_distinct(es, i, j);
    }
    assert(tys.no_duplicates());
    tys.unique_seq_to_set();

    assert forall|t: Seq<char>| tys.to_set().contains(t) implies once_types(es).contains(t) by {
        let k = choose|k: int| 0 <= k < tys.len() && tys[k] == t;
        es.lemma_filter_pred(p, k);
    }
    assert forall|t: Seq<char>| once_types(es).contains(t) implies tys.to_set().contains(t) by {
        lemma_ty_count_pos(es, t);
        let k = choose|k: int| 0 <= k < es.len() && es[k].ty == t;
        es.lemma_filter_contains(p, k);
        let r = choose|r: int| 0 <= r < resolved.len() && resolved[r] == es[k];
        assert(tys[r] == t);
        assert(tys.contains(t));
    }
    assert(tys.to_set() =~= once_types(es));
}

/// The unwrap output holds one conversion per retained entry and decorator.
proof fn lemma_unwrap_convs_len(
    es: Seq<VariantFieldEntryV>,
    decs: Seq<ReferenceDecoratorV>,
    name: Seq<char>,
    ps: Seq<GenericParamV>,
)
    ensures
        unwrap_convs_of_entries(es, decs, name, ps).len() == es.len() * decs.len(),
    decreases es.len(),
{
    if es.len() == 0 {
        assert(es.map_values(entry_convs_fn(decs, name, ps)).len() == 0);
        assert(unwrap_convs_of_entries(es, decs, name, ps).len() == 0);
    } else {
        let dl = es.drop_last();
        lemma_unwrap_convs_len(dl, decs, name, ps);
        assert(es =~= dl.push(es.last()));
        lemma_unwrap_convs_push(dl, es.last(), decs, name, ps);
        assert(unwrap_convs_of_entries(es, decs, name, ps).len() == dl.len() * decs.len()
            + decs.len());
        assert((dl.len() + 1) * decs.len() == dl.len() * decs.len() + decs.len()) by (nonlinear_arith);
    }
}

/// How many ownership modes a configuration requests.
pub open spec fn mode_count(cfg: ReferenceConfig) -> nat {
    (if cfg.owned {
        1nat
    } else {
        0nat
    }) + (if cfg.shared {
        1nat
    } else {
        0nat
    }) + (if cfg.shared_mut {
        1nat
    } else {
        0nat
    })
}

/// *Mode expansion law*: a configuration requesting k distinct ownership
/// modes yields exactly k conversions per retained variant — k times m in
/// all, for m retained variants.
pub proof fn lemma_mode_expansion_count(
    vs: Seq<VariantV>,
    name: Seq<char>,
    ps: Seq<GenericParamV>,
    cfg: ReferenceConfig,
    lt: Seq<char>,
)
    ensures
        unwrap_convs_spec(vs, name, ps, cfg, lt).len() == mode_count(cfg) * resolve_spec(
            select_spec(vs, try_into_ignore_marker()),
        ).len(),
{
    let resolved = resolve_spec(select_spec(vs, try_into_ignore_marker()));
    let decs = decorators_spec(cfg, lt);
    assert(decs.len() == mode_count(cfg));
    lemma_unwrap_convs_len(resolved, decs, name, ps);
    assert(resolved.len() * decs.len() == decs.len() * resolved.len()) by (nonlinear_arith);
}

/// *Round-trip law*: wrapping a payload into a union value and unwrapping it
/// in owned mode at the same variant yields the original payload back. Wrap
/// itself is total: every payload value yields a union value.
pub proof fn lemma_wrap_then_unwrap_owned<V>(variant: String, payload: V)
    ensures
        unwrap_owned_spec(UnionValue { variant, payload }, variant@) == Ok::<V, UnionValue<V>>(
            payload,
        ),
{
}

/// *Failure recoverability law*: an owned-mode unwrap against a union value
/// of any other variant fails with the original, unmodified union value.
pub proof fn lemma_unwrap_owned_mismatch_recovers<V>(u: UnionValue<V>, target: Seq<char>)
    requires
        u.variant@ != target,
    ensures
        unwrap_owned_spec(u, target) == Err::<V, UnionValue<V>>(u),
{
}

/// Variant names are pairwise distinct, as Rust guarantees of an `enum`.
pub open spec fn distinct_variant_names(vs: Seq<VariantV>) -> bool {
    forall|i: int, j: int|
        0 <= i < vs.len() && 0 <= j < vs.len() && i != j ==> vs[i].name != vs[j].name
}

/// Whether a variant has exactly one unnamed field.
pub open spec fn single_unnamed(v: VariantV) -> bool {
    match v.fields {
        FieldShapeV::Unnamed(tys) => tys.len() == 1,
        _ => false,
    }
}

/// The payload type of a variant with a single unnamed field.
pub open spec fn single_payload(v: VariantV) -> Seq<char> {
    match v.fields {
        FieldShapeV::Unnamed(tys) => tys[0],
        _ => Seq::empty(),
    }
}

/// A position that maps to `Some` puts its image into the mapped-and-kept
/// sequence.
proof fn lemma_filter_map_contains_fwd<A, B>(s: Seq<A>, f: spec_fn(A) -> Option<B>, i: int)
    requires
        0 <= i < s.len(),
        f(s[i]) is Some,
    ensures
        s.filter_map(f).contains(f(s[i])->Some_0),
    decreases s.len(),
{
    let dl = s.drop_last();
    let b = f(s[i])->Some_0;
    if i == s.len() - 1 {
        assert(s.filter_map(f) == dl.filter_map(f) + seq![b]);
        assert(s.filter_map(f)[dl.filter_map(f).len() as int] == b);
    } else {
        lemma_filter_map_contains_fwd(dl, f, i);
        let pre = dl.filter_map(f);
        let k = choose|k: int| 0 <= k < pre.len() && pre[k] == b;
        assert(s.filter_map(f)[k] == b);
    }
}

/// An eligible variant with a unique payload type puts its entry into the
/// retained entries of its family.
proof fn lemma_family_presence(vs: Seq<VariantV>, marker: Seq<char>, i: int)
    requires
        0 <= i < vs.len(),
        single_unnamed(vs[i]),
        !has_marker(vs[i].attrs, marker),
        ty_count(select_spec(vs, marker), single_payload(vs[i])) == 1,
    ensures
        exists|j: int|
            0 <= j < resolve_spec(select_spec(vs, marker)).len() && resolve_spec(
                select_spec(vs, marker),
            )[j].variant == vs[i].name,
{
    let es = select_spec(vs, marker);
    let f = select_fn(marker);
    let entry = VariantFieldEntryV { variant: vs[i].name, ty: single_payload(vs[i]) };
    assert(f(vs[i]) == Some(entry));
    lemma_filter_map_contains_fwd(vs, f, i);
    assert(es.contains(entry));
    let k = choose|k: int| 0 <= k < es.len() && es[k] == entry;
    let p = once_pred(es);
    assert(p(es[k]));
    es.lemma_filter_contains(p, k);
    let j = choose|j: int|
        0 <= j < resolve_spec(es).len() && resolve_spec(es)[j] == entry;
    assert(resolve_spec(es)[j].variant == vs[i].name);
}

/// A variant carrying a family's exclusion marker contributes no retained
/// entry of that family, provided variant names are distinct.
proof fn lemma_family_absence(vs: Seq<VariantV>, marker: Seq<char>, i: int)
    requires
        distinct_variant_names(vs),
        0 <= i < vs.len(),
        has_marker(vs[i].attrs, marker),
    ensures
        forall|j: int|
            0 <= j < resolve_spec(select_spec(vs, marker)).len() ==> resolve_spec(
                select_spec(vs, marker),
            )[j].variant != vs[i].name,
{
    let es = select_spec(vs, marker);
    let resolved = resolve_spec(es);
    assert forall|j: int| 0 <= j < resolved.len() implies resolved[j].variant != vs[i].name by {
        let e = resolved[j];
        assert(resolved.contains(e));
        es.lemma_filter_contains_rev(once_pred(es), e);
        vs.lemma_filter_map_contains(select_fn(marker), e);
        let t = choose|t: VariantV| #[trigger] vs.contains(t) && select_fn(marker)(t) == Some(e);
        let k = choose|k: int| 0 <= k < vs.len() && vs[k] == t;
        assert(!has_marker(t.attrs, marker));
        assert(k != i);
        assert(e.variant == t.name);
    }
}

/// Every generated unwrap conversion carries the variant name of one of the
/// retained entries.
proof fn lemma_unwrap_conv_variants(
    es: Seq<VariantFieldEntryV>,
    decs: Seq<ReferenceDecoratorV>,
    name: Seq<char>,
    ps: Seq<GenericParamV>,
)
    ensures
        forall|j: int|
            0 <= j < unwrap_convs_of_entries(es, decs, name, ps).len() ==> exists|k: int|
                0 <= k < es.len() && (#[trigger] unwrap_convs_of_entries(es, decs, name, ps)[j]).variant
                    == es[k].variant,
    decreases es.len(),
{
    if es.len() == 0 {
        lemma_unwrap_convs_len(es, decs, name, ps);
    } else {
        let dl = es.drop_last();
        lemma_unwrap_conv_variants(dl, decs, name, ps);
        assert(es =~= dl.push(es.last()));
        lemma_unwrap_convs_push(dl, es.last(), decs, name, ps);
        let whole = unwrap_convs_of_entries(es, decs, name, ps);
        let pre = unwrap_convs_of_entries(dl, decs, name, ps);
        let tail = convs_for_entry(es.last(), decs, name, ps);
        assert forall|j: int| 0 <= j < whole.len() implies exists|k: int|
            0 <= k < es.len() && (#[trigger] whole[j]).variant == es[k].variant by {
            if j < pre.len() {
                assert(whole[j] == pre[j]);
                let k = choose|k: int| 0 <= k < dl.len() && pre[j].variant == dl[k].variant;
                assert(whole[j].variant == es[k].variant);
            } else {
                assert(whole[j] == tail[j - pre.len()]);
                assert(whole[j].variant == es.last().variant);
                assert(whole[j].variant == es[es.len() - 1].variant);
            }
        }
    }
}

/// A retained entry contributes at least one unwrap conversion whenever any
/// mode is requested.
proof fn lemma_unwrap_convs_fwd(
    es: Seq<VariantFieldEntryV>,
    decs: Seq<ReferenceDecoratorV>,
    name: Seq<char>,
    ps: Seq<GenericParamV>,
    k: int,
)
    requires
        0 <= k < es.len(),
        decs.len() >= 1,
    ensures
        exists|j: int|
            0 <= j < unwrap_convs_of_entries(es, decs, name, ps).len() && unwrap_convs_of_entries(
                es,
                decs,
                name,
                ps,
            )[j].variant == es[k].variant,
    decreases es.len(),
{
    let dl = es.drop_last();
    assert(es =~= dl.push(es.last()));
    lemma_unwrap_convs_push(dl, es.last(), decs, name, ps);
    let whole = unwrap_convs_of_entries(es, decs, name, ps);
    let pre = unwrap_convs_of_entries(dl, decs, name, ps);
    let tail = convs_for_entry(es.last(), decs, name, ps);
    if k == es.len() - 1 {
        assert(whole[pre.len() as int] == tail[0]);
        assert(whole[pre.len() as int].variant == es[k].variant);
    } else {
        lemma_unwrap_convs_fwd(dl, decs, name, ps, k);
        let j = choose|j: int| 0 <= j < pre.len() && pre[j].variant == dl[k].variant;
        assert(whole[j] == pre[j]);
        assert(whole[j].variant == es[k].variant);
    }
}

/// *Exclusion independence law*, first direction: a variant excluded from
/// unwrap but not from wrap appears in the wrap output (when otherwise
/// eligible and unique) and in no unwrap conversion.
pub proof fn lemma_exclusion_independence_wrap_side(
    vs: Seq<VariantV>,
    name: Seq<char>,
    ps: Seq<GenericParamV>,
    cfg: ReferenceConfig,
    lt: Seq<char>,
    i: int,
)
    requires
        distinct_variant_names(vs),
        0 <= i < vs.len(),
        single_unnamed(vs[i]),
        has_marker(vs[i].attrs, try_into_ignore_marker()),
        !has_marker(vs[i].attrs, wrap_ignore_marker()),
        ty_count(select_spec(vs, wrap_ignore_marker()), single_payload(vs[i])) == 1,
    ensures
        exists|j: int|
            0 <= j < wrap_convs_spec(vs, name, ps).len() && wrap_convs_spec(vs, name, ps)[j].variant
                == vs[i].name,
        forall|j: int|
            0 <= j < unwrap_convs_spec(vs, name, ps, cfg, lt).len() ==> unwrap_convs_spec(
                vs,
                name,
                ps,
                cfg,
                lt,
            )[j].variant != vs[i].name,
{
    let wrap_resolved = resolve_spec(select_spec(vs, wrap_ignore_marker()));
    lemma_family_presence(vs, wrap_ignore_marker(), i);
    let j0 = choose|j: int|
        0 <= j < wrap_resolved.len() && wrap_resolved[j].variant == vs[i].name;
    assert(wrap_convs_spec(vs, name, ps)[j0].variant == vs[i].name);

    let into_resolved = resolve_spec(select_spec(vs, try_into_ignore_marker()));
    lemma_family_absence(vs, try_into_ignore_marker(), i);
    lemma_unwrap_conv_variants(into_resolved, decorators_spec(cfg, lt), name, ps);
}

/// *Exclusion independence law*, second direction: a variant excluded from
/// wrap but not from unwrap appears in the unwrap output (when otherwise
/// eligible and unique, and at least one mode is requested) and in no wrap
/// conversion.
pub proof fn lemma_exclusion_independence_unwrap_side(
    vs: Seq<VariantV>,
    name: Seq<char>,
    ps: Seq<GenericParamV>,
    cfg: ReferenceConfig,
    lt: Seq<char>,
    i: int,
)
    requires
        distinct_variant_names(vs),
        0 <= i < vs.len(),
        single_unnamed(vs[i]),
        has_marker(vs[i].attrs, wrap_ignore_marker()),
        !has_marker(vs[i].attrs, try_into_ignore_marker()),
        ty_count(select_spec(vs, try_into_ignore_marker()), single_payload(vs[i])) == 1,
        mode_count(cfg) >= 1,
    ensures
        exists|j: int|
            0 <= j < unwrap_convs_spec(vs, name, ps, cfg, lt).len() && unwrap_convs_spec(
                vs,
                name,
                ps,
                cfg,
                lt,
            )[j].variant == vs[i].name,
        forall|j: int|
            0 <= j < wrap_convs_spec(vs, name, ps).len() ==> wrap_convs_spec(vs, name, ps)[j].variant
                != vs[i].name,
{
    let into_resolved = resolve_spec(select_spec(vs, try_into_ignore_marker()));
    let decs = decorators_spec(cfg, lt);
    assert(decs.len() == mode_count(cfg));
    lemma_family_presence(vs, try_into_ignore_marker(), i);
    let k0 = choose|k: int|
        0 <= k < into_resolved.len() && into_resolved[k].variant == vs[i].name;
    lemma_unwrap_convs_fwd(into_resolved, decs, name, ps, k0);
    let whole = unwrap_convs_of_entries(into_resolved, decs, name, ps);
    let j1 = choose|j: int| 0 <= j < whole.len() && whole[j].variant == into_resolved[k0].variant;
    assert(0 <= j1 < unwrap_convs_spec(vs, name, ps, cfg, lt).len() && unwrap_convs_spec(
        vs,
        name,
        ps,
        cfg,
        lt,
    )[j1].variant == vs[i].name);

    lemma_family_absence(vs, wrap_ignore_marker(), i);
    let wrap_resolved = resolve_spec(select_spec(vs, wrap_ignore_marker()));
    assert forall|j: int| 0 <= j < wrap_convs_spec(vs, name, ps).len() implies wrap_convs_spec(
        vs,
        name,
        ps,
    )[j].variant != vs[i].name by {
        assert(wrap_convs_spec(vs, name, ps)[j].variant == wrap_resolved[j].variant);
    }
}

} // verus!
