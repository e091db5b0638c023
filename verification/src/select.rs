//! Variant selection and uniqueness resolution, the step shared by both
//! conversion families.
//!
//! Selection keeps the variants with exactly one unnamed field that do not
//! carry the family's exclusion marker. Resolution then drops every selected
//! variant whose payload type is shared with another selected variant: a
//! payload type held by two or more variants is ambiguous, and no conversion
//! is generated for any of them.

use vstd::prelude::*;

use crate::model::{FieldShape, FieldShapeV, Variant, VariantFieldEntry, VariantFieldEntryV, VariantV};

verus! {

/// Whether the attribute list `attrs` contains the marker `marker`.
pub open spec fn has_marker(attrs: Seq<Seq<char>>, marker: Seq<char>) -> bool {
    exists|i: int| 0 <= i < attrs.len() && attrs[i] == marker
}

/// The entry a variant contributes to generation: `Some` exactly when the
/// variant has a single unnamed field and does not carry `marker`.
pub open spec fn eligible_entry(v: VariantV, marker: Seq<char>) -> Option<VariantFieldEntryV> {
    match v.fields {
        FieldShapeV::Unnamed(tys) => if tys.len() == 1 && !has_marker(v.attrs, marker) {
            Some(VariantFieldEntryV { variant: v.name, ty: tys[0] })
        } else {
            None
        },
        _ => None,
    }
}

/// The selection of one variant, as a function value.
pub open spec fn select_fn(marker: Seq<char>) -> spec_fn(VariantV) -> Option<VariantFieldEntryV> {
    |v: VariantV| eligible_entry(v, marker)
}

/// The selected entries of a variant list, in declaration order.
pub open spec fn select_spec(vs: Seq<VariantV>, marker: Seq<char>) -> Seq<VariantFieldEntryV> {
    vs.filter_map(select_fn(marker))
}

/// How many of the selected entries have the payload type `t`.
pub open spec fn ty_count(entries: Seq<VariantFieldEntryV>, t: Seq<char>) -> nat
    decreases entries.len(),
{
    if entries.len() == 0 {
        0
    } else {
        ty_count(entries.drop_last(), t) + if entries.last().ty == t {
            1nat
        } else {
            0nat
        }
    }
}

/// Uniqueness of an entry's payload type among `all`, as a function value.
pub open spec fn once_pred(all: Seq<VariantFieldEntryV>) -> spec_fn(VariantFieldEntryV) -> bool {
    |e: VariantFieldEntryV| ty_count(all, e.ty) == 1
}

/// Having the payload type `t`, as a function value.
pub open spec fn ty_pred(t: Seq<char>) -> spec_fn(VariantFieldEntryV) -> bool {
    |e: VariantFieldEntryV| e.ty == t
}

/// The entries that survive uniqueness resolution: those whose payload type
/// appears exactly once among `entries`, kept in their original order.
pub open spec fn resolve_spec(entries: Seq<VariantFieldEntryV>) -> Seq<VariantFieldEntryV> {
    entries.filter(once_pred(entries))
}

/// Appending an entry extends the count by one exactly when the new entry has
/// the counted type.
pub proof fn lemma_ty_count_push(entries: Seq<VariantFieldEntryV>, e: VariantFieldEntryV, t: Seq<char>)
    ensures
        ty_count(entries.push(e), t) == ty_count(entries, t) + if e.ty == t {
            1nat
        } else {
            0nat
        },
{
    assert(entries.push(e).drop_last() =~= entries);
}

/// Whether `attrs` contains the string `marker`.
fn has_attr(attrs: &Vec<String>, marker: &String) -> (r: bool)
    ensures
        r == has_marker(attrs.deep_view(), marker@),
{
    let n = attrs.len();
    let mut i: usize = 0;
    while i < n
        invariant
            n == attrs@.len(),
            i <= n,
            forall|k: int| 0 <= k < i ==> attrs.deep_view()[k] != marker@,
        decreases n - i,
    {
        if attrs[i].eq(marker) {
            assert(attrs.deep_view()[i as int] == marker@);
            return true;
        }
        i = i + 1;
    }
    false
}

/// Selects the variants eligible for one conversion family: those with a
/// single unnamed field that do not carry the exclusion marker
/// `ignore_ident`. Variants of any other shape are skipped silently.
pub fn get_unnamed_single_non_ignored_variants(variants: &Vec<Variant>, ignore_ident: &String) -> (out: Vec<
    VariantFieldEntry,
>)
    ensures
        out.deep_view() == select_spec(variants.deep_view(), ignore_ident@),
{
    broadcast use vstd::prelude::Seq::lemma_filter_map_take_succ;

    let ghost f = select_fn(ignore_ident@);
    let n = variants.len();
    let mut out: Vec<VariantFieldEntry> = Vec::new();
    let mut i: usize = 0;
    assert(out.deep_view() =~= variants.deep_view().take(0).filter_map(f));
    while i < n
        invariant
            n == variants@.len(),
            i <= n,
            f == select_fn(ignore_ident@),
            out.deep_view() == variants.deep_view().take(i as int).filter_map(f),
        decreases n - i,
    {
        let v = &variants[i];
        let ghost vd = variants.deep_view()[i as int];
        let ghost prev = out.deep_view();
        match &v.fields {
            FieldShape::Unnamed(tys) => {
                if tys.len() == 1 && !has_attr(&v.attrs, ignore_ident) {
                    let entry = VariantFieldEntry { variant: v.name.clone(), ty: tys[0].clone() };
                    proof {
                        assert(f(vd) == Some(entry.deep_view()));
                    }
                    out.push(entry);
                    assert(out.deep_view() =~= prev.push(entry.deep_view()));
                } else {
                    proof {
                        assert(f(vd) is None);
                    }
                }
            },
            _ => {
                proof {
                    assert(f(vd) is None);
                }
            },
        }
        proof {
            variants.deep_view().lemma_filter_map_take_succ(f, i as int);
            assert(out.deep_view() =~= variants.deep_view().take(i + 1).filter_map(f));
        }
        i = i + 1;
    }
    assert(variants.deep_view().take(n as int) =~= variants.deep_view());
    out
}

/// Counts the selected entries whose payload type is `t`.
fn count_ty(entries: &Vec<VariantFieldEntry>, t: &String) -> (n: usize)
    ensures
        n == ty_count(entries.deep_view(), t@),
{
    let len = entries.len();
    let mut n: usize = 0;
    let mut i: usize = 0;
    while i < len
        invariant
            len == entries@.len(),
            i <= len,
            n <= i,
            n == ty_count(entries.deep_view().take(i as int), t@),
        decreases len - i,
    {
        proof {
            lemma_ty_count_push(entries.deep_view().take(i as int), entries.deep_view()[i as int], t@);
            assert(entries.deep_view().take(i + 1) =~= entries.deep_view().take(i as int).push(
                entries.deep_view()[i as int],
            ));
        }
        if entries[i].ty.eq(t) {
            n = n + 1;
        }
        i = i + 1;
    }
    assert(entries.deep_view().take(len as int) =~= entries.deep_view());
    n
}

/// Uniqueness resolution: keeps exactly the entries whose payload type
/// appears once in `entries`. A type seen a second time can never become
/// unique again, so every entry of a duplicated type is dropped, in whatever
/// order the duplicates occur.
pub fn resolve_unique(entries: &Vec<VariantFieldEntry>) -> (out: Vec<VariantFieldEntry>)
    ensures
        out.deep_view() == resolve_spec(entries.deep_view()),
{
    broadcast use vstd::prelude::Seq::lemma_filter_push;
    broadcast use vstd::prelude::Seq::lemma_take_succ_push;

    let ghost p = once_pred(entries.deep_view());
    let len = entries.len();
    let mut out: Vec<VariantFieldEntry> = Vec::new();
    let mut i: usize = 0;
    proof {
        reveal(Seq::filter);
        assert(out.deep_view() =~= entries.deep_view().take(0).filter(p));
    }
    while i < len
        invariant
            len == entries@.len(),
            i <= len,
            p == once_pred(entries.deep_view()),
            out.deep_view() == entries.deep_view().take(i as int).filter(p),
        decreases len - i,
    {
        let ghost prev = out.deep_view();
        let ghost ev = entries.deep_view()[i as int];
        let e = &entries[i];
        if count_ty(entries, &e.ty) == 1 {
            let kept = VariantFieldEntry { variant: e.variant.clone(), ty: e.ty.clone() };
            assert(kept.deep_view() == ev);
            out.push(kept);
            assert(out.deep_view() =~= prev.push(ev));
            assert(p(ev));
        } else {
            assert(!p(ev));
        }
        proof {
            let dv = entries.deep_view();
            dv.lemma_take_succ_push(i as int);
            dv.take(i as int).lemma_filter_push(ev, p);
            assert(entries.deep_view().take(i + 1).filter(p) =~= out.deep_view());
        }
        i = i + 1;
    }
    assert(entries.deep_view().take(len as int) =~= entries.deep_view());
    out
}

} // verus!
