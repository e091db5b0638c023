//! Runtime behavior of the generated conversions.
//!
//! A generated wrap conversion builds a union value by selecting a variant;
//! a generated unwrap conversion tests the value's runtime variant against
//! its target and yields the payload on a match. This module states that
//! behavior over a runtime picture of a union value: the name of its current
//! variant together with the payload it holds.
//!
//! The owned mode's failure carries the original union value itself, so a
//! failed unwrap loses nothing; reference modes hand back only the borrowed
//! value. This asymmetry is deliberate.

use vstd::prelude::*;

verus! {

/// A union value at runtime: its current variant and that variant's payload.
#[derive(Clone, Debug, PartialEq, Eq)]
pub struct UnionValue<V> {
    pub variant: String,
    pub payload: V,
}

/// What an owned-mode unwrap conversion returns: the payload when the
/// value's variant matches the target, the untouched union value otherwise.
pub open spec fn unwrap_owned_spec<V>(u: UnionValue<V>, target: Seq<char>) -> Result<
    V,
    UnionValue<V>,
> {
    if u.variant@ == target {
        Ok(u.payload)
    } else {
        Err(u)
    }
}

/// A wrap conversion's runtime behavior: builds the union value holding
/// `payload` under `variant`. Total — every payload value yields a union
/// value.
pub fn wrap_value<V>(variant: String, payload: V) -> (u: UnionValue<V>)
    ensures
        u == (UnionValue { variant, payload }),
{
    UnionValue { variant, payload }
}

/// An owned-mode unwrap conversion's runtime behavior: yields the payload
/// when the value's variant is `target`, and the original union value as the
/// failure otherwise.
pub fn try_unwrap_owned<V>(u: UnionValue<V>, target: &String) -> (r: Result<V, UnionValue<V>>)
    ensures
        r == unwrap_owned_spec(u, target@),
{
    if u.variant.eq(target) {
        Ok(u.payload)
    } else {
        Err(u)
    }
}

/// A shared-reference-mode unwrap conversion's runtime behavior: yields a
/// reference to the payload on a match, and the borrowed union value as the
/// mismatch indication otherwise.
pub fn try_unwrap_ref<'a, V>(u: &'a UnionValue<V>, target: &String) -> (r: Result<
    &'a V,
    &'a UnionValue<V>,
>)
    ensures
        u.variant@ == target@ ==> (r matches Ok(p) && p == &u.payload),
        u.variant@ != target@ ==> (r matches Err(s) && s == u),
{
    if u.variant.eq(target) {
        Ok(&u.payload)
    } else {
        Err(u)
    }
}

} // verus!
