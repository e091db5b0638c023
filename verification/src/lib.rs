//! Generation logic for conversions between a tagged union (a Rust `enum`)
//! and the payload types of its single-field variants.
//!
//! The crate works on a structured description of the union declaration
//! (see [`model`]): variants with their field shapes and attribute markers,
//! the union's generic parameters, and a declaration-level configuration of
//! ownership modes. From that description it computes the sequence of
//! conversion declarations to emit: total "wrap" conversions (payload value
//! into the union) and fallible "unwrap" conversions (union back into a
//! payload value, in one or more ownership modes). Rendering those records
//! into source text, and parsing source text into the model, are left to an
//! unverified front end.

use vstd::prelude::*;

pub mod from;
pub mod generics;
pub mod into;
pub mod laws;
pub mod model;
pub mod select;
pub mod value;

use crate::from::{derive_enum_from, wrap_convs_spec};
use crate::into::{
    config_tokens_ok, effective_config, find_references_attr, token_ok, unwrap_convs_spec,
    unwrap_lifetime, ConfigError, UnwrapConversion,
};
use crate::model::{DeclData, DeclDataV, Declaration, WrapConversion};

verus! {

/// Why a derive entry point produced no conversions.
#[derive(Clone, Copy, Debug, PartialEq, Eq, Structural)]
pub enum DeriveError {
    /// The declaration handed in is not a tagged union.
    NotAnEnum,
    /// The ownership-mode configuration holds an unrecognized token.
    Config(ConfigError),
}

/// Entry point of the wrap family: generates the wrap conversions of a
/// declaration, or fails fast when the declaration is not a tagged union.
pub fn derive_from(input: &Declaration) -> (r: Result<Vec<WrapConversion>, DeriveError>)
    ensures
        match input.deep_view().data {
            DeclDataV::Enum(vs) => r matches Ok(out) && out.deep_view() == wrap_convs_spec(
                vs,
                input.ident@,
                input.generics.deep_view(),
            ),
            DeclDataV::NotEnum => r == Err::<Vec<WrapConversion>, DeriveError>(
                DeriveError::NotAnEnum,
            ),
        },
{
    match &input.data {
        DeclData::Enum(e) => Ok(derive_enum_from(e, &input.ident, &input.generics)),
        DeclData::NotEnum => Err(DeriveError::NotAnEnum),
    }
}

/// Entry point of the unwrap family: generates the unwrap conversions of a
/// declaration. Fails fast when the declaration is not a tagged union, and
/// reports the first unrecognized token of the ownership-mode configuration.
pub fn derive_enum_into(input: &Declaration) -> (r: Result<Vec<UnwrapConversion>, DeriveError>)
    ensures
        match input.deep_view().data {
            DeclDataV::Enum(vs) => {
                &&& (r is Ok <==> config_tokens_ok(input.attrs.deep_view()))
                &&& (r matches Ok(out) ==> out.deep_view() == unwrap_convs_spec(
                    vs,
                    input.ident@,
                    input.generics.deep_view(),
                    effective_config(input.attrs.deep_view()),
                    unwrap_lifetime(),
                ))
                &&& (r matches Err(err) ==> err matches DeriveError::Config(e) && (
                match find_references_attr(input.attrs.deep_view()) {
                    Some(ts) => e.index < ts.len() && !token_ok(ts[e.index as int]) && (forall|
                        k: int,
                    |
                        0 <= k < e.index ==> token_ok(ts[k])),
                    None => false,
                }))
            },
            DeclDataV::NotEnum => r == Err::<Vec<UnwrapConversion>, DeriveError>(
                DeriveError::NotAnEnum,
            ),
        },
{
    match &input.data {
        DeclData::Enum(e) => {
            match crate::into::derive_enum_into(e, &input.ident, &input.attrs, &input.generics) {
                Ok(out) => Ok(out),
                Err(err) => Err(DeriveError::Config(err)),
            }
        },
        DeclData::NotEnum => Err(DeriveError::NotAnEnum),
    }
}

} // verus!
