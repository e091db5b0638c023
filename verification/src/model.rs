//! The data model: a structured description of a union declaration, and the
//! conversion records the generator produces from it.
//!
//! Every executable type has a mathematical view (the `*V` types), obtained
//! through [`DeepView`]: strings become `Seq<char>`, vectors become `Seq`.
//! All contracts in this crate are stated over these views.

use vstd::prelude::*;

verus! {

/// The kind of one generic parameter of the union declaration.
#[derive(Clone, Copy, PartialEq, Eq, Structural, Debug)]
pub enum ParamKind {
    /// A type parameter, such as `T`.
    Ty,
    /// A lifetime parameter, such as `'a`.
    Lifetime,
    /// A constant parameter, such as `const N: usize`.
    Const,
}

/// One generic parameter of the union declaration: its kind and its name
/// (for a lifetime the name carries the leading tick, e.g. `'a`).
#[derive(Clone, Debug, PartialEq, Eq)]
pub struct GenericParam {
    pub kind: ParamKind,
    pub name: String,
}

/// View of [`GenericParam`].
pub struct GenericParamV {
    pub kind: ParamKind,
    pub name: Seq<char>,
}

impl DeepView for GenericParam {
    type V = GenericParamV;

    open spec fn deep_view(&self) -> GenericParamV {
        GenericParamV { kind: self.kind, name: self.name@ }
    }
}

/// One argument in a generic argument list, mirroring one parameter.
#[derive(Clone, Debug, PartialEq, Eq)]
pub enum GenericArg {
    /// A type-level argument: a bare reference to a type or constant name.
    TyArg(String),
    /// A lifetime argument.
    LifetimeArg(String),
}

/// View of [`GenericArg`].
pub enum GenericArgV {
    TyArg(Seq<char>),
    LifetimeArg(Seq<char>),
}

impl DeepView for GenericArg {
    type V = GenericArgV;

    open spec fn deep_view(&self) -> GenericArgV {
        match self {
            GenericArg::TyArg(n) => GenericArgV::TyArg(n@),
            GenericArg::LifetimeArg(n) => GenericArgV::LifetimeArg(n@),
        }
    }
}

/// The shape of one variant's fields.
#[derive(Clone, Debug, PartialEq, Eq)]
pub enum FieldShape {
    /// No fields at all.
    Unit,
    /// Unnamed (tuple) fields; each element is the text of one field's type.
    Unnamed(Vec<String>),
    /// Named (struct-like) fields.
    Named,
}

/// View of [`FieldShape`].
pub enum FieldShapeV {
    Unit,
    Unnamed(Seq<Seq<char>>),
    Named,
}

impl DeepView for FieldShape {
    type V = FieldShapeV;

    open spec fn deep_view(&self) -> FieldShapeV {
        match self {
            FieldShape::Unit => FieldShapeV::Unit,
            FieldShape::Unnamed(tys) => FieldShapeV::Unnamed(tys.deep_view()),
            FieldShape::Named => FieldShapeV::Named,
        }
    }
}

/// One variant of the union declaration: its name, its field shape, and the
/// names of the attribute markers placed on it.
#[derive(Clone, Debug, PartialEq, Eq)]
pub struct Variant {
    pub name: String,
    pub fields: FieldShape,
    pub attrs: Vec<String>,
}

/// View of [`Variant`].
pub struct VariantV {
    pub name: Seq<char>,
    pub fields: FieldShapeV,
    pub attrs: Seq<Seq<char>>,
}

impl DeepView for Variant {
    type V = VariantV;

    open spec fn deep_view(&self) -> VariantV {
        VariantV { name: self.name@, fields: self.fields.deep_view(), attrs: self.attrs.deep_view() }
    }
}

/// The variant list of a union declaration.
#[derive(Clone, Debug, PartialEq, Eq)]
pub struct EnumDecl {
    pub variants: Vec<Variant>,
}

impl DeepView for EnumDecl {
    type V = Seq<VariantV>;

    open spec fn deep_view(&self) -> Seq<VariantV> {
        self.variants.deep_view()
    }
}

/// A variant selected for generation, together with the text of its single
/// unnamed field's type (the payload type).
#[derive(Clone, Debug, PartialEq, Eq)]
pub struct VariantFieldEntry {
    pub variant: String,
    pub ty: String,
}

/// View of [`VariantFieldEntry`].
pub struct VariantFieldEntryV {
    pub variant: Seq<char>,
    pub ty: Seq<char>,
}

impl DeepView for VariantFieldEntry {
    type V = VariantFieldEntryV;

    open spec fn deep_view(&self) -> VariantFieldEntryV {
        VariantFieldEntryV { variant: self.variant@, ty: self.ty@ }
    }
}

/// A fully applied reference to a named type: the name followed by a generic
/// argument list. An empty argument list stands for a plain name with no
/// angle brackets.
#[derive(Clone, Debug, PartialEq, Eq)]
pub struct PathTy {
    pub name: String,
    pub args: Vec<GenericArg>,
}

/// View of [`PathTy`].
pub struct PathTyV {
    pub name: Seq<char>,
    pub args: Seq<GenericArgV>,
}

impl DeepView for PathTy {
    type V = PathTyV;

    open spec fn deep_view(&self) -> PathTyV {
        PathTyV { name: self.name@, args: self.args.deep_view() }
    }
}

/// A type expression as it appears in a generated conversion: either a named
/// type used as declared, or a reference around one, carrying the synthesized
/// lifetime of a reference-mode conversion.
#[derive(Clone, Debug, PartialEq, Eq)]
pub enum Ty {
    Path(PathTy),
    Reference { lifetime: String, mutable: bool, elem: PathTy },
}

/// View of [`Ty`].
pub enum TyV {
    Path(PathTyV),
    Reference { lifetime: Seq<char>, mutable: bool, elem: PathTyV },
}

impl DeepView for Ty {
    type V = TyV;

    open spec fn deep_view(&self) -> TyV {
        match self {
            Ty::Path(p) => TyV::Path(p.deep_view()),
            Ty::Reference { lifetime, mutable, elem } => TyV::Reference {
                lifetime: lifetime@,
                mutable: *mutable,
                elem: elem.deep_view(),
            },
        }
    }
}

/// One generated wrap conversion: from a value of `payload_ty` into the union
/// by selecting `variant`, under the union's own generic parameters.
#[derive(Clone, Debug, PartialEq, Eq)]
pub struct WrapConversion {
    pub variant: String,
    pub payload_ty: String,
    pub params: Vec<GenericParam>,
    pub self_ty: PathTy,
}

/// View of [`WrapConversion`].
pub struct WrapConversionV {
    pub variant: Seq<char>,
    pub payload_ty: Seq<char>,
    pub params: Seq<GenericParamV>,
    pub self_ty: PathTyV,
}

impl DeepView for WrapConversion {
    type V = WrapConversionV;

    open spec fn deep_view(&self) -> WrapConversionV {
        WrapConversionV {
            variant: self.variant@,
            payload_ty: self.payload_ty@,
            params: self.params.deep_view(),
            self_ty: self.self_ty.deep_view(),
        }
    }
}

/// One element of the ownership-mode configuration attribute, as the front
/// end lexed it: a reference marker (`ref` or `&`, optionally followed by
/// `mut`), or a bare word.
#[derive(Clone, Debug, PartialEq, Eq)]
pub enum ConfigToken {
    RefMarker { mutable: bool },
    Word(String),
}

/// View of [`ConfigToken`].
pub enum ConfigTokenV {
    RefMarker { mutable: bool },
    Word(Seq<char>),
}

impl DeepView for ConfigToken {
    type V = ConfigTokenV;

    open spec fn deep_view(&self) -> ConfigTokenV {
        match self {
            ConfigToken::RefMarker { mutable } => ConfigTokenV::RefMarker { mutable: *mutable },
            ConfigToken::Word(w) => ConfigTokenV::Word(w@),
        }
    }
}

/// A declaration-level attribute: its name and its arguments, lexed into
/// configuration tokens.
#[derive(Clone, Debug, PartialEq, Eq)]
pub struct TopAttribute {
    pub name: String,
    pub tokens: Vec<ConfigToken>,
}

/// View of [`TopAttribute`].
pub struct TopAttributeV {
    pub name: Seq<char>,
    pub tokens: Seq<ConfigTokenV>,
}

impl DeepView for TopAttribute {
    type V = TopAttributeV;

    open spec fn deep_view(&self) -> TopAttributeV {
        TopAttributeV { name: self.name@, tokens: self.tokens.deep_view() }
    }
}

/// The body of the declaration handed to a derive entry point: either a
/// tagged union (an `enum`) or something else, which is rejected.
#[derive(Clone, Debug, PartialEq, Eq)]
pub enum DeclData {
    Enum(EnumDecl),
    NotEnum,
}

/// View of [`DeclData`].
pub enum DeclDataV {
    Enum(Seq<VariantV>),
    NotEnum,
}

impl DeepView for DeclData {
    type V = DeclDataV;

    open spec fn deep_view(&self) -> DeclDataV {
        match self {
            DeclData::Enum(e) => DeclDataV::Enum(e.deep_view()),
            DeclData::NotEnum => DeclDataV::NotEnum,
        }
    }
}

/// A whole declaration as handed to a derive entry point: its name, its
/// attributes, its generic parameters and its body.
#[derive(Clone, Debug, PartialEq, Eq)]
pub struct Declaration {
    pub ident: String,
    pub attrs: Vec<TopAttribute>,
    pub generics: Vec<GenericParam>,
    pub data: DeclData,
}

/// View of [`Declaration`].
pub struct DeclarationV {
    pub ident: Seq<char>,
    pub attrs: Seq<TopAttributeV>,
    pub generics: Seq<GenericParamV>,
    pub data: DeclDataV,
}

impl DeepView for Declaration {
    type V = DeclarationV;

    open spec fn deep_view(&self) -> DeclarationV {
        DeclarationV {
            ident: self.ident@,
            attrs: self.attrs.deep_view(),
            generics: self.generics.deep_view(),
            data: self.data.deep_view(),
        }
    }
}

} // verus!
