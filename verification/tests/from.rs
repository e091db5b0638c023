use derive_enum_from_into::from::derive_enum_from;
use derive_enum_from_into::generics::type_args_from_parameters;
use derive_enum_from_into::model::{
    DeclData, Declaration, EnumDecl, FieldShape, GenericArg, GenericParam, ParamKind, PathTy,
    Variant, WrapConversion,
};
use derive_enum_from_into::value::{wrap_value, UnionValue};
use derive_enum_from_into::{derive_from, DeriveError};

fn s(x: &str) -> String {
    x.to_string()
}

fn variant(name: &str, payload: &str, attrs: &[&str]) -> Variant {
    Variant {
        name: s(name),
        fields: FieldShape::Unnamed(vec![s(payload)]),
        attrs: attrs.iter().map(|a| s(a)).collect(),
    }
}

#[test]
fn from() {
    // Union {Num(f32), Str(String)}: wrapping a payload selects the matching
    // variant and keeps the payload untouched.
    assert_eq!(
        wrap_value(s("Str"), "Hi".to_owned()),
        UnionValue { variant: s("Str"), payload: "Hi".to_owned() }
    );
    assert_eq!(
        wrap_value(s("Num"), 5.1f32),
        UnionValue { variant: s("Num"), payload: 5.1f32 }
    );
}

#[test]
fn from_with_generics() {
    // Union StringOrNumberRef<'a> {Str(&'a mut String), Num(&'a f32)}.
    let mut hi = "Hi".to_owned();
    let mut hi2 = "Hi".to_owned();
    assert_eq!(
        wrap_value(s("Str"), &mut hi),
        UnionValue { variant: s("Str"), payload: &mut hi2 }
    );
    assert_eq!(
        wrap_value(s("Num"), &5.1f32),
        UnionValue { variant: s("Num"), payload: &5.1f32 }
    );
}

#[test]
fn duplicate_type_fields_detection() {
    // enum X { A(i32), B(String), C(String) }: String is held by two
    // variants, so only the i32 conversion is generated.
    let decl = EnumDecl {
        variants: vec![
            variant("A", "i32", &[]),
            variant("B", "String", &[]),
            variant("C", "String", &[]),
        ],
    };
    let result = derive_enum_from(&decl, &s("X"), &Vec::new());
    assert_eq!(
        result,
        vec![WrapConversion {
            variant: s("A"),
            payload_ty: s("i32"),
            params: Vec::new(),
            self_ty: PathTy { name: s("X"), args: Vec::new() },
        }]
    );
}

#[test]
fn lifetimes() {
    // enum X<'a> { A(&'a i32) }: the lifetime parameter passes through into
    // the conversion's parameter list and into the union's self-reference.
    let decl = EnumDecl { variants: vec![variant("A", "&'a i32", &[])] };
    let generics = vec![GenericParam { kind: ParamKind::Lifetime, name: s("'a") }];
    let result = derive_enum_from(&decl, &s("X"), &generics);
    assert_eq!(
        result,
        vec![WrapConversion {
            variant: s("A"),
            payload_ty: s("&'a i32"),
            params: generics.clone(),
            self_ty: PathTy { name: s("X"), args: vec![GenericArg::LifetimeArg(s("'a"))] },
        }]
    );
}

#[test]
fn wrap_skips_other_shapes() {
    // Unit, named-field and multi-field variants do not take part.
    let decl = EnumDecl {
        variants: vec![
            Variant { name: s("U"), fields: FieldShape::Unit, attrs: Vec::new() },
            Variant { name: s("N"), fields: FieldShape::Named, attrs: Vec::new() },
            Variant {
                name: s("Pair"),
                fields: FieldShape::Unnamed(vec![s("u8"), s("u8")]),
                attrs: Vec::new(),
            },
            variant("Only", "bool", &[]),
        ],
    };
    let result = derive_enum_from(&decl, &s("X"), &Vec::new());
    assert_eq!(result.len(), 1);
    assert_eq!(result[0].variant, s("Only"));
    assert_eq!(result[0].payload_ty, s("bool"));
}

#[test]
fn wrap_ignore_marker_excludes() {
    // A variant marked from_ignore is left out of wrap generation, which
    // also makes a previously duplicated type unique again for the other.
    let decl = EnumDecl {
        variants: vec![
            variant("A", "String", &["from_ignore"]),
            variant("B", "String", &[]),
        ],
    };
    let result = derive_enum_from(&decl, &s("X"), &Vec::new());
    assert_eq!(result.len(), 1);
    assert_eq!(result[0].variant, s("B"));
}

#[test]
fn derive_from_rejects_non_enum() {
    let decl = Declaration {
        ident: s("NotAUnion"),
        attrs: Vec::new(),
        generics: Vec::new(),
        data: DeclData::NotEnum,
    };
    assert_eq!(derive_from(&decl), Err(DeriveError::NotAnEnum));
}

#[test]
fn derive_from_entry_matches_core() {
    // The entry point hands an enum declaration through to wrap generation.
    let decl = Declaration {
        ident: s("NumberOrString"),
        attrs: Vec::new(),
        generics: Vec::new(),
        data: DeclData::Enum(EnumDecl {
            variants: vec![variant("Num", "f32", &[]), variant("Str", "String", &[])],
        }),
    };
    let out = derive_from(&decl).unwrap();
    assert_eq!(out.len(), 2);
    assert_eq!(out[0].variant, s("Num"));
    assert_eq!(out[0].payload_ty, s("f32"));
    assert_eq!(out[1].variant, s("Str"));
    assert_eq!(out[1].payload_ty, s("String"));
}

#[test]
fn generic_arguments_mirror_parameters() {
    let params = vec![
        GenericParam { kind: ParamKind::Ty, name: s("T") },
        GenericParam { kind: ParamKind::Lifetime, name: s("'a") },
        GenericParam { kind: ParamKind::Const, name: s("N") },
    ];
    assert_eq!(
        type_args_from_parameters(&params),
        vec![
            GenericArg::TyArg(s("T")),
            GenericArg::LifetimeArg(s("'a")),
            GenericArg::TyArg(s("N")),
        ]
    );
    assert_eq!(type_args_from_parameters(&Vec::new()), Vec::new());
}
