use derive_enum_from_into::into::{
    derive_enum_into, ConfigError, ReferenceConfig, ReferenceDecorator,
};
use derive_enum_from_into::model::{
    ConfigToken, DeclData, Declaration, EnumDecl, FieldShape, GenericParam, ParamKind, PathTy,
    TopAttribute, Ty, Variant,
};
use derive_enum_from_into::value::{try_unwrap_owned, try_unwrap_ref, UnionValue};
use derive_enum_from_into::DeriveError;

fn s(x: &str) -> String {
    x.to_string()
}

fn variant(name: &str, payload: &str, attrs: &[&str]) -> Variant {
    Variant {
        name: s(name),
        fields: FieldShape::Unnamed(vec![s(payload)]),
        attrs: attrs.iter().map(|a| s(a)).collect(),
    }
}

fn references_attr(tokens: Vec<ConfigToken>) -> TopAttribute {
    TopAttribute { name: s("try_into_references"), tokens }
}

#[test]
fn into() {
    // Union {Num(f32), Str(String)}: unwrapping at the matching variant
    // yields the payload; at any other variant it fails.
    assert_eq!(
        try_unwrap_owned(UnionValue { variant: s("Num"), payload: 4.2f32 }, &s("Num")),
        Ok(4.2f32)
    );
    assert_eq!(
        try_unwrap_owned(
            UnionValue { variant: s("Str"), payload: "Hello".to_owned() },
            &s("Str")
        ),
        Ok("Hello".to_owned())
    );
    let err = try_unwrap_owned(UnionValue { variant: s("Num"), payload: 56.0f32 }, &s("Str"));
    assert!(err.is_err());
}

#[test]
fn into_reference() {
    // Shared-reference mode: a matching unwrap borrows the payload.
    let number_ref = UnionValue { variant: s("Num"), payload: 4.5f32 };
    assert_eq!(try_unwrap_ref(&number_ref, &s("Num")), Ok(&4.5f32));
    assert_eq!(try_unwrap_ref(&number_ref, &s("Num")), Ok(&4.5f32));
}

#[test]
fn returns_self_if_no_match() {
    // The owned mode's failure value is the original union value itself.
    let number_ref = UnionValue { variant: s("Num"), payload: 4.5f32 };
    assert_eq!(
        try_unwrap_owned(number_ref.clone(), &s("String")),
        Err(number_ref)
    );
}

#[test]
fn into_generic_t() {
    #[derive(Debug, PartialEq)]
    struct B<T>(pub T);

    let my_opt = UnionValue { variant: s("Some"), payload: B(4.5f32) };
    assert_eq!(try_unwrap_owned(my_opt, &s("Some")), Ok(B(4.5f32)));
}

#[test]
fn default_configuration_generates_owned_only() {
    // Union {Num(f32), Str(String)}, no configuration attribute: one owned
    // unwrap conversion per variant, nothing reference-qualified.
    let decl = EnumDecl {
        variants: vec![variant("Num", "f32", &[]), variant("Str", "String", &[])],
    };
    let out = derive_enum_into(&decl, &s("NumberOrString"), &Vec::new(), &Vec::new()).unwrap();
    assert_eq!(out.len(), 2);
    assert_eq!(out[0].variant, s("Num"));
    assert_eq!(out[0].decorator, ReferenceDecorator::Owned);
    assert_eq!(out[0].params, Vec::new());
    assert_eq!(out[0].into_ty, Ty::Path(PathTy { name: s("f32"), args: Vec::new() }));
    assert_eq!(
        out[0].over_ty,
        Ty::Path(PathTy { name: s("NumberOrString"), args: Vec::new() })
    );
    assert_eq!(out[1].variant, s("Str"));
    assert_eq!(out[1].decorator, ReferenceDecorator::Owned);
}

#[test]
fn mode_expansion_counts() {
    // Two retained variants and three requested modes yield six conversions,
    // per variant in the fixed order owned, shared, mutable.
    let decl = EnumDecl {
        variants: vec![variant("Num", "f32", &[]), variant("Str", "String", &[])],
    };
    let attrs = vec![references_attr(vec![
        ConfigToken::RefMarker { mutable: false },
        ConfigToken::RefMarker { mutable: true },
        ConfigToken::Word(s("owned")),
    ])];
    let out = derive_enum_into(&decl, &s("X"), &attrs, &Vec::new()).unwrap();
    assert_eq!(out.len(), 6);
    let lt = s("'try_into_ref");
    assert_eq!(out[0].decorator, ReferenceDecorator::Owned);
    assert_eq!(out[1].decorator, ReferenceDecorator::Shared(lt.clone()));
    assert_eq!(out[2].decorator, ReferenceDecorator::SharedMut(lt.clone()));
    assert_eq!(out[3].decorator, ReferenceDecorator::Owned);
    assert_eq!(out[4].decorator, ReferenceDecorator::Shared(lt.clone()));
    assert_eq!(out[5].decorator, ReferenceDecorator::SharedMut(lt.clone()));
    // Reference modes add the synthesized lifetime to their own parameter
    // list only.
    assert_eq!(out[0].params, Vec::new());
    assert_eq!(
        out[1].params,
        vec![GenericParam { kind: ParamKind::Lifetime, name: lt.clone() }]
    );
    // Reference modes wrap both sides of the conversion.
    assert_eq!(
        out[1].into_ty,
        Ty::Reference {
            lifetime: lt.clone(),
            mutable: false,
            elem: PathTy { name: s("f32"), args: Vec::new() },
        }
    );
    assert_eq!(
        out[2].over_ty,
        Ty::Reference {
            lifetime: lt,
            mutable: true,
            elem: PathTy { name: s("X"), args: Vec::new() },
        }
    );
}

#[test]
fn exclusion_markers_are_independent() {
    // A variant excluded from unwrap still wraps, and the other way round.
    let decl = EnumDecl {
        variants: vec![
            variant("A", "i32", &["try_into_ignore"]),
            variant("B", "bool", &["from_ignore"]),
        ],
    };
    let wraps = derive_enum_from_into::from::derive_enum_from(&decl, &s("X"), &Vec::new());
    assert_eq!(wraps.len(), 1);
    assert_eq!(wraps[0].variant, s("A"));
    let unwraps = derive_enum_into(&decl, &s("X"), &Vec::new(), &Vec::new()).unwrap();
    assert_eq!(unwraps.len(), 1);
    assert_eq!(unwraps[0].variant, s("B"));
}

#[test]
fn unrecognized_token_is_an_error() {
    let decl = EnumDecl { variants: vec![variant("Num", "f32", &[])] };
    let attrs = vec![references_attr(vec![
        ConfigToken::Word(s("owned")),
        ConfigToken::Word(s("banana")),
    ])];
    assert_eq!(
        derive_enum_into(&decl, &s("X"), &attrs, &Vec::new()),
        Err(ConfigError { index: 1 })
    );
}

#[test]
fn empty_configuration_generates_nothing() {
    // An explicit empty mode list requests no modes at all.
    let decl = EnumDecl { variants: vec![variant("Num", "f32", &[])] };
    let attrs = vec![references_attr(Vec::new())];
    let out = derive_enum_into(&decl, &s("X"), &attrs, &Vec::new()).unwrap();
    assert_eq!(out, Vec::new());
}

#[test]
fn duplicate_tokens_are_idempotent() {
    let tokens = vec![
        ConfigToken::Word(s("owned")),
        ConfigToken::Word(s("owned")),
        ConfigToken::RefMarker { mutable: false },
        ConfigToken::RefMarker { mutable: false },
    ];
    let cfg = ReferenceConfig::parse(&tokens).unwrap();
    assert_eq!(cfg, ReferenceConfig { owned: true, shared: true, shared_mut: false });
    let decorators = cfg.to_decorators(s("'x"));
    assert_eq!(
        decorators,
        vec![ReferenceDecorator::Owned, ReferenceDecorator::Shared(s("'x"))]
    );
}

#[test]
fn default_mode_set_is_owned() {
    let cfg = ReferenceConfig::default();
    assert_eq!(cfg, ReferenceConfig { owned: true, shared: false, shared_mut: false });
    assert_eq!(cfg.to_decorators(s("'x")), vec![ReferenceDecorator::Owned]);
}

#[test]
fn decorator_parameter_and_wrapping() {
    let shared = ReferenceDecorator::Shared(s("'r"));
    assert_eq!(
        shared.as_parameter(),
        Some(GenericParam { kind: ParamKind::Lifetime, name: s("'r") })
    );
    assert_eq!(ReferenceDecorator::Owned.as_parameter(), None);
    let base = PathTy { name: s("u8"), args: Vec::new() };
    assert_eq!(
        ReferenceDecorator::Owned.wrap_argument(base.clone()),
        Ty::Path(base.clone())
    );
    assert_eq!(
        ReferenceDecorator::SharedMut(s("'r")).wrap_argument(base.clone()),
        Ty::Reference { lifetime: s("'r"), mutable: true, elem: base }
    );
}

#[test]
fn derive_enum_into_rejects_non_enum() {
    let decl = Declaration {
        ident: s("NotAUnion"),
        attrs: Vec::new(),
        generics: Vec::new(),
        data: DeclData::NotEnum,
    };
    assert_eq!(
        derive_enum_from_into::derive_enum_into(&decl),
        Err(DeriveError::NotAnEnum)
    );
}

#[test]
fn derive_enum_into_entry_reports_config_errors() {
    let decl = Declaration {
        ident: s("X"),
        attrs: vec![references_attr(vec![ConfigToken::Word(s("shared"))])],
        generics: Vec::new(),
        data: DeclData::Enum(EnumDecl { variants: vec![variant("Num", "f32", &[])] }),
    };
    assert_eq!(
        derive_enum_from_into::derive_enum_into(&decl),
        Err(DeriveError::Config(ConfigError { index: 0 }))
    );
}
