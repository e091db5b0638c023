//! The unwrap pipeline: fallible conversions from the union back into each
//! retained payload type, expanded across the requested ownership modes.
//!
//! The declaration-level configuration names a set of modes (`owned`, shared
//! reference, mutable reference). Each retained variant yields one conversion
//! per requested mode, consulted in the fixed order owned, shared, mutable.
//! Reference modes wrap both the payload type and the union type in a
//! reference carrying one synthesized lifetime parameter, added to that
//! conversion's generic parameter list only.

use vstd::prelude::*;
use vstd::string::StringExecFns;

use crate::generics::{clone_params, enum_self_ty, self_ty_spec};
use crate::model::{
    ConfigToken, ConfigTokenV, EnumDecl, GenericParam, GenericParamV, ParamKind, PathTy, PathTyV,
    TopAttribute, TopAttributeV, Ty, TyV, VariantFieldEntryV, VariantV,
};
use crate::select::{get_unnamed_single_non_ignored_variants, resolve_spec, resolve_unique, select_spec};

verus! {

/// The exclusion marker of the unwrap family.
pub open spec fn try_into_ignore_marker() -> Seq<char> {
    "try_into_ignore"@
}

/// The name of the declaration-level configuration attribute.
pub open spec fn references_attr_name() -> Seq<char> {
    "try_into_references"@
}

/// The reserved lifetime introduced by reference-mode conversions. Its name
/// is chosen so as not to collide with user lifetimes.
pub open spec fn unwrap_lifetime() -> Seq<char> {
    "'try_into_ref"@
}

/// The set of ownership modes requested for unwrap generation: one flag per
/// mode. Repeated configuration tokens set the same flag again, so duplicates
/// are harmless.
#[derive(Clone, Copy, Debug, PartialEq, Eq, Structural)]
pub struct ReferenceConfig {
    pub owned: bool,
    pub shared: bool,
    pub shared_mut: bool,
}

/// The mode set used when the declaration carries no configuration
/// attribute: owned only.
pub open spec fn default_config() -> ReferenceConfig {
    ReferenceConfig { owned: true, shared: false, shared_mut: false }
}

impl Default for ReferenceConfig {
    /// The default mode set: owned only.
    fn default() -> (r: Self)
        ensures
            r == default_config(),
    {
        ReferenceConfig { owned: true, shared: false, shared_mut: false }
    }
}

/// An unrecognized configuration token: anything other than a reference
/// marker, a reference marker followed by a mutability marker, or the word
/// `owned`. Generation aborts on the first such token.
#[derive(Clone, Copy, Debug, PartialEq, Eq, Structural)]
pub struct ConfigError {
    /// Position of the offending token in the configuration's token list.
    pub index: usize,
}

/// Whether one configuration token is well formed.
pub open spec fn token_ok(t: ConfigTokenV) -> bool {
    match t {
        ConfigTokenV::RefMarker { .. } => true,
        ConfigTokenV::Word(w) => w == "owned"@,
    }
}

/// The mode set denoted by a well-formed token list: each token switches its
/// mode on, and the modes named twice stay on.
pub open spec fn config_of(tokens: Seq<ConfigTokenV>) -> ReferenceConfig {
    ReferenceConfig {
        owned: exists|k: int| 0 <= k < tokens.len() && tokens[k] == ConfigTokenV::Word("owned"@),
        shared: exists|k: int|
            0 <= k < tokens.len() && tokens[k] == (ConfigTokenV::RefMarker { mutable: false }),
        shared_mut: exists|k: int|
            0 <= k < tokens.len() && tokens[k] == (ConfigTokenV::RefMarker { mutable: true }),
    }
}

impl ReferenceConfig {
    /// Parses the comma-separated configuration tokens into a mode set.
    /// Fails on the first token that is neither a reference marker nor the
    /// word `owned`; an empty token list yields the empty mode set.
    pub fn parse(tokens: &Vec<ConfigToken>) -> (r: Result<ReferenceConfig, ConfigError>)
        ensures
            r is Ok <==> (forall|k: int|
                0 <= k < tokens@.len() ==> token_ok(tokens.deep_view()[k])),
            r matches Ok(c) ==> c == config_of(tokens.deep_view()),
            r matches Err(e) ==> e.index < tokens@.len() && !token_ok(
                tokens.deep_view()[e.index as int],
            ) && (forall|k: int| 0 <= k < e.index ==> token_ok(tokens.deep_view()[k])),
    {
        let owned_word: String = String::from_str("owned");
        let n = tokens.len();
        let mut owned = false;
        let mut shared = false;
        let mut shared_mut = false;
        let mut i: usize = 0;
        while i < n
            invariant
                n == tokens@.len(),
                i <= n,
                owned_word@ == "owned"@,
                owned == exists|k: int|
                    0 <= k < i && tokens.deep_view()[k] == ConfigTokenV::Word("owned"@),
                shared == exists|k: int|
                    0 <= k < i && tokens.deep_view()[k] == (ConfigTokenV::RefMarker {
                        mutable: false,
                    }),
                shared_mut == exists|k: int|
                    0 <= k < i && tokens.deep_view()[k] == (ConfigTokenV::RefMarker {
                        mutable: true,
                    }),
                forall|k: int| 0 <= k < i ==> token_ok(tokens.deep_view()[k]),
            decreases n - i,
        {
            let ghost tv = tokens.deep_view()[i as int];
            match &tokens[i] {
                ConfigToken::RefMarker { mutable } => {
                    if *mutable {
                        shared_mut = true;
                        assert(tv == (ConfigTokenV::RefMarker { mutable: true }));
                    } else {
                        shared = true;
                        assert(tv == (ConfigTokenV::RefMarker { mutable: false }));
                    }
                },
                ConfigToken::Word(w) => {
                    if w.eq(&owned_word) {
                        owned = true;
                        assert(tv == ConfigTokenV::Word("owned"@));
                    } else {
                        assert(!token_ok(tv));
                        return Err(ConfigError { index: i });
                    }
                },
            }
            i = i + 1;
        }
        Ok(ReferenceConfig { owned, shared, shared_mut })
    }
}

/// One ownership decoration of a generated unwrap conversion: use the types
/// as declared, or wrap them in a shared or mutable reference carrying the
/// synthesized lifetime.
#[derive(Clone, Debug, PartialEq, Eq)]
pub enum ReferenceDecorator {
    Owned,
    Shared(String),
    SharedMut(String),
}

/// View of [`ReferenceDecorator`].
pub enum ReferenceDecoratorV {
    Owned,
    Shared(Seq<char>),
    SharedMut(Seq<char>),
}

impl DeepView for ReferenceDecorator {
    type V = ReferenceDecoratorV;

    open spec fn deep_view(&self) -> ReferenceDecoratorV {
        match self {
            ReferenceDecorator::Owned => ReferenceDecoratorV::Owned,
            ReferenceDecorator::Shared(l) => ReferenceDecoratorV::Shared(l@),
            ReferenceDecorator::SharedMut(l) => ReferenceDecoratorV::SharedMut(l@),
        }
    }
}

/// The decorators a mode set yields, in the fixed order owned, shared,
/// mutable; each reference decorator carries the lifetime `lt`.
pub open spec fn decorators_spec(cfg: ReferenceConfig, lt: Seq<char>) -> Seq<ReferenceDecoratorV> {
    (if cfg.owned {
        seq![ReferenceDecoratorV::Owned]
    } else {
        Seq::empty()
    }) + (if cfg.shared {
        seq![ReferenceDecoratorV::Shared(lt)]
    } else {
        Seq::empty()
    }) + (if cfg.shared_mut {
        seq![ReferenceDecoratorV::SharedMut(lt)]
    } else {
        Seq::empty()
    })
}

impl ReferenceConfig {
    /// Expands the mode set into its decorators, in the fixed order owned,
    /// shared, mutable, handing each reference decorator the lifetime
    /// `lifetime_name`.
    pub fn to_decorators(self, lifetime_name: String) -> (out: Vec<ReferenceDecorator>)
        ensures
            out.deep_view() == decorators_spec(self, lifetime_name@),
    {
        let ghost lt = lifetime_name@;
        let mut out: Vec<ReferenceDecorator> = Vec::new();
        if self.owned {
            out.push(ReferenceDecorator::Owned);
        }
        if self.shared {
            out.push(ReferenceDecorator::Shared(lifetime_name.clone()));
        }
        if self.shared_mut {
            out.push(ReferenceDecorator::SharedMut(lifetime_name));
        }
        assert(out.deep_view() =~= decorators_spec(self, lt));
        out
    }
}

/// The extra generic parameter a decorator asks for: the synthesized
/// lifetime for reference modes, nothing for the owned mode.
pub open spec fn as_parameter_spec(d: ReferenceDecoratorV) -> Option<GenericParamV> {
    match d {
        ReferenceDecoratorV::Owned => None,
        ReferenceDecoratorV::Shared(l) => Some(GenericParamV { kind: ParamKind::Lifetime, name: l }),
        ReferenceDecoratorV::SharedMut(l) => Some(
            GenericParamV { kind: ParamKind::Lifetime, name: l },
        ),
    }
}

/// A type as one decorator presents it: unchanged for the owned mode, behind
/// a shared or mutable reference for the reference modes.
pub open spec fn wrap_argument_spec(d: ReferenceDecoratorV, over: PathTyV) -> TyV {
    match d {
        ReferenceDecoratorV::Owned => TyV::Path(over),
        ReferenceDecoratorV::Shared(l) => TyV::Reference { lifetime: l, mutable: false, elem: over },
        ReferenceDecoratorV::SharedMut(l) => TyV::Reference {
            lifetime: l,
            mutable: true,
            elem: over,
        },
    }
}

impl ReferenceDecorator {
    /// The generic parameter this decorator adds to one generated
    /// conversion: the synthesized lifetime for reference modes.
    pub fn as_parameter(&self) -> (r: Option<GenericParam>)
        ensures
            r.deep_view() == as_parameter_spec(self.deep_view()),
    {
        match self {
            ReferenceDecorator::Owned => None,
            ReferenceDecorator::Shared(l) => Some(
                GenericParam { kind: ParamKind::Lifetime, name: l.clone() },
            ),
            ReferenceDecorator::SharedMut(l) => Some(
                GenericParam { kind: ParamKind::Lifetime, name: l.clone() },
            ),
        }
    }

    /// Decorates the type `over`: unchanged for the owned mode, behind a
    /// reference carrying this decorator's lifetime otherwise.
    pub fn wrap_argument(&self, over: PathTy) -> (r: Ty)
        ensures
            r.deep_view() == wrap_argument_spec(self.deep_view(), over.deep_view()),
    {
        match self {
            ReferenceDecorator::Owned => Ty::Path(over),
            ReferenceDecorator::Shared(l) => Ty::Reference {
                lifetime: l.clone(),
                mutable: false,
                elem: over,
            },
            ReferenceDecorator::SharedMut(l) => Ty::Reference {
                lifetime: l.clone(),
                mutable: true,
                elem: over,
            },
        }
    }
}

/// One generated unwrap conversion: from the union, decorated by `decorator`,
/// back into the payload type of `variant`.
#[derive(Clone, Debug, PartialEq, Eq)]
pub struct UnwrapConversion {
    pub variant: String,
    pub payload_ty: String,
    pub decorator: ReferenceDecorator,
    pub params: Vec<GenericParam>,
    pub into_ty: Ty,
    pub over_ty: Ty,
}

/// View of [`UnwrapConversion`].
pub struct UnwrapConversionV {
    pub variant: Seq<char>,
    pub payload_ty: Seq<char>,
    pub decorator: ReferenceDecoratorV,
    pub params: Seq<GenericParamV>,
    pub into_ty: TyV,
    pub over_ty: TyV,
}

impl DeepView for UnwrapConversion {
    type V = UnwrapConversionV;

    open spec fn deep_view(&self) -> UnwrapConversionV {
        UnwrapConversionV {
            variant: self.variant@,
            payload_ty: self.payload_ty@,
            decorator: self.decorator.deep_view(),
            params: self.params.deep_view(),
            into_ty: self.into_ty.deep_view(),
            over_ty: self.over_ty.deep_view(),
        }
    }
}

/// A payload type as a bare type reference.
pub open spec fn payload_path(ty: Seq<char>) -> PathTyV {
    PathTyV { name: ty, args: Seq::empty() }
}

/// The unwrap conversion generated for one retained entry under one
/// decorator. Reference modes extend the conversion's own parameter list
/// with the synthesized lifetime; the others are left untouched.
pub open spec fn unwrap_conv_of(
    e: VariantFieldEntryV,
    d: ReferenceDecoratorV,
    name: Seq<char>,
    ps: Seq<GenericParamV>,
) -> UnwrapConversionV {
    UnwrapConversionV {
        variant: e.variant,
        payload_ty: e.ty,
        decorator: d,
        params: ps + (match as_parameter_spec(d) {
            Some(p) => seq![p],
            None => Seq::empty(),
        }),
        into_ty: wrap_argument_spec(d, payload_path(e.ty)),
        over_ty: wrap_argument_spec(d, self_ty_spec(name, ps)),
    }
}

/// The conversions one retained entry yields: one per decorator, in
/// decorator order.
pub open spec fn convs_for_entry(
    e: VariantFieldEntryV,
    decs: Seq<ReferenceDecoratorV>,
    name: Seq<char>,
    ps: Seq<GenericParamV>,
) -> Seq<UnwrapConversionV> {
    decs.map_values(|d: ReferenceDecoratorV| unwrap_conv_of(e, d, name, ps))
}

/// The conversions of one entry, as a function value.
pub open spec fn entry_convs_fn(
    decs: Seq<ReferenceDecoratorV>,
    name: Seq<char>,
    ps: Seq<GenericParamV>,
) -> spec_fn(VariantFieldEntryV) -> Seq<UnwrapConversionV> {
    |e: VariantFieldEntryV| convs_for_entry(e, decs, name, ps)
}

/// The conversions a whole entry list yields, entry by entry.
pub open spec fn unwrap_convs_of_entries(
    es: Seq<VariantFieldEntryV>,
    decs: Seq<ReferenceDecoratorV>,
    name: Seq<char>,
    ps: Seq<GenericParamV>,
) -> Seq<UnwrapConversionV> {
    es.flat_map(entry_convs_fn(decs, name, ps))
}

/// The whole unwrap output for a union declaration: for each variant that is
/// eligible for the unwrap family and has a unique payload type, one
/// conversion per requested mode.
pub open spec fn unwrap_convs_spec(
    vs: Seq<VariantV>,
    name: Seq<char>,
    ps: Seq<GenericParamV>,
    cfg: ReferenceConfig,
    lt: Seq<char>,
) -> Seq<UnwrapConversionV> {
    unwrap_convs_of_entries(
        resolve_spec(select_spec(vs, try_into_ignore_marker())),
        decorators_spec(cfg, lt),
        name,
        ps,
    )
}

/// Appending an entry appends its conversions.
pub proof fn lemma_unwrap_convs_push(
    es: Seq<VariantFieldEntryV>,
    e: VariantFieldEntryV,
    decs: Seq<ReferenceDecoratorV>,
    name: Seq<char>,
    ps: Seq<GenericParamV>,
)
    ensures
        unwrap_convs_of_entries(es.push(e), decs, name, ps) == unwrap_convs_of_entries(
            es,
            decs,
            name,
            ps,
        ) + convs_for_entry(e, decs, name, ps),
{
    es.lemma_flat_map_push(entry_convs_fn(decs, name, ps), e);
}

/// The token list of the first attribute named `try_into_references`, if any
/// attribute carries that name.
pub open spec fn find_references_attr(attrs: Seq<TopAttributeV>) -> Option<Seq<ConfigTokenV>>
    decreases attrs.len(),
{
    if attrs.len() == 0 {
        None
    } else if attrs.first().name == references_attr_name() {
        Some(attrs.first().tokens)
    } else {
        find_references_attr(attrs.drop_first())
    }
}

/// The mode set a declaration's attributes request: the configuration
/// attribute's token list where one is present, the default otherwise.
pub open spec fn effective_config(attrs: Seq<TopAttributeV>) -> ReferenceConfig {
    match find_references_attr(attrs) {
        Some(ts) => config_of(ts),
        None => default_config(),
    }
}

/// Whether the configuration attribute, if present, is well formed.
pub open spec fn config_tokens_ok(attrs: Seq<TopAttributeV>) -> bool {
    match find_references_attr(attrs) {
        Some(ts) => forall|k: int| 0 <= k < ts.len() ==> token_ok(ts[k]),
        None => true,
    }
}

/// A first match at position `i` settles the attribute lookup.
proof fn lemma_find_first(attrs: Seq<TopAttributeV>, i: int)
    requires
        0 <= i < attrs.len(),
        attrs[i].name == references_attr_name(),
        forall|k: int| 0 <= k < i ==> attrs[k].name != references_attr_name(),
    ensures
        find_references_attr(attrs) == Some(attrs[i].tokens),
    decreases i,
{
    if i == 0 {
    } else {
        lemma_find_first(attrs.drop_first(), i - 1);
    }
}

/// No match anywhere settles the attribute lookup.
proof fn lemma_find_none(attrs: Seq<TopAttributeV>)
    requires
        forall|k: int| 0 <= k < attrs.len() ==> attrs[k].name != references_attr_name(),
    ensures
        find_references_attr(attrs) is None,
    decreases attrs.len(),
{
    if attrs.len() == 0 {
    } else {
        lemma_find_none(attrs.drop_first());
    }
}

/// Position of the first attribute named `name`, if any.
fn find_attr_index(attrs: &Vec<TopAttribute>, name: &String) -> (r: Option<usize>)
    ensures
        match r {
            Some(i) => i < attrs@.len() && attrs.deep_view()[i as int].name == name@ && (forall|
                k: int,
            |
                0 <= k < i ==> attrs.deep_view()[k].name != name@),
            None => forall|k: int| 0 <= k < attrs@.len() ==> attrs.deep_view()[k].name != name@,
        },
{
    let n = attrs.len();
    let mut i: usize = 0;
    while i < n
        invariant
            n == attrs@.len(),
            i <= n,
            forall|k: int| 0 <= k < i ==> attrs.deep_view()[k].name != name@,
        decreases n - i,
    {
        if attrs[i].name.eq(name) {
            assert(attrs.deep_view()[i as int].name == name@);
            return Some(i);
        }
        i = i + 1;
    }
    None
}

/// Copies a decorator unchanged, for one generated conversion to carry.
fn clone_decorator(d: &ReferenceDecorator) -> (out: ReferenceDecorator)
    ensures
        out.deep_view() == d.deep_view(),
{
    match d {
        ReferenceDecorator::Owned => ReferenceDecorator::Owned,
        ReferenceDecorator::Shared(l) => ReferenceDecorator::Shared(l.clone()),
        ReferenceDecorator::SharedMut(l) => ReferenceDecorator::SharedMut(l.clone()),
    }
}

/// Generates the unwrap conversions for the union `name` with variant list
/// `enm`, declaration attributes `top_attributes` and generic parameters
/// `generics`. Fails exactly when the configuration attribute holds an
/// unrecognized token, naming the first such token.
pub fn derive_enum_into(
    enm: &EnumDecl,
    name: &String,
    top_attributes: &Vec<TopAttribute>,
    generics: &Vec<GenericParam>,
) -> (r: Result<Vec<UnwrapConversion>, ConfigError>)
    ensures
        r is Ok <==> config_tokens_ok(top_attributes.deep_view()),
        r matches Ok(out) ==> out.deep_view() == unwrap_convs_spec(
            enm.deep_view(),
            name@,
            generics.deep_view(),
            effective_config(top_attributes.deep_view()),
            unwrap_lifetime(),
        ),
        r matches Err(e) ==> (match find_references_attr(top_attributes.deep_view()) {
            Some(ts) => e.index < ts.len() && !token_ok(ts[e.index as int]) && (forall|k: int|
                0 <= k < e.index ==> token_ok(ts[k])),
            None => false,
        }),
{
    let refs_name: String = String::from_str("try_into_references");
    let references: ReferenceConfig = match find_attr_index(top_attributes, &refs_name) {
        Some(i) => {
            proof {
                lemma_find_first(top_attributes.deep_view(), i as int);
            }
            match ReferenceConfig::parse(&top_attributes[i].tokens) {
                Ok(c) => c,
                Err(e) => {
                    proof {
                        let ts = find_references_attr(top_attributes.deep_view())->Some_0;
                        assert(!token_ok(ts[e.index as int]));
                    }
                    return Err(e);
                },
            }
        },
        None => {
            proof {
                lemma_find_none(top_attributes.deep_view());
            }
            ReferenceConfig::default()
        },
    };
    assert(references == effective_config(top_attributes.deep_view()));
    assert(config_tokens_ok(top_attributes.deep_view()));

    let marker: String = String::from_str("try_into_ignore");
    let selected = get_unnamed_single_non_ignored_variants(&enm.variants, &marker);
    let resolved = resolve_unique(&selected);
    assert(resolved.deep_view() == resolve_spec(
        select_spec(enm.deep_view(), try_into_ignore_marker()),
    ));

    let lifetime: String = String::from_str("'try_into_ref");
    let decorators = references.to_decorators(lifetime);
    let ghost gd = decorators.deep_view();
    assert(gd == decorators_spec(references, unwrap_lifetime()));

    let ghost nm = name@;
    let ghost psd = generics.deep_view();
    let n = resolved.len();
    let m = decorators.len();
    let mut out: Vec<UnwrapConversion> = Vec::new();
    let mut i: usize = 0;
    proof {
        reveal(Seq::filter);
        assert(out.deep_view() =~= unwrap_convs_of_entries(
            resolved.deep_view().take(0),
            gd,
            nm,
            psd,
        ));
    }
    while i < n
        invariant
            n == resolved@.len(),
            i <= n,
            m == decorators@.len(),
            gd == decorators.deep_view(),
            nm == name@,
            psd == generics.deep_view(),
            out.deep_view() == unwrap_convs_of_entries(resolved.deep_view().take(i as int), gd, nm, psd),
        decreases n - i,
    {
        let e = &resolved[i];
        let ghost ev = resolved.deep_view()[i as int];
        let ghost base = out.deep_view();
        let mut j: usize = 0;
        assert(out.deep_view() =~= base + convs_for_entry(ev, gd, nm, psd).take(0));
        while j < m
            invariant
                m == decorators@.len(),
                j <= m,
                gd == decorators.deep_view(),
                ev == resolved.deep_view()[i as int],
                i < n,
                n == resolved@.len(),
                e == &resolved[i as int],
                base == unwrap_convs_of_entries(resolved.deep_view().take(i as int), gd, nm, psd),
                nm == name@,
                psd == generics.deep_view(),
                out.deep_view() == base + convs_for_entry(ev, gd, nm, psd).take(j as int),
            decreases m - j,
        {
            let d = &decorators[j];
            let mut params = clone_params(generics);
            match d.as_parameter() {
                Some(p) => {
                    let ghost pp = p.deep_view();
                    params.push(p);
                    assert(params.deep_view() =~= psd + seq![pp]);
                },
                None => {
                    assert(params.deep_view() =~= psd + Seq::<GenericParamV>::empty());
                },
            }
            let payload = PathTy { name: e.ty.clone(), args: Vec::new() };
            assert(payload.deep_view().args =~= payload_path(ev.ty).args);
            let conv = UnwrapConversion {
                variant: e.variant.clone(),
                payload_ty: e.ty.clone(),
                decorator: clone_decorator(d),
                params,
                into_ty: d.wrap_argument(payload),
                over_ty: d.wrap_argument(enum_self_ty(name, generics)),
            };
            assert(conv.deep_view() == unwrap_conv_of(ev, gd[j as int], nm, psd));
            assert(conv.deep_view() == convs_for_entry(ev, gd, nm, psd)[j as int]);
            let ghost prev = out.deep_view();
            out.push(conv);
            assert(out.deep_view() =~= prev.push(conv.deep_view()));
            assert(out.deep_view() =~= base + convs_for_entry(ev, gd, nm, psd).take(j + 1));
            j = j + 1;
        }
        proof {
            assert(convs_for_entry(ev, gd, nm, psd).take(m as int) =~= convs_for_entry(
                ev,
                gd,
                nm,
                psd,
            ));
            let dv = resolved.deep_view();
            assert(dv.take(i + 1) =~= dv.take(i as int).push(ev));
            lemma_unwrap_convs_push(dv.take(i as int), ev, gd, nm, psd);
            assert(out.deep_view() == unwrap_convs_of_entries(dv.take(i + 1), gd, nm, psd));
        }
        i = i + 1;
    }
    assert(resolved.deep_view().take(n as int) =~= resolved.deep_view());
    assert(out.deep_view() == unwrap_convs_of_entries(resolved.deep_view(), gd, nm, psd));
    Ok(out)
}

} // verus!
