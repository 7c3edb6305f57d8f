//! The answers about a small program.

use chalk_lowering::bound_var::{BoundVar, DebruijnIndex};
use chalk_lowering::context::ChalkContext;
use chalk_lowering::datums::{
    adt_variance_query, associated_ty_data_query, associated_ty_value_query, fn_def_datum_query,
    fn_def_variance_query, impl_datum_query, impl_def_datum, inputs_and_output,
    struct_datum_query, trait_datum_query, type_alias_associated_ty_value,
};
use chalk_lowering::db::{
    CallableSig, CrateData, EnumData, FunctionData, Generics, HirDatabase, ImplData,
    ImplsForSelfTy, ImplsOfTrait, LangItem, Name, ReturnTypeImplTrait, ReturnTypeImplTraits,
    StructData, TraitData, TraitImpls, TraitItem, TyFingerprint, TypeAliasData, TypeBound,
    UnionData, VariantData,
};
use chalk_lowering::hir;
use chalk_lowering::hir::{
    AssocContainerId, AssocItemId, CallableDefId, CrateId, ImplTraitId, LangItemTarget,
};
use chalk_lowering::ids::{
    AdtId, AssocTypeId, AssociatedTyValueId, ClosureId, FnDefId, ImplId, InternId,
    InternedCallableDefId, InternedClosureId, InternedOpaqueTyId, OpaqueTyId, TraitId,
};
use chalk_lowering::ir::{
    AliasTy, Binders, CanonicalVarKind, ConcreteConst, Const, ConstValue, GenericArg,
    QuantifiedWhereClause, Safety, Scalar, TraitRef, Ty, TyVariableKind, TypeName, UintTy,
    VariableKind, Variance, WhereClause,
};
use chalk_lowering::mapping::{from_chalk, make_binders, ToChalk, TypeAliasAsValue};
use chalk_lowering::rust_ir::{
    AdtKind, ClosureKind, ImplType, InlineBound, Polarity, QuantifiedInlineBound, TraitBound,
};
use chalk_lowering::well_known::WellKnownTrait;

const GENERAL: VariableKind = VariableKind::Ty(TyVariableKind::General);

const HERE: CrateId = CrateId(0);
const OTHER: CrateId = CrateId(1);

/// `trait Future { const LIMIT; type Other: Sized; type Output: Sized + Copy; }`
const FUTURE: hir::TraitId = hir::TraitId(InternId(0));
/// `trait Sized`
const SIZED: hir::TraitId = hir::TraitId(InternId(1));
/// `trait Unpin`
const UNPIN: hir::TraitId = hir::TraitId(InternId(2));

/// `type Output` in the trait.
const OUTPUT: hir::TypeAliasId = hir::TypeAliasId(InternId(0));
/// `type Other` in the trait.
const OTHER_TYPE: hir::TypeAliasId = hir::TypeAliasId(InternId(1));
/// `type Output = Ready` in the impl.
const OUTPUT_VALUE: hir::TypeAliasId = hir::TypeAliasId(InternId(2));
/// `type Extra = Ready` in the impl; the trait has no such type.
const EXTRA_VALUE: hir::TypeAliasId = hir::TypeAliasId(InternId(3));

/// `impl<T> Future for Ready`
const FUTURE_IMPL: hir::ImplId = hir::ImplId(InternId(0));
/// `impl !Sized for Ready`, in the other crate.
const SIZED_IMPL: hir::ImplId = hir::ImplId(InternId(1));

const READY_FP: TyFingerprint = TyFingerprint(40);
const U8_FP: TyFingerprint = TyFingerprint(50);
const U16_FP: TyFingerprint = TyFingerprint(51);
const F32_FP: TyFingerprint = TyFingerprint(60);

fn name(text: &str) -> Name {
    Name { text: text.to_string() }
}

fn var(depth: u32, index: usize) -> Ty {
    Ty::BoundVar(BoundVar { debruijn: DebruijnIndex { depth }, index })
}

fn ready() -> Ty {
    let id = hir::AdtId::StructId(hir::StructId(InternId(0)));
    Ty::Apply { name: TypeName::Adt(AdtId(id)), args: vec![] }
}

fn implemented(trait_: hir::TraitId, depth: u32) -> QuantifiedWhereClause {
    Binders {
        binders: vec![],
        value: WhereClause::Implemented(TraitRef {
            trait_id: TraitId(trait_.0),
            substitution: vec![GenericArg::Ty(var(depth, 0))],
        }),
    }
}

fn generics(num_params: usize, bounded_by: &[hir::TraitId]) -> Generics {
    Generics { num_params, where_clauses: bounded_by.iter().map(|t| implemented(*t, 1)).collect() }
}

fn inline(trait_: hir::TraitId) -> QuantifiedInlineBound {
    let bound = TraitBound { trait_id: TraitId(trait_.0), args_no_self: vec![] };
    Binders { binders: vec![], value: InlineBound::TraitBound(bound) }
}

fn alias(text: &str, container: AssocContainerId, bounds: Vec<TypeBound>) -> TypeAliasData {
    TypeAliasData {
        name: name(text),
        container,
        generics: generics(1, &[SIZED]),
        bounds,
        ty: Binders { binders: vec![GENERAL], value: ready() },
    }
}

fn trait_data(text: &str, lang_attr: Option<&str>, items: Vec<TraitItem>) -> TraitData {
    TraitData {
        name: name(text),
        krate: OTHER,
        is_auto: false,
        lang_attr: lang_attr.map(|s| s.to_string()),
        generics: generics(1, &[]),
        items,
    }
}

fn sig(params: Vec<Ty>, ret: Ty, is_varargs: bool) -> CallableSig {
    CallableSig { params, ret, is_varargs }
}

fn trait_ref(trait_: hir::TraitId) -> Binders<TraitRef> {
    let substitution = vec![GenericArg::Ty(ready())];
    Binders {
        binders: vec![GENERAL],
        value: TraitRef { trait_id: TraitId(trait_.0), substitution },
    }
}

fn lang_item(text: &str, target: LangItemTarget) -> LangItem {
    LangItem { name: text.to_string(), target }
}

fn impl_id(n: u32) -> hir::ImplId {
    hir::ImplId(InternId(n))
}

fn program() -> HirDatabase {
    HirDatabase {
        crates: vec![
            CrateData {
                lang_items: vec![
                    lang_item("sized", LangItemTarget::TraitId(SIZED)),
                    lang_item("unpin", LangItemTarget::TraitId(UNPIN)),
                    lang_item("future_trait", LangItemTarget::TraitId(FUTURE)),
                    lang_item("sized", LangItemTarget::TraitId(UNPIN)),
                    lang_item("drop", LangItemTarget::StructId(hir::StructId(InternId(0)))),
                ],
                trait_impls_in_crate: TraitImpls {
                    by_trait: vec![ImplsOfTrait { trait_: FUTURE, impls: vec![FUTURE_IMPL] }],
                    by_self_ty: vec![
                        ImplsForSelfTy {
                            trait_: FUTURE,
                            self_ty: READY_FP,
                            impls: vec![FUTURE_IMPL],
                        },
                        ImplsForSelfTy {
                            trait_: SIZED,
                            self_ty: U8_FP,
                            impls: vec![impl_id(20)],
                        },
                    ],
                },
                trait_impls_in_deps: TraitImpls {
                    by_trait: vec![
                        ImplsOfTrait { trait_: SIZED, impls: vec![SIZED_IMPL] },
                        ImplsOfTrait { trait_: FUTURE, impls: vec![impl_id(10), impl_id(11)] },
                    ],
                    by_self_ty: vec![
                        ImplsForSelfTy {
                            trait_: SIZED,
                            self_ty: U16_FP,
                            impls: vec![impl_id(21), impl_id(22)],
                        },
                        ImplsForSelfTy {
                            trait_: SIZED,
                            self_ty: U8_FP,
                            impls: vec![impl_id(23)],
                        },
                        ImplsForSelfTy {
                            trait_: SIZED,
                            self_ty: F32_FP,
                            impls: vec![impl_id(24)],
                        },
                    ],
                },
            },
            CrateData {
                lang_items: vec![],
                trait_impls_in_crate: TraitImpls { by_trait: vec![], by_self_ty: vec![] },
                trait_impls_in_deps: TraitImpls { by_trait: vec![], by_self_ty: vec![] },
            },
        ],
        traits: vec![
            trait_data(
                "Future",
                Some("future_trait"),
                vec![
                    TraitItem {
                        name: name("LIMIT"),
                        item: AssocItemId::ConstId(hir::ConstId(InternId(0))),
                    },
                    TraitItem { name: name("Other"), item: AssocItemId::TypeAliasId(OTHER_TYPE) },
                    TraitItem {
                        name: name("Output"),
                        item: AssocItemId::FunctionId(hir::FunctionId(InternId(0))),
                    },
                    TraitItem { name: name("Output"), item: AssocItemId::TypeAliasId(OUTPUT) },
                ],
            ),
            trait_data("Sized", Some("sized"), vec![]),
            trait_data("Unpin", Some("unpin"), vec![]),
        ],
        impls: vec![
            ImplData {
                krate: HERE,
                is_negative: false,
                generics: generics(1, &[SIZED]),
                trait_ref: Some(trait_ref(FUTURE)),
                items: vec![
                    AssocItemId::FunctionId(hir::FunctionId(InternId(0))),
                    AssocItemId::TypeAliasId(EXTRA_VALUE),
                    AssocItemId::TypeAliasId(OUTPUT_VALUE),
                ],
            },
            ImplData {
                krate: OTHER,
                is_negative: true,
                generics: generics(0, &[]),
                trait_ref: Some(trait_ref(SIZED)),
                items: vec![],
            },
        ],
        type_aliases: vec![
            alias(
                "Output",
                AssocContainerId::TraitId(FUTURE),
                vec![
                    TypeBound { predicates: vec![Some(inline(SIZED)), None] },
                    TypeBound { predicates: vec![] },
                    TypeBound { predicates: vec![None, Some(inline(UNPIN)), Some(inline(FUTURE))] },
                ],
            ),
            alias("Other", AssocContainerId::TraitId(FUTURE), vec![]),
            alias("Output", AssocContainerId::ImplId(FUTURE_IMPL), vec![]),
            alias("Extra", AssocContainerId::ImplId(FUTURE_IMPL), vec![]),
        ],
        functions: vec![FunctionData {
            generics: generics(2, &[SIZED]),
            signature: Binders {
                binders: vec![GENERAL, GENERAL],
                value: sig(vec![var(0, 0), ready()], var(0, 1), true),
            },
            return_type_impl_traits: Some(Binders {
                binders: vec![GENERAL, GENERAL],
                value: ReturnTypeImplTraits {
                    impl_traits: vec![
                        ReturnTypeImplTrait {
                            bounds: Binders { binders: vec![GENERAL], value: vec![] },
                        },
                        ReturnTypeImplTrait {
                            bounds: Binders {
                                binders: vec![GENERAL],
                                value: vec![implemented(SIZED, 1), implemented(UNPIN, 1)],
                            },
                        },
                    ],
                },
            }),
        }],
        structs: vec![StructData {
            name: name("Ready"),
            krate: HERE,
            generics: generics(3, &[SIZED]),
            signature: Binders { binders: vec![], value: sig(vec![], ready(), false) },
        }],
        enums: vec![EnumData {
            name: name("Poll"),
            krate: OTHER,
            generics: generics(1, &[]),
            variants: vec![VariantData {
                signature: Binders { binders: vec![GENERAL], value: sig(vec![], ready(), false) },
            }],
        }],
        unions: vec![UnionData { name: name("Slot"), krate: HERE, generics: generics(0, &[]) }],
        int_fps: vec![U8_FP, U16_FP],
        float_fps: vec![F32_FP],
        callable_defs: vec![
            CallableDefId::StructId(hir::StructId(InternId(0))),
            CallableDefId::FunctionId(hir::FunctionId(InternId(0))),
            CallableDefId::EnumVariantId(hir::EnumVariantId {
                parent: hir::EnumId(InternId(0)),
                local_id: 0,
            }),
        ],
        impl_trait_ids: vec![
            ImplTraitId::ReturnTypeImplTrait(hir::FunctionId(InternId(0)), 1),
            ImplTraitId::AsyncBlockTypeImplTrait(3, 4),
        ],
    }
}

fn show<T: std::fmt::Debug>(value: &T) -> String {
    format!("{:?}", value)
}

fn found(impls: Vec<ImplId>) -> Vec<u32> {
    impls.into_iter().map(|id| id.0 .0).collect()
}

fn variable(kind: VariableKind) -> CanonicalVarKind {
    CanonicalVarKind { kind, universe: 0 }
}

#[test]
fn a_trait_and_its_flags() {
    let db = program();
    let datum = trait_datum_query(&db, HERE, TraitId(FUTURE.0));
    assert_eq!(datum.id, TraitId(FUTURE.0));
    assert_eq!(show(&datum.binders.binders), show(&vec![GENERAL]));
    assert!(datum.binders.value.where_clauses.is_empty());
    assert!(datum.flags.upstream);
    assert!(datum.flags.non_enumerable);
    assert!(!datum.flags.auto);
    assert!(!datum.flags.marker);
    assert!(!datum.flags.fundamental);
    assert!(!datum.flags.coinductive);
    assert_eq!(datum.associated_ty_ids, vec![AssocTypeId(OTHER_TYPE.0), AssocTypeId(OUTPUT.0)]);
    assert_eq!(datum.well_known, None);
    assert!(!trait_datum_query(&db, OTHER, TraitId(FUTURE.0)).flags.upstream);
}

#[test]
fn an_auto_trait() {
    let mut db = program();
    db.traits[2].is_auto = true;
    db.traits[2].lang_attr = None;
    let datum = trait_datum_query(&db, HERE, TraitId(UNPIN.0));
    assert!(datum.flags.auto);
    assert_eq!(datum.well_known, None);
}

#[test]
fn well_known_traits() {
    let db = program();
    let context = ChalkContext { db: &db, krate: HERE };
    let sized = context.well_known_trait_id(WellKnownTrait::Sized);
    assert_eq!(sized, Some(TraitId(SIZED.0)));
    assert_eq!(context.trait_datum(TraitId(SIZED.0)).well_known, Some(WellKnownTrait::Sized));
    let unpin = context.well_known_trait_id(WellKnownTrait::Unpin);
    assert_eq!(unpin, Some(TraitId(UNPIN.0)));
    assert_eq!(context.trait_datum(TraitId(UNPIN.0)).well_known, None);
    assert_eq!(context.well_known_trait_id(WellKnownTrait::Copy), None);
    assert_eq!(context.well_known_trait_id(WellKnownTrait::Drop), None);
    let elsewhere = ChalkContext { db: &db, krate: OTHER };
    assert_eq!(elsewhere.well_known_trait_id(WellKnownTrait::Sized), None);
}

#[test]
fn an_associated_type_and_its_bounds() {
    let db = program();
    let datum = associated_ty_data_query(&db, AssocTypeId(OUTPUT.0));
    assert_eq!(datum.trait_id, TraitId(FUTURE.0));
    assert_eq!(datum.id, AssocTypeId(OUTPUT.0));
    assert_eq!(datum.name, OUTPUT);
    assert_eq!(show(&datum.binders.binders), show(&vec![GENERAL]));
    let bounds = vec![inline(SIZED), inline(UNPIN), inline(FUTURE)];
    assert_eq!(show(&datum.binders.value.bounds), show(&bounds));
    assert_eq!(show(&datum.binders.value.where_clauses), show(&vec![implemented(SIZED, 1)]));
    let other = associated_ty_data_query(&db, AssocTypeId(OTHER_TYPE.0));
    assert!(other.binders.value.bounds.is_empty());
}

#[test]
fn structs_enums_and_unions_are_all_described_as_structs() {
    let db = program();
    let ids = [
        (hir::AdtId::StructId(hir::StructId(InternId(0))), 3, false, 1),
        (hir::AdtId::EnumId(hir::EnumId(InternId(0))), 1, true, 0),
        (hir::AdtId::UnionId(hir::UnionId(InternId(0))), 0, false, 0),
    ];
    for (id, params, upstream, clauses) in ids {
        let datum = struct_datum_query(&db, HERE, AdtId(id));
        assert_eq!(datum.id, AdtId(id));
        assert_eq!(datum.kind, AdtKind::Struct);
        assert_eq!(datum.flags.upstream, upstream);
        assert!(!datum.flags.fundamental);
        assert!(!datum.flags.phantom_data);
        assert_eq!(show(&datum.binders.binders), show(&vec![GENERAL; params]));
        assert_eq!(datum.binders.value.variants.len(), 1);
        assert!(datum.binders.value.variants[0].fields.is_empty());
        assert_eq!(datum.binders.value.where_clauses.len(), clauses);
        let variances = adt_variance_query(&db, HERE, AdtId(id));
        assert_eq!(variances, vec![Variance::Invariant; params]);
    }
}

#[test]
fn an_impl_and_the_types_that_it_gives() {
    let db = program();
    let datum = impl_datum_query(&db, HERE, ImplId(FUTURE_IMPL.0));
    assert_eq!(datum.polarity, Polarity::Positive);
    assert_eq!(datum.impl_type, ImplType::Local);
    assert_eq!(show(&datum.binders.binders), show(&vec![GENERAL]));
    assert_eq!(show(&datum.binders.value.trait_ref), show(&trait_ref(FUTURE).value));
    assert_eq!(show(&datum.binders.value.where_clauses), show(&vec![implemented(SIZED, 1)]));
    assert_eq!(datum.associated_ty_value_ids, vec![AssociatedTyValueId(OUTPUT_VALUE.0)]);
    let same = impl_def_datum(&db, HERE, ImplId(FUTURE_IMPL.0), FUTURE_IMPL);
    assert_eq!(show(&same), show(&datum));
}

#[test]
fn a_negative_impl_of_another_crate() {
    let db = program();
    let datum = impl_datum_query(&db, HERE, ImplId(SIZED_IMPL.0));
    assert_eq!(datum.polarity, Polarity::Negative);
    assert_eq!(datum.impl_type, ImplType::External);
    assert!(datum.binders.binders.is_empty());
    assert!(datum.associated_ty_value_ids.is_empty());
    let datum = impl_datum_query(&db, OTHER, ImplId(SIZED_IMPL.0));
    assert_eq!(datum.impl_type, ImplType::Local);
}

#[test]
fn the_values_that_an_impl_lists_can_be_asked_for() {
    let db = program();
    let context = ChalkContext { db: &db, krate: HERE };
    let datum = context.impl_datum(ImplId(FUTURE_IMPL.0));
    let declared = context.trait_datum(datum.binders.value.trait_ref.trait_id);
    for id in &datum.associated_ty_value_ids {
        let value = context.associated_ty_value(*id);
        assert_eq!(value.impl_id, ImplId(FUTURE_IMPL.0));
        assert!(declared.associated_ty_ids.contains(&value.associated_ty_id));
    }
    for id in &declared.associated_ty_ids {
        assert_eq!(context.associated_ty_data(*id).trait_id, declared.id);
    }
}

#[test]
fn the_value_of_an_associated_type() {
    let db = program();
    let value = associated_ty_value_query(&db, HERE, AssociatedTyValueId(OUTPUT_VALUE.0));
    assert_eq!(value.impl_id, ImplId(FUTURE_IMPL.0));
    assert_eq!(value.associated_ty_id, AssocTypeId(OUTPUT.0));
    assert_eq!(show(&value.value.binders), show(&vec![GENERAL]));
    assert_eq!(show(&value.value.value.ty), show(&ready()));
    let same = type_alias_associated_ty_value(&db, HERE, OUTPUT_VALUE);
    assert_eq!(show(&same), show(&value));
}

#[test]
fn a_function_and_its_types() {
    let db = program();
    let datum = fn_def_datum_query(&db, HERE, FnDefId(InternId(1)));
    assert_eq!(datum.id, FnDefId(InternId(1)));
    assert_eq!(datum.sig.safety, Safety::Safe);
    assert!(datum.sig.variadic);
    assert_eq!(show(&datum.binders.binders), show(&vec![GENERAL, GENERAL]));
    let io = &datum.binders.value.inputs_and_output;
    assert!(io.binders.is_empty());
    assert_eq!(show(&io.value.argument_types), show(&vec![var(1, 0), ready()]));
    assert_eq!(show(&io.value.return_type), show(&var(1, 1)));
    assert_eq!(show(&datum.binders.value.where_clauses), show(&vec![implemented(SIZED, 1)]));
    let variances = fn_def_variance_query(&db, HERE, FnDefId(InternId(1)));
    assert_eq!(variances, vec![Variance::Invariant, Variance::Invariant]);
}

#[test]
fn constructors_are_functions() {
    let db = program();
    let context = ChalkContext { db: &db, krate: HERE };
    let of_struct = context.fn_def_datum(FnDefId(InternId(0)));
    assert!(!of_struct.sig.variadic);
    assert!(of_struct.binders.binders.is_empty());
    assert_eq!(of_struct.binders.value.where_clauses.len(), 1);
    assert_eq!(context.fn_def_variance(FnDefId(InternId(0))).len(), 3);
    let of_variant = context.fn_def_datum(FnDefId(InternId(2)));
    assert_eq!(show(&of_variant.binders.binders), show(&vec![GENERAL]));
    assert!(of_variant.binders.value.where_clauses.is_empty());
    assert_eq!(context.fn_def_variance(FnDefId(InternId(2))).len(), 1);
}

#[test]
fn bounds_of_an_impl_trait() {
    let db = program();
    let context = ChalkContext { db: &db, krate: HERE };
    let datum = context.opaque_ty_data(OpaqueTyId(InternId(0)));
    assert_eq!(datum.opaque_ty_id, OpaqueTyId(InternId(0)));
    assert_eq!(show(&datum.bound.binders), show(&vec![GENERAL, GENERAL]));
    let bound = &datum.bound.value;
    assert_eq!(show(&bound.bounds.binders), show(&vec![GENERAL]));
    let clauses = vec![implemented(SIZED, 1), implemented(UNPIN, 1)];
    assert_eq!(show(&bound.bounds.value), show(&clauses));
    assert!(bound.where_clauses.binders.is_empty());
    assert!(bound.where_clauses.value.is_empty());
}

#[test]
fn bounds_of_an_async_block() {
    let db = program();
    let context = ChalkContext { db: &db, krate: HERE };
    let datum = context.opaque_ty_data(OpaqueTyId(InternId(1)));
    assert_eq!(datum.opaque_ty_id, OpaqueTyId(InternId(1)));
    assert_eq!(show(&datum.bound.binders), show(&vec![GENERAL]));
    let bound = &datum.bound.value;
    assert_eq!(show(&bound.bounds.binders), show(&vec![GENERAL]));
    let yields = Binders {
        binders: vec![],
        value: WhereClause::AliasEq {
            alias: AliasTy::Projection {
                associated_ty_id: AssocTypeId(OUTPUT.0),
                substitution: vec![GenericArg::Ty(var(1, 0))],
            },
            ty: var(2, 0),
        },
    };
    assert_eq!(show(&bound.bounds.value), show(&vec![implemented(FUTURE, 1), yields]));
    assert!(bound.where_clauses.binders.is_empty());
    assert!(bound.where_clauses.value.is_empty());
}

#[test]
fn an_async_block_without_a_future_trait_has_no_bounds() {
    let mut without_output = program();
    without_output.traits[0].items.truncate(3);
    let mut not_a_trait = program();
    not_a_trait.crates[0].lang_items[2].target =
        LangItemTarget::FunctionId(hir::FunctionId(InternId(0)));
    let whole = program();
    for (db, krate) in [(&without_output, HERE), (&not_a_trait, HERE), (&whole, OTHER)] {
        let context = ChalkContext { db, krate };
        let datum = context.opaque_ty_data(OpaqueTyId(InternId(1)));
        assert_eq!(show(&datum.bound.binders), show(&vec![GENERAL]));
        assert!(datum.bound.value.bounds.binders.is_empty());
        assert!(datum.bound.value.bounds.value.is_empty());
        assert!(datum.bound.value.where_clauses.value.is_empty());
    }
}

#[test]
fn impls_are_searched_by_the_fingerprint_of_the_self_type() {
    let db = program();
    let context = ChalkContext { db: &db, krate: HERE };
    let params = [GenericArg::Ty(ready())];
    let impls = context.impls_for_trait(TraitId(FUTURE.0), &params, Some(READY_FP), &[]);
    assert_eq!(found(impls), vec![0]);
    let impls = context.impls_for_trait(TraitId(SIZED.0), &params, Some(U8_FP), &[]);
    assert_eq!(found(impls), vec![23, 20]);
    let impls = context.impls_for_trait(TraitId(UNPIN.0), &params, Some(READY_FP), &[]);
    assert!(impls.is_empty());
}

#[test]
fn impls_are_searched_without_restriction_where_there_is_no_fingerprint() {
    let db = program();
    let context = ChalkContext { db: &db, krate: HERE };
    let params = [GenericArg::Ty(ready())];
    let impls = context.impls_for_trait(TraitId(FUTURE.0), &params, None, &[]);
    assert_eq!(found(impls), vec![10, 11, 0]);
    let general = [variable(GENERAL)];
    let params = [GenericArg::Ty(var(0, 0))];
    let impls = context.impls_for_trait(TraitId(FUTURE.0), &params, None, &general);
    assert_eq!(found(impls), vec![10, 11, 0]);
    let elsewhere = ChalkContext { db: &db, krate: OTHER };
    assert!(elsewhere.impls_for_trait(TraitId(FUTURE.0), &params, None, &general).is_empty());
}

#[test]
fn integer_and_float_variables_are_searched_by_all_their_types() {
    let db = program();
    let context = ChalkContext { db: &db, krate: HERE };
    let binders = [
        variable(VariableKind::Lifetime),
        variable(VariableKind::Ty(TyVariableKind::Integer)),
        variable(VariableKind::Ty(TyVariableKind::Float)),
        variable(VariableKind::Const(ready())),
    ];
    let sized = TraitId(SIZED.0);
    let search = |ty: Ty, fp| {
        found(context.impls_for_trait(sized, &[GenericArg::Ty(ty)], fp, &binders))
    };
    assert_eq!(search(var(0, 1), None), vec![23, 21, 22, 20]);
    assert_eq!(search(var(0, 1), Some(F32_FP)), vec![23, 21, 22, 20]);
    assert_eq!(search(var(0, 2), None), vec![24]);
    // a lifetime or a constant is no type variable, and a variable of another binder is not known
    assert_eq!(search(var(0, 0), None), vec![1]);
    assert_eq!(search(var(0, 3), None), vec![1]);
    assert_eq!(search(var(1, 1), None), vec![1]);
}

#[test]
fn a_numeric_variable_is_never_searched_without_restriction() {
    let db = program();
    let context = ChalkContext { db: &db, krate: HERE };
    let future = TraitId(FUTURE.0);
    for kind in [TyVariableKind::Integer, TyVariableKind::Float] {
        let binders = [variable(VariableKind::Ty(kind))];
        let params = [GenericArg::Ty(var(0, 0))];
        for fp in [None, Some(READY_FP)] {
            assert!(context.impls_for_trait(future, &params, fp, &binders).is_empty());
        }
    }
}

#[test]
fn constants_in_the_answers_keep_their_types_and_values() {
    let u8_ty = || Ty::Apply { name: TypeName::Scalar(Scalar::Uint(UintTy::U8)), args: vec![] };
    let bool_ty = || Ty::Apply { name: TypeName::Scalar(Scalar::Bool), args: vec![] };
    let with = |ty: Ty, value| Ty::Apply {
        name: TypeName::Array,
        args: vec![GenericArg::Ty(ready()), GenericArg::Const(Const { ty, value })],
    };
    let number = |depth| {
        ConstValue::BoundVar(BoundVar { debruijn: DebruijnIndex { depth }, index: 0 })
    };
    let known = ConstValue::Concrete(ConcreteConst(3));
    let kinds = || vec![VariableKind::Const(u8_ty()), GENERAL, VariableKind::Const(bool_ty())];

    let signature = sig(vec![with(u8_ty(), number(0))], with(bool_ty(), known), false);
    let io = inputs_and_output(&signature);
    assert_eq!(show(&io.value.argument_types), show(&vec![with(u8_ty(), number(1))]));
    assert_eq!(show(&io.value.return_type), show(&with(bool_ty(), known)));

    let mut db = program();
    db.functions[0].signature = Binders { binders: kinds(), value: signature };
    db.type_aliases[2].ty = Binders { binders: kinds(), value: with(u8_ty(), known) };
    let datum = fn_def_datum_query(&db, HERE, FnDefId(InternId(1)));
    assert_eq!(show(&datum.binders.binders), show(&kinds()));
    assert_eq!(show(&datum.binders.value.inputs_and_output), show(&io));
    let value = associated_ty_value_query(&db, HERE, AssociatedTyValueId(OUTPUT_VALUE.0));
    assert_eq!(show(&value.value.binders), show(&kinds()));
    assert_eq!(show(&value.value.value.ty), show(&with(u8_ty(), known)));
}

#[test]
fn closures_are_described_by_their_signature() {
    let db = program();
    let context = ChalkContext { db: &db, krate: HERE };
    let closure = ClosureId(InternId(5));
    let substs = [GenericArg::Ty(ready())];
    let signature = sig(vec![var(0, 0), ready()], var(2, 1), false);
    let io = context.closure_inputs_and_output(closure, &substs, Some(&signature));
    assert!(io.binders.is_empty());
    assert_eq!(show(&io.value.argument_types), show(&vec![var(1, 0), ready()]));
    assert_eq!(show(&io.value.return_type), show(&var(3, 1)));
    assert_eq!(show(&inputs_and_output(&signature)), show(&io));
    assert_eq!(context.closure_kind(closure, &substs), ClosureKind::Fn);
    let upvars = context.closure_upvars(closure, &substs);
    assert!(upvars.binders.is_empty());
    let unit = Ty::Apply { name: TypeName::Tuple(0), args: vec![] };
    assert_eq!(show(&upvars.value), show(&unit));
    assert!(context.closure_fn_substitution(closure, &substs).is_empty());
}

#[test]
fn a_signature_with_a_number_that_does_not_fit_cannot_be_shifted() {
    assert!(sig(vec![var(7, 0)], ready(), false).can_shift_in());
    assert!(!sig(vec![var(7, 0), var(u32::MAX, 0)], ready(), false).can_shift_in());
    assert!(!sig(vec![], var(u32::MAX, 0), false).can_shift_in());
}

#[test]
fn what_is_not_tracked() {
    let db = program();
    let context = ChalkContext { db: &db, krate: HERE };
    let adt = AdtId(hir::AdtId::StructId(hir::StructId(InternId(0))));
    let repr = context.adt_repr(adt);
    assert!(!repr.c && !repr.packed && repr.int.is_none());
    let u32_ty = Ty::Apply {
        name: TypeName::Scalar(Scalar::Uint(UintTy::U32)),
        args: vec![],
    };
    assert_eq!(show(&context.discriminant_type(&ready())), show(&u32_ty));
    let error = Ty::Apply { name: TypeName::Error, args: vec![] };
    assert_eq!(show(&context.hidden_opaque_type(OpaqueTyId(InternId(0)))), show(&error));
    assert!(context.is_object_safe(TraitId(FUTURE.0)));
    assert!(!context.impl_provided_for(TraitId(FUTURE.0), &ready()));
    assert_eq!(context.adt_datum(adt).id, adt);
    assert_eq!(context.adt_variance(adt).len(), 3);
}

#[test]
fn names_of_definitions() {
    let db = program();
    let context = ChalkContext { db: &db, krate: HERE };
    assert_eq!(context.trait_name(TraitId(FUTURE.0)), "Future");
    assert_eq!(context.assoc_type_name(AssocTypeId(OUTPUT.0)), "Output");
    let adts = [
        (hir::AdtId::StructId(hir::StructId(InternId(0))), "Ready"),
        (hir::AdtId::EnumId(hir::EnumId(InternId(0))), "Poll"),
        (hir::AdtId::UnionId(hir::UnionId(InternId(0))), "Slot"),
    ];
    for (id, text) in adts {
        assert_eq!(context.adt_name(AdtId(id)), text);
    }
}

#[test]
fn names_made_of_numbers() {
    let db = program();
    let context = ChalkContext { db: &db, krate: HERE };
    for n in [0, 7, 9, 10, 11, 99, 100, 1234567890, u32::MAX] {
        let id = InternId(n);
        assert_eq!(context.opaque_type_name(OpaqueTyId(id)), format!("Opaque_{}", n));
        assert_eq!(context.fn_def_name(FnDefId(id)), format!("fn_{}", n));
    }
}

#[test]
fn names_lead_back_to_definitions() {
    let db = program();
    let trait_: hir::TraitId = from_chalk(&db, FUTURE.to_chalk(&db));
    assert_eq!(trait_, FUTURE);
    let impl_: hir::ImplId = from_chalk(&db, SIZED_IMPL.to_chalk(&db));
    assert_eq!(impl_, SIZED_IMPL);
    let value: TypeAliasAsValue = from_chalk(&db, TypeAliasAsValue(EXTRA_VALUE).to_chalk(&db));
    assert_eq!(value, TypeAliasAsValue(EXTRA_VALUE));
    for (i, def) in db.callable_defs.iter().enumerate() {
        let id = def.to_chalk(&db);
        assert_eq!(id, FnDefId(InternId(i as u32)));
        let back: CallableDefId = from_chalk(&db, id);
        assert_eq!(back, *def);
    }
}

#[test]
fn keys_lead_back_to_what_they_are_of() {
    let id = InternId(9);
    assert_eq!(InternedCallableDefId::from(FnDefId(id)), InternedCallableDefId(id));
    assert_eq!(FnDefId::from(InternedCallableDefId(id)), FnDefId(id));
    assert_eq!(InternedOpaqueTyId::from(OpaqueTyId(id)), InternedOpaqueTyId(id));
    assert_eq!(OpaqueTyId::from(InternedOpaqueTyId(id)), OpaqueTyId(id));
    assert_eq!(InternedClosureId::from(ClosureId(id)), InternedClosureId(id));
    assert_eq!(ClosureId::from(InternedClosureId(id)), ClosureId(id));
}

#[test]
fn a_binder_of_types() {
    let binders = make_binders("value", 3);
    assert_eq!(show(&binders.binders), show(&vec![GENERAL, GENERAL, GENERAL]));
    assert_eq!(binders.value, "value");
    assert!(make_binders(0, 0).binders.is_empty());
}
