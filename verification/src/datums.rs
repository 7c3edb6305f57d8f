//! Building the data that the solver asks for.

use std::sync::Arc;

use vstd::pervasive::unreached;
use vstd::prelude::*;

use crate::db::{
    assoc_type_by_name, assoc_types, lemma_filter_step, CallableSig, HirDatabase, TraitItem,
    TypeBound,
};
use crate::hir;
use crate::hir::{
    callable_generic_def, AssocContainerId, AssocItemId, CallableDefId, CrateId, GenericDefId,
    TypeAliasId,
};
use crate::ids::{
    AdtId, AssocTypeId, AssociatedTyValueId, FnDefId, ImplId, InternedCallableDefId, TraitId,
};
use crate::ir::{
    clauses_view, clone_clauses, clone_kinds, kinds_view, tys_view, Binders, BindersView, FnSig,
    Safety, Ty, Variance,
};
use crate::mapping::{
    chalk_assoc_type_id, chalk_impl_id, chalk_trait_id, chalk_value_id, from_assoc_type_id,
    from_chalk, from_chalk_trait_id, hir_assoc_type_id, hir_impl_id, hir_trait_id, hir_value_id,
    make_binders, to_assoc_type_id, type_binder, ToChalk, TypeAliasAsValue,
};
use crate::rust_ir::{
    clone_inline_bound, inline_bound_view, inline_bounds_view, AdtDatum, AdtDatumBound,
    AdtDatumBoundView, AdtDatumView, AdtFlags, AdtKind, AdtVariantDatum, AssociatedTyDatum,
    AssociatedTyDatumBound, AssociatedTyDatumBoundView, AssociatedTyDatumView, AssociatedTyValue,
    AssociatedTyValueBound, AssociatedTyValueView, FnDefDatum, FnDefDatumBound,
    FnDefDatumBoundView, FnDefDatumView, FnDefInputsAndOutputDatum, FnDefInputsAndOutputDatumView,
    ImplDatum, ImplDatumBound, ImplDatumBoundView, ImplDatumView, ImplType, Polarity,
    QuantifiedInlineBound, QuantifiedInlineBoundView, TraitDatum, TraitDatumBound,
    TraitDatumBoundView, TraitDatumView, TraitFlags,
};
use crate::shift::{can_shift_ty, shifted_ty};
use crate::well_known::{marked_trait, well_known_trait_from_lang_attr, WellKnownTrait};

verus! {

/// The predicates among `predicates` that are bounds on the associated type.
pub open spec fn bounds_among(predicates: Seq<Option<QuantifiedInlineBound>>) -> Seq<
    QuantifiedInlineBoundView,
>
    decreases predicates.len(),
{
    if predicates.len() == 0 {
        seq![]
    } else {
        match predicates.last() {
            Some(bound) => bounds_among(predicates.drop_last()).push(inline_bound_view(bound)),
            None => bounds_among(predicates.drop_last()),
        }
    }
}

/// What `bounds` say of the associated type, one after the other.
pub open spec fn lowered_bounds(bounds: Seq<TypeBound>) -> Seq<QuantifiedInlineBoundView>
    decreases bounds.len(),
{
    if bounds.len() == 0 {
        seq![]
    } else {
        lowered_bounds(bounds.drop_last()) + bounds_among(bounds.last().predicates@)
    }
}

/// Whether `id` is an associated type of a trait.
pub open spec fn is_assoc_type(db: HirDatabase, id: AssocTypeId) -> bool {
    &&& db.has_alias(hir_assoc_type_id(id))
    &&& db.alias_at(hir_assoc_type_id(id)).container is TraitId
}

pub open spec fn associated_ty_datum(db: HirDatabase, id: AssocTypeId) -> AssociatedTyDatumView {
    let alias = db.alias_at(hir_assoc_type_id(id));
    AssociatedTyDatumView {
        trait_id: chalk_trait_id(alias.container->TraitId_0),
        id,
        name: hir_assoc_type_id(id),
        binders: BindersView {
            binders: type_binder(alias.generics.num_params as nat),
            value: AssociatedTyDatumBoundView {
                bounds: lowered_bounds(alias.bounds@),
                where_clauses: clauses_view(alias.generics.where_clauses@),
            },
        },
    }
}

fn lower_bounds(bounds: &Vec<TypeBound>) -> (lowered: Vec<QuantifiedInlineBound>)
    ensures
        inline_bounds_view(lowered@) == lowered_bounds(bounds@),
{
    let mut lowered: Vec<QuantifiedInlineBound> = Vec::new();
    assert(inline_bounds_view(lowered@) =~= lowered_bounds(bounds@.take(0)));
    for i in 0..bounds.len()
        invariant
            inline_bounds_view(lowered@) == lowered_bounds(bounds@.take(i as int)),
    {
        let predicates = &bounds[i].predicates;
        let ghost before = inline_bounds_view(lowered@);
        assert(before =~= before + bounds_among(predicates@.take(0)));
        for j in 0..predicates.len()
            invariant
                inline_bounds_view(lowered@) == before + bounds_among(predicates@.take(j as int)),
        {
            assert(predicates@.take(j + 1).drop_last() == predicates@.take(j as int));
            let ghost previous = lowered@;
            if let Some(bound) = &predicates[j] {
                lowered.push(clone_inline_bound(bound));
                assert(inline_bounds_view(lowered@) =~= inline_bounds_view(previous).push(
                    inline_bound_view(*bound),
                ));
            }
        }
        assert(predicates@.take(predicates@.len() as int) == predicates@);
        assert(bounds@.take(i + 1).drop_last() == bounds@.take(i as int));
        assert(bounds@.take(i + 1).last() == bounds@[i as int]);
    }
    assert(bounds@.take(bounds@.len() as int) == bounds@);
    lowered
}

/// The bounds and clauses of an associated type.
pub fn associated_ty_data_query(db: &HirDatabase, id: AssocTypeId) -> (datum: Arc<
    AssociatedTyDatum,
>)
    requires
        is_assoc_type(*db, id),
    ensures
        datum@ == associated_ty_datum(*db, id),
{
    let type_alias = from_assoc_type_id(id);
    let type_alias_data = db.type_alias_data(type_alias);
    let trait_ = match type_alias_data.container {
        AssocContainerId::TraitId(trait_) => trait_,
        _ => unreached(),
    };
    let generic_params = db.generics(GenericDefId::TypeAliasId(type_alias));
    let bounds = lower_bounds(&type_alias_data.bounds);
    let where_clauses = clone_clauses(&generic_params.where_clauses);
    let bound_data = AssociatedTyDatumBound { bounds, where_clauses };
    Arc::new(
        AssociatedTyDatum {
            trait_id: trait_.to_chalk(db),
            id,
            name: type_alias,
            binders: make_binders(bound_data, generic_params.num_params),
        },
    )
}


/// The well-known trait that the attribute, if there is one, marks.
pub open spec fn well_known_by(lang_attr: Option<String>) -> Option<WellKnownTrait> {
    match lang_attr {
        Some(name) => marked_trait(name@),
        None => None,
    }
}

/// The solver's names for associated types.
pub open spec fn chalk_assoc_type_ids(aliases: Seq<TypeAliasId>) -> Seq<AssocTypeId> {
    aliases.map_values(|alias: TypeAliasId| chalk_assoc_type_id(alias))
}

pub open spec fn trait_datum(db: HirDatabase, krate: CrateId, id: TraitId) -> TraitDatumView {
    let trait_ = db.trait_at(hir_trait_id(id));
    TraitDatumView {
        id,
        binders: BindersView {
            binders: type_binder(trait_.generics.num_params as nat),
            value: TraitDatumBoundView {
                where_clauses: clauses_view(trait_.generics.where_clauses@),
            },
        },
        flags: TraitFlags {
            auto: trait_.is_auto,
            marker: false,
            upstream: trait_.krate != krate,
            fundamental: false,
            non_enumerable: true,
            coinductive: false,
        },
        associated_ty_ids: chalk_assoc_type_ids(assoc_types(trait_.items@)),
        well_known: well_known_by(trait_.lang_attr),
    }
}

fn to_assoc_type_ids(aliases: &Vec<TypeAliasId>) -> (ids: Vec<AssocTypeId>)
    ensures
        ids@ == chalk_assoc_type_ids(aliases@),
{
    let mut ids: Vec<AssocTypeId> = Vec::new();
    for i in 0..aliases.len()
        invariant
            ids@ == chalk_assoc_type_ids(aliases@.take(i as int)),
    {
        ids.push(to_assoc_type_id(aliases[i]));
        assert(chalk_assoc_type_ids(aliases@.take(i + 1)) == chalk_assoc_type_ids(
            aliases@.take(i as int),
        ).push(chalk_assoc_type_id(aliases@[i as int])));
    }
    assert(aliases@.take(aliases@.len() as int) == aliases@);
    ids
}

/// The flags, clauses and associated types of a trait, as seen from `krate`.
pub fn trait_datum_query(db: &HirDatabase, krate: CrateId, trait_id: TraitId) -> (datum: Arc<
    TraitDatum,
>)
    requires
        db.has_trait(hir_trait_id(trait_id)),
    ensures
        datum@ == trait_datum(*db, krate, trait_id),
{
    let trait_: hir::TraitId = from_chalk(db, trait_id);
    let trait_data = db.trait_data(trait_);
    let generic_params = db.generics(GenericDefId::TraitId(trait_));
    let flags = TraitFlags {
        auto: trait_data.is_auto,
        upstream: trait_data.krate != krate,
        non_enumerable: true,
        // only relevant for testing the solver
        coinductive: false,
        // these two are not tracked
        marker: false,
        fundamental: false,
    };
    let where_clauses = clone_clauses(&generic_params.where_clauses);
    let associated_ty_ids = to_assoc_type_ids(&trait_data.associated_types());
    let well_known = match &trait_data.lang_attr {
        Some(name) => well_known_trait_from_lang_attr(name.as_str()),
        None => None,
    };
    Arc::new(
        TraitDatum {
            id: trait_id,
            binders: make_binders(TraitDatumBound { where_clauses }, generic_params.num_params),
            flags,
            associated_ty_ids,
            well_known,
        },
    )
}

pub open spec fn struct_datum(db: HirDatabase, krate: CrateId, id: AdtId) -> AdtDatumView {
    let generics = db.generics_of(GenericDefId::AdtId(id.0));
    AdtDatumView {
        binders: BindersView {
            binders: type_binder(generics.num_params as nat),
            value: AdtDatumBoundView {
                variants: seq![seq![]],
                where_clauses: clauses_view(generics.where_clauses@),
            },
        },
        id,
        flags: AdtFlags {
            upstream: db.adt_crate_of(id.0) != krate,
            fundamental: false,
            phantom_data: false,
        },
        kind: AdtKind::Struct,
    }
}

/// The clauses of a struct, enum or union, as seen from `krate`. All three are described as a
/// struct without fields: fields and variants only matter for auto traits.
pub fn struct_datum_query(db: &HirDatabase, krate: CrateId, struct_id: AdtId) -> (datum: Arc<
    AdtDatum,
>)
    requires
        db.has_adt(struct_id.0),
    ensures
        datum@ == struct_datum(*db, krate, struct_id),
{
    let AdtId(adt_id) = struct_id;
    let generic_params = db.generics(GenericDefId::AdtId(adt_id));
    let upstream = db.adt_crate(adt_id) != krate;
    let where_clauses = clone_clauses(&generic_params.where_clauses);
    let flags = AdtFlags { upstream, fundamental: false, phantom_data: false };
    let fields: Vec<Ty> = Vec::new();
    let mut variants: Vec<AdtVariantDatum> = Vec::new();
    variants.push(AdtVariantDatum { fields });
    let struct_datum_bound = AdtDatumBound { variants, where_clauses };
    let datum = AdtDatum {
        kind: AdtKind::Struct,
        id: struct_id,
        binders: make_binders(struct_datum_bound, generic_params.num_params),
        flags,
    };
    assert(tys_view(datum.binders.value.variants@[0].fields@) =~= seq![]);
    assert(datum@.binders.value.variants =~= seq![seq![]]);
    Arc::new(datum)
}

/// Whether an impl implements a trait that is known.
pub open spec fn impl_is_resolved(db: HirDatabase, id: hir::ImplId) -> bool {
    &&& db.has_impl(id)
    &&& db.impl_at(id).trait_ref matches Some(trait_ref) && db.has_trait(
        hir_trait_id(trait_ref.value.trait_id),
    )
}

/// The items of the trait that an impl implements.
pub open spec fn implemented_items(db: HirDatabase, id: hir::ImplId) -> Seq<TraitItem> {
    db.trait_at(hir_trait_id(db.impl_at(id).trait_ref->Some_0.value.trait_id)).items@
}

/// Whether `item` gives a value to an associated type of the trait with the items `declared`.
pub open spec fn is_assoc_ty_value(
    db: HirDatabase,
    declared: Seq<TraitItem>,
    item: AssocItemId,
) -> bool {
    item matches AssocItemId::TypeAliasId(alias) && assoc_type_by_name(
        declared,
        db.alias_at(alias).name@,
    ) is Some
}

/// The items of `items` that give values to associated types of the trait with the items
/// `declared`.
pub open spec fn assoc_ty_values(
    db: HirDatabase,
    declared: Seq<TraitItem>,
    items: Seq<AssocItemId>,
) -> Seq<AssociatedTyValueId> {
    items.filter(|item: AssocItemId| is_assoc_ty_value(db, declared, item)).map_values(
        |item: AssocItemId| chalk_value_id(item->TypeAliasId_0),
    )
}

/// Whether the items of an impl are known.
pub open spec fn impl_items_known(db: HirDatabase, id: hir::ImplId) -> bool {
    forall|i: int|
        0 <= i < db.impl_at(id).items@.len() ==> (#[trigger] db.impl_at(
            id,
        ).items@[i] matches AssocItemId::TypeAliasId(alias) ==> db.has_alias(alias))
}

pub open spec fn impl_datum(db: HirDatabase, krate: CrateId, id: hir::ImplId) -> ImplDatumView {
    let data = db.impl_at(id);
    ImplDatumView {
        polarity: if data.is_negative {
            Polarity::Negative
        } else {
            Polarity::Positive
        },
        binders: BindersView {
            binders: type_binder(data.generics.num_params as nat),
            value: ImplDatumBoundView {
                trait_ref: data.trait_ref->Some_0.value@,
                where_clauses: clauses_view(data.generics.where_clauses@),
            },
        },
        impl_type: if data.krate == krate {
            ImplType::Local
        } else {
            ImplType::External
        },
        associated_ty_value_ids: assoc_ty_values(db, implemented_items(db, id), data.items@),
    }
}

/// What an impl implements, as seen from `krate`. Only impls of traits that can be resolved are
/// ever asked for.
pub fn impl_datum_query(db: &HirDatabase, krate: CrateId, impl_id: ImplId) -> (datum: Arc<
    ImplDatum,
>)
    requires
        impl_is_resolved(*db, hir_impl_id(impl_id)),
        impl_items_known(*db, hir_impl_id(impl_id)),
    ensures
        datum@ == impl_datum(*db, krate, hir_impl_id(impl_id)),
{
    let impl_: hir::ImplId = from_chalk(db, impl_id);
    impl_def_datum(db, krate, impl_id, impl_)
}

pub fn impl_def_datum(
    db: &HirDatabase,
    krate: CrateId,
    _chalk_id: ImplId,
    impl_id: hir::ImplId,
) -> (datum: Arc<ImplDatum>)
    requires
        impl_is_resolved(*db, impl_id),
        impl_items_known(*db, impl_id),
    ensures
        datum@ == impl_datum(*db, krate, impl_id),
{
    let impl_data = db.impl_data(impl_id);
    let trait_ref = match &impl_data.trait_ref {
        Some(trait_ref) => &trait_ref.value,
        None => unreached(),
    };
    let generic_params = db.generics(GenericDefId::ImplId(impl_id));
    let trait_ = from_chalk_trait_id(trait_ref.trait_id);
    let impl_type = if impl_data.krate == krate {
        ImplType::Local
    } else {
        ImplType::External
    };
    let where_clauses = clone_clauses(&generic_params.where_clauses);
    let polarity = if impl_data.is_negative {
        Polarity::Negative
    } else {
        Polarity::Positive
    };
    let impl_datum_bound = ImplDatumBound { trait_ref: trait_ref.clone(), where_clauses };
    let trait_data = db.trait_data(trait_);
    let mut associated_ty_value_ids: Vec<AssociatedTyValueId> = Vec::new();
    let ghost declared = trait_data.items@;
    let ghost pred = |item: AssocItemId| is_assoc_ty_value(*db, declared, item);
    let ghost value_of = |item: AssocItemId| chalk_value_id(item->TypeAliasId_0);
    for i in 0..impl_data.items.len()
        invariant
            *impl_data == db.impl_at(impl_id),
            impl_items_known(*db, impl_id),
            declared == trait_data.items@,
            pred == (|item: AssocItemId| is_assoc_ty_value(*db, declared, item)),
            value_of == (|item: AssocItemId| chalk_value_id(item->TypeAliasId_0)),
            associated_ty_value_ids@ == impl_data.items@.take(i as int).filter(pred).map_values(
                value_of,
            ),
    {
        proof {
            lemma_filter_step(impl_data.items@, i as int, pred);
        }
        if let AssocItemId::TypeAliasId(type_alias) = impl_data.items[i] {
            // don't include associated types that don't exist in the trait
            let name = &db.type_alias_data(type_alias).name;
            if trait_data.associated_type_by_name(name).is_some() {
                associated_ty_value_ids.push(TypeAliasAsValue(type_alias).to_chalk(db));
            }
        }
    }
    assert(impl_data.items@.take(impl_data.items@.len() as int) == impl_data.items@);
    Arc::new(
        ImplDatum {
            binders: make_binders(impl_datum_bound, generic_params.num_params),
            impl_type,
            polarity,
            associated_ty_value_ids,
        },
    )
}

/// Whether the alias `id` gives a value to an associated type: it stands in an impl of a trait
/// that is known, and the trait has an associated type of its name.
pub open spec fn is_value(db: HirDatabase, id: TypeAliasId) -> bool {
    &&& db.has_alias(id)
    &&& db.alias_at(id).container matches AssocContainerId::ImplId(impl_id)
        && impl_is_resolved(db, impl_id) && assoc_type_by_name(
        implemented_items(db, impl_id),
        db.alias_at(id).name@,
    ) is Some
}

pub open spec fn associated_ty_value(db: HirDatabase, id: TypeAliasId) -> AssociatedTyValueView {
    let alias = db.alias_at(id);
    let impl_id = alias.container->ImplId_0;
    AssociatedTyValueView {
        impl_id: chalk_impl_id(impl_id),
        associated_ty_id: chalk_assoc_type_id(
            assoc_type_by_name(implemented_items(db, impl_id), alias.name@)->Some_0,
        ),
        value: BindersView { binders: kinds_view(alias.ty.binders@), value: alias.ty.value@ },
    }
}

/// The value that an impl gives to an associated type.
pub fn associated_ty_value_query(
    db: &HirDatabase,
    krate: CrateId,
    id: AssociatedTyValueId,
) -> (value: Arc<AssociatedTyValue>)
    requires
        is_value(*db, hir_value_id(id)),
    ensures
        value@ == associated_ty_value(*db, hir_value_id(id)),
{
    let type_alias: TypeAliasAsValue = from_chalk(db, id);
    type_alias_associated_ty_value(db, krate, type_alias.0)
}

pub fn type_alias_associated_ty_value(
    db: &HirDatabase,
    _krate: CrateId,
    type_alias: TypeAliasId,
) -> (value: Arc<AssociatedTyValue>)
    requires
        is_value(*db, type_alias),
    ensures
        value@ == associated_ty_value(*db, type_alias),
{
    let type_alias_data = db.type_alias_data(type_alias);
    let impl_id = match type_alias_data.container {
        AssocContainerId::ImplId(impl_id) => impl_id,
        _ => unreached(),
    };
    let trait_ref = match &db.impl_data(impl_id).trait_ref {
        Some(trait_ref) => &trait_ref.value,
        None => unreached(),
    };
    let trait_data = db.trait_data(from_chalk_trait_id(trait_ref.trait_id));
    let assoc_ty = match trait_data.associated_type_by_name(&type_alias_data.name) {
        Some(assoc_ty) => assoc_ty,
        None => unreached(),
    };
    let value_bound = AssociatedTyValueBound { ty: type_alias_data.ty.value.clone() };
    Arc::new(
        AssociatedTyValue {
            impl_id: impl_id.to_chalk(db),
            associated_ty_id: to_assoc_type_id(assoc_ty),
            value: Binders {
                binders: clone_kinds(&type_alias_data.ty.binders),
                value: value_bound,
            },
        },
    )
}

/// Whether the types of a signature can be moved in through one binder.
pub open spec fn can_shift_sig(sig: CallableSig) -> bool {
    &&& forall|i: int|
        0 <= i < sig.params@.len() ==> can_shift_ty((#[trigger] sig.params@[i])@, 1, 0)
    &&& can_shift_ty(sig.ret@, 1, 0)
}

/// The types of a signature, inside a binder without variables.
pub open spec fn sig_inputs_and_output(sig: CallableSig) -> BindersView<
    FnDefInputsAndOutputDatumView,
> {
    BindersView {
        binders: seq![],
        value: FnDefInputsAndOutputDatumView {
            argument_types: sig.params@.map_values(|ty: Ty| shifted_ty(ty@, 1, 0)),
            return_type: shifted_ty(sig.ret@, 1, 0),
        },
    }
}

impl CallableSig {
    /// Whether the types can be moved in through one binder.
    pub fn can_shift_in(&self) -> (can: bool)
        ensures
            can == can_shift_sig(*self),
    {
        for i in 0..self.params.len()
            invariant
                forall|j: int|
                    0 <= j < i ==> can_shift_ty((#[trigger] self.params@[j])@, 1, 0),
        {
            if !self.params[i].can_shift_in() {
                return false;
            }
        }
        self.ret.can_shift_in()
    }
}

/// The types of a signature, inside a binder without variables.
pub fn inputs_and_output(sig: &CallableSig) -> (io: Binders<FnDefInputsAndOutputDatum>)
    requires
        can_shift_sig(*sig),
    ensures
        io@ == sig_inputs_and_output(*sig),
{
    let mut argument_types: Vec<Ty> = Vec::new();
    for i in 0..sig.params.len()
        invariant
            can_shift_sig(*sig),
            argument_types@.len() == i,
            forall|j: int|
                0 <= j < i ==> (#[trigger] argument_types@[j])@ == shifted_ty(
                    sig.params@[j]@,
                    1,
                    0,
                ),
    {
        argument_types.push(sig.params[i].shifted_in());
    }
    let io = FnDefInputsAndOutputDatum { argument_types, return_type: sig.ret.shifted_in() };
    assert(io@.argument_types =~= sig_inputs_and_output(*sig).value.argument_types);
    let binders = make_binders(io, 0);
    assert(type_binder(0) =~= seq![]);
    binders
}

/// The definition that a function is interned as.
pub open spec fn fn_def(db: HirDatabase, id: FnDefId) -> CallableDefId {
    db.callable_of(InternedCallableDefId(id.0))
}

/// Whether `id` is a callable definition that is known.
pub open spec fn is_fn_def(db: HirDatabase, id: FnDefId) -> bool {
    &&& db.has_interned_callable(InternedCallableDefId(id.0))
    &&& db.has_callable(fn_def(db, id))
}

/// The generic parameters of a function.
pub open spec fn fn_generics(db: HirDatabase, id: FnDefId) -> crate::db::Generics {
    db.generics_of(callable_generic_def(fn_def(db, id)))
}

pub open spec fn fn_def_datum(db: HirDatabase, id: FnDefId) -> FnDefDatumView {
    let sig = db.signature_of(fn_def(db, id));
    FnDefDatumView {
        id,
        sig: FnSig { safety: Safety::Safe, variadic: sig.value.is_varargs },
        binders: BindersView {
            binders: kinds_view(sig.binders@),
            value: FnDefDatumBoundView {
                inputs_and_output: sig_inputs_and_output(sig.value),
                where_clauses: clauses_view(fn_generics(db, id).where_clauses@),
            },
        },
    }
}

/// The type and the clauses of a function.
pub fn fn_def_datum_query(db: &HirDatabase, _krate: CrateId, fn_def_id: FnDefId) -> (datum: Arc<
    FnDefDatum,
>)
    requires
        is_fn_def(*db, fn_def_id),
        can_shift_sig(db.signature_of(fn_def(*db, fn_def_id)).value),
    ensures
        datum@ == fn_def_datum(*db, fn_def_id),
{
    let callable_def: CallableDefId = from_chalk(db, fn_def_id);
    let generic_params = db.generics(callable_def.generic_def());
    let signature = db.callable_item_signature(callable_def);
    let where_clauses = clone_clauses(&generic_params.where_clauses);
    let bound = FnDefDatumBound {
        inputs_and_output: inputs_and_output(&signature.value),
        where_clauses,
    };
    Arc::new(
        FnDefDatum {
            id: fn_def_id,
            sig: FnSig { safety: Safety::Safe, variadic: signature.value.is_varargs },
            binders: Binders { binders: clone_kinds(&signature.binders), value: bound },
        },
    )
}

/// Invariance in each of `n` parameters.
pub open spec fn invariant_in(n: nat) -> Seq<Variance> {
    Seq::new(n, |i: int| Variance::Invariant)
}

fn invariances(n: usize) -> (variances: Vec<Variance>)
    ensures
        variances@ == invariant_in(n as nat),
{
    let mut variances: Vec<Variance> = Vec::new();
    for i in 0..n
        invariant
            variances@ == invariant_in(i as nat),
    {
        variances.push(Variance::Invariant);
        assert(invariant_in((i + 1) as nat) == invariant_in(i as nat).push(Variance::Invariant));
    }
    variances
}

/// The variance of a function in each of its parameters.
pub fn fn_def_variance_query(db: &HirDatabase, _krate: CrateId, fn_def_id: FnDefId) -> (variances:
    Vec<Variance>)
    requires
        is_fn_def(*db, fn_def_id),
    ensures
        variances@ == invariant_in(fn_generics(*db, fn_def_id).num_params as nat),
{
    let callable_def: CallableDefId = from_chalk(db, fn_def_id);
    let generic_params = db.generics(callable_def.generic_def());
    invariances(generic_params.num_params)
}

/// The variance of a struct, enum or union in each of its parameters.
pub fn adt_variance_query(db: &HirDatabase, _krate: CrateId, adt_id: AdtId) -> (variances: Vec<
    Variance,
>)
    requires
        db.has_adt(adt_id.0),
    ensures
        variances@ == invariant_in(
            db.generics_of(GenericDefId::AdtId(adt_id.0)).num_params as nat,
        ),
{
    let AdtId(adt_id) = adt_id;
    let generic_params = db.generics(GenericDefId::AdtId(adt_id));
    invariances(generic_params.num_params)
}

} // verus!
