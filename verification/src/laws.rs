//! What holds between the answers that the solver gets.

use vstd::prelude::*;

use vstd::std_specs::convert::FromSpec;

use crate::context::well_known_trait;
use crate::datums::{
    assoc_ty_values, associated_ty_datum, associated_ty_value, can_shift_sig, chalk_assoc_type_ids,
    impl_datum, impl_is_resolved, impl_items_known, implemented_items, invariant_in,
    is_assoc_ty_value, is_assoc_type, is_value, sig_inputs_and_output, struct_datum, trait_datum,
};
use crate::db::{
    assoc_type_by_name, assoc_types, impls_for_self_ty, impls_of_trait, CallableSig, HirDatabase,
    ImplsForSelfTy, ImplsOfTrait, TraitImpls, TraitItem, TyFingerprint,
};
use crate::hir;
use crate::hir::{AssocContainerId, AssocItemId, CrateId, GenericDefId, TypeAliasId};
use crate::ids::{
    AdtId, AssocTypeId, AssociatedTyValueId, ClosureId, FnDefId, ImplId, InternedCallableDefId,
    InternedClosureId, InternedOpaqueTyId, OpaqueTyId, TraitId,
};
use crate::impls::{
    chalk_impl_ids, impls_for, impls_for_fps, impls_found, numeric_fps_known, relevant_impls,
    search_fps, variable_kind,
};
use crate::ir::{CanonicalVarKind, GenericArgView, TyVariableKind, TyView};
use crate::mapping::{
    chalk_assoc_type_id, chalk_impl_id, hir_assoc_type_id, hir_impl_id, hir_trait_id, hir_value_id,
};
use crate::opaque::{async_block_bounds, first_var};
use crate::shift::{shifted_args, shifted_clauses, shifted_ty};
use crate::shift_laws::shift_in_of_ty_is_undone;
use crate::well_known::{
    lang_attr, lang_attr_is_read_back, unpin_attr_is_not_read_back, WellKnownTrait,
};

verus! {

/// Whether the associated types of a trait are declared where they should be.
pub open spec fn trait_is_valid(db: HirDatabase, id: hir::TraitId) -> bool {
    forall|i: int|
        0 <= i < db.trait_at(id).items@.len() ==> ((#[trigger] db.trait_at(
            id,
        ).items@[i]).item matches AssocItemId::TypeAliasId(alias) ==> db.has_alias(alias)
            && db.alias_at(alias).container == AssocContainerId::TraitId(id))
}

/// Whether the type aliases of an impl are declared where they should be.
pub open spec fn impl_is_valid(db: HirDatabase, id: hir::ImplId) -> bool {
    forall|i: int|
        0 <= i < db.impl_at(id).items@.len() ==> (#[trigger] db.impl_at(
            id,
        ).items@[i] matches AssocItemId::TypeAliasId(alias) ==> db.has_alias(alias)
            && db.alias_at(alias).container == AssocContainerId::ImplId(id))
}

/// Whether `id` is an impl of `trait_`, and both are known.
pub open spec fn implements(db: HirDatabase, id: hir::ImplId, trait_: hir::TraitId) -> bool {
    &&& impl_is_resolved(db, id)
    &&& impl_is_valid(db, id)
    &&& hir_trait_id(db.impl_at(id).trait_ref->Some_0.value.trait_id) == trait_
}

/// Whether impls are filed under the traits that they implement. An impl whose trait cannot be
/// resolved is filed nowhere.
pub open spec fn impls_are_valid(db: HirDatabase, impls: TraitImpls) -> bool {
    &&& forall|i: int, j: int|
        #![trigger impls.by_trait@[i].impls@[j]]
        0 <= i < impls.by_trait@.len() && 0 <= j < impls.by_trait@[i].impls@.len() ==> implements(
            db,
            impls.by_trait@[i].impls@[j],
            impls.by_trait@[i].trait_,
        )
    &&& forall|i: int, j: int|
        #![trigger impls.by_self_ty@[i].impls@[j]]
        0 <= i < impls.by_self_ty@.len() && 0 <= j < impls.by_self_ty@[i].impls@.len()
            ==> implements(db, impls.by_self_ty@[i].impls@[j], impls.by_self_ty@[i].trait_)
}

/// Whether the impls seen from a crate are filed under the traits that they implement.
pub open spec fn crate_is_valid(db: HirDatabase, krate: CrateId) -> bool {
    &&& db.has_crate(krate)
    &&& impls_are_valid(db, db.crate_at(krate).trait_impls_in_deps)
    &&& impls_are_valid(db, db.crate_at(krate).trait_impls_in_crate)
}

proof fn filed_by_trait(db: HirDatabase, lists: Seq<ImplsOfTrait>, trait_: hir::TraitId, k: int)
    requires
        0 <= k < impls_of_trait(lists, trait_).len(),
        forall|i: int, j: int|
            #![trigger lists[i].impls@[j]]
            0 <= i < lists.len() && 0 <= j < lists[i].impls@.len() ==> implements(
                db,
                lists[i].impls@[j],
                lists[i].trait_,
            ),
    ensures
        implements(db, impls_of_trait(lists, trait_)[k], trait_),
    decreases lists.len(),
{
    if lists[0].trait_ == trait_ {
        assert(lists[0].impls@[k] == impls_of_trait(lists, trait_)[k]);
    } else {
        let rest = lists.drop_first();
        assert forall|i: int, j: int|
            #![trigger rest[i].impls@[j]]
            0 <= i < rest.len() && 0 <= j < rest[i].impls@.len() implies implements(
            db,
            rest[i].impls@[j],
            rest[i].trait_,
        ) by {
            assert(rest[i] == lists[i + 1]);
            assert(implements(db, lists[i + 1].impls@[j], lists[i + 1].trait_));
        }
        filed_by_trait(db, rest, trait_, k);
    }
}

proof fn filed_by_self_ty(
    db: HirDatabase,
    lists: Seq<ImplsForSelfTy>,
    trait_: hir::TraitId,
    fp: TyFingerprint,
    k: int,
)
    requires
        0 <= k < impls_for_self_ty(lists, trait_, fp).len(),
        forall|i: int, j: int|
            #![trigger lists[i].impls@[j]]
            0 <= i < lists.len() && 0 <= j < lists[i].impls@.len() ==> implements(
                db,
                lists[i].impls@[j],
                lists[i].trait_,
            ),
    ensures
        implements(db, impls_for_self_ty(lists, trait_, fp)[k], trait_),
    decreases lists.len(),
{
    if lists[0].trait_ == trait_ && lists[0].self_ty == fp {
        assert(lists[0].impls@[k] == impls_for_self_ty(lists, trait_, fp)[k]);
    } else {
        let rest = lists.drop_first();
        assert forall|i: int, j: int|
            #![trigger rest[i].impls@[j]]
            0 <= i < rest.len() && 0 <= j < rest[i].impls@.len() implies implements(
            db,
            rest[i].impls@[j],
            rest[i].trait_,
        ) by {
            assert(rest[i] == lists[i + 1]);
            assert(implements(db, lists[i + 1].impls@[j], lists[i + 1].trait_));
        }
        filed_by_self_ty(db, rest, trait_, fp, k);
    }
}

proof fn found_by_fps(
    db: HirDatabase,
    impls: TraitImpls,
    trait_: hir::TraitId,
    fps: Seq<TyFingerprint>,
    k: int,
)
    requires
        impls_are_valid(db, impls),
        0 <= k < impls_for_fps(impls, trait_, fps).len(),
    ensures
        implements(db, impls_for_fps(impls, trait_, fps)[k], trait_),
    decreases fps.len(),
{
    let earlier = impls_for_fps(impls, trait_, fps.drop_last());
    if k < earlier.len() {
        found_by_fps(db, impls, trait_, fps.drop_last(), k);
    } else {
        filed_by_self_ty(db, impls.by_self_ty@, trait_, fps.last(), k - earlier.len());
    }
}

proof fn found_is_valid(
    db: HirDatabase,
    impls: TraitImpls,
    trait_: hir::TraitId,
    fps: Seq<TyFingerprint>,
    k: int,
)
    requires
        impls_are_valid(db, impls),
        0 <= k < impls_found(impls, trait_, fps).len(),
    ensures
        implements(db, impls_found(impls, trait_, fps)[k], trait_),
{
    if fps.len() == 0 {
        filed_by_trait(db, impls.by_trait@, trait_, k);
    } else {
        found_by_fps(db, impls, trait_, fps, k);
    }
}

/// Only impls whose trait can be resolved ever reach the solver: each impl that a search for the
/// impls of a trait gives can be asked for its datum, and the datum is of that trait.
pub proof fn found_impls_have_data(
    db: HirDatabase,
    krate: CrateId,
    trait_id: TraitId,
    self_ty: TyView,
    self_ty_fp: Option<TyFingerprint>,
    binders: Seq<CanonicalVarKind>,
    id: ImplId,
)
    requires
        crate_is_valid(db, krate),
        impls_for(db, krate, trait_id, self_ty, self_ty_fp, binders).contains(id),
    ensures
        impl_is_resolved(db, hir_impl_id(id)),
        impl_items_known(db, hir_impl_id(id)),
        impl_datum(db, krate, hir_impl_id(id)).binders.value.trait_ref.trait_id == trait_id,
{
    let fps = search_fps(db, variable_kind(self_ty, binders), self_ty_fp);
    let trait_ = hir_trait_id(trait_id);
    let all = relevant_impls(db, krate, trait_, fps);
    let k = choose|k: int| 0 <= k < chalk_impl_ids(all).len() && chalk_impl_ids(all)[k] == id;
    let deps = db.crate_at(krate).trait_impls_in_deps;
    let own = db.crate_at(krate).trait_impls_in_crate;
    if k < impls_found(deps, trait_, fps).len() {
        found_is_valid(db, deps, trait_, fps, k);
    } else {
        found_is_valid(db, own, trait_, fps, k - impls_found(deps, trait_, fps).len());
    }
    assert(all[k] == hir_impl_id(id));
    assert(implements(db, all[k], trait_));
}

/// Whether an impl is filed where a search by `fps` looks: under `trait_` and one of `fps`, or
/// just under `trait_` where there are none.
pub open spec fn is_filed(
    impls: TraitImpls,
    trait_: hir::TraitId,
    fps: Seq<TyFingerprint>,
    id: hir::ImplId,
) -> bool {
    if fps.len() == 0 {
        impls_of_trait(impls.by_trait@, trait_).contains(id)
    } else {
        exists|fp: TyFingerprint|
            fps.contains(fp) && #[trigger] impls_for_self_ty(
                impls.by_self_ty@,
                trait_,
                fp,
            ).contains(id)
    }
}

proof fn fps_are_covered(
    impls: TraitImpls,
    trait_: hir::TraitId,
    fps: Seq<TyFingerprint>,
    fp: TyFingerprint,
    id: hir::ImplId,
)
    requires
        fps.contains(fp),
        impls_for_self_ty(impls.by_self_ty@, trait_, fp).contains(id),
    ensures
        impls_for_fps(impls, trait_, fps).contains(id),
    decreases fps.len(),
{
    let earlier = impls_for_fps(impls, trait_, fps.drop_last());
    let last = impls_for_self_ty(impls.by_self_ty@, trait_, fps.last());
    if fps.last() == fp {
        let k = choose|k: int| 0 <= k < last.len() && last[k] == id;
        assert((earlier + last)[earlier.len() + k] == id);
    } else {
        let i = choose|i: int| 0 <= i < fps.len() && fps[i] == fp;
        assert(fps.drop_last()[i] == fp);
        fps_are_covered(impls, trait_, fps.drop_last(), fp, id);
        let k = choose|k: int| 0 <= k < earlier.len() && earlier[k] == id;
        assert((earlier + last)[k] == id);
    }
}

/// A search leaves out no impl: each one that is filed under the trait and one of the
/// fingerprints searched by, or just under the trait where there are none, in the crate or in
/// its dependencies, is found.
pub proof fn no_impl_is_left_out(
    db: HirDatabase,
    krate: CrateId,
    trait_id: TraitId,
    self_ty: TyView,
    self_ty_fp: Option<TyFingerprint>,
    binders: Seq<CanonicalVarKind>,
    impls: TraitImpls,
    id: hir::ImplId,
)
    requires
        impls == db.crate_at(krate).trait_impls_in_deps || impls == db.crate_at(
            krate,
        ).trait_impls_in_crate,
        is_filed(
            impls,
            hir_trait_id(trait_id),
            search_fps(db, variable_kind(self_ty, binders), self_ty_fp),
            id,
        ),
    ensures
        impls_for(db, krate, trait_id, self_ty, self_ty_fp, binders).contains(chalk_impl_id(id)),
{
    let fps = search_fps(db, variable_kind(self_ty, binders), self_ty_fp);
    let trait_ = hir_trait_id(trait_id);
    if fps.len() > 0 {
        let fp = choose|fp: TyFingerprint|
            fps.contains(fp) && #[trigger] impls_for_self_ty(
                impls.by_self_ty@,
                trait_,
                fp,
            ).contains(id);
        fps_are_covered(impls, trait_, fps, fp, id);
    }
    let found = impls_found(impls, trait_, fps);
    assert(found.contains(id));
    let k = choose|k: int| 0 <= k < found.len() && found[k] == id;
    let in_deps = impls_found(db.crate_at(krate).trait_impls_in_deps, trait_, fps);
    let all = relevant_impls(db, krate, trait_, fps);
    if impls == db.crate_at(krate).trait_impls_in_deps {
        assert(all[k] == id);
        assert(chalk_impl_ids(all)[k] == chalk_impl_id(id));
    } else {
        assert(all[in_deps.len() + k] == id);
        assert(chalk_impl_ids(all)[in_deps.len() + k] == chalk_impl_id(id));
    }
}

proof fn only_fps_are_covered(
    impls: TraitImpls,
    trait_: hir::TraitId,
    fps: Seq<TyFingerprint>,
    k: int,
)
    requires
        0 <= k < impls_for_fps(impls, trait_, fps).len(),
    ensures
        exists|fp: TyFingerprint|
            fps.contains(fp) && #[trigger] impls_for_self_ty(
                impls.by_self_ty@,
                trait_,
                fp,
            ).contains(impls_for_fps(impls, trait_, fps)[k]),
    decreases fps.len(),
{
    let earlier = impls_for_fps(impls, trait_, fps.drop_last());
    let last = impls_for_self_ty(impls.by_self_ty@, trait_, fps.last());
    let id = impls_for_fps(impls, trait_, fps)[k];
    if k < earlier.len() {
        only_fps_are_covered(impls, trait_, fps.drop_last(), k);
        let fp = choose|fp: TyFingerprint|
            fps.drop_last().contains(fp) && #[trigger] impls_for_self_ty(
                impls.by_self_ty@,
                trait_,
                fp,
            ).contains(id);
        let i = choose|i: int| 0 <= i < fps.drop_last().len() && fps.drop_last()[i] == fp;
        assert(fps[i] == fp);
        assert(fps.contains(fp));
    } else {
        assert(last[k - earlier.len()] == id);
        assert(fps[fps.len() - 1] == fps.last());
        assert(fps.contains(fps.last()));
        assert(last.contains(id));
    }
}

/// A search finds nothing else: each impl that is found is filed where the search looks, in the
/// crate or in its dependencies.
pub proof fn only_filed_impls_are_found(
    db: HirDatabase,
    krate: CrateId,
    trait_id: TraitId,
    self_ty: TyView,
    self_ty_fp: Option<TyFingerprint>,
    binders: Seq<CanonicalVarKind>,
    id: hir::ImplId,
)
    requires
        impls_for(db, krate, trait_id, self_ty, self_ty_fp, binders).contains(chalk_impl_id(id)),
    ensures
        ({
            let fps = search_fps(db, variable_kind(self_ty, binders), self_ty_fp);
            let trait_ = hir_trait_id(trait_id);
            ||| is_filed(db.crate_at(krate).trait_impls_in_deps, trait_, fps, id)
            ||| is_filed(db.crate_at(krate).trait_impls_in_crate, trait_, fps, id)
        }),
{
    let fps = search_fps(db, variable_kind(self_ty, binders), self_ty_fp);
    let trait_ = hir_trait_id(trait_id);
    let deps = db.crate_at(krate).trait_impls_in_deps;
    let own = db.crate_at(krate).trait_impls_in_crate;
    let all = relevant_impls(db, krate, trait_, fps);
    let k = choose|k: int|
        0 <= k < chalk_impl_ids(all).len() && chalk_impl_ids(all)[k] == chalk_impl_id(id);
    assert(all[k] == id);
    let in_deps = impls_found(deps, trait_, fps);
    let in_own = impls_found(own, trait_, fps);
    if k < in_deps.len() {
        assert(in_deps[k] == id);
        if fps.len() > 0 {
            only_fps_are_covered(deps, trait_, fps, k);
        }
    } else {
        assert(in_own[k - in_deps.len()] == id);
        if fps.len() > 0 {
            only_fps_are_covered(own, trait_, fps, k - in_deps.len());
        }
    }
}

/// A search for a numeric variable is never unrestricted: it looks under the fingerprints of the
/// integer types for an integer variable, under those of the floating-point types for a float
/// variable, and nowhere else.
pub proof fn numeric_search_is_restricted(
    db: HirDatabase,
    krate: CrateId,
    trait_id: TraitId,
    self_ty: TyView,
    self_ty_fp: Option<TyFingerprint>,
    binders: Seq<CanonicalVarKind>,
)
    requires
        numeric_fps_known(db),
    ensures
        ({
            let trait_ = hir_trait_id(trait_id);
            let in_deps = db.crate_at(krate).trait_impls_in_deps;
            let in_crate = db.crate_at(krate).trait_impls_in_crate;
            let found = impls_for(db, krate, trait_id, self_ty, self_ty_fp, binders);
            let kind = variable_kind(self_ty, binders);
            &&& kind == Some(TyVariableKind::Integer) ==> found == chalk_impl_ids(
                impls_for_fps(in_deps, trait_, db.int_fps@) + impls_for_fps(
                    in_crate,
                    trait_,
                    db.int_fps@,
                ),
            )
            &&& kind == Some(TyVariableKind::Float) ==> found == chalk_impl_ids(
                impls_for_fps(in_deps, trait_, db.float_fps@) + impls_for_fps(
                    in_crate,
                    trait_,
                    db.float_fps@,
                ),
            )
        }),
{
}

proof fn named_type_is_declared(items: Seq<TraitItem>, name: Seq<char>)
    requires
        assoc_type_by_name(items, name) is Some,
    ensures
        exists|i: int|
            0 <= i < items.len() && (#[trigger] items[i]).item == AssocItemId::TypeAliasId(
                assoc_type_by_name(items, name)->Some_0,
            ),
    decreases items.len(),
{
    let found = AssocItemId::TypeAliasId(assoc_type_by_name(items, name)->Some_0);
    if items[0].item is TypeAliasId && items[0].name@ == name {
        assert(items[0].item == found);
    } else {
        named_type_is_declared(items.drop_first(), name);
        let i = choose|i: int|
            0 <= i < items.drop_first().len() && (#[trigger] items.drop_first()[i]).item == found;
        assert(items[i + 1].item == found);
    }
}

proof fn declared_type_is_listed(items: Seq<TraitItem>, i: int)
    requires
        0 <= i < items.len(),
        items[i].item is TypeAliasId,
    ensures
        assoc_types(items).contains(items[i].item->TypeAliasId_0),
{
    let pred = |item: TraitItem| item.item is TypeAliasId;
    items.lemma_filter_contains(pred, i);
    let kept = items.filter(pred);
    let k = choose|k: int| 0 <= k < kept.len() && kept[k] == items[i];
    assert(assoc_types(items)[k] == items[i].item->TypeAliasId_0);
}

/// The associated types that an impl gives values to, as its datum lists them, can each be asked
/// for their value; the value belongs to that impl and to an associated type that the datum of
/// the trait lists.
pub proof fn listed_values_have_data(
    db: HirDatabase,
    krate: CrateId,
    impl_id: hir::ImplId,
    id: AssociatedTyValueId,
)
    requires
        impl_is_resolved(db, impl_id),
        impl_is_valid(db, impl_id),
        impl_datum(db, krate, impl_id).associated_ty_value_ids.contains(id),
    ensures
        is_value(db, hir_value_id(id)),
        associated_ty_value(db, hir_value_id(id)).impl_id == chalk_impl_id(impl_id),
        trait_datum(
            db,
            krate,
            impl_datum(db, krate, impl_id).binders.value.trait_ref.trait_id,
        ).associated_ty_ids.contains(associated_ty_value(db, hir_value_id(id)).associated_ty_id),
{
    let declared = implemented_items(db, impl_id);
    let items = db.impl_at(impl_id).items@;
    let pred = |item: AssocItemId| is_assoc_ty_value(db, declared, item);
    let kept = items.filter(pred);
    let ids = assoc_ty_values(db, declared, items);
    let k = choose|k: int| 0 <= k < ids.len() && ids[k] == id;
    items.lemma_filter_pred(pred, k);
    items.lemma_filter_contains_rev(pred, kept[k]);
    let i = choose|i: int| 0 <= i < items.len() && items[i] == kept[k];
    let alias = kept[k]->TypeAliasId_0;
    assert(hir_value_id(id) == alias);
    assert(db.impl_at(impl_id).items@[i] == AssocItemId::TypeAliasId(alias));
    named_type_is_declared(declared, db.alias_at(alias).name@);
    let found = assoc_type_by_name(declared, db.alias_at(alias).name@)->Some_0;
    let j = choose|j: int|
        0 <= j < declared.len() && (#[trigger] declared[j]).item == AssocItemId::TypeAliasId(
            found,
        );
    declared_type_is_listed(declared, j);
    let types = assoc_types(declared);
    let t = choose|t: int| 0 <= t < types.len() && types[t] == found;
    assert(chalk_assoc_type_ids(types)[t] == chalk_assoc_type_id(found));
}

/// The associated types that the datum of a trait lists can each be asked for their datum, which
/// is of that trait.
pub proof fn listed_types_have_data(
    db: HirDatabase,
    krate: CrateId,
    trait_id: TraitId,
    id: AssocTypeId,
)
    requires
        db.has_trait(hir_trait_id(trait_id)),
        trait_is_valid(db, hir_trait_id(trait_id)),
        trait_datum(db, krate, trait_id).associated_ty_ids.contains(id),
    ensures
        is_assoc_type(db, id),
        associated_ty_datum(db, id).trait_id == trait_id,
{
    let items = db.trait_at(hir_trait_id(trait_id)).items@;
    let pred = |item: TraitItem| item.item is TypeAliasId;
    let kept = items.filter(pred);
    let ids = chalk_assoc_type_ids(assoc_types(items));
    let k = choose|k: int| 0 <= k < ids.len() && ids[k] == id;
    items.lemma_filter_pred(pred, k);
    items.lemma_filter_contains_rev(pred, kept[k]);
    let i = choose|i: int| 0 <= i < items.len() && items[i] == kept[k];
    assert(db.trait_at(hir_trait_id(trait_id)).items@[i].item == AssocItemId::TypeAliasId(
        hir_assoc_type_id(id),
    ));
}

/// The datum of a trait that is looked up as a well-known one says which one it is, if the trait
/// carries the attribute that it was looked up by. `Unpin` is the exception: see
/// [`unpin_is_not_recognized`].
pub proof fn well_known_traits_are_recognized(
    db: HirDatabase,
    krate: CrateId,
    well_known: WellKnownTrait,
    trait_id: TraitId,
)
    requires
        well_known != WellKnownTrait::Unpin,
        well_known_trait(db, krate, well_known) == Some(trait_id),
        db.trait_at(hir_trait_id(trait_id)).lang_attr matches Some(name) && name@ == lang_attr(
            well_known,
        ),
    ensures
        trait_datum(db, krate, trait_id).well_known == Some(well_known),
{
    lang_attr_is_read_back(well_known);
}

/// The datum of a trait that carries the attribute of `Unpin` names no well-known trait.
pub proof fn unpin_is_not_recognized(db: HirDatabase, krate: CrateId, trait_id: TraitId)
    requires
        db.trait_at(hir_trait_id(trait_id)).lang_attr matches Some(name) && name@ == lang_attr(
            WellKnownTrait::Unpin,
        ),
    ensures
        trait_datum(db, krate, trait_id).well_known is None,
{
    unpin_attr_is_not_read_back();
}

/// The type of a function or closure, as the solver gets it, is the declared one moved in through
/// one binder: moved out again, every argument type and the return type are as declared.
pub proof fn signature_is_kept(sig: CallableSig)
    requires
        can_shift_sig(sig),
    ensures
        sig_inputs_and_output(sig).value.argument_types.len() == sig.params@.len(),
        forall|i: int|
            0 <= i < sig.params@.len() ==> shifted_ty(
                #[trigger] sig_inputs_and_output(sig).value.argument_types[i],
                -1,
                0,
            ) == sig.params@[i]@,
        shifted_ty(sig_inputs_and_output(sig).value.return_type, -1, 0) == sig.ret@,
{
    assert forall|i: int| 0 <= i < sig.params@.len() implies shifted_ty(
        #[trigger] sig_inputs_and_output(sig).value.argument_types[i],
        -1,
        0,
    ) == sig.params@[i]@ by {
        assert(can_shift_sig(sig));
        shift_in_of_ty_is_undone(sig.params@[i]@, 1, 0);
    }
    shift_in_of_ty_is_undone(sig.ret@, 1, 0);
}

/// The bounds on the type of an async block refer to no binder but those of the datum: the one
/// of the opaque type's parameter and the one of the self type. Wherever the datum is moved, they
/// stay as they are.
pub proof fn async_block_bounds_are_closed(
    future_trait: hir::TraitId,
    future_output: TypeAliasId,
    by: int,
)
    ensures
        shifted_clauses(async_block_bounds(future_trait, future_output), by, 2)
            == async_block_bounds(future_trait, future_output),
{
    let bounds = async_block_bounds(future_trait, future_output);
    let args = seq![GenericArgView::Ty(first_var(1))];
    assert(shifted_args(args, by, 3) =~= args);
    assert(shifted_clauses(bounds, by, 2) =~= bounds);
}

/// A struct, enum or union has a variance for each variable of the binder of its datum.
pub proof fn adt_variances_match_binder(db: HirDatabase, krate: CrateId, id: AdtId)
    ensures
        invariant_in(db.generics_of(GenericDefId::AdtId(id.0)).num_params as nat).len()
            == struct_datum(db, krate, id).binders.binders.len(),
{
}

/// The key of a function leads back to the function, and a key is that of the function that it
/// leads to.
pub proof fn fn_def_keys_round_trip(id: FnDefId, key: InternedCallableDefId)
    ensures
        FnDefId::from_spec(InternedCallableDefId::from_spec(id)) == id,
        InternedCallableDefId::from_spec(FnDefId::from_spec(key)) == key,
{
}

/// The key of an opaque type leads back to the type, and a key is that of the type that it leads
/// to.
pub proof fn opaque_ty_keys_round_trip(id: OpaqueTyId, key: InternedOpaqueTyId)
    ensures
        OpaqueTyId::from_spec(InternedOpaqueTyId::from_spec(id)) == id,
        InternedOpaqueTyId::from_spec(OpaqueTyId::from_spec(key)) == key,
{
}

/// The key of a closure leads back to the closure, and a key is that of the closure that it leads
/// to.
pub proof fn closure_keys_round_trip(id: ClosureId, key: InternedClosureId)
    ensures
        ClosureId::from_spec(InternedClosureId::from_spec(id)) == id,
        InternedClosureId::from_spec(ClosureId::from_spec(key)) == key,
{
}

} // verus!
