//! What each answer says of the program: its parts, read off the tables one for one.

use vstd::prelude::*;

use crate::bound_var::{BoundVar, DebruijnIndex};
use crate::context::{plain_ty, well_known_trait};
use crate::datums::{
    assoc_ty_values, associated_ty_datum, associated_ty_value, bounds_among, can_shift_sig,
    chalk_assoc_type_ids, fn_def, fn_def_datum, fn_generics, impl_datum, impl_is_resolved,
    impl_items_known, implemented_items, invariant_in, is_assoc_ty_value, is_assoc_type, is_fn_def,
    is_value, lowered_bounds, sig_inputs_and_output, struct_datum, trait_datum,
};
use crate::db::{assoc_types, CallableSig, HirDatabase, Name, TraitItem, TypeBound};
use crate::free_vars::{free_in_ty, free_variables_of_ty_move, moved_ty_is_not_caught};
use crate::hir;
use crate::hir::{
    AdtId, AssocContainerId, AssocItemId, CallableDefId, CrateId, GenericDefId, ImplTraitId,
    LangItemTarget, TypeAliasId,
};
use crate::ids;
use crate::ids::{AssocTypeId, FnDefId, OpaqueTyId, TraitId};
use crate::ir::{
    AliasTyView, GenericArgView, Safety, TyVariableKind, TyView, TypeName, VariableKindView,
    Variance, WhereClauseView,
};
use crate::opaque::{is_opaque_ty, opaque_ty_datum};
use crate::rust_ir::{
    inline_bound_view, AdtKind, ImplType, Polarity, QuantifiedInlineBound,
    QuantifiedInlineBoundView,
};
use crate::shift::{can_shift_ty, shifted_ty};
use crate::table_laws::{
    filters_agree, kept_in_order, lang_item_is_found, named_type_exists, named_type_is_found,
    types_are_listed,
};
use crate::well_known::{attribute_is_read, attributes_are_named, lang_attr, WellKnownTrait};

verus! {

/// The datum of a trait stands inside a binder of its parameters, and has the declared clauses,
/// supertraits included, one for one and in order. It is upstream exactly if the trait stands in
/// another crate than the one that asks.
pub proof fn trait_is_described(db: HirDatabase, krate: CrateId, trait_id: TraitId)
    ensures
        ({
            let declared = db.traits@[trait_id.0.0 as int];
            let datum = trait_datum(db, krate, trait_id);
            let clauses = declared.generics.where_clauses@;
            &&& datum.id == trait_id
            &&& datum.binders.binders.len() == declared.generics.num_params
            &&& forall|i: int|
                0 <= i < declared.generics.num_params ==> #[trigger] datum.binders.binders[i]
                    == VariableKindView::Ty(TyVariableKind::General)
            &&& datum.binders.value.where_clauses.len() == clauses.len()
            &&& forall|i: int|
                0 <= i < clauses.len() ==> #[trigger] datum.binders.value.where_clauses[i]
                    == clauses[i]@
            &&& datum.flags.auto == declared.is_auto
            &&& datum.flags.upstream <==> declared.krate != krate
            &&& datum.flags.non_enumerable
            &&& !datum.flags.marker
            &&& !datum.flags.fundamental
            &&& !datum.flags.coinductive
        }),
{
}

/// The datum of a trait lists the types among its items, and nothing else: as many as there are,
/// each after as many as come before it.
pub proof fn trait_lists_its_types(db: HirDatabase, krate: CrateId, trait_id: TraitId)
    ensures
        ({
            let items = db.traits@[trait_id.0.0 as int].items@;
            let listed = trait_datum(db, krate, trait_id).associated_ty_ids;
            &&& listed.len() == items.filter(|item: TraitItem| item.item is TypeAliasId).len()
            &&& forall|i: int|
                #![trigger items[i]]
                0 <= i < items.len() && items[i].item is TypeAliasId ==> {
                    let before = items.take(i).filter(
                        |item: TraitItem| item.item is TypeAliasId,
                    ).len();
                    &&& before < listed.len()
                    &&& listed[before as int].0 == items[i].item->TypeAliasId_0.0
                }
        }),
{
    let items = db.traits@[trait_id.0.0 as int].items@;
    let listed = trait_datum(db, krate, trait_id).associated_ty_ids;
    types_are_listed(items);
    assert forall|i: int|
        #![trigger items[i]]
        0 <= i < items.len() && items[i].item is TypeAliasId implies {
        let before = items.take(i).filter(|item: TraitItem| item.item is TypeAliasId).len();
        &&& before < listed.len()
        &&& listed[before as int].0 == items[i].item->TypeAliasId_0.0
    } by {
        let before = items.take(i).filter(|item: TraitItem| item.item is TypeAliasId).len();
        assert(assoc_types(items)[before as int] == items[i].item->TypeAliasId_0);
        assert(chalk_assoc_type_ids(assoc_types(items))[before as int].0
            == items[i].item->TypeAliasId_0.0);
    }
}

/// The datum of a trait names the well-known trait that its attribute marks; without such an
/// attribute it names none, and none is ever named `Unpin`.
pub proof fn attribute_marks_trait(db: HirDatabase, krate: CrateId, trait_id: TraitId)
    ensures
        ({
            let attr = db.traits@[trait_id.0.0 as int].lang_attr;
            let marked = trait_datum(db, krate, trait_id).well_known;
            &&& attr is None ==> marked is None
            &&& marked != Some(WellKnownTrait::Unpin)
            &&& attr matches Some(name) ==> {
                &&& marked == Some(WellKnownTrait::Sized) <==> name@ == "sized"@
                &&& marked == Some(WellKnownTrait::Copy) <==> name@ == "copy"@
                &&& marked == Some(WellKnownTrait::Clone) <==> name@ == "clone"@
                &&& marked == Some(WellKnownTrait::Drop) <==> name@ == "drop"@
                &&& marked == Some(WellKnownTrait::FnOnce) <==> name@ == "fn_once"@
                &&& marked == Some(WellKnownTrait::FnMut) <==> name@ == "fn_mut"@
                &&& marked == Some(WellKnownTrait::Fn) <==> name@ == "fn"@
                &&& marked == Some(WellKnownTrait::Unsize) <==> name@ == "unsize"@
                &&& marked == Some(WellKnownTrait::CoerceUnsized) <==> name@ == "coerce_unsized"@
                &&& marked == Some(WellKnownTrait::DiscriminantKind) <==> name@
                    == "discriminant_kind"@
            }
        }),
{
    attributes_are_named();
    if let Some(name) = db.traits@[trait_id.0.0 as int].lang_attr {
        attribute_is_read(name@, WellKnownTrait::Sized);
        attribute_is_read(name@, WellKnownTrait::Copy);
        attribute_is_read(name@, WellKnownTrait::Clone);
        attribute_is_read(name@, WellKnownTrait::Drop);
        attribute_is_read(name@, WellKnownTrait::FnOnce);
        attribute_is_read(name@, WellKnownTrait::FnMut);
        attribute_is_read(name@, WellKnownTrait::Fn);
        attribute_is_read(name@, WellKnownTrait::Unsize);
        attribute_is_read(name@, WellKnownTrait::Unpin);
        attribute_is_read(name@, WellKnownTrait::CoerceUnsized);
        attribute_is_read(name@, WellKnownTrait::DiscriminantKind);
    }
}

/// Which crate asks matters for one thing only: whether the trait is upstream.
pub proof fn trait_looks_the_same_from_everywhere(
    db: HirDatabase,
    a: CrateId,
    b: CrateId,
    trait_id: TraitId,
)
    ensures
        trait_datum(db, a, trait_id).binders == trait_datum(db, b, trait_id).binders,
        trait_datum(db, a, trait_id).associated_ty_ids == trait_datum(
            db,
            b,
            trait_id,
        ).associated_ty_ids,
        trait_datum(db, a, trait_id).well_known == trait_datum(db, b, trait_id).well_known,
        trait_datum(db, a, trait_id).flags.auto == trait_datum(db, b, trait_id).flags.auto,
        a != b ==> trait_datum(db, a, trait_id).flags.upstream || trait_datum(
            db,
            b,
            trait_id,
        ).flags.upstream,
{
}

/// A well-known trait is the one that the first lang item with its attribute stands on; there is
/// none if there is no such item, or if it stands on something else.
pub proof fn well_known_trait_is_a_lang_item(
    db: HirDatabase,
    krate: CrateId,
    trait_: WellKnownTrait,
    i: int,
)
    requires
        0 <= i <= db.crates@[krate.0 as int].lang_items@.len(),
        forall|k: int|
            0 <= k < i ==> (#[trigger] db.crates@[krate.0 as int].lang_items@[k]).name@
                != lang_attr(trait_),
        i < db.crates@[krate.0 as int].lang_items@.len()
            ==> db.crates@[krate.0 as int].lang_items@[i].name@ == lang_attr(trait_),
    ensures
        ({
            let items = db.crates@[krate.0 as int].lang_items@;
            let found = well_known_trait(db, krate, trait_);
            &&& i == items.len() ==> found is None
            &&& i < items.len() ==> match items[i].target {
                LangItemTarget::TraitId(id) => found matches Some(name) && name.0 == id.0,
                _ => found is None,
            }
        }),
{
    lang_item_is_found(db.crates@[krate.0 as int].lang_items@, lang_attr(trait_), i);
}

/// The datum of an associated type is of the trait that it stands in, and has the declared
/// clauses, one for one and in order.
pub proof fn associated_type_is_described(db: HirDatabase, id: AssocTypeId)
    ensures
        ({
            let declared = db.type_aliases@[id.0.0 as int];
            let datum = associated_ty_datum(db, id);
            let clauses = declared.generics.where_clauses@;
            &&& datum.id == id
            &&& datum.name.0 == id.0
            &&& declared.container matches AssocContainerId::TraitId(trait_) ==> datum.trait_id.0
                == trait_.0
            &&& datum.binders.binders.len() == declared.generics.num_params
            &&& forall|i: int|
                0 <= i < declared.generics.num_params ==> #[trigger] datum.binders.binders[i]
                    == VariableKindView::Ty(TyVariableKind::General)
            &&& datum.binders.value.where_clauses.len() == clauses.len()
            &&& forall|i: int|
                0 <= i < clauses.len() ==> #[trigger] datum.binders.value.where_clauses[i]
                    == clauses[i]@
        }),
{
}

proof fn bounds_are_kept(predicates: Seq<Option<QuantifiedInlineBound>>)
    ensures
        ({
            let kept = predicates.filter(|p: Option<QuantifiedInlineBound>| p is Some);
            &&& bounds_among(predicates).len() == kept.len()
            &&& forall|i: int|
                0 <= i < kept.len() ==> #[trigger] bounds_among(predicates)[i]
                    == inline_bound_view(kept[i]->Some_0)
        }),
    decreases predicates.len(),
{
    reveal(Seq::filter);
    if predicates.len() > 0 {
        bounds_are_kept(predicates.drop_last());
    }
}

proof fn bounds_are_lowered_in_order(bounds: Seq<TypeBound>)
    ensures
        ({
            let lists = bounds.map_values(|bound: TypeBound| bound.predicates@);
            let kept = lists.flatten().filter(|p: Option<QuantifiedInlineBound>| p is Some);
            &&& lowered_bounds(bounds).len() == kept.len()
            &&& forall|i: int|
                0 <= i < kept.len() ==> #[trigger] lowered_bounds(bounds)[i] == inline_bound_view(
                    kept[i]->Some_0,
                )
        }),
    decreases bounds.len(),
{
    let pred = |p: Option<QuantifiedInlineBound>| p is Some;
    let lists = bounds.map_values(|bound: TypeBound| bound.predicates@);
    lists.lemma_flatten_and_flatten_alt_are_equivalent();
    if bounds.len() == 0 {
        reveal(Seq::filter);
    } else {
        let front = bounds.drop_last();
        let front_lists = front.map_values(|bound: TypeBound| bound.predicates@);
        front_lists.lemma_flatten_and_flatten_alt_are_equivalent();
        assert(lists.drop_last() =~= front_lists);
        assert(lists.last() == bounds.last().predicates@);
        assert(lists.flatten() == front_lists.flatten() + lists.last());
        Seq::filter_distributes_over_add(front_lists.flatten(), lists.last(), pred);
        bounds_are_lowered_in_order(front);
        bounds_are_kept(bounds.last().predicates@);
        let kept = lists.flatten().filter(pred);
        let earlier = front_lists.flatten().filter(pred);
        assert forall|i: int| 0 <= i < kept.len() implies #[trigger] lowered_bounds(bounds)[i]
            == inline_bound_view(kept[i]->Some_0) by {
            if i < earlier.len() {
                assert(lowered_bounds(front)[i] == inline_bound_view(earlier[i]->Some_0));
            } else {
                let k = i - earlier.len();
                assert(bounds_among(bounds.last().predicates@)[k] == inline_bound_view(
                    lists.last().filter(pred)[k]->Some_0,
                ));
            }
        }
    }
}

/// The datum of an associated type has each predicate of each of its bounds that is a bound on
/// it, in order, and no other.
pub proof fn associated_type_has_its_bounds(db: HirDatabase, id: AssocTypeId)
    ensures
        ({
            let lists = db.type_aliases@[id.0.0 as int].bounds@.map_values(
                |bound: TypeBound| bound.predicates@,
            );
            let kept = lists.flatten().filter(|p: Option<QuantifiedInlineBound>| p is Some);
            let bounds = associated_ty_datum(db, id).binders.value.bounds;
            &&& bounds.len() == kept.len()
            &&& forall|i: int|
                0 <= i < kept.len() ==> #[trigger] bounds[i] == inline_bound_view(kept[i]->Some_0)
        }),
{
    bounds_are_lowered_in_order(db.type_aliases@[id.0.0 as int].bounds@);
}

/// The datum of a struct, enum or union has its own parameters and clauses, one for one and in
/// order, and is upstream exactly if it stands in another crate than the one that asks. All three
/// are described as a struct with one variant, which has no fields.
pub proof fn adt_is_described(db: HirDatabase, krate: CrateId, id: ids::AdtId)
    ensures
        ({
            let (generics, home) = match id.0 {
                AdtId::StructId(s) => (
                    db.structs@[s.0.0 as int].generics,
                    db.structs@[s.0.0 as int].krate,
                ),
                AdtId::EnumId(e) => (
                    db.enums@[e.0.0 as int].generics,
                    db.enums@[e.0.0 as int].krate,
                ),
                AdtId::UnionId(u) => (
                    db.unions@[u.0.0 as int].generics,
                    db.unions@[u.0.0 as int].krate,
                ),
            };
            let datum = struct_datum(db, krate, id);
            let clauses = generics.where_clauses@;
            &&& datum.id == id
            &&& datum.kind == AdtKind::Struct
            &&& datum.binders.binders.len() == generics.num_params
            &&& forall|i: int|
                0 <= i < generics.num_params ==> #[trigger] datum.binders.binders[i]
                    == VariableKindView::Ty(TyVariableKind::General)
            &&& datum.binders.value.where_clauses.len() == clauses.len()
            &&& forall|i: int|
                0 <= i < clauses.len() ==> #[trigger] datum.binders.value.where_clauses[i]
                    == clauses[i]@
            &&& datum.binders.value.variants.len() == 1
            &&& datum.binders.value.variants[0].len() == 0
            &&& datum.flags.upstream <==> home != krate
            &&& !datum.flags.fundamental
            &&& !datum.flags.phantom_data
        }),
{
}

/// The datum of an impl stands inside a binder of its parameters, and has the declared trait
/// reference and the declared clauses, one for one and in order. It is negative exactly if it is
/// declared so, and local exactly if it stands in the crate that asks.
pub proof fn impl_is_described(db: HirDatabase, krate: CrateId, id: hir::ImplId)
    ensures
        ({
            let declared = db.impls@[id.0.0 as int];
            let datum = impl_datum(db, krate, id);
            let clauses = declared.generics.where_clauses@;
            &&& datum.polarity == Polarity::Negative <==> declared.is_negative
            &&& datum.impl_type == ImplType::Local <==> declared.krate == krate
            &&& datum.binders.binders.len() == declared.generics.num_params
            &&& forall|i: int|
                0 <= i < declared.generics.num_params ==> #[trigger] datum.binders.binders[i]
                    == VariableKindView::Ty(TyVariableKind::General)
            &&& declared.trait_ref matches Some(trait_ref) ==> {
                let args = trait_ref.value.substitution@;
                &&& datum.binders.value.trait_ref.trait_id == trait_ref.value.trait_id
                &&& datum.binders.value.trait_ref.substitution.len() == args.len()
                &&& forall|i: int|
                    0 <= i < args.len()
                        ==> #[trigger] datum.binders.value.trait_ref.substitution[i] == args[i]@
            }
            &&& datum.binders.value.where_clauses.len() == clauses.len()
            &&& forall|i: int|
                0 <= i < clauses.len() ==> #[trigger] datum.binders.value.where_clauses[i]
                    == clauses[i]@
        }),
{
}

/// Which crate asks matters for one thing only: whether the impl is local.
pub proof fn impl_looks_the_same_from_everywhere(
    db: HirDatabase,
    a: CrateId,
    b: CrateId,
    id: hir::ImplId,
)
    ensures
        impl_datum(db, a, id).binders == impl_datum(db, b, id).binders,
        impl_datum(db, a, id).polarity == impl_datum(db, b, id).polarity,
        impl_datum(db, a, id).associated_ty_value_ids == impl_datum(
            db,
            b,
            id,
        ).associated_ty_value_ids,
        a != b ==> !(impl_datum(db, a, id).impl_type == ImplType::Local && impl_datum(
            db,
            b,
            id,
        ).impl_type == ImplType::Local),
{
}

/// The datum of an impl lists those of its items that are types of which the trait has one with
/// the same name, and nothing else: as many as there are, each after as many as come before it.
pub proof fn impl_lists_the_types_it_gives(db: HirDatabase, krate: CrateId, id: hir::ImplId)
    requires
        db.impls@[id.0.0 as int].trait_ref is Some,
    ensures
        ({
            let items = db.impls@[id.0.0 as int].items@;
            let trait_id = db.impls@[id.0.0 as int].trait_ref->Some_0.value.trait_id;
            let declared = db.traits@[trait_id.0.0 as int].items@;
            let gives = |item: AssocItemId|
                item matches AssocItemId::TypeAliasId(alias) && exists|k: int|
                    0 <= k < declared.len() && (#[trigger] declared[k]).item is TypeAliasId
                        && declared[k].name@ == db.type_aliases@[alias.0.0 as int].name@;
            let listed = impl_datum(db, krate, id).associated_ty_value_ids;
            &&& listed.len() == items.filter(gives).len()
            &&& forall|i: int|
                #![trigger items[i]]
                0 <= i < items.len() && gives(items[i]) ==> {
                    let before = items.take(i).filter(gives).len();
                    &&& before < listed.len()
                    &&& listed[before as int].0 == items[i]->TypeAliasId_0.0
                }
        }),
{
    let items = db.impls@[id.0.0 as int].items@;
    let trait_id = db.impls@[id.0.0 as int].trait_ref->Some_0.value.trait_id;
    let declared = db.traits@[trait_id.0.0 as int].items@;
    let gives = |item: AssocItemId|
        item matches AssocItemId::TypeAliasId(alias) && exists|k: int|
            0 <= k < declared.len() && (#[trigger] declared[k]).item is TypeAliasId
                && declared[k].name@ == db.type_aliases@[alias.0.0 as int].name@;
    let pred = |item: AssocItemId| is_assoc_ty_value(db, declared, item);
    assert forall|item: AssocItemId| #[trigger] pred(item) == gives(item) by {
        if let AssocItemId::TypeAliasId(alias) = item {
            named_type_exists(declared, db.type_aliases@[alias.0.0 as int].name@);
        }
    }
    assert(implemented_items(db, id) == declared);
    filters_agree(items, pred, gives);
    let listed = impl_datum(db, krate, id).associated_ty_value_ids;
    assert(listed == assoc_ty_values(db, declared, items));
    assert(listed.len() == items.filter(pred).len());
    assert forall|i: int|
        #![trigger items[i]]
        0 <= i < items.len() && gives(items[i]) implies {
        let before = items.take(i).filter(gives).len();
        &&& before < listed.len()
        &&& listed[before as int].0 == items[i]->TypeAliasId_0.0
    } by {
        filters_agree(items.take(i), pred, gives);
        kept_in_order(items, pred, i);
        let before = items.take(i).filter(gives).len();
        assert(listed[before as int].0 == items.filter(pred)[before as int]->TypeAliasId_0.0);
    }
}

/// The value of an associated type is the aliased type as declared, no variable renumbered, under
/// the binder as declared. It belongs to the impl that it stands in, and to the first type of the
/// trait that has its name.
pub proof fn value_is_the_aliased_type(
    db: HirDatabase,
    id: TypeAliasId,
    impl_id: hir::ImplId,
    k: int,
)
    requires
        db.type_aliases@[id.0.0 as int].container == AssocContainerId::ImplId(impl_id),
        db.impls@[impl_id.0.0 as int].trait_ref is Some,
        ({
            let trait_id = db.impls@[impl_id.0.0 as int].trait_ref->Some_0.value.trait_id;
            let declared = db.traits@[trait_id.0.0 as int].items@;
            let name = db.type_aliases@[id.0.0 as int].name@;
            &&& 0 <= k < declared.len()
            &&& declared[k].item is TypeAliasId && declared[k].name@ == name
            &&& forall|i: int|
                0 <= i < k ==> !((#[trigger] declared[i]).item is TypeAliasId && declared[i].name@
                    == name)
        }),
    ensures
        ({
            let trait_id = db.impls@[impl_id.0.0 as int].trait_ref->Some_0.value.trait_id;
            let declared = db.traits@[trait_id.0.0 as int].items@;
            let alias = db.type_aliases@[id.0.0 as int];
            let value = associated_ty_value(db, id);
            &&& value.impl_id.0 == impl_id.0
            &&& value.associated_ty_id.0 == declared[k].item->TypeAliasId_0.0
            &&& value.value.binders.len() == alias.ty.binders@.len()
            &&& forall|i: int|
                0 <= i < alias.ty.binders@.len() ==> #[trigger] value.value.binders[i]
                    == alias.ty.binders@[i]@
            &&& value.value.value == alias.ty.value@
        }),
{
    let trait_id = db.impls@[impl_id.0.0 as int].trait_ref->Some_0.value.trait_id;
    let declared = db.traits@[trait_id.0.0 as int].items@;
    named_type_is_found(declared, db.type_aliases@[id.0.0 as int].name@, k);
}

/// The value of an associated type refers to the same variables as the aliased type: a variable of
/// the binder of the alias is one of the binder of the value, at the same position.
pub proof fn value_keeps_its_variables(db: HirDatabase, id: TypeAliasId, depth: int, index: usize)
    ensures
        free_in_ty(associated_ty_value(db, id).value.value, depth, index, 0) <==> free_in_ty(
            db.type_aliases@[id.0.0 as int].ty.value@,
            depth,
            index,
            0,
        ),
        associated_ty_value(db, id).value.binders.len()
            == db.type_aliases@[id.0.0 as int].ty.binders@.len(),
{
}

/// A type of a signature, as it is given, refers to the same variables as the declared one, each
/// one binder further out, and to none of the binder in between.
pub proof fn signature_keeps_its_variables(sig: CallableSig, depth: int, index: usize)
    requires
        can_shift_sig(sig),
        0 <= depth,
    ensures
        forall|i: int|
            0 <= i < sig.params@.len() ==> (free_in_ty(
                #[trigger] sig_inputs_and_output(sig).value.argument_types[i],
                depth + 1,
                index,
                0,
            ) <==> free_in_ty(sig.params@[i]@, depth, index, 0)),
        free_in_ty(sig_inputs_and_output(sig).value.return_type, depth + 1, index, 0)
            <==> free_in_ty(sig.ret@, depth, index, 0),
        forall|i: int|
            0 <= i < sig.params@.len() ==> !free_in_ty(
                #[trigger] sig_inputs_and_output(sig).value.argument_types[i],
                0,
                index,
                0,
            ),
        !free_in_ty(sig_inputs_and_output(sig).value.return_type, 0, index, 0),
{
    assert forall|i: int| 0 <= i < sig.params@.len() implies !free_in_ty(
        #[trigger] sig_inputs_and_output(sig).value.argument_types[i],
        0,
        index,
        0,
    ) by {
        assert(can_shift_ty(sig.params@[i]@, 1, 0));
        moved_ty_is_not_caught(sig.params@[i]@, 1, 0, 0, index);
    }
    moved_ty_is_not_caught(sig.ret@, 1, 0, 0, index);
    assert forall|i: int| 0 <= i < sig.params@.len() implies (free_in_ty(
        #[trigger] sig_inputs_and_output(sig).value.argument_types[i],
        depth + 1,
        index,
        0,
    ) <==> free_in_ty(sig.params@[i]@, depth, index, 0)) by {
        assert(can_shift_ty(sig.params@[i]@, 1, 0));
        free_variables_of_ty_move(sig.params@[i]@, 1, 0, depth, index);
    }
    free_variables_of_ty_move(sig.ret@, 1, 0, depth, index);
}

/// The types of a signature are the declared ones, one for one and in order, each moved in
/// through a binder that has no variables.
pub proof fn signature_is_given_in_order(sig: CallableSig)
    ensures
        ({
            let io = sig_inputs_and_output(sig);
            &&& io.binders.len() == 0
            &&& io.value.argument_types.len() == sig.params@.len()
            &&& forall|i: int|
                0 <= i < sig.params@.len() ==> #[trigger] io.value.argument_types[i] == shifted_ty(
                    sig.params@[i]@,
                    1,
                    0,
                )
            &&& io.value.return_type == shifted_ty(sig.ret@, 1, 0)
        }),
        can_shift_sig(sig) <==> can_shift_ty(sig.ret@, 1, 0) && forall|i: int|
            0 <= i < sig.params@.len() ==> can_shift_ty((#[trigger] sig.params@[i])@, 1, 0),
{
}

/// The datum of a function has the variables and the types of its signature, and the clauses of
/// its own parameters, or of those of the struct or enum that it constructs, one for one and in
/// order. It is variadic exactly if it is declared so, and never unsafe.
pub proof fn function_is_described(db: HirDatabase, id: FnDefId)
    ensures
        ({
            let (sig, generics) = match db.callable_defs@[id.0.0 as int] {
                CallableDefId::FunctionId(f) => (
                    db.functions@[f.0.0 as int].signature,
                    db.functions@[f.0.0 as int].generics,
                ),
                CallableDefId::StructId(s) => (
                    db.structs@[s.0.0 as int].signature,
                    db.structs@[s.0.0 as int].generics,
                ),
                CallableDefId::EnumVariantId(v) => (
                    db.enums@[v.parent.0.0 as int].variants@[v.local_id as int].signature,
                    db.enums@[v.parent.0.0 as int].generics,
                ),
            };
            let datum = fn_def_datum(db, id);
            let clauses = generics.where_clauses@;
            let io = datum.binders.value.inputs_and_output;
            &&& datum.id == id
            &&& datum.sig.safety == Safety::Safe
            &&& datum.sig.variadic == sig.value.is_varargs
            &&& datum.binders.binders.len() == sig.binders@.len()
            &&& forall|i: int|
                0 <= i < sig.binders@.len() ==> #[trigger] datum.binders.binders[i]
                    == sig.binders@[i]@
            &&& datum.binders.value.where_clauses.len() == clauses.len()
            &&& forall|i: int|
                0 <= i < clauses.len() ==> #[trigger] datum.binders.value.where_clauses[i]
                    == clauses[i]@
            &&& io.binders.len() == 0
            &&& io.value.argument_types.len() == sig.value.params@.len()
            &&& forall|i: int|
                0 <= i < sig.value.params@.len() ==> #[trigger] io.value.argument_types[i]
                    == shifted_ty(sig.value.params@[i]@, 1, 0)
            &&& io.value.return_type == shifted_ty(sig.value.ret@, 1, 0)
        }),
{
}

/// A function or constructor is invariant in each of its parameters, and so is a struct, enum or
/// union; there is a variance for each parameter.
pub proof fn parameters_are_invariant(db: HirDatabase, fn_id: FnDefId, adt_id: ids::AdtId, n: nat)
    ensures
        invariant_in(n).len() == n,
        forall|i: int| 0 <= i < n ==> #[trigger] invariant_in(n)[i] == Variance::Invariant,
        fn_generics(db, fn_id) == (match db.callable_defs@[fn_id.0.0 as int] {
            CallableDefId::FunctionId(f) => db.functions@[f.0.0 as int].generics,
            CallableDefId::StructId(s) => db.structs@[s.0.0 as int].generics,
            CallableDefId::EnumVariantId(v) => db.enums@[v.parent.0.0 as int].generics,
        }),
        db.generics_of(GenericDefId::AdtId(adt_id.0)) == (match adt_id.0 {
            AdtId::StructId(s) => db.structs@[s.0.0 as int].generics,
            AdtId::EnumId(e) => db.enums@[e.0.0 as int].generics,
            AdtId::UnionId(u) => db.unions@[u.0.0 as int].generics,
        }),
{
}

/// The datum of an `impl Trait` in a return type has the declared bounds, whatever they say, one
/// for one and in order, inside a binder of the type that they are on; that stands inside the
/// declared binder. There are no further clauses, and it does not matter which crate asks.
pub proof fn impl_trait_has_its_bounds(
    db: HirDatabase,
    krate: CrateId,
    id: OpaqueTyId,
    func: hir::FunctionId,
    idx: u16,
)
    requires
        db.impl_trait_ids@[id.0.0 as int] == ImplTraitId::ReturnTypeImplTrait(func, idx),
        db.functions@[func.0.0 as int].return_type_impl_traits is Some,
    ensures
        ({
            let datas = db.functions@[func.0.0 as int].return_type_impl_traits->Some_0;
            let declared = datas.value.impl_traits@[idx as int].bounds.value@;
            let datum = opaque_ty_datum(db, krate, id);
            let bounds = datum.bound.value.bounds;
            &&& datum.opaque_ty_id == id
            &&& datum.bound.binders.len() == datas.binders@.len()
            &&& forall|i: int|
                0 <= i < datas.binders@.len() ==> #[trigger] datum.bound.binders[i]
                    == datas.binders@[i]@
            &&& bounds.binders.len() == 1
            &&& bounds.binders[0] == VariableKindView::Ty(TyVariableKind::General)
            &&& bounds.value.len() == declared.len()
            &&& forall|i: int|
                0 <= i < declared.len() ==> #[trigger] bounds.value[i] == declared[i]@
            &&& datum.bound.value.where_clauses.binders.len() == 0
            &&& datum.bound.value.where_clauses.value.len() == 0
        }),
{
}

/// The type of an async block has one parameter, and two bounds on the self type: it implements
/// the trait that the first lang item `future_trait` stands on, and the first type of that trait
/// with the name `Output` is, for it, the parameter.
pub proof fn async_block_is_a_future(
    db: HirDatabase,
    krate: CrateId,
    id: OpaqueTyId,
    i: int,
    future_trait: hir::TraitId,
    k: int,
)
    requires
        db.impl_trait_ids@[id.0.0 as int] is AsyncBlockTypeImplTrait,
        ({
            let items = db.crates@[krate.0 as int].lang_items@;
            &&& 0 <= i < items.len()
            &&& items[i].name@ == "future_trait"@
            &&& items[i].target == LangItemTarget::TraitId(future_trait)
            &&& forall|j: int| 0 <= j < i ==> (#[trigger] items[j]).name@ != "future_trait"@
        }),
        ({
            let items = db.traits@[future_trait.0.0 as int].items@;
            &&& 0 <= k < items.len()
            &&& items[k].item is TypeAliasId && items[k].name@ == "Output"@
            &&& forall|j: int|
                0 <= j < k ==> !((#[trigger] items[j]).item is TypeAliasId && items[j].name@
                    == "Output"@)
        }),
    ensures
        ({
            let output = db.traits@[future_trait.0.0 as int].items@[k].item->TypeAliasId_0;
            let self_ty = GenericArgView::Ty(
                TyView::BoundVar(BoundVar { debruijn: DebruijnIndex { depth: 1 }, index: 0 }),
            );
            let parameter = TyView::BoundVar(
                BoundVar { debruijn: DebruijnIndex { depth: 2 }, index: 0 },
            );
            let general = VariableKindView::Ty(TyVariableKind::General);
            let datum = opaque_ty_datum(db, krate, id);
            let bounds = datum.bound.value.bounds;
            &&& datum.opaque_ty_id == id
            &&& datum.bound.binders.len() == 1 && datum.bound.binders[0] == general
            &&& bounds.binders.len() == 1 && bounds.binders[0] == general
            &&& bounds.value.len() == 2
            &&& bounds.value[0].binders.len() == 0
            &&& bounds.value[0].value matches WhereClauseView::Implemented(trait_ref) && {
                &&& trait_ref.trait_id.0 == future_trait.0
                &&& trait_ref.substitution.len() == 1
                &&& trait_ref.substitution[0] == self_ty
            }
            &&& bounds.value[1].binders.len() == 0
            &&& bounds.value[1].value matches WhereClauseView::AliasEq { alias, ty } && {
                &&& ty == parameter
                &&& alias matches AliasTyView::Projection { associated_ty_id, substitution } && {
                    &&& associated_ty_id.0 == output.0
                    &&& substitution.len() == 1
                    &&& substitution[0] == self_ty
                }
            }
            &&& datum.bound.value.where_clauses.binders.len() == 0
            &&& datum.bound.value.where_clauses.value.len() == 0
        }),
{
    lang_item_is_found(db.crates@[krate.0 as int].lang_items@, "future_trait"@, i);
    named_type_is_found(db.traits@[future_trait.0.0 as int].items@, "Output"@, k);
}

/// The type of an async block has one parameter and no bounds if there is no lang item
/// `future_trait`, if the first one stands on no trait, or if the trait has no type `Output`.
pub proof fn async_block_without_a_future(db: HirDatabase, krate: CrateId, id: OpaqueTyId, i: int)
    requires
        db.impl_trait_ids@[id.0.0 as int] is AsyncBlockTypeImplTrait,
        ({
            let items = db.crates@[krate.0 as int].lang_items@;
            &&& 0 <= i <= items.len()
            &&& forall|j: int| 0 <= j < i ==> (#[trigger] items[j]).name@ != "future_trait"@
            &&& i < items.len() ==> items[i].name@ == "future_trait"@
            &&& i < items.len() ==> (items[i].target matches LangItemTarget::TraitId(trait_)
                ==> forall|j: int|
                0 <= j < db.traits@[trait_.0.0 as int].items@.len()
                    ==> !((#[trigger] db.traits@[trait_.0.0 as int].items@[j]).item is TypeAliasId
                    && db.traits@[trait_.0.0 as int].items@[j].name@ == "Output"@))
        }),
    ensures
        ({
            let datum = opaque_ty_datum(db, krate, id);
            &&& datum.opaque_ty_id == id
            &&& datum.bound.binders.len() == 1
            &&& datum.bound.binders[0] == VariableKindView::Ty(TyVariableKind::General)
            &&& datum.bound.value.bounds.binders.len() == 0
            &&& datum.bound.value.bounds.value.len() == 0
            &&& datum.bound.value.where_clauses.binders.len() == 0
            &&& datum.bound.value.where_clauses.value.len() == 0
        }),
{
    let items = db.crates@[krate.0 as int].lang_items@;
    lang_item_is_found(items, "future_trait"@, i);
    if i < items.len() {
        if let LangItemTarget::TraitId(trait_) = items[i].target {
            let declared = db.traits@[trait_.0.0 as int].items@;
            named_type_is_found(declared, "Output"@, declared.len() as int);
        }
    }
}

/// A type without arguments has its name and no arguments.
pub proof fn plain_ty_has_no_arguments(name: TypeName)
    ensures
        plain_ty(name) matches TyView::Apply { name: n, args } && n == name && args.len() == 0,
{
}

/// Names are texts, and an associated type is called what its declaration is called.
pub proof fn names_are_texts(db: HirDatabase, name: Name, id: AssocTypeId)
    ensures
        name@ == name.text@,
        db.alias_at(associated_ty_datum(db, id).name).name@
            == db.type_aliases@[id.0.0 as int].name.text@,
{
}

/// Which questions can be asked: an associated type stands in a trait, and a function is interned
/// and known.
pub proof fn types_and_functions_can_be_asked_for(db: HirDatabase, id: AssocTypeId, fn_id: FnDefId)
    ensures
        is_assoc_type(db, id) <==> id.0.0 < db.type_aliases@.len()
            && db.type_aliases@[id.0.0 as int].container is TraitId,
        fn_def(db, fn_id) == db.callable_defs@[fn_id.0.0 as int],
        is_fn_def(db, fn_id) <==> fn_id.0.0 < db.callable_defs@.len() && (
        match db.callable_defs@[fn_id.0.0 as int] {
            CallableDefId::FunctionId(f) => f.0.0 < db.functions@.len(),
            CallableDefId::StructId(s) => s.0.0 < db.structs@.len(),
            CallableDefId::EnumVariantId(v) => v.parent.0.0 < db.enums@.len() && v.local_id
                < db.enums@[v.parent.0.0 as int].variants@.len(),
        }),
{
}

/// Which questions can be asked: an impl has a trait that is known, and types that are known.
pub proof fn impls_can_be_asked_for(db: HirDatabase, id: hir::ImplId)
    ensures
        impl_is_resolved(db, id) <==> id.0.0 < db.impls@.len() && (
        db.impls@[id.0.0 as int].trait_ref matches Some(trait_ref)
            && trait_ref.value.trait_id.0.0 < db.traits@.len()),
        impl_items_known(db, id) <==> forall|i: int|
            0 <= i < db.impls@[id.0.0 as int].items@.len() ==> (
            #[trigger] db.impls@[id.0.0 as int].items@[i] matches AssocItemId::TypeAliasId(alias)
                ==> alias.0.0 < db.type_aliases@.len()),
{
}

/// Which questions can be asked: the value of an associated type stands in an impl of a trait that
/// is known, and that has a type with its name.
pub proof fn values_can_be_asked_for(db: HirDatabase, id: TypeAliasId)
    ensures
        is_value(db, id) <==> id.0.0 < db.type_aliases@.len() && (
        match db.type_aliases@[id.0.0 as int].container {
            AssocContainerId::ImplId(impl_id) => impl_id.0.0 < db.impls@.len() && (
            match db.impls@[impl_id.0.0 as int].trait_ref {
                Some(trait_ref) => {
                    let trait_id = trait_ref.value.trait_id;
                    let declared = db.traits@[trait_id.0.0 as int].items@;
                    &&& trait_id.0.0 < db.traits@.len()
                    &&& exists|k: int|
                        0 <= k < declared.len() && (#[trigger] declared[k]).item is TypeAliasId
                            && declared[k].name@ == db.type_aliases@[id.0.0 as int].name@
                },
                None => false,
            }),
            _ => false,
        }),
{
    let alias = db.type_aliases@[id.0.0 as int];
    if let AssocContainerId::ImplId(impl_id) = alias.container {
        if let Some(trait_ref) = db.impls@[impl_id.0.0 as int].trait_ref {
            let declared = db.traits@[trait_ref.value.trait_id.0.0 as int].items@;
            named_type_exists(declared, alias.name@);
        }
    }
}

/// Which questions can be asked: an opaque type is interned; an `impl Trait` has bounds in the
/// table of its function, and for an async block the crate that asks is known, and so is the trait
/// that the lang item `future_trait` stands on.
pub proof fn opaque_types_can_be_asked_for(db: HirDatabase, krate: CrateId, id: OpaqueTyId, i: int)
    requires
        ({
            let items = db.crates@[krate.0 as int].lang_items@;
            &&& 0 <= i <= items.len()
            &&& forall|j: int| 0 <= j < i ==> (#[trigger] items[j]).name@ != "future_trait"@
            &&& i < items.len() ==> items[i].name@ == "future_trait"@
        }),
    ensures
        is_opaque_ty(db, krate, id) <==> id.0.0 < db.impl_trait_ids@.len() && (
        match db.impl_trait_ids@[id.0.0 as int] {
            ImplTraitId::ReturnTypeImplTrait(func, idx) => func.0.0 < db.functions@.len() && (
            db.functions@[func.0.0 as int].return_type_impl_traits matches Some(datas) && idx
                < datas.value.impl_traits@.len()),
            ImplTraitId::AsyncBlockTypeImplTrait(body, expr) => {
                let items = db.crates@[krate.0 as int].lang_items@;
                &&& krate.0 < db.crates@.len()
                &&& i < items.len() ==> (items[i].target matches LangItemTarget::TraitId(trait_)
                    ==> trait_.0.0 < db.traits@.len())
            },
        }),
{
    lang_item_is_found(db.crates@[krate.0 as int].lang_items@, "future_trait"@, i);
}

} // verus!
