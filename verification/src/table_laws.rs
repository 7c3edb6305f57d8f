//! What holds of every search in the tables of the program.

use vstd::prelude::*;

use vstd::std_specs::convert::FromSpec;

use crate::db::{
    assoc_type_by_name, assoc_types, first_position, impls_for_self_ty, impls_of_trait,
    lang_item_target, lemma_filter_step, lemma_first_position, HirDatabase, ImplsForSelfTy,
    ImplsOfTrait, LangItem, TraitItem, TyFingerprint,
};
use crate::hir::{
    callable_generic_def, AdtId, CallableDefId, CrateId, EnumId, EnumVariantId,
    FunctionId, GenericDefId, ImplId, StructId, TraitId, TypeAliasId, UnionId,
};
use crate::ids;
use crate::ids::{InternedCallableDefId, InternedOpaqueTyId};
use crate::ir::{TyVariableKind, VariableKindView};
use crate::mapping::{
    chalk_assoc_type_id, chalk_impl_id, chalk_trait_id, chalk_value_id, hir_assoc_type_id,
    hir_impl_id, hir_trait_id, hir_value_id, type_binder, ToChalk, TypeAliasAsValue,
};

verus! {

/// The impls of a trait are those of the first entry for it, wherever in the table that stands;
/// there are none if there is no entry for it.
pub proof fn entry_of_trait_is_found(lists: Seq<ImplsOfTrait>, trait_: TraitId, i: int)
    requires
        0 <= i <= lists.len(),
        forall|k: int| 0 <= k < i ==> (#[trigger] lists[k]).trait_ != trait_,
        i < lists.len() ==> lists[i].trait_ == trait_,
    ensures
        i < lists.len() ==> impls_of_trait(lists, trait_) == lists[i].impls@,
        i == lists.len() ==> impls_of_trait(lists, trait_).len() == 0,
    decreases lists.len(),
{
    if i > 0 {
        let rest = lists.drop_first();
        assert(lists[0].trait_ != trait_);
        assert forall|k: int| 0 <= k < i - 1 implies (#[trigger] rest[k]).trait_ != trait_ by {
            assert(rest[k] == lists[k + 1]);
        }
        entry_of_trait_is_found(rest, trait_, i - 1);
    }
}

/// The impls of a trait for a self type are those of the first entry for both, wherever in the
/// table that stands; there are none if there is no entry for both.
pub proof fn entry_of_self_ty_is_found(
    lists: Seq<ImplsForSelfTy>,
    trait_: TraitId,
    self_ty: TyFingerprint,
    i: int,
)
    requires
        0 <= i <= lists.len(),
        forall|k: int|
            0 <= k < i ==> (#[trigger] lists[k]).trait_ != trait_ || lists[k].self_ty != self_ty,
        i < lists.len() ==> lists[i].trait_ == trait_ && lists[i].self_ty == self_ty,
    ensures
        i < lists.len() ==> impls_for_self_ty(lists, trait_, self_ty) == lists[i].impls@,
        i == lists.len() ==> impls_for_self_ty(lists, trait_, self_ty).len() == 0,
    decreases lists.len(),
{
    if i > 0 {
        let rest = lists.drop_first();
        assert(lists[0].trait_ != trait_ || lists[0].self_ty != self_ty);
        assert forall|k: int| 0 <= k < i - 1 implies (#[trigger] rest[k]).trait_ != trait_
            || rest[k].self_ty != self_ty by {
            assert(rest[k] == lists[k + 1]);
        }
        entry_of_self_ty_is_found(rest, trait_, self_ty, i - 1);
    }
}

/// A lang item stands on what the first entry with its name says; without an entry it stands on
/// nothing.
pub proof fn lang_item_is_found(items: Seq<LangItem>, name: Seq<char>, i: int)
    requires
        0 <= i <= items.len(),
        forall|k: int| 0 <= k < i ==> (#[trigger] items[k]).name@ != name,
        i < items.len() ==> items[i].name@ == name,
    ensures
        i < items.len() ==> lang_item_target(items, name) == Some(items[i].target),
        i == items.len() ==> lang_item_target(items, name) is None,
    decreases items.len(),
{
    if i > 0 {
        let rest = items.drop_first();
        assert(items[0].name@ != name);
        assert forall|k: int| 0 <= k < i - 1 implies (#[trigger] rest[k]).name@ != name by {
            assert(rest[k] == items[k + 1]);
        }
        lang_item_is_found(rest, name, i - 1);
    }
}

/// The associated type with a name is the first type among the items with that name, whatever
/// other items have it; there is none if no type has it.
pub proof fn named_type_is_found(items: Seq<TraitItem>, name: Seq<char>, i: int)
    requires
        0 <= i <= items.len(),
        forall|k: int|
            0 <= k < i ==> !((#[trigger] items[k]).item is TypeAliasId && items[k].name@ == name),
        i < items.len() ==> items[i].item is TypeAliasId && items[i].name@ == name,
    ensures
        i < items.len() ==> assoc_type_by_name(items, name) == Some(
            items[i].item->TypeAliasId_0,
        ),
        i == items.len() ==> assoc_type_by_name(items, name) is None,
    decreases items.len(),
{
    if i > 0 {
        let rest = items.drop_first();
        assert(!(items[0].item is TypeAliasId && items[0].name@ == name));
        assert forall|k: int| 0 <= k < i - 1 implies !((#[trigger] rest[k]).item is TypeAliasId
            && rest[k].name@ == name) by {
            assert(rest[k] == items[k + 1]);
        }
        named_type_is_found(rest, name, i - 1);
    }
}

/// An associated type with a name is found if and only if an item is a type with that name.
pub proof fn named_type_exists(items: Seq<TraitItem>, name: Seq<char>)
    ensures
        assoc_type_by_name(items, name) is Some <==> exists|i: int|
            0 <= i < items.len() && (#[trigger] items[i]).item is TypeAliasId && items[i].name@
                == name,
    decreases items.len(),
{
    if items.len() > 0 {
        let rest = items.drop_first();
        named_type_exists(rest, name);
        if items[0].item is TypeAliasId && items[0].name@ == name {
        } else {
            if exists|i: int|
                0 <= i < items.len() && (#[trigger] items[i]).item is TypeAliasId && items[i].name@
                    == name {
                let i = choose|i: int|
                    0 <= i < items.len() && (#[trigger] items[i]).item is TypeAliasId
                        && items[i].name@ == name;
                assert(rest[i - 1] == items[i]);
            }
            if exists|i: int|
                0 <= i < rest.len() && (#[trigger] rest[i]).item is TypeAliasId && rest[i].name@
                    == name {
                let i = choose|i: int|
                    0 <= i < rest.len() && (#[trigger] rest[i]).item is TypeAliasId
                        && rest[i].name@ == name;
                assert(items[i + 1] == rest[i]);
            }
        }
    }
}

/// An element that is kept stands after as many elements as are kept before it.
pub proof fn kept_in_order<A>(s: Seq<A>, pred: spec_fn(A) -> bool, i: int)
    requires
        0 <= i < s.len(),
        pred(s[i]),
    ensures
        s.take(i).filter(pred).len() < s.filter(pred).len(),
        s.filter(pred)[s.take(i).filter(pred).len() as int] == s[i],
{
    kept_in_prefix(s, pred, i, s.len() as int);
    assert(s.take(s.len() as int) == s);
}

proof fn kept_in_prefix<A>(s: Seq<A>, pred: spec_fn(A) -> bool, i: int, n: int)
    requires
        0 <= i < n <= s.len(),
        pred(s[i]),
    ensures
        s.take(i).filter(pred).len() < s.take(n).filter(pred).len(),
        s.take(n).filter(pred)[s.take(i).filter(pred).len() as int] == s[i],
    decreases n,
{
    lemma_filter_step(s, n - 1, pred);
    if i < n - 1 {
        kept_in_prefix(s, pred, i, n - 1);
    }
}

/// Filtering by two predicates that agree on every element gives the same.
pub proof fn filters_agree<A>(s: Seq<A>, p: spec_fn(A) -> bool, q: spec_fn(A) -> bool)
    requires
        forall|i: int| 0 <= i < s.len() ==> p(#[trigger] s[i]) == q(s[i]),
    ensures
        s.filter(p) == s.filter(q),
    decreases s.len(),
{
    reveal(Seq::filter);
    if s.len() > 0 {
        let front = s.drop_last();
        assert forall|i: int| 0 <= i < front.len() implies p(#[trigger] front[i]) == q(front[i]) by {
            assert(front[i] == s[i]);
        }
        filters_agree(front, p, q);
        assert(s.last() == s[s.len() - 1]);
    }
}

/// A trait lists each of its associated types, and nothing else: as many as there are types among
/// its items, each after as many as come before it.
pub proof fn types_are_listed(items: Seq<TraitItem>)
    ensures
        assoc_types(items).len() == items.filter(|item: TraitItem| item.item is TypeAliasId).len(),
        forall|i: int|
            #![trigger items[i]]
            0 <= i < items.len() && items[i].item is TypeAliasId ==> {
                let before = items.take(i).filter(
                    |item: TraitItem| item.item is TypeAliasId,
                ).len();
                &&& before < assoc_types(items).len()
                &&& assoc_types(items)[before as int] == items[i].item->TypeAliasId_0
            },
{
    let pred = |item: TraitItem| item.item is TypeAliasId;
    assert forall|i: int|
        #![trigger items[i]]
        0 <= i < items.len() && items[i].item is TypeAliasId implies {
        let before = items.take(i).filter(|item: TraitItem| item.item is TypeAliasId).len();
        &&& before < assoc_types(items).len()
        &&& assoc_types(items)[before as int] == items[i].item->TypeAliasId_0
    } by {
        kept_in_order(items, pred, i);
    }
}

/// A definition is interned once for all: its key is the first position at which it stands.
pub proof fn callable_is_interned_once(db: HirDatabase, def: CallableDefId, k: int)
    requires
        0 <= k < db.callable_defs@.len(),
        k <= u32::MAX,
        db.callable_defs@[k] == def,
        forall|i: int| 0 <= i < k ==> #[trigger] db.callable_defs@[i] != def,
    ensures
        db.is_interned(def),
        db.callable_key(def).0.0 == k,
        def.has_chalk(db),
        def.chalk_of(db).0.0 == k,
{
    lemma_first_position(db.callable_defs@, def, k);
    assert(db.callable_defs@[first_position(db.callable_defs@, def) as int] == def);
}

/// An identifier is a position in the table of its kind.
pub proof fn identifiers_are_positions(
    db: HirDatabase,
    krate: CrateId,
    trait_: TraitId,
    impl_: ImplId,
    alias: TypeAliasId,
    function: FunctionId,
    struct_: StructId,
    enum_: EnumId,
    union_: UnionId,
    variant: EnumVariantId,
)
    ensures
        db.has_crate(krate) <==> krate.0 < db.crates@.len(),
        db.crate_at(krate) == db.crates@[krate.0 as int],
        db.has_trait(trait_) <==> trait_.0.0 < db.traits@.len(),
        db.trait_at(trait_) == db.traits@[trait_.0.0 as int],
        db.has_impl(impl_) <==> impl_.0.0 < db.impls@.len(),
        db.impl_at(impl_) == db.impls@[impl_.0.0 as int],
        db.has_alias(alias) <==> alias.0.0 < db.type_aliases@.len(),
        db.alias_at(alias) == db.type_aliases@[alias.0.0 as int],
        db.has_function(function) <==> function.0.0 < db.functions@.len(),
        db.function_at(function) == db.functions@[function.0.0 as int],
        db.has_struct(struct_) <==> struct_.0.0 < db.structs@.len(),
        db.struct_at(struct_) == db.structs@[struct_.0.0 as int],
        db.has_enum(enum_) <==> enum_.0.0 < db.enums@.len(),
        db.enum_at(enum_) == db.enums@[enum_.0.0 as int],
        db.has_union(union_) <==> union_.0.0 < db.unions@.len(),
        db.union_at(union_) == db.unions@[union_.0.0 as int],
        db.has_variant(variant) <==> variant.parent.0.0 < db.enums@.len() && variant.local_id
            < db.enums@[variant.parent.0.0 as int].variants@.len(),
{
}

/// A key is a position in the table of what is interned.
pub proof fn keys_are_positions(
    db: HirDatabase,
    callable: InternedCallableDefId,
    opaque: InternedOpaqueTyId,
)
    ensures
        db.has_interned_callable(callable) <==> callable.0.0 < db.callable_defs@.len(),
        db.callable_of(callable) == db.callable_defs@[callable.0.0 as int],
        db.has_interned_opaque(opaque) <==> opaque.0.0 < db.impl_trait_ids@.len(),
        db.impl_trait_of(opaque) == db.impl_trait_ids@[opaque.0.0 as int],
{
}

/// What is known of a struct, enum or union stands in the table of its kind.
pub proof fn adts_are_told_apart(db: HirDatabase, adt: AdtId)
    ensures
        match adt {
            AdtId::StructId(id) => {
                &&& db.has_generic_def(GenericDefId::AdtId(adt)) <==> db.has_adt(adt)
                &&& db.has_adt(adt) <==> id.0.0 < db.structs@.len()
                &&& db.adt_name_of(adt) == db.structs@[id.0.0 as int].name.text@
                &&& db.adt_crate_of(adt) == db.structs@[id.0.0 as int].krate
                &&& db.generics_of(GenericDefId::AdtId(adt)) == db.structs@[id.0.0 as int].generics
            },
            AdtId::EnumId(id) => {
                &&& db.has_generic_def(GenericDefId::AdtId(adt)) <==> db.has_adt(adt)
                &&& db.has_adt(adt) <==> id.0.0 < db.enums@.len()
                &&& db.adt_name_of(adt) == db.enums@[id.0.0 as int].name.text@
                &&& db.adt_crate_of(adt) == db.enums@[id.0.0 as int].krate
                &&& db.generics_of(GenericDefId::AdtId(adt)) == db.enums@[id.0.0 as int].generics
            },
            AdtId::UnionId(id) => {
                &&& db.has_generic_def(GenericDefId::AdtId(adt)) <==> db.has_adt(adt)
                &&& db.has_adt(adt) <==> id.0.0 < db.unions@.len()
                &&& db.adt_name_of(adt) == db.unions@[id.0.0 as int].name.text@
                &&& db.adt_crate_of(adt) == db.unions@[id.0.0 as int].krate
                &&& db.generics_of(GenericDefId::AdtId(adt)) == db.unions@[id.0.0 as int].generics
            },
        },
{
}

/// The type and the parameters of a function are its own; a constructor has its own type, and the
/// parameters of its struct or enum.
pub proof fn callables_are_told_apart(db: HirDatabase, def: CallableDefId)
    ensures
        match def {
            CallableDefId::FunctionId(id) => {
                &&& callable_generic_def(def) == GenericDefId::FunctionId(id)
                &&& db.has_generic_def(callable_generic_def(def)) <==> db.has_callable(def)
                &&& db.has_callable(def) <==> id.0.0 < db.functions@.len()
                &&& db.signature_of(def) == db.functions@[id.0.0 as int].signature
                &&& db.generics_of(callable_generic_def(def)) == db.functions@[id.0.0 as int].generics
            },
            CallableDefId::StructId(id) => {
                &&& callable_generic_def(def) == GenericDefId::AdtId(AdtId::StructId(id))
                &&& db.has_generic_def(callable_generic_def(def)) <==> db.has_callable(def)
                &&& db.has_callable(def) <==> id.0.0 < db.structs@.len()
                &&& db.signature_of(def) == db.structs@[id.0.0 as int].signature
                &&& db.generics_of(callable_generic_def(def)) == db.structs@[id.0.0 as int].generics
            },
            CallableDefId::EnumVariantId(id) => {
                let parent = db.enums@[id.parent.0.0 as int];
                &&& callable_generic_def(def) == GenericDefId::EnumVariantId(id)
                &&& db.has_generic_def(callable_generic_def(def)) <==> db.has_callable(def)
                &&& db.has_callable(def) <==> id.parent.0.0 < db.enums@.len() && id.local_id
                    < parent.variants@.len()
                &&& db.signature_of(def) == parent.variants@[id.local_id as int].signature
                &&& db.generics_of(callable_generic_def(def)) == parent.generics
            },
        },
{
}

/// The parameters of a trait, an associated type or an impl are its own.
pub proof fn generics_are_told_apart(
    db: HirDatabase,
    trait_: TraitId,
    alias: TypeAliasId,
    impl_: ImplId,
)
    ensures
        db.has_generic_def(GenericDefId::TraitId(trait_)) <==> trait_.0.0 < db.traits@.len(),
        db.generics_of(GenericDefId::TraitId(trait_)) == db.traits@[trait_.0.0 as int].generics,
        db.has_generic_def(GenericDefId::TypeAliasId(alias)) <==> alias.0.0
            < db.type_aliases@.len(),
        db.generics_of(GenericDefId::TypeAliasId(alias))
            == db.type_aliases@[alias.0.0 as int].generics,
        db.has_generic_def(GenericDefId::ImplId(impl_)) <==> impl_.0.0 < db.impls@.len(),
        db.generics_of(GenericDefId::ImplId(impl_)) == db.impls@[impl_.0.0 as int].generics,
{
}

/// The solver names a definition by the number that the program has for it, and means the same
/// definition by it.
pub proof fn names_keep_numbers(
    db: HirDatabase,
    trait_: TraitId,
    trait_name: ids::TraitId,
    impl_: ImplId,
    impl_name: ids::ImplId,
    alias: TypeAliasId,
    assoc_name: ids::AssocTypeId,
    value_name: ids::AssociatedTyValueId,
    fn_name: ids::FnDefId,
)
    ensures
        chalk_trait_id(trait_).0 == trait_.0,
        hir_trait_id(trait_name).0 == trait_name.0,
        trait_.has_chalk(db) && trait_.chalk_of(db).0 == trait_.0,
        TraitId::is_chalk(db, trait_name) && TraitId::hir_of(db, trait_name).0 == trait_name.0,
        chalk_impl_id(impl_).0 == impl_.0,
        hir_impl_id(impl_name).0 == impl_name.0,
        impl_.has_chalk(db) && impl_.chalk_of(db).0 == impl_.0,
        ImplId::is_chalk(db, impl_name) && ImplId::hir_of(db, impl_name).0 == impl_name.0,
        chalk_assoc_type_id(alias).0 == alias.0,
        hir_assoc_type_id(assoc_name).0 == assoc_name.0,
        chalk_value_id(alias).0 == alias.0,
        hir_value_id(value_name).0 == value_name.0,
        TypeAliasAsValue(alias).has_chalk(db),
        TypeAliasAsValue(alias).chalk_of(db).0 == alias.0,
        TypeAliasAsValue::is_chalk(db, value_name),
        TypeAliasAsValue::hir_of(db, value_name).0.0 == value_name.0,
        CallableDefId::is_chalk(db, fn_name) <==> fn_name.0.0 < db.callable_defs@.len(),
        CallableDefId::hir_of(db, fn_name) == db.callable_defs@[fn_name.0.0 as int],
{
}

/// The key of a function, an opaque type or a closure has the number that the solver has for it,
/// and the other way round.
pub proof fn keys_keep_numbers(
    fn_def: ids::FnDefId,
    callable: InternedCallableDefId,
    opaque: ids::OpaqueTyId,
    opaque_key: InternedOpaqueTyId,
    closure: ids::ClosureId,
    closure_key: ids::InternedClosureId,
)
    ensures
        InternedCallableDefId::from_spec(fn_def).0 == fn_def.0,
        ids::FnDefId::from_spec(callable).0 == callable.0,
        InternedOpaqueTyId::from_spec(opaque).0 == opaque.0,
        ids::OpaqueTyId::from_spec(opaque_key).0 == opaque_key.0,
        ids::InternedClosureId::from_spec(closure).0 == closure.0,
        ids::ClosureId::from_spec(closure_key).0 == closure_key.0,
{
}

/// A binder of types has a variable for each of them, and any type may stand for it.
pub proof fn binder_of_types(num_vars: nat)
    ensures
        type_binder(num_vars).len() == num_vars,
        forall|i: int|
            0 <= i < num_vars ==> #[trigger] type_binder(num_vars)[i]
                == VariableKindView::Ty(TyVariableKind::General),
{
}

} // verus!
