//! Opaque types: what is known of an `impl Trait` and of the type of an async block.

use std::sync::Arc;

use vstd::pervasive::unreached;
use vstd::prelude::*;

use crate::bound_var::{BoundVar, DebruijnIndex};
use crate::db::{assoc_type_by_name, lang_item_target, HirDatabase, Name, ReturnTypeImplTraits};
use crate::hir;
use crate::hir::{CrateId, ImplTraitId, LangItemTarget, TypeAliasId};
use crate::ids::{InternedOpaqueTyId, OpaqueTyId};
use crate::ir::{
    args_view, clauses_view, clone_clauses, clone_kinds, kinds_view, AliasTy, AliasTyView, Binders,
    BindersView, GenericArg, GenericArgView, QuantifiedWhereClause, QuantifiedWhereClauseView,
    TraitRef, TraitRefView, Ty, TyView, WhereClause, WhereClauseView,
};
use crate::mapping::{
    chalk_assoc_type_id, chalk_trait_id, make_binders, to_assoc_type_id, to_chalk_trait_id,
    type_binder, wrap_empty_binders,
};
use crate::rust_ir::{
    OpaqueTyDatum, OpaqueTyDatumBound, OpaqueTyDatumBoundView, OpaqueTyDatumView,
};
use crate::shift::{can_shift_args, shifted_args, shifted_where};

verus! {

/// The `Future` trait and its `Output`, if both are known.
pub open spec fn future_output(db: HirDatabase, krate: CrateId) -> Option<
    (hir::TraitId, TypeAliasId),
> {
    match lang_item_target(db.crate_at(krate).lang_items@, "future_trait"@) {
        Some(LangItemTarget::TraitId(trait_)) => match assoc_type_by_name(
            db.trait_at(trait_).items@,
            "Output"@,
        ) {
            Some(alias) => Some((trait_, alias)),
            None => None,
        },
        _ => None,
    }
}

/// Whether the trait that the lang item `Future` stands on, if it is one, is known.
pub open spec fn future_known(db: HirDatabase, krate: CrateId) -> bool {
    lang_item_target(db.crate_at(krate).lang_items@, "future_trait"@) matches Some(
        LangItemTarget::TraitId(trait_),
    ) ==> db.has_trait(trait_)
}

/// The first variable of the binder at `depth`.
pub open spec fn first_var(depth: u32) -> TyView {
    TyView::BoundVar(BoundVar { debruijn: DebruijnIndex { depth }, index: 0 })
}

/// The clause that the variable `self_ty` implements `future_trait`.
pub open spec fn implements_future(future_trait: hir::TraitId, self_ty: TyView) -> WhereClauseView {
    WhereClauseView::Implemented(
        TraitRefView {
            trait_id: chalk_trait_id(future_trait),
            substitution: seq![GenericArgView::Ty(self_ty)],
        },
    )
}

/// The clause that the output of the future `self_ty` is `output`.
pub open spec fn future_yields(
    future_output: TypeAliasId,
    self_ty: TyView,
    output: TyView,
) -> WhereClauseView {
    WhereClauseView::AliasEq {
        alias: AliasTyView::Projection {
            associated_ty_id: chalk_assoc_type_id(future_output),
            substitution: seq![GenericArgView::Ty(self_ty)],
        },
        ty: output,
    }
}

/// The bounds on the type of an async block, `for<T> <Self> [Self: Future, Self::Output = T]`.
/// Each clause stands inside a binder of its own, without variables, so that seen from inside it
/// `Self` belongs to the binder at depth 1, and `T` to the one at depth 2.
pub open spec fn async_block_bounds(
    future_trait: hir::TraitId,
    future_output: TypeAliasId,
) -> Seq<QuantifiedWhereClauseView> {
    seq![
        BindersView { binders: seq![], value: implements_future(future_trait, first_var(1)) },
        BindersView {
            binders: seq![],
            value: future_yields(future_output, first_var(1), first_var(2)),
        },
    ]
}

/// A binder without variables and clauses.
pub open spec fn no_clauses() -> BindersView<Seq<QuantifiedWhereClauseView>> {
    BindersView { binders: seq![], value: seq![] }
}

/// What is known of the type of an async block. Without a `Future` trait there are no bounds.
pub open spec fn async_block_bound(db: HirDatabase, krate: CrateId) -> BindersView<
    OpaqueTyDatumBoundView,
> {
    BindersView {
        binders: type_binder(1),
        value: OpaqueTyDatumBoundView {
            bounds: match future_output(db, krate) {
                Some((future_trait, future_output)) => BindersView {
                    binders: type_binder(1),
                    value: async_block_bounds(future_trait, future_output),
                },
                None => no_clauses(),
            },
            where_clauses: no_clauses(),
        },
    }
}

/// Whether `impl_traits` holds bounds at `idx`.
pub open spec fn has_impl_trait(
    impl_traits: Option<Binders<ReturnTypeImplTraits>>,
    idx: u16,
) -> bool {
    impl_traits matches Some(datas) && idx < datas.value.impl_traits@.len()
}

/// What is known of the `impl Trait` at `idx` in a return type.
pub open spec fn return_type_bound(datas: Binders<ReturnTypeImplTraits>, idx: u16) -> BindersView<
    OpaqueTyDatumBoundView,
> {
    BindersView {
        binders: kinds_view(datas.binders@),
        value: OpaqueTyDatumBoundView {
            bounds: BindersView {
                binders: type_binder(1),
                value: clauses_view(datas.value.impl_traits@[idx as int].bounds.value@),
            },
            where_clauses: no_clauses(),
        },
    }
}

/// Whether `id` is an opaque type that is known.
pub open spec fn is_opaque_ty(db: HirDatabase, krate: CrateId, id: OpaqueTyId) -> bool {
    &&& db.has_interned_opaque(InternedOpaqueTyId(id.0))
    &&& match db.impl_trait_of(InternedOpaqueTyId(id.0)) {
        ImplTraitId::ReturnTypeImplTrait(func, idx) => db.has_function(func) && has_impl_trait(
            db.function_at(func).return_type_impl_traits,
            idx,
        ),
        ImplTraitId::AsyncBlockTypeImplTrait(body, expr) => db.has_crate(krate) && future_known(
            db,
            krate,
        ),
    }
}

pub open spec fn opaque_ty_datum(
    db: HirDatabase,
    krate: CrateId,
    id: OpaqueTyId,
) -> OpaqueTyDatumView {
    OpaqueTyDatumView {
        opaque_ty_id: id,
        bound: match db.impl_trait_of(InternedOpaqueTyId(id.0)) {
            ImplTraitId::ReturnTypeImplTrait(func, idx) => return_type_bound(
                db.function_at(func).return_type_impl_traits->Some_0,
                idx,
            ),
            ImplTraitId::AsyncBlockTypeImplTrait(body, expr) => async_block_bound(db, krate),
        },
    }
}

fn find_future_output(db: &HirDatabase, krate: CrateId) -> (found: Option<
    (hir::TraitId, TypeAliasId),
>)
    requires
        db.has_crate(krate),
        future_known(*db, krate),
    ensures
        found == future_output(*db, krate),
{
    match db.lang_item(krate, "future_trait".to_owned()) {
        Some(item) => match item.as_trait() {
            Some(trait_) => {
                let output = Name { text: "Output".to_owned() };
                match db.trait_data(trait_).associated_type_by_name(&output) {
                    Some(alias) => Some((trait_, alias)),
                    None => None,
                }
            },
            None => None,
        },
        None => None,
    }
}

/// The arguments of a trait on the first variable of the innermost binder.
fn self_substitution() -> (args: Vec<GenericArg>)
    ensures
        args_view(args@) == seq![GenericArgView::Ty(first_var(0))],
{
    let mut args: Vec<GenericArg> = Vec::new();
    args.push(GenericArg::Ty(Ty::BoundVar(BoundVar::new(DebruijnIndex::innermost(), 0))));
    assert(args_view(args@) =~= seq![GenericArgView::Ty(first_var(0))]);
    args
}

/// The bounds on the type of an async block.
fn make_async_block_bounds(future_trait: hir::TraitId, future_output: TypeAliasId) -> (bounds: Vec<
    QuantifiedWhereClause,
>)
    ensures
        clauses_view(bounds@) == async_block_bounds(future_trait, future_output),
{
    // Self type as the first parameter.
    let impl_bound = WhereClause::Implemented(
        TraitRef { trait_id: to_chalk_trait_id(future_trait), substitution: self_substitution() },
    );
    let proj_bound = WhereClause::AliasEq {
        alias: AliasTy::Projection {
            associated_ty_id: to_assoc_type_id(future_output),
            // Self type as the first parameter.
            substitution: self_substitution(),
        },
        // The parameter of the opaque type.
        ty: Ty::BoundVar(BoundVar::new(DebruijnIndex::one(), 0)),
    };
    proof {
        let args = seq![GenericArgView::Ty(first_var(0))];
        assert(can_shift_args(args, 1, 0));
        assert(shifted_args(args, 1, 0) =~= seq![GenericArgView::Ty(first_var(1))]);
        assert(impl_bound@ == implements_future(future_trait, first_var(0)));
        assert(shifted_where(impl_bound@, 1, 0) == implements_future(future_trait, first_var(1)));
        assert(proj_bound@ == future_yields(future_output, first_var(0), first_var(1)));
        assert(shifted_where(proj_bound@, 1, 0) == future_yields(
            future_output,
            first_var(1),
            first_var(2),
        ));
    }
    let mut bounds: Vec<QuantifiedWhereClause> = Vec::new();
    bounds.push(wrap_empty_binders(&impl_bound));
    bounds.push(wrap_empty_binders(&proj_bound));
    assert(clauses_view(bounds@) =~= async_block_bounds(future_trait, future_output));
    bounds
}

fn make_no_clauses() -> (binders: Binders<Vec<QuantifiedWhereClause>>)
    ensures
        binders@ == no_clauses(),
{
    let clauses: Vec<QuantifiedWhereClause> = Vec::new();
    let binders = make_binders(clauses, 0);
    assert(type_binder(0) =~= seq![]);
    assert(clauses_view(binders.value@) =~= seq![]);
    binders
}

/// The bounds and clauses of an opaque type, as seen from `krate`.
pub fn opaque_ty_data(db: &HirDatabase, krate: CrateId, id: OpaqueTyId) -> (datum: Arc<
    OpaqueTyDatum,
>)
    requires
        is_opaque_ty(*db, krate, id),
    ensures
        datum@ == opaque_ty_datum(*db, krate, id),
{
    let full_id = db.lookup_intern_impl_trait_id(InternedOpaqueTyId::from(id));
    let bound = match full_id {
        ImplTraitId::ReturnTypeImplTrait(func, idx) => {
            let datas = match db.return_type_impl_traits(func) {
                Some(datas) => datas,
                None => unreached(),
            };
            let data = &datas.value.impl_traits[idx as usize];
            let bound = OpaqueTyDatumBound {
                bounds: make_binders(clone_clauses(&data.bounds.value), 1),
                where_clauses: make_no_clauses(),
            };
            Binders { binders: clone_kinds(&datas.binders), value: bound }
        },
        ImplTraitId::AsyncBlockTypeImplTrait(_, _) => {
            if let Some((future_trait, future_output)) = find_future_output(db, krate) {
                // Making up `AsyncBlock<T>`:
                //
                // |--------------------OpaqueTyDatum-------------------|
                //        |-------------OpaqueTyDatumBound--------------|
                // for<T> <Self> [Future<Self>, Future::Output<Self> = T]
                //     ^1  ^0            ^0                    ^0      ^1
                let bound = OpaqueTyDatumBound {
                    bounds: make_binders(make_async_block_bounds(future_trait, future_output), 1),
                    where_clauses: make_no_clauses(),
                };
                // The opaque type has 1 parameter.
                make_binders(bound, 1)
            } else {
                // Without `Future::Output` there are no bounds.
                let bound = OpaqueTyDatumBound {
                    bounds: make_no_clauses(),
                    where_clauses: make_no_clauses(),
                };
                // The opaque type has 1 parameter.
                make_binders(bound, 1)
            }
        },
    };
    Arc::new(OpaqueTyDatum { opaque_ty_id: id, bound })
}

} // verus!
