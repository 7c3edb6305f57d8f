//! Which impls the solver has to look at.

use vstd::prelude::*;

use crate::bound_var::DebruijnIndex;
use crate::db::{
    impls_for_self_ty, impls_of_trait, HirDatabase, TraitImpls, TyFingerprint,
};
use crate::hir;
use crate::ids::{ImplId, TraitId};
use crate::ir::{CanonicalVarKind, GenericArg, Ty, TyVariableKind, TyView, VariableKind};
use crate::mapping::{chalk_impl_id, from_chalk, hir_trait_id, ToChalk};

verus! {

/// Whether the variable `ty`, if it is one of the innermost binder, is among `binders`.
pub open spec fn binder_known(ty: TyView, binders: Seq<CanonicalVarKind>) -> bool {
    match ty {
        TyView::BoundVar(var) => var.debruijn.depth == 0 ==> var.index < binders.len(),
        _ => true,
    }
}

/// What `ty` may stand for, if it is a type variable of the innermost binder.
pub open spec fn variable_kind(ty: TyView, binders: Seq<CanonicalVarKind>) -> Option<
    TyVariableKind,
> {
    match ty {
        TyView::BoundVar(var) => if var.debruijn.depth == 0 {
            match binders[var.index as int].kind {
                VariableKind::Ty(kind) => Some(kind),
                _ => None,
            }
        } else {
            None
        },
        _ => None,
    }
}

/// What `ty` may stand for, if it is a type variable of the innermost binder.
pub fn binder_kind(ty: &Ty, binders: &[CanonicalVarKind]) -> (kind: Option<TyVariableKind>)
    requires
        binder_known(ty@, binders@),
    ensures
        kind == variable_kind(ty@, binders@),
{
    if let Ty::BoundVar(var) = ty {
        if var.debruijn == DebruijnIndex::innermost() {
            if let VariableKind::Ty(kind) = &binders[var.index].kind {
                return Some(*kind);
            }
        }
    }
    None
}

/// The fingerprints to search by: those of all integer types for an integer variable, those of
/// all floating-point types for a float variable, and the type's own, if it has one, otherwise.
/// Where there are none, the search is not restricted.
pub open spec fn search_fps(
    db: HirDatabase,
    kind: Option<TyVariableKind>,
    self_ty_fp: Option<TyFingerprint>,
) -> Seq<TyFingerprint> {
    match kind {
        Some(TyVariableKind::Integer) => db.int_fps@,
        Some(TyVariableKind::Float) => db.float_fps@,
        _ => match self_ty_fp {
            Some(fp) => seq![fp],
            None => seq![],
        },
    }
}

/// Whether there are integer and floating-point types, as there are in every program: neither of
/// the two lists of fingerprints is empty.
pub open spec fn numeric_fps_known(db: HirDatabase) -> bool {
    &&& db.int_fps@.len() > 0
    &&& db.float_fps@.len() > 0
}

/// The impls of `trait_` filed under `fps`, in the order of `fps`.
pub open spec fn impls_for_fps(
    impls: TraitImpls,
    trait_: hir::TraitId,
    fps: Seq<TyFingerprint>,
) -> Seq<hir::ImplId>
    decreases fps.len(),
{
    if fps.len() == 0 {
        seq![]
    } else {
        impls_for_fps(impls, trait_, fps.drop_last()) + impls_for_self_ty(
            impls.by_self_ty@,
            trait_,
            fps.last(),
        )
    }
}

/// The impls that a search by `fps` finds; all impls of `trait_` if `fps` is empty.
pub open spec fn impls_found(
    impls: TraitImpls,
    trait_: hir::TraitId,
    fps: Seq<TyFingerprint>,
) -> Seq<hir::ImplId> {
    if fps.len() == 0 {
        impls_of_trait(impls.by_trait@, trait_)
    } else {
        impls_for_fps(impls, trait_, fps)
    }
}

/// The impls that are found in the dependencies of `krate`, then those found in `krate`.
pub open spec fn relevant_impls(
    db: HirDatabase,
    krate: hir::CrateId,
    trait_: hir::TraitId,
    fps: Seq<TyFingerprint>,
) -> Seq<hir::ImplId> {
    impls_found(db.crate_at(krate).trait_impls_in_deps, trait_, fps) + impls_found(
        db.crate_at(krate).trait_impls_in_crate,
        trait_,
        fps,
    )
}

/// The same impls, as the solver names them.
pub open spec fn chalk_impl_ids(impls: Seq<hir::ImplId>) -> Seq<ImplId> {
    impls.map_values(|id: hir::ImplId| chalk_impl_id(id))
}

/// The impls of `trait_id` that may apply to the self type `parameters[0]`.
pub open spec fn impls_for(
    db: HirDatabase,
    krate: hir::CrateId,
    trait_id: TraitId,
    self_ty: TyView,
    self_ty_fp: Option<TyFingerprint>,
    binders: Seq<CanonicalVarKind>,
) -> Seq<ImplId> {
    chalk_impl_ids(
        relevant_impls(
            db,
            krate,
            hir_trait_id(trait_id),
            search_fps(db, variable_kind(self_ty, binders), self_ty_fp),
        ),
    )
}

fn push_impls(db: &HirDatabase, ids: &mut Vec<ImplId>, impls: &[hir::ImplId])
    ensures
        final(ids)@ == old(ids)@ + chalk_impl_ids(impls@),
{
    let ghost before = ids@;
    for i in 0..impls.len()
        invariant
            ids@ == before + chalk_impl_ids(impls@.take(i as int)),
    {
        ids.push(impls[i].to_chalk(db));
        assert(chalk_impl_ids(impls@.take(i + 1)) == chalk_impl_ids(impls@.take(i as int)).push(
            chalk_impl_id(impls@[i as int]),
        ));
    }
    assert(impls@.take(impls@.len() as int) == impls@);
}

fn push_impls_found(
    db: &HirDatabase,
    ids: &mut Vec<ImplId>,
    impls: &TraitImpls,
    trait_: hir::TraitId,
    fps: &Vec<TyFingerprint>,
)
    ensures
        final(ids)@ == old(ids)@ + chalk_impl_ids(impls_found(*impls, trait_, fps@)),
{
    if fps.len() == 0 {
        push_impls(db, ids, impls.for_trait(trait_));
    } else {
        let ghost before = ids@;
        for i in 0..fps.len()
            invariant
                ids@ == before + chalk_impl_ids(
                    impls_for_fps(*impls, trait_, fps@.take(i as int)),
                ),
        {
            push_impls(db, ids, impls.for_trait_and_self_ty(trait_, fps[i]));
            assert(fps@.take(i + 1).drop_last() == fps@.take(i as int));
            assert(fps@.take(i + 1).last() == fps@[i as int]);
        }
        assert(fps@.take(fps@.len() as int) == fps@);
    }
}

/// The fingerprints to search by.
pub fn search_fingerprints(
    db: &HirDatabase,
    kind: Option<TyVariableKind>,
    self_ty_fp: Option<TyFingerprint>,
) -> (fps: Vec<TyFingerprint>)
    ensures
        fps@ == search_fps(*db, kind, self_ty_fp),
{
    match kind {
        Some(TyVariableKind::Integer) => copy_fps(&db.int_fps),
        Some(TyVariableKind::Float) => copy_fps(&db.float_fps),
        _ => {
            let mut fps: Vec<TyFingerprint> = Vec::new();
            if let Some(fp) = self_ty_fp {
                fps.push(fp);
            }
            fps
        },
    }
}

fn copy_fps(fps: &Vec<TyFingerprint>) -> (copy: Vec<TyFingerprint>)
    ensures
        copy@ == fps@,
{
    let mut copy: Vec<TyFingerprint> = Vec::new();
    for i in 0..fps.len()
        invariant
            copy@ == fps@.take(i as int),
    {
        copy.push(fps[i]);
        assert(fps@.take(i + 1) == fps@.take(i as int).push(fps@[i as int]));
    }
    assert(fps@.take(fps@.len() as int) == fps@);
    copy
}

/// The impls of `trait_id` that may apply to the self type, which comes first in `parameters`.
/// `self_ty_fp` is the fingerprint of the self type; `binders` are the variables that it may
/// refer to.
pub fn impls_for_trait(
    db: &HirDatabase,
    krate: hir::CrateId,
    trait_id: TraitId,
    parameters: &[GenericArg],
    self_ty_fp: Option<TyFingerprint>,
    binders: &[CanonicalVarKind],
) -> (impls: Vec<ImplId>)
    requires
        db.has_crate(krate),
        parameters@.len() > 0,
        parameters@[0] is Ty,
        binder_known(parameters@[0]->Ty_0@, binders@),
    ensures
        impls@ == impls_for(
            *db,
            krate,
            trait_id,
            parameters@[0]->Ty_0@,
            self_ty_fp,
            binders@,
        ),
{
    let trait_: hir::TraitId = from_chalk(db, trait_id);
    let kind = match &parameters[0] {
        GenericArg::Ty(ty) => binder_kind(ty, binders),
        _ => None,
    };
    let fps = search_fingerprints(db, kind, self_ty_fp);
    let mut impls: Vec<ImplId> = Vec::new();
    push_impls_found(db, &mut impls, db.trait_impls_in_deps(krate), trait_, &fps);
    push_impls_found(db, &mut impls, db.trait_impls_in_crate(krate), trait_, &fps);
    impls
}

} // verus!
