//! What a search for the impls of a trait finds, read off the entries of the tables.

use vstd::prelude::*;

use crate::db::{impls_for_self_ty, HirDatabase, ImplsForSelfTy, TraitImpls, TyFingerprint};
use crate::hir;
use crate::hir::CrateId;
use crate::ids::{ImplId, TraitId};
use crate::impls::{
    binder_known, chalk_impl_ids, impls_for, impls_for_fps, impls_found, relevant_impls,
    search_fps, variable_kind,
};
use crate::ir::{CanonicalVarKind, TyVariableKind, TyView, VariableKind};
use crate::table_laws::{entry_of_self_ty_is_found, entry_of_trait_is_found};

verus! {

/// The kind of a variable is that of the variable of the query that it refers to, if it belongs to
/// the innermost binder. It has to be there to be asked for.
pub proof fn variable_is_one_of_the_query(self_ty: TyView, binders: Seq<CanonicalVarKind>)
    ensures
        match self_ty {
            TyView::BoundVar(var) => if var.debruijn.depth == 0 {
                &&& binder_known(self_ty, binders) <==> var.index < binders.len()
                &&& match binders[var.index as int].kind {
                    VariableKind::Ty(kind) => variable_kind(self_ty, binders) == Some(kind),
                    _ => variable_kind(self_ty, binders) is None,
                }
            } else {
                &&& binder_known(self_ty, binders)
                &&& variable_kind(self_ty, binders) is None
            },
            _ => {
                &&& binder_known(self_ty, binders)
                &&& variable_kind(self_ty, binders) is None
            },
        },
{
}

/// A search that has no fingerprint to go by, that of the self type or those of the numeric types
/// that a variable may stand for, finds the impls of the first entry for the trait in the
/// dependencies, then those of the first entry for it in the crate, each one of them and in order,
/// and nothing else. `i` and `k` are the positions of the two entries, wherever they stand; a
/// position past the end says that there is no entry.
pub proof fn unrestricted_search_finds_all(
    db: HirDatabase,
    krate: CrateId,
    trait_id: TraitId,
    self_ty: TyView,
    self_ty_fp: Option<TyFingerprint>,
    binders: Seq<CanonicalVarKind>,
    i: int,
    k: int,
)
    requires
        match self_ty {
            TyView::BoundVar(var) => if var.debruijn.depth == 0 {
                match binders[var.index as int].kind {
                    VariableKind::Ty(TyVariableKind::Integer) => db.int_fps@.len() == 0,
                    VariableKind::Ty(TyVariableKind::Float) => db.float_fps@.len() == 0,
                    _ => self_ty_fp is None,
                }
            } else {
                self_ty_fp is None
            },
            _ => self_ty_fp is None,
        },
        ({
            let lists = db.crates@[krate.0 as int].trait_impls_in_deps.by_trait@;
            &&& 0 <= i <= lists.len()
            &&& forall|p: int| 0 <= p < i ==> (#[trigger] lists[p]).trait_.0 != trait_id.0
            &&& i < lists.len() ==> lists[i].trait_.0 == trait_id.0
        }),
        ({
            let lists = db.crates@[krate.0 as int].trait_impls_in_crate.by_trait@;
            &&& 0 <= k <= lists.len()
            &&& forall|p: int| 0 <= p < k ==> (#[trigger] lists[p]).trait_.0 != trait_id.0
            &&& k < lists.len() ==> lists[k].trait_.0 == trait_id.0
        }),
    ensures
        ({
            let deps = db.crates@[krate.0 as int].trait_impls_in_deps.by_trait@;
            let own = db.crates@[krate.0 as int].trait_impls_in_crate.by_trait@;
            let first: Seq<hir::ImplId> = if i < deps.len() {
                deps[i].impls@
            } else {
                Seq::empty()
            };
            let second: Seq<hir::ImplId> = if k < own.len() {
                own[k].impls@
            } else {
                Seq::empty()
            };
            let found = impls_for(db, krate, trait_id, self_ty, self_ty_fp, binders);
            &&& found.len() == first.len() + second.len()
            &&& forall|j: int| 0 <= j < first.len() ==> (#[trigger] first[j]).0 == found[j].0
            &&& forall|j: int|
                0 <= j < second.len() ==> (#[trigger] second[j]).0 == found[first.len() + j].0
        }),
{
    let trait_ = hir::TraitId(trait_id.0);
    let deps = db.crates@[krate.0 as int].trait_impls_in_deps.by_trait@;
    let own = db.crates@[krate.0 as int].trait_impls_in_crate.by_trait@;
    assert forall|p: int| 0 <= p < i implies (#[trigger] deps[p]).trait_ != trait_ by {
        assert(deps[p].trait_.0 != trait_id.0);
    }
    assert forall|p: int| 0 <= p < k implies (#[trigger] own[p]).trait_ != trait_ by {
        assert(own[p].trait_.0 != trait_id.0);
    }
    entry_of_trait_is_found(deps, trait_, i);
    entry_of_trait_is_found(own, trait_, k);
    variable_is_one_of_the_query(self_ty, binders);
    let fps = search_fps(db, variable_kind(self_ty, binders), self_ty_fp);
    assert(fps.len() == 0);
}

/// A search for a type that has a fingerprint, and that is no numeric variable, finds the impls of
/// the first entry for the trait and the fingerprint in the dependencies, then those of the first
/// entry for both in the crate, each one of them and in order, and nothing else. `i` and `k` are
/// the positions of the two entries; a position past the end says that there is no entry.
pub proof fn search_by_fingerprint_finds_all(
    db: HirDatabase,
    krate: CrateId,
    trait_id: TraitId,
    self_ty: TyView,
    fp: TyFingerprint,
    binders: Seq<CanonicalVarKind>,
    i: int,
    k: int,
)
    requires
        !(self_ty matches TyView::BoundVar(var) && var.debruijn.depth == 0 && (
        binders[var.index as int].kind == VariableKind::Ty(TyVariableKind::Integer)
            || binders[var.index as int].kind == VariableKind::Ty(TyVariableKind::Float))),
        ({
            let lists = db.crates@[krate.0 as int].trait_impls_in_deps.by_self_ty@;
            &&& 0 <= i <= lists.len()
            &&& forall|p: int|
                0 <= p < i ==> (#[trigger] lists[p]).trait_.0 != trait_id.0 || lists[p].self_ty
                    != fp
            &&& i < lists.len() ==> lists[i].trait_.0 == trait_id.0 && lists[i].self_ty == fp
        }),
        ({
            let lists = db.crates@[krate.0 as int].trait_impls_in_crate.by_self_ty@;
            &&& 0 <= k <= lists.len()
            &&& forall|p: int|
                0 <= p < k ==> (#[trigger] lists[p]).trait_.0 != trait_id.0 || lists[p].self_ty
                    != fp
            &&& k < lists.len() ==> lists[k].trait_.0 == trait_id.0 && lists[k].self_ty == fp
        }),
    ensures
        ({
            let deps = db.crates@[krate.0 as int].trait_impls_in_deps.by_self_ty@;
            let own = db.crates@[krate.0 as int].trait_impls_in_crate.by_self_ty@;
            let first: Seq<hir::ImplId> = if i < deps.len() {
                deps[i].impls@
            } else {
                Seq::empty()
            };
            let second: Seq<hir::ImplId> = if k < own.len() {
                own[k].impls@
            } else {
                Seq::empty()
            };
            let found = impls_for(db, krate, trait_id, self_ty, Some(fp), binders);
            &&& found.len() == first.len() + second.len()
            &&& forall|j: int| 0 <= j < first.len() ==> (#[trigger] first[j]).0 == found[j].0
            &&& forall|j: int|
                0 <= j < second.len() ==> (#[trigger] second[j]).0 == found[first.len() + j].0
        }),
{
    let trait_ = hir::TraitId(trait_id.0);
    let deps = db.crates@[krate.0 as int].trait_impls_in_deps;
    let own = db.crates@[krate.0 as int].trait_impls_in_crate;
    self_ty_entry_is_found(deps.by_self_ty@, trait_id, fp, i);
    self_ty_entry_is_found(own.by_self_ty@, trait_id, fp, k);
    variable_is_one_of_the_query(self_ty, binders);
    let fps = search_fps(db, variable_kind(self_ty, binders), Some(fp));
    assert(fps == seq![fp]);
    one_fingerprint(deps, trait_, fp);
    one_fingerprint(own, trait_, fp);
}

proof fn self_ty_entry_is_found(
    lists: Seq<ImplsForSelfTy>,
    trait_id: TraitId,
    fp: TyFingerprint,
    i: int,
)
    requires
        0 <= i <= lists.len(),
        forall|p: int|
            0 <= p < i ==> (#[trigger] lists[p]).trait_.0 != trait_id.0 || lists[p].self_ty != fp,
        i < lists.len() ==> lists[i].trait_.0 == trait_id.0 && lists[i].self_ty == fp,
    ensures
        impls_for_self_ty(lists, hir::TraitId(trait_id.0), fp) == (if i < lists.len() {
            lists[i].impls@
        } else {
            Seq::empty()
        }),
{
    let trait_ = hir::TraitId(trait_id.0);
    assert forall|p: int| 0 <= p < i implies (#[trigger] lists[p]).trait_ != trait_
        || lists[p].self_ty != fp by {
        assert(lists[p].trait_.0 != trait_id.0 || lists[p].self_ty != fp);
    }
    entry_of_self_ty_is_found(lists, trait_, fp, i);
}

proof fn one_fingerprint(impls: TraitImpls, trait_: hir::TraitId, fp: TyFingerprint)
    ensures
        impls_for_fps(impls, trait_, seq![fp]) == impls_for_self_ty(impls.by_self_ty@, trait_, fp),
{
    let fps = seq![fp];
    assert(fps.drop_last() =~= Seq::<TyFingerprint>::empty());
    assert(impls_for_fps(impls, trait_, fps.drop_last()) =~= Seq::<hir::ImplId>::empty());
    assert(impls_for_fps(impls, trait_, fps) =~= impls_for_self_ty(impls.by_self_ty@, trait_, fp));
}

proof fn fingerprints_in_order(
    impls: TraitImpls,
    trait_: hir::TraitId,
    fps: Seq<TyFingerprint>,
    lists: Seq<Seq<hir::ImplId>>,
)
    requires
        lists.len() == fps.len(),
        forall|f: int|
            0 <= f < fps.len() ==> #[trigger] lists[f] == impls_for_self_ty(
                impls.by_self_ty@,
                trait_,
                fps[f],
            ),
    ensures
        impls_for_fps(impls, trait_, fps) == lists.flatten(),
    decreases fps.len(),
{
    lists.lemma_flatten_and_flatten_alt_are_equivalent();
    if fps.len() > 0 {
        let front = lists.drop_last();
        front.lemma_flatten_and_flatten_alt_are_equivalent();
        assert forall|f: int| 0 <= f < fps.drop_last().len() implies #[trigger] front[f]
            == impls_for_self_ty(impls.by_self_ty@, trait_, fps.drop_last()[f]) by {
            assert(front[f] == lists[f]);
        }
        fingerprints_in_order(impls, trait_, fps.drop_last(), front);
        assert(lists.last() == impls_for_self_ty(impls.by_self_ty@, trait_, fps.last()));
    }
}

/// A search for an integer variable finds, for each integer type in turn, the impls of the first
/// entry for the trait and that type: first in the dependencies, then in the crate, each one of
/// them and in order, and nothing else. The same holds of a float variable and the floating-point
/// types. What fingerprint the variable is said to have does not matter. `in_deps` and `in_crate`
/// are the positions of the entries, one for each type; a position past the end says that there
/// is no entry.
pub proof fn numeric_search_finds_all(
    db: HirDatabase,
    krate: CrateId,
    trait_id: TraitId,
    self_ty: TyView,
    self_ty_fp: Option<TyFingerprint>,
    binders: Seq<CanonicalVarKind>,
    fps: Seq<TyFingerprint>,
    in_deps: Seq<int>,
    in_crate: Seq<int>,
)
    requires
        self_ty matches TyView::BoundVar(var) && var.debruijn.depth == 0 && {
            ||| binders[var.index as int].kind == VariableKind::Ty(TyVariableKind::Integer) && fps
                == db.int_fps@
            ||| binders[var.index as int].kind == VariableKind::Ty(TyVariableKind::Float) && fps
                == db.float_fps@
        },
        fps.len() > 0,
        in_deps.len() == fps.len(),
        in_crate.len() == fps.len(),
        ({
            let lists = db.crates@[krate.0 as int].trait_impls_in_deps.by_self_ty@;
            forall|f: int|
                0 <= f < fps.len() ==> {
                    &&& 0 <= #[trigger] in_deps[f] <= lists.len()
                    &&& forall|p: int|
                        0 <= p < in_deps[f] ==> (#[trigger] lists[p]).trait_.0 != trait_id.0
                            || lists[p].self_ty != fps[f]
                    &&& in_deps[f] < lists.len() ==> lists[in_deps[f]].trait_.0 == trait_id.0
                        && lists[in_deps[f]].self_ty == fps[f]
                }
        }),
        ({
            let lists = db.crates@[krate.0 as int].trait_impls_in_crate.by_self_ty@;
            forall|f: int|
                0 <= f < fps.len() ==> {
                    &&& 0 <= #[trigger] in_crate[f] <= lists.len()
                    &&& forall|p: int|
                        0 <= p < in_crate[f] ==> (#[trigger] lists[p]).trait_.0 != trait_id.0
                            || lists[p].self_ty != fps[f]
                    &&& in_crate[f] < lists.len() ==> lists[in_crate[f]].trait_.0 == trait_id.0
                        && lists[in_crate[f]].self_ty == fps[f]
                }
        }),
    ensures
        ({
            let deps = db.crates@[krate.0 as int].trait_impls_in_deps.by_self_ty@;
            let own = db.crates@[krate.0 as int].trait_impls_in_crate.by_self_ty@;
            let first = Seq::new(
                fps.len(),
                |f: int|
                    if in_deps[f] < deps.len() {
                        deps[in_deps[f]].impls@
                    } else {
                        Seq::<hir::ImplId>::empty()
                    },
            ).flatten();
            let second = Seq::new(
                fps.len(),
                |f: int|
                    if in_crate[f] < own.len() {
                        own[in_crate[f]].impls@
                    } else {
                        Seq::<hir::ImplId>::empty()
                    },
            ).flatten();
            let found = impls_for(db, krate, trait_id, self_ty, self_ty_fp, binders);
            &&& found.len() == first.len() + second.len()
            &&& forall|j: int| 0 <= j < first.len() ==> (#[trigger] first[j]).0 == found[j].0
            &&& forall|j: int|
                0 <= j < second.len() ==> (#[trigger] second[j]).0 == found[first.len() + j].0
        }),
{
    let trait_ = hir::TraitId(trait_id.0);
    let deps = db.crates@[krate.0 as int].trait_impls_in_deps;
    let own = db.crates@[krate.0 as int].trait_impls_in_crate;
    let first = Seq::new(
        fps.len(),
        |f: int|
            if in_deps[f] < deps.by_self_ty@.len() {
                deps.by_self_ty@[in_deps[f]].impls@
            } else {
                Seq::<hir::ImplId>::empty()
            },
    );
    let second = Seq::new(
        fps.len(),
        |f: int|
            if in_crate[f] < own.by_self_ty@.len() {
                own.by_self_ty@[in_crate[f]].impls@
            } else {
                Seq::<hir::ImplId>::empty()
            },
    );
    assert forall|f: int| 0 <= f < fps.len() implies #[trigger] first[f] == impls_for_self_ty(
        deps.by_self_ty@,
        trait_,
        fps[f],
    ) by {
        self_ty_entry_is_found(deps.by_self_ty@, trait_id, fps[f], in_deps[f]);
    }
    assert forall|f: int| 0 <= f < fps.len() implies #[trigger] second[f] == impls_for_self_ty(
        own.by_self_ty@,
        trait_,
        fps[f],
    ) by {
        self_ty_entry_is_found(own.by_self_ty@, trait_id, fps[f], in_crate[f]);
    }
    fingerprints_in_order(deps, trait_, fps, first);
    fingerprints_in_order(own, trait_, fps, second);
    variable_is_one_of_the_query(self_ty, binders);
    assert(search_fps(db, variable_kind(self_ty, binders), self_ty_fp) == fps);
}

proof fn found_in_one_is_found(
    db: HirDatabase,
    krate: CrateId,
    trait_id: TraitId,
    self_ty: TyView,
    self_ty_fp: Option<TyFingerprint>,
    binders: Seq<CanonicalVarKind>,
    id: hir::ImplId,
)
    requires
        ({
            let fps = search_fps(db, variable_kind(self_ty, binders), self_ty_fp);
            let deps = db.crates@[krate.0 as int].trait_impls_in_deps;
            let own = db.crates@[krate.0 as int].trait_impls_in_crate;
            ||| impls_found(deps, hir::TraitId(trait_id.0), fps).contains(id)
            ||| impls_found(own, hir::TraitId(trait_id.0), fps).contains(id)
        }),
    ensures
        impls_for(db, krate, trait_id, self_ty, self_ty_fp, binders).contains(ImplId(id.0)),
{
    let fps = search_fps(db, variable_kind(self_ty, binders), self_ty_fp);
    let trait_ = hir::TraitId(trait_id.0);
    let in_deps = impls_found(db.crates@[krate.0 as int].trait_impls_in_deps, trait_, fps);
    let in_own = impls_found(db.crates@[krate.0 as int].trait_impls_in_crate, trait_, fps);
    let all = relevant_impls(db, krate, trait_, fps);
    if in_deps.contains(id) {
        let k = choose|k: int| 0 <= k < in_deps.len() && in_deps[k] == id;
        assert(all[k] == id);
        assert(chalk_impl_ids(all)[k] == ImplId(id.0));
    } else {
        let k = choose|k: int| 0 <= k < in_own.len() && in_own[k] == id;
        assert(all[in_deps.len() + k] == id);
        assert(chalk_impl_ids(all)[in_deps.len() + k] == ImplId(id.0));
    }
}

/// Every impl in the first entry for a trait, at whatever position of the table of the
/// dependencies or of the crate that stands, is found by a search that has no fingerprint to
/// go by.
pub proof fn impl_filed_by_trait_is_found(
    db: HirDatabase,
    krate: CrateId,
    trait_id: TraitId,
    self_ty: TyView,
    self_ty_fp: Option<TyFingerprint>,
    binders: Seq<CanonicalVarKind>,
    impls: TraitImpls,
    i: int,
    j: int,
)
    requires
        match self_ty {
            TyView::BoundVar(var) => if var.debruijn.depth == 0 {
                match binders[var.index as int].kind {
                    VariableKind::Ty(TyVariableKind::Integer) => db.int_fps@.len() == 0,
                    VariableKind::Ty(TyVariableKind::Float) => db.float_fps@.len() == 0,
                    _ => self_ty_fp is None,
                }
            } else {
                self_ty_fp is None
            },
            _ => self_ty_fp is None,
        },
        impls == db.crates@[krate.0 as int].trait_impls_in_deps
            || impls == db.crates@[krate.0 as int].trait_impls_in_crate,
        0 <= i < impls.by_trait@.len(),
        impls.by_trait@[i].trait_.0 == trait_id.0,
        forall|p: int| 0 <= p < i ==> (#[trigger] impls.by_trait@[p]).trait_.0 != trait_id.0,
        0 <= j < impls.by_trait@[i].impls@.len(),
    ensures
        impls_for(db, krate, trait_id, self_ty, self_ty_fp, binders).contains(
            ImplId(impls.by_trait@[i].impls@[j].0),
        ),
{
    let trait_ = hir::TraitId(trait_id.0);
    let lists = impls.by_trait@;
    assert forall|p: int| 0 <= p < i implies (#[trigger] lists[p]).trait_ != trait_ by {
        assert(lists[p].trait_.0 != trait_id.0);
    }
    entry_of_trait_is_found(lists, trait_, i);
    variable_is_one_of_the_query(self_ty, binders);
    let fps = search_fps(db, variable_kind(self_ty, binders), self_ty_fp);
    assert(fps.len() == 0);
    let id = lists[i].impls@[j];
    assert(impls_found(impls, trait_, fps)[j] == id);
    found_in_one_is_found(db, krate, trait_id, self_ty, self_ty_fp, binders, id);
}

proof fn listed_under_fingerprint(
    impls: TraitImpls,
    trait_: hir::TraitId,
    fps: Seq<TyFingerprint>,
    f: int,
    id: hir::ImplId,
)
    requires
        0 <= f < fps.len(),
        impls_for_self_ty(impls.by_self_ty@, trait_, fps[f]).contains(id),
    ensures
        impls_for_fps(impls, trait_, fps).contains(id),
    decreases fps.len(),
{
    let earlier = impls_for_fps(impls, trait_, fps.drop_last());
    let last = impls_for_self_ty(impls.by_self_ty@, trait_, fps.last());
    if f == fps.len() - 1 {
        let k = choose|k: int| 0 <= k < last.len() && last[k] == id;
        assert((earlier + last)[earlier.len() + k] == id);
    } else {
        assert(fps.drop_last()[f] == fps[f]);
        listed_under_fingerprint(impls, trait_, fps.drop_last(), f, id);
        let k = choose|k: int| 0 <= k < earlier.len() && earlier[k] == id;
        assert((earlier + last)[k] == id);
    }
}

/// Every impl in the first entry for a trait and a fingerprint, at whatever position of the table
/// of the dependencies or of the crate that stands, is found by a search for a type with that
/// fingerprint; if it is the fingerprint of an integer or of a floating-point type, also by a
/// search for such a variable.
pub proof fn impl_filed_by_self_ty_is_found(
    db: HirDatabase,
    krate: CrateId,
    trait_id: TraitId,
    self_ty: TyView,
    self_ty_fp: Option<TyFingerprint>,
    binders: Seq<CanonicalVarKind>,
    impls: TraitImpls,
    i: int,
    j: int,
)
    requires
        impls == db.crates@[krate.0 as int].trait_impls_in_deps
            || impls == db.crates@[krate.0 as int].trait_impls_in_crate,
        0 <= i < impls.by_self_ty@.len(),
        impls.by_self_ty@[i].trait_.0 == trait_id.0,
        forall|p: int|
            0 <= p < i ==> (#[trigger] impls.by_self_ty@[p]).trait_.0 != trait_id.0
                || impls.by_self_ty@[p].self_ty != impls.by_self_ty@[i].self_ty,
        0 <= j < impls.by_self_ty@[i].impls@.len(),
        match self_ty {
            TyView::BoundVar(var) => if var.debruijn.depth == 0 {
                match binders[var.index as int].kind {
                    VariableKind::Ty(TyVariableKind::Integer) => db.int_fps@.contains(
                        impls.by_self_ty@[i].self_ty,
                    ),
                    VariableKind::Ty(TyVariableKind::Float) => db.float_fps@.contains(
                        impls.by_self_ty@[i].self_ty,
                    ),
                    _ => self_ty_fp == Some(impls.by_self_ty@[i].self_ty),
                }
            } else {
                self_ty_fp == Some(impls.by_self_ty@[i].self_ty)
            },
            _ => self_ty_fp == Some(impls.by_self_ty@[i].self_ty),
        },
    ensures
        impls_for(db, krate, trait_id, self_ty, self_ty_fp, binders).contains(
            ImplId(impls.by_self_ty@[i].impls@[j].0),
        ),
{
    let trait_ = hir::TraitId(trait_id.0);
    let fp = impls.by_self_ty@[i].self_ty;
    let id = impls.by_self_ty@[i].impls@[j];
    self_ty_entry_is_found(impls.by_self_ty@, trait_id, fp, i);
    variable_is_one_of_the_query(self_ty, binders);
    let fps = search_fps(db, variable_kind(self_ty, binders), self_ty_fp);
    assert(fps.contains(fp)) by {
        if self_ty_fp == Some(fp) && fps == seq![fp] {
            assert(seq![fp][0] == fp);
        }
    }
    let f = choose|f: int| 0 <= f < fps.len() && fps[f] == fp;
    assert(impls_for_self_ty(impls.by_self_ty@, trait_, fp)[j] == id);
    assert(impls_for_self_ty(impls.by_self_ty@, trait_, fps[f]).contains(id));
    listed_under_fingerprint(impls, trait_, fps, f, id);
    found_in_one_is_found(db, krate, trait_id, self_ty, self_ty_fp, binders, id);
}

} // verus!
