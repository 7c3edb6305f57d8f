//! Going between the definitions of the program and what the solver names them, and putting
//! values inside binders.

use vstd::prelude::*;

use crate::db::HirDatabase;
use crate::hir;
use crate::ids;
use crate::ir::{
    kind_view, kinds_view, Binders, BindersView, QuantifiedWhereClause, TyVariableKind,
    VariableKind, VariableKindView, WhereClause,
};
use crate::shift::{can_shift_where, shifted_where};

verus! {

/// A definition that the solver has a name for.
pub trait ToChalk: Sized {
    /// The solver's name for it.
    type Chalk;

    /// Whether the definition has a name.
    spec fn has_chalk(self, db: HirDatabase) -> bool;

    /// The name of the definition.
    spec fn chalk_of(self, db: HirDatabase) -> Self::Chalk;

    /// Whether `chalk` is a name.
    spec fn is_chalk(db: HirDatabase, chalk: Self::Chalk) -> bool;

    /// The definition with the name `chalk`.
    spec fn hir_of(db: HirDatabase, chalk: Self::Chalk) -> Self;

    fn to_chalk(self, db: &HirDatabase) -> (chalk: Self::Chalk)
        requires
            self.has_chalk(*db),
        ensures
            chalk == self.chalk_of(*db),
    ;

    fn from_chalk(db: &HirDatabase, chalk: Self::Chalk) -> (hir: Self)
        requires
            Self::is_chalk(*db, chalk),
        ensures
            hir == Self::hir_of(*db, chalk),
    ;

    /// The name of a definition leads back to it.
    proof fn from_chalk_undoes_to_chalk(self, db: HirDatabase)
        requires
            self.has_chalk(db),
        ensures
            Self::is_chalk(db, self.chalk_of(db)),
            Self::hir_of(db, self.chalk_of(db)) == self,
    ;
}

/// The definition with the name `chalk`.
pub fn from_chalk<T, ChalkT>(db: &HirDatabase, chalk: ChalkT) -> (hir: T) where
    T: ToChalk<Chalk = ChalkT>,

    requires
        T::is_chalk(*db, chalk),
    ensures
        hir == T::hir_of(*db, chalk),
{
    T::from_chalk(db, chalk)
}

impl ToChalk for hir::TraitId {
    type Chalk = ids::TraitId;

    open spec fn has_chalk(self, db: HirDatabase) -> bool {
        true
    }

    open spec fn chalk_of(self, db: HirDatabase) -> ids::TraitId {
        chalk_trait_id(self)
    }

    open spec fn is_chalk(db: HirDatabase, chalk: ids::TraitId) -> bool {
        true
    }

    open spec fn hir_of(db: HirDatabase, chalk: ids::TraitId) -> hir::TraitId {
        hir_trait_id(chalk)
    }

    fn to_chalk(self, db: &HirDatabase) -> (chalk: ids::TraitId) {
        to_chalk_trait_id(self)
    }

    fn from_chalk(db: &HirDatabase, chalk: ids::TraitId) -> (hir: hir::TraitId) {
        from_chalk_trait_id(chalk)
    }

    proof fn from_chalk_undoes_to_chalk(self, db: HirDatabase) {
    }
}

impl ToChalk for hir::ImplId {
    type Chalk = ids::ImplId;

    open spec fn has_chalk(self, db: HirDatabase) -> bool {
        true
    }

    open spec fn chalk_of(self, db: HirDatabase) -> ids::ImplId {
        chalk_impl_id(self)
    }

    open spec fn is_chalk(db: HirDatabase, chalk: ids::ImplId) -> bool {
        true
    }

    open spec fn hir_of(db: HirDatabase, chalk: ids::ImplId) -> hir::ImplId {
        hir_impl_id(chalk)
    }

    fn to_chalk(self, db: &HirDatabase) -> (chalk: ids::ImplId) {
        ids::ImplId(self.0)
    }

    fn from_chalk(db: &HirDatabase, chalk: ids::ImplId) -> (hir: hir::ImplId) {
        hir::ImplId(chalk.0)
    }

    proof fn from_chalk_undoes_to_chalk(self, db: HirDatabase) {
    }
}

impl ToChalk for hir::CallableDefId {
    type Chalk = ids::FnDefId;

    open spec fn has_chalk(self, db: HirDatabase) -> bool {
        db.is_interned(self)
    }

    open spec fn chalk_of(self, db: HirDatabase) -> ids::FnDefId {
        ids::FnDefId(db.callable_key(self).0)
    }

    open spec fn is_chalk(db: HirDatabase, chalk: ids::FnDefId) -> bool {
        db.has_interned_callable(ids::InternedCallableDefId(chalk.0))
    }

    open spec fn hir_of(db: HirDatabase, chalk: ids::FnDefId) -> hir::CallableDefId {
        db.callable_of(ids::InternedCallableDefId(chalk.0))
    }

    fn to_chalk(self, db: &HirDatabase) -> (chalk: ids::FnDefId) {
        ids::FnDefId::from(db.intern_callable_def(self))
    }

    fn from_chalk(db: &HirDatabase, chalk: ids::FnDefId) -> (hir: hir::CallableDefId) {
        db.lookup_intern_callable_def(ids::InternedCallableDefId::from(chalk))
    }

    proof fn from_chalk_undoes_to_chalk(self, db: HirDatabase) {
        let k = choose|k: int|
            0 <= k <= u32::MAX && k < db.callable_defs@.len() && #[trigger] db.callable_defs@[k]
                == self;
        crate::db::lemma_first_position(db.callable_defs@, self, k);
    }
}

/// A type alias in an impl, as the value of an associated type.
#[derive(Clone, Copy, PartialEq, Eq, Structural, Debug, Hash)]
pub struct TypeAliasAsValue(pub hir::TypeAliasId);

impl ToChalk for TypeAliasAsValue {
    type Chalk = ids::AssociatedTyValueId;

    open spec fn has_chalk(self, db: HirDatabase) -> bool {
        true
    }

    open spec fn chalk_of(self, db: HirDatabase) -> ids::AssociatedTyValueId {
        chalk_value_id(self.0)
    }

    open spec fn is_chalk(db: HirDatabase, chalk: ids::AssociatedTyValueId) -> bool {
        true
    }

    open spec fn hir_of(db: HirDatabase, chalk: ids::AssociatedTyValueId) -> TypeAliasAsValue {
        TypeAliasAsValue(hir_value_id(chalk))
    }

    fn to_chalk(self, db: &HirDatabase) -> (chalk: ids::AssociatedTyValueId) {
        ids::AssociatedTyValueId(self.0.0)
    }

    fn from_chalk(db: &HirDatabase, chalk: ids::AssociatedTyValueId) -> (hir: TypeAliasAsValue) {
        TypeAliasAsValue(hir::TypeAliasId(chalk.0))
    }

    proof fn from_chalk_undoes_to_chalk(self, db: HirDatabase) {
    }
}

pub open spec fn chalk_trait_id(id: hir::TraitId) -> ids::TraitId {
    ids::TraitId(id.0)
}

pub open spec fn hir_trait_id(id: ids::TraitId) -> hir::TraitId {
    hir::TraitId(id.0)
}

pub open spec fn chalk_impl_id(id: hir::ImplId) -> ids::ImplId {
    ids::ImplId(id.0)
}

pub open spec fn hir_impl_id(id: ids::ImplId) -> hir::ImplId {
    hir::ImplId(id.0)
}

pub open spec fn chalk_assoc_type_id(id: hir::TypeAliasId) -> ids::AssocTypeId {
    ids::AssocTypeId(id.0)
}

pub open spec fn hir_assoc_type_id(id: ids::AssocTypeId) -> hir::TypeAliasId {
    hir::TypeAliasId(id.0)
}

pub open spec fn chalk_value_id(id: hir::TypeAliasId) -> ids::AssociatedTyValueId {
    ids::AssociatedTyValueId(id.0)
}

pub open spec fn hir_value_id(id: ids::AssociatedTyValueId) -> hir::TypeAliasId {
    hir::TypeAliasId(id.0)
}

pub fn to_chalk_trait_id(id: hir::TraitId) -> (chalk: ids::TraitId)
    ensures
        chalk == chalk_trait_id(id),
{
    ids::TraitId(id.0)
}

pub fn from_chalk_trait_id(id: ids::TraitId) -> (hir: hir::TraitId)
    ensures
        hir == hir_trait_id(id),
{
    hir::TraitId(id.0)
}

pub fn to_assoc_type_id(id: hir::TypeAliasId) -> (chalk: ids::AssocTypeId)
    ensures
        chalk == chalk_assoc_type_id(id),
{
    ids::AssocTypeId(id.0)
}

pub fn from_assoc_type_id(id: ids::AssocTypeId) -> (hir: hir::TypeAliasId)
    ensures
        hir == hir_assoc_type_id(id),
{
    hir::TypeAliasId(id.0)
}

/// A binder of `num_vars` types.
pub open spec fn type_binder(num_vars: nat) -> Seq<VariableKindView> {
    Seq::new(num_vars, |i: int| VariableKindView::Ty(TyVariableKind::General))
}

/// `value` inside a binder of `num_vars` types. The variables of `value` are not renumbered.
pub fn make_binders<T>(value: T, num_vars: usize) -> (binders: Binders<T>)
    ensures
        kinds_view(binders.binders@) == type_binder(num_vars as nat),
        binders.value == value,
{
    let mut kinds: Vec<VariableKind> = Vec::new();
    for i in 0..num_vars
        invariant
            kinds@.len() == i,
            forall|j: int|
                0 <= j < i ==> kind_view(#[trigger] kinds@[j]) == VariableKindView::Ty(
                    TyVariableKind::General,
                ),
    {
        kinds.push(VariableKind::Ty(TyVariableKind::General));
    }
    Binders { binders: kinds, value }
}

/// `clause` inside a binder without variables, its own variables renumbered.
pub fn wrap_empty_binders(clause: &WhereClause) -> (quantified: QuantifiedWhereClause)
    requires
        can_shift_where(clause@, 1, 0),
    ensures
        quantified@ == (BindersView { binders: seq![], value: shifted_where(clause@, 1, 0) }),
{
    let binders: Vec<VariableKind> = Vec::new();
    assert(kinds_view(binders@) == Seq::<VariableKindView>::empty());
    Binders { binders, value: clause.shifted_in() }
}

} // verus!
