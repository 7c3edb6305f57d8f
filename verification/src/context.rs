//! The program as the solver sees it from one crate.

use std::sync::Arc;

use vstd::pervasive::unreached;
use vstd::prelude::*;

use crate::datums;
use crate::datums::{
    adt_variance_query, associated_ty_data_query, associated_ty_datum, associated_ty_value_query,
    can_shift_sig, fn_def, fn_def_datum_query, fn_def_variance_query, fn_generics,
    impl_datum_query, impl_is_resolved, impl_items_known, inputs_and_output, invariant_in,
    is_assoc_type, is_fn_def, is_value, sig_inputs_and_output, struct_datum, struct_datum_query,
    trait_datum_query,
};
use crate::db::{lang_item_target, CallableSig, HirDatabase, TyFingerprint};
use crate::hir;
use crate::hir::{CrateId, GenericDefId, LangItemTarget};
use crate::ids::{
    AdtId, AssocTypeId, AssociatedTyValueId, ClosureId, FnDefId, ImplId, OpaqueTyId, TraitId,
};
use crate::impls;
use crate::impls::{binder_known, impls_for};
use crate::ir::{
    args_view, kinds_view, Binders, CanonicalVarKind, GenericArg, Scalar, Ty, TyView, TypeName,
    UintTy, Variance,
};
use crate::mapping::{
    chalk_trait_id, from_chalk, hir_impl_id, hir_trait_id, hir_value_id, make_binders,
    ToChalk,
};
use crate::names;
use crate::names::{fn_name, opaque_name};
use crate::opaque;
use crate::opaque::{is_opaque_ty, opaque_ty_datum};
use crate::rust_ir::{
    AdtDatum, AdtRepr, AssociatedTyDatum, AssociatedTyValue, ClosureKind, FnDefDatum,
    FnDefInputsAndOutputDatum, ImplDatum, OpaqueTyDatum, TraitDatum,
};
use crate::well_known::{lang_attr, lang_attr_from_well_known_trait, WellKnownTrait};

verus! {

/// What is known of the program, asked from the crate `krate`.
pub struct ChalkContext<'a> {
    pub db: &'a HirDatabase,
    pub krate: CrateId,
}

/// A type without arguments.
pub open spec fn plain_ty(name: TypeName) -> TyView {
    TyView::Apply { name, args: seq![] }
}

fn make_plain_ty(name: TypeName) -> (ty: Ty)
    ensures
        ty@ == plain_ty(name),
{
    let args: Vec<GenericArg> = Vec::new();
    assert(args_view(args@) =~= seq![]);
    Ty::Apply { name, args }
}

/// The trait that the lang item of a well-known trait stands on, if there is one.
pub open spec fn well_known_trait(
    db: HirDatabase,
    krate: CrateId,
    trait_: WellKnownTrait,
) -> Option<TraitId> {
    match lang_item_target(db.crate_at(krate).lang_items@, lang_attr(trait_)) {
        Some(LangItemTarget::TraitId(id)) => Some(chalk_trait_id(id)),
        _ => None,
    }
}

impl<'a> ChalkContext<'a> {
    pub fn associated_ty_data(&self, id: AssocTypeId) -> (datum: Arc<AssociatedTyDatum>)
        requires
            is_assoc_type(*self.db, id),
        ensures
            datum@ == associated_ty_datum(*self.db, id),
    {
        associated_ty_data_query(self.db, id)
    }

    pub fn trait_datum(&self, trait_id: TraitId) -> (datum: Arc<TraitDatum>)
        requires
            self.db.has_trait(hir_trait_id(trait_id)),
        ensures
            datum@ == datums::trait_datum(*self.db, self.krate, trait_id),
    {
        trait_datum_query(self.db, self.krate, trait_id)
    }

    pub fn adt_datum(&self, struct_id: AdtId) -> (datum: Arc<AdtDatum>)
        requires
            self.db.has_adt(struct_id.0),
        ensures
            datum@ == struct_datum(*self.db, self.krate, struct_id),
    {
        struct_datum_query(self.db, self.krate, struct_id)
    }

    /// Representations are not tracked: every type has the default one.
    pub fn adt_repr(&self, _struct_id: AdtId) -> (repr: Arc<AdtRepr>)
        ensures
            *repr == (AdtRepr { c: false, packed: false, int: None }),
    {
        Arc::new(AdtRepr { c: false, packed: false, int: None })
    }

    /// Discriminants are not tracked: every one is a `u32`.
    pub fn discriminant_type(&self, _ty: &Ty) -> (ty: Ty)
        ensures
            ty@ == plain_ty(TypeName::Scalar(Scalar::Uint(UintTy::U32))),
    {
        make_plain_ty(TypeName::Scalar(Scalar::Uint(UintTy::U32)))
    }

    pub fn impl_datum(&self, impl_id: ImplId) -> (datum: Arc<ImplDatum>)
        requires
            impl_is_resolved(*self.db, hir_impl_id(impl_id)),
            impl_items_known(*self.db, hir_impl_id(impl_id)),
        ensures
            datum@ == datums::impl_datum(*self.db, self.krate, hir_impl_id(impl_id)),
    {
        impl_datum_query(self.db, self.krate, impl_id)
    }

    pub fn fn_def_datum(&self, fn_def_id: FnDefId) -> (datum: Arc<FnDefDatum>)
        requires
            is_fn_def(*self.db, fn_def_id),
            can_shift_sig(self.db.signature_of(fn_def(*self.db, fn_def_id)).value),
        ensures
            datum@ == datums::fn_def_datum(*self.db, fn_def_id),
    {
        fn_def_datum_query(self.db, self.krate, fn_def_id)
    }

    /// The impls of `trait_id` that may apply to the self type, which comes first in
    /// `parameters`. `self_ty_fp` is the fingerprint of the self type; `binders` are the
    /// variables that it may refer to.
    pub fn impls_for_trait(
        &self,
        trait_id: TraitId,
        parameters: &[GenericArg],
        self_ty_fp: Option<TyFingerprint>,
        binders: &[CanonicalVarKind],
    ) -> (ids: Vec<ImplId>)
        requires
            self.db.has_crate(self.krate),
            parameters@.len() > 0,
            parameters@[0] is Ty,
            binder_known(parameters@[0]->Ty_0@, binders@),
        ensures
            ids@ == impls_for(
                *self.db,
                self.krate,
                trait_id,
                parameters@[0]->Ty_0@,
                self_ty_fp,
                binders@,
            ),
    {
        impls::impls_for_trait(self.db, self.krate, trait_id, parameters, self_ty_fp, binders)
    }

    /// Explicit impls of auto traits are not tracked.
    pub fn impl_provided_for(&self, _auto_trait_id: TraitId, _ty: &Ty) -> (provided: bool)
        ensures
            !provided,
    {
        false
    }

    pub fn associated_ty_value(&self, id: AssociatedTyValueId) -> (value: Arc<AssociatedTyValue>)
        requires
            is_value(*self.db, hir_value_id(id)),
        ensures
            value@ == datums::associated_ty_value(*self.db, hir_value_id(id)),
    {
        associated_ty_value_query(self.db, self.krate, id)
    }

    /// The trait that the lang item of a well-known trait stands on.
    pub fn well_known_trait_id(&self, well_known: WellKnownTrait) -> (id: Option<TraitId>)
        requires
            self.db.has_crate(self.krate),
        ensures
            id == well_known_trait(*self.db, self.krate, well_known),
    {
        let lang_attr = lang_attr_from_well_known_trait(well_known);
        match self.db.lang_item(self.krate, lang_attr.to_owned()) {
            Some(LangItemTarget::TraitId(trait_)) => Some(trait_.to_chalk(self.db)),
            _ => None,
        }
    }

    pub fn opaque_ty_data(&self, id: OpaqueTyId) -> (datum: Arc<OpaqueTyDatum>)
        requires
            is_opaque_ty(*self.db, self.krate, id),
        ensures
            datum@ == opaque_ty_datum(*self.db, self.krate, id),
    {
        opaque::opaque_ty_data(self.db, self.krate, id)
    }

    /// Hidden types are not tracked.
    pub fn hidden_opaque_type(&self, _id: OpaqueTyId) -> (ty: Ty)
        ensures
            ty@ == plain_ty(TypeName::Error),
    {
        make_plain_ty(TypeName::Error)
    }

    /// Object safety is not tracked: every trait counts as object safe.
    pub fn is_object_safe(&self, _trait_id: TraitId) -> (safe: bool)
        ensures
            safe,
    {
        true
    }

    /// `Fn` is the closure kind that implements all three traits.
    pub fn closure_kind(&self, _closure_id: ClosureId, _substs: &[GenericArg]) -> (kind:
        ClosureKind)
        ensures
            kind == ClosureKind::Fn,
    {
        ClosureKind::Fn
    }

    /// The argument types and the return type of a closure. `sig` is the signature of the type
    /// that comes first in `substs`, which is a function pointer.
    pub fn closure_inputs_and_output(
        &self,
        _closure_id: ClosureId,
        substs: &[GenericArg],
        sig: Option<&CallableSig>,
    ) -> (io: Binders<FnDefInputsAndOutputDatum>)
        requires
            substs@.len() > 0,
            substs@[0] is Ty,
            sig matches Some(sig) && can_shift_sig(*sig),
        ensures
            io@ == sig_inputs_and_output(*sig->Some_0),
    {
        match sig {
            Some(sig) => inputs_and_output(sig),
            None => unreached(),
        }
    }

    /// What a closure captures is not tracked: it counts as nothing.
    pub fn closure_upvars(&self, _closure_id: ClosureId, _substs: &[GenericArg]) -> (upvars: Binders<
        Ty,
    >)
        ensures
            upvars.binders@.len() == 0,
            upvars.value@ == plain_ty(TypeName::Tuple(0)),
    {
        let upvars = make_binders(make_plain_ty(TypeName::Tuple(0)), 0);
        assert(kinds_view(upvars.binders@).len() == 0);
        upvars
    }

    pub fn closure_fn_substitution(&self, _closure_id: ClosureId, _substs: &[GenericArg]) -> (substs:
        Vec<GenericArg>)
        ensures
            substs@.len() == 0,
    {
        Vec::new()
    }

    pub fn trait_name(&self, trait_id: TraitId) -> (name: String)
        requires
            self.db.has_trait(hir_trait_id(trait_id)),
        ensures
            name@ == self.db.trait_at(hir_trait_id(trait_id)).name@,
    {
        let id: hir::TraitId = from_chalk(self.db, trait_id);
        self.db.trait_data(id).name.to_string()
    }

    pub fn adt_name(&self, adt_id: AdtId) -> (name: String)
        requires
            self.db.has_adt(adt_id.0),
        ensures
            name@ == self.db.adt_name_of(adt_id.0),
    {
        let AdtId(adt_id) = adt_id;
        match adt_id {
            hir::AdtId::StructId(id) => self.db.struct_data(id).name.to_string(),
            hir::AdtId::EnumId(id) => self.db.enum_data(id).name.to_string(),
            hir::AdtId::UnionId(id) => self.db.union_data(id).name.to_string(),
        }
    }

    pub fn assoc_type_name(&self, assoc_ty_id: AssocTypeId) -> (name: String)
        requires
            is_assoc_type(*self.db, assoc_ty_id),
        ensures
            name@ == self.db.alias_at(associated_ty_datum(*self.db, assoc_ty_id).name).name@,
    {
        let id = self.associated_ty_data(assoc_ty_id).name;
        self.db.type_alias_data(id).name.to_string()
    }

    pub fn opaque_type_name(&self, opaque_ty_id: OpaqueTyId) -> (name: String)
        ensures
            name@ == opaque_name(opaque_ty_id),
    {
        names::opaque_type_name(opaque_ty_id)
    }

    pub fn fn_def_name(&self, fn_def_id: FnDefId) -> (name: String)
        ensures
            name@ == fn_name(fn_def_id),
    {
        names::fn_def_name(fn_def_id)
    }

    pub fn fn_def_variance(&self, fn_def_id: FnDefId) -> (variances: Vec<Variance>)
        requires
            is_fn_def(*self.db, fn_def_id),
        ensures
            variances@ == invariant_in(fn_generics(*self.db, fn_def_id).num_params as nat),
    {
        fn_def_variance_query(self.db, self.krate, fn_def_id)
    }

    pub fn adt_variance(&self, adt_id: AdtId) -> (variances: Vec<Variance>)
        requires
            self.db.has_adt(adt_id.0),
        ensures
            variances@ == invariant_in(
                self.db.generics_of(GenericDefId::AdtId(adt_id.0)).num_params as nat,
            ),
    {
        adt_variance_query(self.db, self.krate, adt_id)
    }
}

} // verus!
