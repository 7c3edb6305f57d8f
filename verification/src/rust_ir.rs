//! The data that the solver asks for, one type per kind of definition.

use vstd::prelude::*;

use crate::hir;
use crate::ids::{
    AdtId, AssocTypeId, AssociatedTyValueId, FnDefId, ImplId, OpaqueTyId, TraitId,
};
use crate::ir::{
    args_view, clauses_view, clone_args, clone_kinds, kinds_view, tys_view, Binders, BindersView,
    FnSig, GenericArg, GenericArgView, QuantifiedWhereClause, QuantifiedWhereClauseView, TraitRef,
    TraitRefView, Ty, TyView,
};
use crate::well_known::WellKnownTrait;

verus! {

/// The trait in a bound, with its arguments but for the self type.
#[derive(Debug)]
pub struct TraitBound {
    pub trait_id: TraitId,
    pub args_no_self: Vec<GenericArg>,
}

/// A bound `Trait<Assoc = value>`.
#[derive(Debug)]
pub struct AliasEqBound {
    pub trait_bound: TraitBound,
    pub associated_ty_id: AssocTypeId,
    pub parameters: Vec<GenericArg>,
    pub value: Ty,
}

/// A bound, without the type that it is on.
#[derive(Debug)]
pub enum InlineBound {
    TraitBound(TraitBound),
    AliasEqBound(AliasEqBound),
}

pub type QuantifiedInlineBound = Binders<InlineBound>;

pub type QuantifiedInlineBoundView = BindersView<InlineBoundView>;

/// The contents of a [`TraitBound`].
#[verifier::ext_equal]
pub struct TraitBoundView {
    pub trait_id: TraitId,
    pub args_no_self: Seq<GenericArgView>,
}

/// The contents of an [`AliasEqBound`].
#[verifier::ext_equal]
pub struct AliasEqBoundView {
    pub trait_bound: TraitBoundView,
    pub associated_ty_id: AssocTypeId,
    pub parameters: Seq<GenericArgView>,
    pub value: TyView,
}

/// The contents of an [`InlineBound`].
#[verifier::ext_equal]
pub enum InlineBoundView {
    TraitBound(TraitBoundView),
    AliasEqBound(AliasEqBoundView),
}

impl View for TraitBound {
    type V = TraitBoundView;

    open spec fn view(&self) -> TraitBoundView {
        TraitBoundView {
            trait_id: self.trait_id,
            args_no_self: args_view(self.args_no_self@),
        }
    }
}

impl View for InlineBound {
    type V = InlineBoundView;

    open spec fn view(&self) -> InlineBoundView {
        match self {
            InlineBound::TraitBound(bound) => InlineBoundView::TraitBound(bound@),
            InlineBound::AliasEqBound(bound) => InlineBoundView::AliasEqBound(
                AliasEqBoundView {
                    trait_bound: bound.trait_bound@,
                    associated_ty_id: bound.associated_ty_id,
                    parameters: args_view(bound.parameters@),
                    value: bound.value@,
                },
            ),
        }
    }
}

pub open spec fn inline_bound_view(bound: QuantifiedInlineBound) -> QuantifiedInlineBoundView {
    BindersView { binders: kinds_view(bound.binders@), value: bound.value@ }
}

pub open spec fn inline_bounds_view(bounds: Seq<QuantifiedInlineBound>) -> Seq<
    QuantifiedInlineBoundView,
> {
    bounds.map_values(|bound: QuantifiedInlineBound| inline_bound_view(bound))
}

impl Clone for TraitBound {
    fn clone(&self) -> (copy: Self)
        ensures
            copy@ == self@,
    {
        TraitBound { trait_id: self.trait_id, args_no_self: clone_args(&self.args_no_self) }
    }
}

impl Clone for InlineBound {
    fn clone(&self) -> (copy: Self)
        ensures
            copy@ == self@,
    {
        match self {
            InlineBound::TraitBound(bound) => InlineBound::TraitBound(bound.clone()),
            InlineBound::AliasEqBound(bound) => InlineBound::AliasEqBound(
                AliasEqBound {
                    trait_bound: bound.trait_bound.clone(),
                    associated_ty_id: bound.associated_ty_id,
                    parameters: clone_args(&bound.parameters),
                    value: bound.value.clone(),
                },
            ),
        }
    }
}

pub fn clone_inline_bound(bound: &QuantifiedInlineBound) -> (copy: QuantifiedInlineBound)
    ensures
        inline_bound_view(copy) == inline_bound_view(*bound),
{
    Binders { binders: clone_kinds(&bound.binders), value: bound.value.clone() }
}

/// What is known of a trait apart from its clauses and items.
#[derive(Clone, Copy, PartialEq, Eq, Structural, Debug, Hash)]
pub struct TraitFlags {
    pub auto: bool,
    pub marker: bool,
    pub upstream: bool,
    pub fundamental: bool,
    pub non_enumerable: bool,
    pub coinductive: bool,
}

/// The clauses of a trait, inside a binder of its parameters.
#[derive(Debug)]
pub struct TraitDatumBound {
    pub where_clauses: Vec<QuantifiedWhereClause>,
}

#[derive(Debug)]
pub struct TraitDatum {
    pub id: TraitId,
    pub binders: Binders<TraitDatumBound>,
    pub flags: TraitFlags,
    pub associated_ty_ids: Vec<AssocTypeId>,
    pub well_known: Option<WellKnownTrait>,
}

/// The contents of a [`TraitDatumBound`].
#[verifier::ext_equal]
pub struct TraitDatumBoundView {
    pub where_clauses: Seq<QuantifiedWhereClauseView>,
}

/// The contents of a [`TraitDatum`].
#[verifier::ext_equal]
pub struct TraitDatumView {
    pub id: TraitId,
    pub binders: BindersView<TraitDatumBoundView>,
    pub flags: TraitFlags,
    pub associated_ty_ids: Seq<AssocTypeId>,
    pub well_known: Option<WellKnownTrait>,
}

impl View for TraitDatum {
    type V = TraitDatumView;

    open spec fn view(&self) -> TraitDatumView {
        TraitDatumView {
            id: self.id,
            binders: BindersView {
                binders: kinds_view(self.binders.binders@),
                value: TraitDatumBoundView {
                    where_clauses: clauses_view(self.binders.value.where_clauses@),
                },
            },
            flags: self.flags,
            associated_ty_ids: self.associated_ty_ids@,
            well_known: self.well_known,
        }
    }
}

/// The bounds on an associated type and its clauses, inside a binder of its parameters.
#[derive(Debug)]
pub struct AssociatedTyDatumBound {
    pub bounds: Vec<QuantifiedInlineBound>,
    pub where_clauses: Vec<QuantifiedWhereClause>,
}

#[derive(Debug)]
pub struct AssociatedTyDatum {
    pub trait_id: TraitId,
    pub id: AssocTypeId,
    pub name: hir::TypeAliasId,
    pub binders: Binders<AssociatedTyDatumBound>,
}

/// The contents of an [`AssociatedTyDatumBound`].
#[verifier::ext_equal]
pub struct AssociatedTyDatumBoundView {
    pub bounds: Seq<QuantifiedInlineBoundView>,
    pub where_clauses: Seq<QuantifiedWhereClauseView>,
}

/// The contents of an [`AssociatedTyDatum`].
#[verifier::ext_equal]
pub struct AssociatedTyDatumView {
    pub trait_id: TraitId,
    pub id: AssocTypeId,
    pub name: hir::TypeAliasId,
    pub binders: BindersView<AssociatedTyDatumBoundView>,
}

impl View for AssociatedTyDatum {
    type V = AssociatedTyDatumView;

    open spec fn view(&self) -> AssociatedTyDatumView {
        AssociatedTyDatumView {
            trait_id: self.trait_id,
            id: self.id,
            name: self.name,
            binders: BindersView {
                binders: kinds_view(self.binders.binders@),
                value: AssociatedTyDatumBoundView {
                    bounds: inline_bounds_view(self.binders.value.bounds@),
                    where_clauses: clauses_view(self.binders.value.where_clauses@),
                },
            },
        }
    }
}

#[derive(Clone, Copy, PartialEq, Eq, Structural, Debug, Hash)]
pub enum AdtKind {
    Struct,
    Enum,
    Union,
}

#[derive(Clone, Copy, PartialEq, Eq, Structural, Debug, Hash)]
pub struct AdtFlags {
    pub upstream: bool,
    pub fundamental: bool,
    pub phantom_data: bool,
}

/// How a struct, enum or union is laid out.
#[derive(Debug)]
pub struct AdtRepr {
    pub c: bool,
    pub packed: bool,
    pub int: Option<Ty>,
}

#[derive(Debug)]
pub struct AdtVariantDatum {
    pub fields: Vec<Ty>,
}

/// The variants and clauses of a struct, enum or union, inside a binder of its parameters.
#[derive(Debug)]
pub struct AdtDatumBound {
    pub variants: Vec<AdtVariantDatum>,
    pub where_clauses: Vec<QuantifiedWhereClause>,
}

#[derive(Debug)]
pub struct AdtDatum {
    pub binders: Binders<AdtDatumBound>,
    pub id: AdtId,
    pub flags: AdtFlags,
    pub kind: AdtKind,
}

/// The contents of an [`AdtDatumBound`]; a variant is the types of its fields.
#[verifier::ext_equal]
pub struct AdtDatumBoundView {
    pub variants: Seq<Seq<TyView>>,
    pub where_clauses: Seq<QuantifiedWhereClauseView>,
}

/// The contents of an [`AdtDatum`].
#[verifier::ext_equal]
pub struct AdtDatumView {
    pub binders: BindersView<AdtDatumBoundView>,
    pub id: AdtId,
    pub flags: AdtFlags,
    pub kind: AdtKind,
}

impl View for AdtDatum {
    type V = AdtDatumView;

    open spec fn view(&self) -> AdtDatumView {
        AdtDatumView {
            binders: BindersView {
                binders: kinds_view(self.binders.binders@),
                value: AdtDatumBoundView {
                    variants: self.binders.value.variants@.map_values(
                        |variant: AdtVariantDatum| tys_view(variant.fields@),
                    ),
                    where_clauses: clauses_view(self.binders.value.where_clauses@),
                },
            },
            id: self.id,
            flags: self.flags,
            kind: self.kind,
        }
    }
}

/// Whether an impl says that the trait is implemented, or that it is not.
#[derive(Clone, Copy, PartialEq, Eq, Structural, Debug, Hash)]
pub enum Polarity {
    Positive,
    Negative,
}

/// Whether an impl stands in the crate under analysis.
#[derive(Clone, Copy, PartialEq, Eq, Structural, Debug, Hash)]
pub enum ImplType {
    Local,
    External,
}

/// What an impl implements, and its clauses, inside a binder of its parameters.
#[derive(Debug)]
pub struct ImplDatumBound {
    pub trait_ref: TraitRef,
    pub where_clauses: Vec<QuantifiedWhereClause>,
}

#[derive(Debug)]
pub struct ImplDatum {
    pub polarity: Polarity,
    pub binders: Binders<ImplDatumBound>,
    pub impl_type: ImplType,
    pub associated_ty_value_ids: Vec<AssociatedTyValueId>,
}

/// The contents of an [`ImplDatumBound`].
#[verifier::ext_equal]
pub struct ImplDatumBoundView {
    pub trait_ref: TraitRefView,
    pub where_clauses: Seq<QuantifiedWhereClauseView>,
}

/// The contents of an [`ImplDatum`].
#[verifier::ext_equal]
pub struct ImplDatumView {
    pub polarity: Polarity,
    pub binders: BindersView<ImplDatumBoundView>,
    pub impl_type: ImplType,
    pub associated_ty_value_ids: Seq<AssociatedTyValueId>,
}

impl View for ImplDatum {
    type V = ImplDatumView;

    open spec fn view(&self) -> ImplDatumView {
        ImplDatumView {
            polarity: self.polarity,
            binders: BindersView {
                binders: kinds_view(self.binders.binders@),
                value: ImplDatumBoundView {
                    trait_ref: self.binders.value.trait_ref@,
                    where_clauses: clauses_view(self.binders.value.where_clauses@),
                },
            },
            impl_type: self.impl_type,
            associated_ty_value_ids: self.associated_ty_value_ids@,
        }
    }
}

/// The value of an associated type, inside a binder of the parameters of the alias.
#[derive(Debug)]
pub struct AssociatedTyValueBound {
    pub ty: Ty,
}

#[derive(Debug)]
pub struct AssociatedTyValue {
    pub impl_id: ImplId,
    pub associated_ty_id: AssocTypeId,
    pub value: Binders<AssociatedTyValueBound>,
}

/// The contents of an [`AssociatedTyValue`].
#[verifier::ext_equal]
pub struct AssociatedTyValueView {
    pub impl_id: ImplId,
    pub associated_ty_id: AssocTypeId,
    pub value: BindersView<TyView>,
}

impl View for AssociatedTyValue {
    type V = AssociatedTyValueView;

    open spec fn view(&self) -> AssociatedTyValueView {
        AssociatedTyValueView {
            impl_id: self.impl_id,
            associated_ty_id: self.associated_ty_id,
            value: BindersView {
                binders: kinds_view(self.value.binders@),
                value: self.value.value.ty@,
            },
        }
    }
}

/// The argument types and the return type of a function, inside a binder of its late-bound
/// lifetimes.
#[derive(Debug)]
pub struct FnDefInputsAndOutputDatum {
    pub argument_types: Vec<Ty>,
    pub return_type: Ty,
}

/// The type and the clauses of a function, inside a binder of its parameters.
#[derive(Debug)]
pub struct FnDefDatumBound {
    pub inputs_and_output: Binders<FnDefInputsAndOutputDatum>,
    pub where_clauses: Vec<QuantifiedWhereClause>,
}

#[derive(Debug)]
pub struct FnDefDatum {
    pub id: FnDefId,
    pub sig: FnSig,
    pub binders: Binders<FnDefDatumBound>,
}

/// The contents of a [`FnDefInputsAndOutputDatum`].
#[verifier::ext_equal]
pub struct FnDefInputsAndOutputDatumView {
    pub argument_types: Seq<TyView>,
    pub return_type: TyView,
}

/// The contents of a [`FnDefDatumBound`].
#[verifier::ext_equal]
pub struct FnDefDatumBoundView {
    pub inputs_and_output: BindersView<FnDefInputsAndOutputDatumView>,
    pub where_clauses: Seq<QuantifiedWhereClauseView>,
}

/// The contents of a [`FnDefDatum`].
#[verifier::ext_equal]
pub struct FnDefDatumView {
    pub id: FnDefId,
    pub sig: FnSig,
    pub binders: BindersView<FnDefDatumBoundView>,
}

impl View for FnDefInputsAndOutputDatum {
    type V = FnDefInputsAndOutputDatumView;

    open spec fn view(&self) -> FnDefInputsAndOutputDatumView {
        FnDefInputsAndOutputDatumView {
            argument_types: tys_view(self.argument_types@),
            return_type: self.return_type@,
        }
    }
}

impl View for Binders<FnDefInputsAndOutputDatum> {
    type V = BindersView<FnDefInputsAndOutputDatumView>;

    open spec fn view(&self) -> BindersView<FnDefInputsAndOutputDatumView> {
        BindersView { binders: kinds_view(self.binders@), value: self.value@ }
    }
}

impl View for FnDefDatum {
    type V = FnDefDatumView;

    open spec fn view(&self) -> FnDefDatumView {
        FnDefDatumView {
            id: self.id,
            sig: self.sig,
            binders: BindersView {
                binders: kinds_view(self.binders.binders@),
                value: FnDefDatumBoundView {
                    inputs_and_output: self.binders.value.inputs_and_output@,
                    where_clauses: clauses_view(self.binders.value.where_clauses@),
                },
            },
        }
    }
}

/// The bounds on an opaque type and its clauses, each inside a binder of the opaque type, and
/// both inside a binder of its parameters.
#[derive(Debug)]
pub struct OpaqueTyDatumBound {
    pub bounds: Binders<Vec<QuantifiedWhereClause>>,
    pub where_clauses: Binders<Vec<QuantifiedWhereClause>>,
}

#[derive(Debug)]
pub struct OpaqueTyDatum {
    pub opaque_ty_id: OpaqueTyId,
    pub bound: Binders<OpaqueTyDatumBound>,
}

/// The contents of an [`OpaqueTyDatumBound`].
#[verifier::ext_equal]
pub struct OpaqueTyDatumBoundView {
    pub bounds: BindersView<Seq<QuantifiedWhereClauseView>>,
    pub where_clauses: BindersView<Seq<QuantifiedWhereClauseView>>,
}

/// The contents of an [`OpaqueTyDatum`].
#[verifier::ext_equal]
pub struct OpaqueTyDatumView {
    pub opaque_ty_id: OpaqueTyId,
    pub bound: BindersView<OpaqueTyDatumBoundView>,
}

impl View for Binders<Vec<QuantifiedWhereClause>> {
    type V = BindersView<Seq<QuantifiedWhereClauseView>>;

    open spec fn view(&self) -> BindersView<Seq<QuantifiedWhereClauseView>> {
        BindersView { binders: kinds_view(self.binders@), value: clauses_view(self.value@) }
    }
}

impl View for Binders<OpaqueTyDatumBound> {
    type V = BindersView<OpaqueTyDatumBoundView>;

    open spec fn view(&self) -> BindersView<OpaqueTyDatumBoundView> {
        BindersView {
            binders: kinds_view(self.binders@),
            value: OpaqueTyDatumBoundView {
                bounds: self.value.bounds@,
                where_clauses: self.value.where_clauses@,
            },
        }
    }
}

impl View for OpaqueTyDatum {
    type V = OpaqueTyDatumView;

    open spec fn view(&self) -> OpaqueTyDatumView {
        OpaqueTyDatumView { opaque_ty_id: self.opaque_ty_id, bound: self.bound@ }
    }
}

/// How a closure takes what it captures when it is called.
#[derive(Clone, Copy, PartialEq, Eq, Structural, Debug, Hash)]
pub enum ClosureKind {
    Fn,
    FnMut,
    FnOnce,
}

} // verus!
