//! Views leave nothing out: each part of a term or of a datum is found in its view, lists one for
//! one and in order.

use vstd::prelude::*;

use crate::ir::{
    arg_view, args_view, clause_view, clauses_view, const_view, kind_view, kinds_view, tys_view,
    ty_view, AliasTy, AliasTyView, Const, GenericArg, GenericArgView, QuantifiedWhereClause,
    TraitRef, Ty, TyView, VariableKind, VariableKindView, WhereClause, WhereClauseView,
};
use crate::rust_ir::{
    inline_bound_view, inline_bounds_view, AdtDatum, AssociatedTyDatum, AssociatedTyValue,
    FnDefDatum, ImplDatum, InlineBound, InlineBoundView, OpaqueTyDatum, QuantifiedInlineBound,
    TraitDatum,
};

verus! {

/// The view of a type has the same head, the same arguments, and the same binders, bounds and
/// lifetime.
pub proof fn view_of_ty(ty: Ty)
    ensures
        ty_view(ty) == ty@,
        match ty {
            Ty::BoundVar(var) => ty@ matches TyView::BoundVar(v) && v == var,
            Ty::Apply { name, args } => ty@ matches TyView::Apply { name: n, args: a } && {
                &&& n == name
                &&& a.len() == args@.len()
                &&& forall|i: int| 0 <= i < a.len() ==> #[trigger] a[i] == args@[i]@
            },
            Ty::Function { num_binders, sig, args } => ty@ matches TyView::Function {
                num_binders: n,
                sig: s,
                args: a,
            } && {
                &&& n == num_binders
                &&& s == sig
                &&& a.len() == args@.len()
                &&& forall|i: int| 0 <= i < a.len() ==> #[trigger] a[i] == args@[i]@
            },
            Ty::Dyn { binders, bounds, lifetime } => ty@ matches TyView::Dyn {
                binders: k,
                bounds: b,
                lifetime: l,
            } && {
                &&& l == lifetime
                &&& k.len() == binders@.len()
                &&& forall|i: int| 0 <= i < k.len() ==> #[trigger] k[i] == binders@[i]@
                &&& b.len() == bounds@.len()
                &&& forall|i: int| 0 <= i < b.len() ==> #[trigger] b[i] == bounds@[i]@
            },
        },
{
}

/// The view of an argument is of its kind and has its contents; a constant has its type and its
/// value.
pub proof fn view_of_arg(arg: GenericArg, constant: Const)
    ensures
        arg_view(arg) == arg@,
        match arg {
            GenericArg::Ty(ty) => arg@ matches GenericArgView::Ty(t) && t == ty@,
            GenericArg::Lifetime(lifetime) => arg@ matches GenericArgView::Lifetime(l) && l
                == lifetime,
            GenericArg::Const(value) => arg@ matches GenericArgView::Const(c) && c == value@,
        },
        const_view(constant) == constant@,
        constant@.ty == constant.ty@,
        constant@.value == constant.value,
{
}

/// The view of a variable's kind is that kind, with the type of a constant.
pub proof fn view_of_kind(kind: VariableKind)
    ensures
        kind_view(kind) == kind@,
        match kind {
            VariableKind::Ty(ty_kind) => kind@ matches VariableKindView::Ty(k) && k == ty_kind,
            VariableKind::Lifetime => kind@ is Lifetime,
            VariableKind::Const(ty) => kind@ matches VariableKindView::Const(t) && t == ty@,
        },
{
}

/// The view of a trait reference has the trait and every argument.
pub proof fn view_of_trait_ref(trait_ref: TraitRef)
    ensures
        trait_ref@.trait_id == trait_ref.trait_id,
        trait_ref@.substitution.len() == trait_ref.substitution@.len(),
        forall|i: int|
            0 <= i < trait_ref.substitution@.len() ==> #[trigger] trait_ref@.substitution[i]
                == trait_ref.substitution@[i]@,
{
}

/// The view of an alias has its definition and every argument.
pub proof fn view_of_alias(alias: AliasTy)
    ensures
        match alias {
            AliasTy::Projection { associated_ty_id, substitution } => alias@
                matches AliasTyView::Projection { associated_ty_id: id, substitution: s } && {
                &&& id == associated_ty_id
                &&& s.len() == substitution@.len()
                &&& forall|i: int| 0 <= i < s.len() ==> #[trigger] s[i] == substitution@[i]@
            },
            AliasTy::Opaque { opaque_ty_id, substitution } => alias@ matches AliasTyView::Opaque {
                opaque_ty_id: id,
                substitution: s,
            } && {
                &&& id == opaque_ty_id
                &&& s.len() == substitution@.len()
                &&& forall|i: int| 0 <= i < s.len() ==> #[trigger] s[i] == substitution@[i]@
            },
        },
{
}

/// The view of a where clause is of its kind and has all that it relates.
pub proof fn view_of_where(clause: WhereClause)
    ensures
        match clause {
            WhereClause::Implemented(trait_ref) => clause@ matches WhereClauseView::Implemented(t)
                && t == trait_ref@,
            WhereClause::AliasEq { alias, ty } => clause@ matches WhereClauseView::AliasEq {
                alias: a,
                ty: t,
            } && a == alias@ && t == ty@,
            WhereClause::LifetimeOutlives { a, b } => clause@
                matches WhereClauseView::LifetimeOutlives { a: c, b: d } && c == a && d == b,
            WhereClause::TypeOutlives { ty, lifetime } => clause@
                matches WhereClauseView::TypeOutlives { ty: t, lifetime: l } && t == ty@ && l
                == lifetime,
        },
{
}

/// The view of a quantified clause has every variable of the binder, and the clause inside.
pub proof fn view_of_clause(clause: QuantifiedWhereClause)
    ensures
        clause_view(clause) == clause@,
        clause@.binders.len() == clause.binders@.len(),
        forall|i: int|
            0 <= i < clause.binders@.len() ==> #[trigger] clause@.binders[i] == clause.binders@[i]@,
        clause@.value == clause.value@,
{
}

/// The views of lists have an element for each element, in order.
pub proof fn views_of_lists(
    args: Seq<GenericArg>,
    kinds: Seq<VariableKind>,
    clauses: Seq<QuantifiedWhereClause>,
    tys: Seq<Ty>,
    bounds: Seq<QuantifiedInlineBound>,
)
    ensures
        args_view(args).len() == args.len(),
        forall|i: int| 0 <= i < args.len() ==> #[trigger] args_view(args)[i] == args[i]@,
        kinds_view(kinds).len() == kinds.len(),
        forall|i: int| 0 <= i < kinds.len() ==> #[trigger] kinds_view(kinds)[i] == kinds[i]@,
        clauses_view(clauses).len() == clauses.len(),
        forall|i: int|
            0 <= i < clauses.len() ==> #[trigger] clauses_view(clauses)[i] == clauses[i]@,
        tys_view(tys).len() == tys.len(),
        forall|i: int| 0 <= i < tys.len() ==> #[trigger] tys_view(tys)[i] == tys[i]@,
        inline_bounds_view(bounds).len() == bounds.len(),
        forall|i: int|
            0 <= i < bounds.len() ==> #[trigger] inline_bounds_view(bounds)[i]
                == inline_bound_view(bounds[i]),
{
}

/// The view of a bound has the variables of its binder, the trait, every argument, and what the
/// associated type is equal to.
pub proof fn view_of_inline_bound(bound: QuantifiedInlineBound)
    ensures
        inline_bound_view(bound).binders.len() == bound.binders@.len(),
        forall|i: int|
            0 <= i < bound.binders@.len() ==> #[trigger] inline_bound_view(bound).binders[i]
                == bound.binders@[i]@,
        match bound.value {
            InlineBound::TraitBound(b) => inline_bound_view(bound).value
                matches InlineBoundView::TraitBound(v) && {
                &&& v.trait_id == b.trait_id
                &&& v.args_no_self.len() == b.args_no_self@.len()
                &&& forall|i: int|
                    0 <= i < v.args_no_self.len() ==> #[trigger] v.args_no_self[i]
                        == b.args_no_self@[i]@
            },
            InlineBound::AliasEqBound(b) => inline_bound_view(bound).value
                matches InlineBoundView::AliasEqBound(v) && {
                &&& v.trait_bound.trait_id == b.trait_bound.trait_id
                &&& v.trait_bound.args_no_self.len() == b.trait_bound.args_no_self@.len()
                &&& forall|i: int|
                    0 <= i < v.trait_bound.args_no_self.len()
                        ==> #[trigger] v.trait_bound.args_no_self[i]
                        == b.trait_bound.args_no_self@[i]@
                &&& v.associated_ty_id == b.associated_ty_id
                &&& v.parameters.len() == b.parameters@.len()
                &&& forall|i: int|
                    0 <= i < v.parameters.len() ==> #[trigger] v.parameters[i] == b.parameters@[i]@
                &&& v.value == b.value@
            },
        },
{
}

/// The view of a trait's datum has all of it.
pub proof fn view_of_trait_datum(datum: TraitDatum)
    ensures
        datum@.id == datum.id,
        datum@.flags == datum.flags,
        datum@.associated_ty_ids == datum.associated_ty_ids@,
        datum@.well_known == datum.well_known,
        datum@.binders.binders.len() == datum.binders.binders@.len(),
        forall|i: int|
            0 <= i < datum.binders.binders@.len() ==> #[trigger] datum@.binders.binders[i]
                == datum.binders.binders@[i]@,
        datum@.binders.value.where_clauses.len() == datum.binders.value.where_clauses@.len(),
        forall|i: int|
            0 <= i < datum.binders.value.where_clauses@.len()
                ==> #[trigger] datum@.binders.value.where_clauses[i]
                == datum.binders.value.where_clauses@[i]@,
{
}

/// The view of an associated type's datum has all of it.
pub proof fn view_of_associated_ty_datum(datum: AssociatedTyDatum)
    ensures
        datum@.trait_id == datum.trait_id,
        datum@.id == datum.id,
        datum@.name == datum.name,
        datum@.binders.binders.len() == datum.binders.binders@.len(),
        forall|i: int|
            0 <= i < datum.binders.binders@.len() ==> #[trigger] datum@.binders.binders[i]
                == datum.binders.binders@[i]@,
        datum@.binders.value.bounds.len() == datum.binders.value.bounds@.len(),
        forall|i: int|
            0 <= i < datum.binders.value.bounds@.len() ==> #[trigger] datum@.binders.value.bounds[i]
                == inline_bound_view(datum.binders.value.bounds@[i]),
        datum@.binders.value.where_clauses.len() == datum.binders.value.where_clauses@.len(),
        forall|i: int|
            0 <= i < datum.binders.value.where_clauses@.len()
                ==> #[trigger] datum@.binders.value.where_clauses[i]
                == datum.binders.value.where_clauses@[i]@,
{
}

/// The view of the datum of a struct, enum or union has all of it.
pub proof fn view_of_adt_datum(datum: AdtDatum)
    ensures
        datum@.id == datum.id,
        datum@.flags == datum.flags,
        datum@.kind == datum.kind,
        datum@.binders.binders.len() == datum.binders.binders@.len(),
        forall|i: int|
            0 <= i < datum.binders.binders@.len() ==> #[trigger] datum@.binders.binders[i]
                == datum.binders.binders@[i]@,
        datum@.binders.value.variants.len() == datum.binders.value.variants@.len(),
        forall|i: int|
            0 <= i < datum.binders.value.variants@.len()
                ==> #[trigger] datum@.binders.value.variants[i].len()
                == datum.binders.value.variants@[i].fields@.len(),
        forall|i: int, j: int|
            0 <= i < datum.binders.value.variants@.len() && 0 <= j
                < datum.binders.value.variants@[i].fields@.len()
                ==> #[trigger] datum@.binders.value.variants[i][j]
                == datum.binders.value.variants@[i].fields@[j]@,
        datum@.binders.value.where_clauses.len() == datum.binders.value.where_clauses@.len(),
        forall|i: int|
            0 <= i < datum.binders.value.where_clauses@.len()
                ==> #[trigger] datum@.binders.value.where_clauses[i]
                == datum.binders.value.where_clauses@[i]@,
{
}

/// The view of an impl's datum has all of it.
pub proof fn view_of_impl_datum(datum: ImplDatum)
    ensures
        datum@.polarity == datum.polarity,
        datum@.impl_type == datum.impl_type,
        datum@.associated_ty_value_ids == datum.associated_ty_value_ids@,
        datum@.binders.binders.len() == datum.binders.binders@.len(),
        forall|i: int|
            0 <= i < datum.binders.binders@.len() ==> #[trigger] datum@.binders.binders[i]
                == datum.binders.binders@[i]@,
        datum@.binders.value.trait_ref == datum.binders.value.trait_ref@,
        datum@.binders.value.where_clauses.len() == datum.binders.value.where_clauses@.len(),
        forall|i: int|
            0 <= i < datum.binders.value.where_clauses@.len()
                ==> #[trigger] datum@.binders.value.where_clauses[i]
                == datum.binders.value.where_clauses@[i]@,
{
}

/// The view of an associated type's value has all of it.
pub proof fn view_of_associated_ty_value(value: AssociatedTyValue)
    ensures
        value@.impl_id == value.impl_id,
        value@.associated_ty_id == value.associated_ty_id,
        value@.value.binders.len() == value.value.binders@.len(),
        forall|i: int|
            0 <= i < value.value.binders@.len() ==> #[trigger] value@.value.binders[i]
                == value.value.binders@[i]@,
        value@.value.value == value.value.value.ty@,
{
}

/// The view of a function's datum has all of it.
pub proof fn view_of_fn_def_datum(datum: FnDefDatum)
    ensures
        datum@.id == datum.id,
        datum@.sig == datum.sig,
        datum@.binders.binders.len() == datum.binders.binders@.len(),
        forall|i: int|
            0 <= i < datum.binders.binders@.len() ==> #[trigger] datum@.binders.binders[i]
                == datum.binders.binders@[i]@,
        datum@.binders.value.where_clauses.len() == datum.binders.value.where_clauses@.len(),
        forall|i: int|
            0 <= i < datum.binders.value.where_clauses@.len()
                ==> #[trigger] datum@.binders.value.where_clauses[i]
                == datum.binders.value.where_clauses@[i]@,
        ({
            let io = datum.binders.value.inputs_and_output;
            let seen = datum@.binders.value.inputs_and_output;
            &&& seen == io@
            &&& seen.binders.len() == io.binders@.len()
            &&& forall|i: int|
                0 <= i < io.binders@.len() ==> #[trigger] seen.binders[i] == io.binders@[i]@
            &&& seen.value.argument_types.len() == io.value.argument_types@.len()
            &&& forall|i: int|
                0 <= i < io.value.argument_types@.len()
                    ==> #[trigger] seen.value.argument_types[i] == io.value.argument_types@[i]@
            &&& seen.value.return_type == io.value.return_type@
        }),
{
}

/// The view of an opaque type's datum has all of it.
pub proof fn view_of_opaque_ty_datum(datum: OpaqueTyDatum)
    ensures
        datum@.opaque_ty_id == datum.opaque_ty_id,
        datum@.bound.binders.len() == datum.bound.binders@.len(),
        forall|i: int|
            0 <= i < datum.bound.binders@.len() ==> #[trigger] datum@.bound.binders[i]
                == datum.bound.binders@[i]@,
        ({
            let bounds = datum.bound.value.bounds;
            let seen = datum@.bound.value.bounds;
            &&& seen.binders.len() == bounds.binders@.len()
            &&& forall|i: int|
                0 <= i < bounds.binders@.len() ==> #[trigger] seen.binders[i]
                    == bounds.binders@[i]@
            &&& seen.value.len() == bounds.value@.len()
            &&& forall|i: int|
                0 <= i < bounds.value@.len() ==> #[trigger] seen.value[i] == bounds.value@[i]@
        }),
        ({
            let clauses = datum.bound.value.where_clauses;
            let seen = datum@.bound.value.where_clauses;
            &&& seen.binders.len() == clauses.binders@.len()
            &&& forall|i: int|
                0 <= i < clauses.binders@.len() ==> #[trigger] seen.binders[i]
                    == clauses.binders@[i]@
            &&& seen.value.len() == clauses.value@.len()
            &&& forall|i: int|
                0 <= i < clauses.value@.len() ==> #[trigger] seen.value[i] == clauses.value@[i]@
        }),
{
}

} // verus!
