//! Moving terms through binders.
//!
//! A term that is put under more binders has its free variables renumbered. Variables that are
//! bound inside the term keep their numbers.

use vstd::prelude::*;

use crate::bound_var::{BoundVar, DebruijnIndex};
use crate::ir::{
    arg_view, args_view, clause_view, clauses_view, clone_kinds, AliasTy, AliasTyView, Binders,
    BindersView, Const, ConstValue, ConstView, GenericArg, GenericArgView, Lifetime,
    QuantifiedWhereClause, QuantifiedWhereClauseView, TraitRef, TraitRefView, Ty, TyView,
    WhereClause, WhereClauseView,
};

verus! {

/// Whether `var`, which stands under `outer` binders of the term that is moved, has a number
/// after a move in through `by` binders (out, where `by` is negative): one that fits, and that
/// does not refer to a binder that is left behind.
pub open spec fn can_shift_var(var: BoundVar, by: int, outer: int) -> bool {
    var.debruijn.depth >= outer ==> outer <= var.debruijn.depth + by <= u32::MAX
}

/// `var`, which stands under `outer` binders of the term that is moved, after the move.
pub open spec fn shifted_var(var: BoundVar, by: int, outer: int) -> BoundVar {
    if var.debruijn.depth < outer {
        var
    } else {
        BoundVar {
            debruijn: DebruijnIndex { depth: (var.debruijn.depth + by) as u32 },
            index: var.index,
        }
    }
}

pub open spec fn can_shift_lifetime(lifetime: Lifetime, by: int, outer: int) -> bool {
    lifetime matches Lifetime::BoundVar(var) ==> can_shift_var(var, by, outer)
}

pub open spec fn shifted_lifetime(lifetime: Lifetime, by: int, outer: int) -> Lifetime {
    match lifetime {
        Lifetime::BoundVar(var) => Lifetime::BoundVar(shifted_var(var, by, outer)),
        _ => lifetime,
    }
}

/// The type of a constant that is a variable has no free variables, and is not looked at.
pub open spec fn can_shift_const(constant: ConstView, by: int, outer: int) -> bool
    decreases constant,
{
    match constant.value {
        ConstValue::BoundVar(var) => can_shift_var(var, by, outer),
        _ => can_shift_ty(constant.ty, by, outer),
    }
}

pub open spec fn shifted_const(constant: ConstView, by: int, outer: int) -> ConstView
    decreases constant,
{
    match constant.value {
        ConstValue::BoundVar(var) => ConstView {
            ty: constant.ty,
            value: ConstValue::BoundVar(shifted_var(var, by, outer)),
        },
        _ => ConstView { ty: shifted_ty(constant.ty, by, outer), value: constant.value },
    }
}

/// Whether every free variable of `ty` can be shifted, and the binders in it can be counted.
pub open spec fn can_shift_ty(ty: TyView, by: int, outer: int) -> bool
    decreases ty,
{
    match ty {
        TyView::BoundVar(var) => can_shift_var(var, by, outer),
        TyView::Apply { name, args } => can_shift_args(args, by, outer),
        TyView::Function { num_binders, sig, args } => {
            &&& outer < u32::MAX
            &&& can_shift_args(args, by, outer + 1)
        },
        TyView::Dyn { binders, bounds, lifetime } => {
            &&& outer < u32::MAX
            &&& can_shift_clauses(bounds, by, outer + 1)
            &&& can_shift_lifetime(lifetime, by, outer)
        },
    }
}

/// `ty` with each free variable shifted; `outer` counts the binders around `ty` that belong to
/// the term that is moved.
pub open spec fn shifted_ty(ty: TyView, by: int, outer: int) -> TyView
    decreases ty,
{
    match ty {
        TyView::BoundVar(var) => TyView::BoundVar(shifted_var(var, by, outer)),
        TyView::Apply { name, args } => TyView::Apply { name, args: shifted_args(args, by, outer) },
        TyView::Function { num_binders, sig, args } => TyView::Function {
            num_binders,
            sig,
            args: shifted_args(args, by, outer + 1),
        },
        TyView::Dyn { binders, bounds, lifetime } => TyView::Dyn {
            binders,
            bounds: shifted_clauses(bounds, by, outer + 1),
            lifetime: shifted_lifetime(lifetime, by, outer),
        },
    }
}

pub open spec fn can_shift_arg(arg: GenericArgView, by: int, outer: int) -> bool
    decreases arg,
{
    match arg {
        GenericArgView::Ty(ty) => can_shift_ty(ty, by, outer),
        GenericArgView::Lifetime(lifetime) => can_shift_lifetime(lifetime, by, outer),
        GenericArgView::Const(constant) => can_shift_const(constant, by, outer),
    }
}

pub open spec fn shifted_arg(arg: GenericArgView, by: int, outer: int) -> GenericArgView
    decreases arg,
{
    match arg {
        GenericArgView::Ty(ty) => GenericArgView::Ty(shifted_ty(ty, by, outer)),
        GenericArgView::Lifetime(lifetime) => GenericArgView::Lifetime(
            shifted_lifetime(lifetime, by, outer),
        ),
        GenericArgView::Const(constant) => GenericArgView::Const(
            shifted_const(constant, by, outer),
        ),
    }
}

pub open spec fn can_shift_args(args: Seq<GenericArgView>, by: int, outer: int) -> bool
    decreases args,
{
    forall|i: int| 0 <= i < args.len() ==> can_shift_arg(#[trigger] args[i], by, outer)
}

pub open spec fn shifted_args(args: Seq<GenericArgView>, by: int, outer: int) -> Seq<GenericArgView>
    decreases args,
{
    Seq::new(
        args.len(),
        |i: int|
            if 0 <= i < args.len() {
                shifted_arg(args[i], by, outer)
            } else {
                arbitrary()
            },
    )
}

pub open spec fn can_shift_alias(alias: AliasTyView, by: int, outer: int) -> bool
    decreases alias,
{
    match alias {
        AliasTyView::Projection { associated_ty_id, substitution } => can_shift_args(
            substitution,
            by,
            outer,
        ),
        AliasTyView::Opaque { opaque_ty_id, substitution } => can_shift_args(
            substitution,
            by,
            outer,
        ),
    }
}

pub open spec fn shifted_alias(alias: AliasTyView, by: int, outer: int) -> AliasTyView
    decreases alias,
{
    match alias {
        AliasTyView::Projection { associated_ty_id, substitution } => AliasTyView::Projection {
            associated_ty_id,
            substitution: shifted_args(substitution, by, outer),
        },
        AliasTyView::Opaque { opaque_ty_id, substitution } => AliasTyView::Opaque {
            opaque_ty_id,
            substitution: shifted_args(substitution, by, outer),
        },
    }
}

pub open spec fn can_shift_where(clause: WhereClauseView, by: int, outer: int) -> bool
    decreases clause,
{
    match clause {
        WhereClauseView::Implemented(trait_ref) => can_shift_args(
            trait_ref.substitution,
            by,
            outer,
        ),
        WhereClauseView::AliasEq { alias, ty } => {
            &&& can_shift_alias(alias, by, outer)
            &&& can_shift_ty(ty, by, outer)
        },
        WhereClauseView::LifetimeOutlives { a, b } => {
            &&& can_shift_lifetime(a, by, outer)
            &&& can_shift_lifetime(b, by, outer)
        },
        WhereClauseView::TypeOutlives { ty, lifetime } => {
            &&& can_shift_ty(ty, by, outer)
            &&& can_shift_lifetime(lifetime, by, outer)
        },
    }
}

pub open spec fn shifted_where(clause: WhereClauseView, by: int, outer: int) -> WhereClauseView
    decreases clause,
{
    match clause {
        WhereClauseView::Implemented(trait_ref) => WhereClauseView::Implemented(
            TraitRefView {
                trait_id: trait_ref.trait_id,
                substitution: shifted_args(trait_ref.substitution, by, outer),
            },
        ),
        WhereClauseView::AliasEq { alias, ty } => WhereClauseView::AliasEq {
            alias: shifted_alias(alias, by, outer),
            ty: shifted_ty(ty, by, outer),
        },
        WhereClauseView::LifetimeOutlives { a, b } => WhereClauseView::LifetimeOutlives {
            a: shifted_lifetime(a, by, outer),
            b: shifted_lifetime(b, by, outer),
        },
        WhereClauseView::TypeOutlives { ty, lifetime } => WhereClauseView::TypeOutlives {
            ty: shifted_ty(ty, by, outer),
            lifetime: shifted_lifetime(lifetime, by, outer),
        },
    }
}

/// A quantified clause is a binder with the clause inside.
pub open spec fn can_shift_clause(
    clause: QuantifiedWhereClauseView,
    by: int,
    outer: int,
) -> bool
    decreases clause,
{
    &&& outer < u32::MAX
    &&& can_shift_where(clause.value, by, outer + 1)
}

pub open spec fn shifted_clause(
    clause: QuantifiedWhereClauseView,
    by: int,
    outer: int,
) -> QuantifiedWhereClauseView
    decreases clause,
{
    BindersView { binders: clause.binders, value: shifted_where(clause.value, by, outer + 1) }
}

pub open spec fn can_shift_clauses(
    clauses: Seq<QuantifiedWhereClauseView>,
    by: int,
    outer: int,
) -> bool
    decreases clauses,
{
    forall|i: int| 0 <= i < clauses.len() ==> can_shift_clause(#[trigger] clauses[i], by, outer)
}

pub open spec fn shifted_clauses(
    clauses: Seq<QuantifiedWhereClauseView>,
    by: int,
    outer: int,
) -> Seq<QuantifiedWhereClauseView>
    decreases clauses,
{
    Seq::new(
        clauses.len(),
        |i: int|
            if 0 <= i < clauses.len() {
                shifted_clause(clauses[i], by, outer)
            } else {
                arbitrary()
            },
    )
}

/// Takes a variable that is valid at `source_binder` to the innermost binder.
pub fn shift_var(
    var: BoundVar,
    source_binder: DebruijnIndex,
    outer_binder: DebruijnIndex,
) -> (shifted: BoundVar)
    requires
        can_shift_var(var, source_binder.depth as int, outer_binder.depth as int),
    ensures
        shifted == shifted_var(var, source_binder.depth as int, outer_binder.depth as int),
{
    match var.shifted_out_to(outer_binder) {
        Some(free) => free.shifted_in_from(source_binder).shifted_in_from(outer_binder),
        None => var,
    }
}

pub fn shift_lifetime(
    lifetime: Lifetime,
    source_binder: DebruijnIndex,
    outer_binder: DebruijnIndex,
) -> (shifted: Lifetime)
    requires
        can_shift_lifetime(lifetime, source_binder.depth as int, outer_binder.depth as int),
    ensures
        shifted == shifted_lifetime(
            lifetime,
            source_binder.depth as int,
            outer_binder.depth as int,
        ),
{
    match lifetime {
        Lifetime::BoundVar(var) => Lifetime::BoundVar(shift_var(var, source_binder, outer_binder)),
        _ => lifetime,
    }
}

pub fn shift_const(
    constant: &Const,
    source_binder: DebruijnIndex,
    outer_binder: DebruijnIndex,
) -> (shifted: Const)
    requires
        can_shift_const(constant@, source_binder.depth as int, outer_binder.depth as int),
    ensures
        shifted@ == shifted_const(
            constant@,
            source_binder.depth as int,
            outer_binder.depth as int,
        ),
    decreases constant,
{
    match constant.value {
        ConstValue::BoundVar(var) => Const {
            ty: constant.ty.clone(),
            value: ConstValue::BoundVar(shift_var(var, source_binder, outer_binder)),
        },
        _ => Const {
            ty: shift_ty(&constant.ty, source_binder, outer_binder),
            value: constant.value,
        },
    }
}

pub fn shift_ty(ty: &Ty, source_binder: DebruijnIndex, outer_binder: DebruijnIndex) -> (shifted: Ty)
    requires
        can_shift_ty(ty@, source_binder.depth as int, outer_binder.depth as int),
    ensures
        shifted@ == shifted_ty(ty@, source_binder.depth as int, outer_binder.depth as int),
    decreases ty,
{
    match ty {
        Ty::BoundVar(var) => Ty::BoundVar(shift_var(*var, source_binder, outer_binder)),
        Ty::Apply { name, args } => Ty::Apply {
            name: *name,
            args: shift_args(args, source_binder, outer_binder),
        },
        Ty::Function { num_binders, sig, args } => Ty::Function {
            num_binders: *num_binders,
            sig: *sig,
            args: shift_args(args, source_binder, outer_binder.shifted_in()),
        },
        Ty::Dyn { binders, bounds, lifetime } => Ty::Dyn {
            binders: clone_kinds(binders),
            bounds: shift_clauses(bounds, source_binder, outer_binder.shifted_in()),
            lifetime: shift_lifetime(*lifetime, source_binder, outer_binder),
        },
    }
}

pub fn shift_arg(
    arg: &GenericArg,
    source_binder: DebruijnIndex,
    outer_binder: DebruijnIndex,
) -> (shifted: GenericArg)
    requires
        can_shift_arg(arg@, source_binder.depth as int, outer_binder.depth as int),
    ensures
        shifted@ == shifted_arg(arg@, source_binder.depth as int, outer_binder.depth as int),
    decreases arg,
{
    match arg {
        GenericArg::Ty(ty) => GenericArg::Ty(shift_ty(ty, source_binder, outer_binder)),
        GenericArg::Lifetime(lifetime) => GenericArg::Lifetime(
            shift_lifetime(*lifetime, source_binder, outer_binder),
        ),
        GenericArg::Const(constant) => GenericArg::Const(
            shift_const(constant, source_binder, outer_binder),
        ),
    }
}

pub fn shift_args(
    args: &Vec<GenericArg>,
    source_binder: DebruijnIndex,
    outer_binder: DebruijnIndex,
) -> (shifted: Vec<GenericArg>)
    requires
        can_shift_args(args_view(args@), source_binder.depth as int, outer_binder.depth as int),
    ensures
        args_view(shifted@) == shifted_args(
            args_view(args@),
            source_binder.depth as int,
            outer_binder.depth as int,
        ),
    decreases args,
{
    let mut shifted: Vec<GenericArg> = Vec::new();
    for i in 0..args.len()
        invariant
            can_shift_args(args_view(args@), source_binder.depth as int, outer_binder.depth as int),
            shifted@.len() == i,
            forall|j: int|
                0 <= j < i ==> arg_view(#[trigger] shifted@[j]) == shifted_arg(
                    arg_view(args@[j]),
                    source_binder.depth as int,
                    outer_binder.depth as int,
                ),
    {
        assert(args_view(args@)[i as int] == arg_view(args@[i as int]));
        shifted.push(shift_arg(&args[i], source_binder, outer_binder));
    }
    shifted
}

pub fn shift_where(
    clause: &WhereClause,
    source_binder: DebruijnIndex,
    outer_binder: DebruijnIndex,
) -> (shifted: WhereClause)
    requires
        can_shift_where(clause@, source_binder.depth as int, outer_binder.depth as int),
    ensures
        shifted@ == shifted_where(clause@, source_binder.depth as int, outer_binder.depth as int),
    decreases clause,
{
    match clause {
        WhereClause::Implemented(trait_ref) => WhereClause::Implemented(
            TraitRef {
                trait_id: trait_ref.trait_id,
                substitution: shift_args(&trait_ref.substitution, source_binder, outer_binder),
            },
        ),
        WhereClause::AliasEq { alias, ty } => WhereClause::AliasEq {
            alias: match alias {
                AliasTy::Projection { associated_ty_id, substitution } => AliasTy::Projection {
                    associated_ty_id: *associated_ty_id,
                    substitution: shift_args(substitution, source_binder, outer_binder),
                },
                AliasTy::Opaque { opaque_ty_id, substitution } => AliasTy::Opaque {
                    opaque_ty_id: *opaque_ty_id,
                    substitution: shift_args(substitution, source_binder, outer_binder),
                },
            },
            ty: shift_ty(ty, source_binder, outer_binder),
        },
        WhereClause::LifetimeOutlives { a, b } => WhereClause::LifetimeOutlives {
            a: shift_lifetime(*a, source_binder, outer_binder),
            b: shift_lifetime(*b, source_binder, outer_binder),
        },
        WhereClause::TypeOutlives { ty, lifetime } => WhereClause::TypeOutlives {
            ty: shift_ty(ty, source_binder, outer_binder),
            lifetime: shift_lifetime(*lifetime, source_binder, outer_binder),
        },
    }
}

pub fn shift_clauses(
    clauses: &Vec<QuantifiedWhereClause>,
    source_binder: DebruijnIndex,
    outer_binder: DebruijnIndex,
) -> (shifted: Vec<QuantifiedWhereClause>)
    requires
        can_shift_clauses(
            clauses_view(clauses@),
            source_binder.depth as int,
            outer_binder.depth as int,
        ),
    ensures
        clauses_view(shifted@) == shifted_clauses(
            clauses_view(clauses@),
            source_binder.depth as int,
            outer_binder.depth as int,
        ),
    decreases clauses,
{
    let mut shifted: Vec<QuantifiedWhereClause> = Vec::new();
    for i in 0..clauses.len()
        invariant
            can_shift_clauses(
                clauses_view(clauses@),
                source_binder.depth as int,
                outer_binder.depth as int,
            ),
            shifted@.len() == i,
            forall|j: int|
                0 <= j < i ==> clause_view(#[trigger] shifted@[j]) == shifted_clause(
                    clause_view(clauses@[j]),
                    source_binder.depth as int,
                    outer_binder.depth as int,
                ),
    {
        assert(clauses_view(clauses@)[i as int] == clause_view(clauses@[i as int]));
        shifted.push(
            Binders {
                binders: clone_kinds(&clauses[i].binders),
                value: shift_where(&clauses[i].value, source_binder, outer_binder.shifted_in()),
            },
        );
    }
    shifted
}

/// Whether a variable has a number after the move.
pub fn var_can_shift(
    var: BoundVar,
    source_binder: DebruijnIndex,
    outer_binder: DebruijnIndex,
) -> (can: bool)
    ensures
        can == can_shift_var(var, source_binder.depth as int, outer_binder.depth as int),
{
    var.debruijn.depth < outer_binder.depth || var.debruijn.depth <= u32::MAX - source_binder.depth
}

pub fn lifetime_can_shift(
    lifetime: Lifetime,
    source_binder: DebruijnIndex,
    outer_binder: DebruijnIndex,
) -> (can: bool)
    ensures
        can == can_shift_lifetime(lifetime, source_binder.depth as int, outer_binder.depth as int),
{
    match lifetime {
        Lifetime::BoundVar(var) => var_can_shift(var, source_binder, outer_binder),
        _ => true,
    }
}

pub fn const_can_shift(
    constant: &Const,
    source_binder: DebruijnIndex,
    outer_binder: DebruijnIndex,
) -> (can: bool)
    ensures
        can == can_shift_const(constant@, source_binder.depth as int, outer_binder.depth as int),
    decreases constant,
{
    match constant.value {
        ConstValue::BoundVar(var) => var_can_shift(var, source_binder, outer_binder),
        _ => ty_can_shift(&constant.ty, source_binder, outer_binder),
    }
}

/// Whether every free variable of a type has a number after the move.
pub fn ty_can_shift(ty: &Ty, source_binder: DebruijnIndex, outer_binder: DebruijnIndex) -> (can:
    bool)
    ensures
        can == can_shift_ty(ty@, source_binder.depth as int, outer_binder.depth as int),
    decreases ty,
{
    match ty {
        Ty::BoundVar(var) => var_can_shift(*var, source_binder, outer_binder),
        Ty::Apply { name, args } => args_can_shift(args, source_binder, outer_binder),
        Ty::Function { num_binders, sig, args } => outer_binder.depth < u32::MAX
            && args_can_shift(args, source_binder, outer_binder.shifted_in()),
        Ty::Dyn { binders, bounds, lifetime } => outer_binder.depth < u32::MAX && clauses_can_shift(
            bounds,
            source_binder,
            outer_binder.shifted_in(),
        ) && lifetime_can_shift(*lifetime, source_binder, outer_binder),
    }
}

pub fn arg_can_shift(
    arg: &GenericArg,
    source_binder: DebruijnIndex,
    outer_binder: DebruijnIndex,
) -> (can: bool)
    ensures
        can == can_shift_arg(arg@, source_binder.depth as int, outer_binder.depth as int),
    decreases arg,
{
    match arg {
        GenericArg::Ty(ty) => ty_can_shift(ty, source_binder, outer_binder),
        GenericArg::Lifetime(lifetime) => lifetime_can_shift(
            *lifetime,
            source_binder,
            outer_binder,
        ),
        GenericArg::Const(constant) => const_can_shift(constant, source_binder, outer_binder),
    }
}

pub fn args_can_shift(
    args: &Vec<GenericArg>,
    source_binder: DebruijnIndex,
    outer_binder: DebruijnIndex,
) -> (can: bool)
    ensures
        can == can_shift_args(
            args_view(args@),
            source_binder.depth as int,
            outer_binder.depth as int,
        ),
    decreases args,
{
    for i in 0..args.len()
        invariant
            forall|j: int|
                0 <= j < i ==> can_shift_arg(
                    #[trigger] args_view(args@)[j],
                    source_binder.depth as int,
                    outer_binder.depth as int,
                ),
    {
        assert(args_view(args@)[i as int] == arg_view(args@[i as int]));
        if !arg_can_shift(&args[i], source_binder, outer_binder) {
            return false;
        }
    }
    true
}

pub fn where_can_shift(
    clause: &WhereClause,
    source_binder: DebruijnIndex,
    outer_binder: DebruijnIndex,
) -> (can: bool)
    ensures
        can == can_shift_where(clause@, source_binder.depth as int, outer_binder.depth as int),
    decreases clause,
{
    match clause {
        WhereClause::Implemented(trait_ref) => args_can_shift(
            &trait_ref.substitution,
            source_binder,
            outer_binder,
        ),
        WhereClause::AliasEq { alias, ty } => {
            let substitution = match alias {
                AliasTy::Projection { associated_ty_id, substitution } => substitution,
                AliasTy::Opaque { opaque_ty_id, substitution } => substitution,
            };
            args_can_shift(substitution, source_binder, outer_binder) && ty_can_shift(
                ty,
                source_binder,
                outer_binder,
            )
        },
        WhereClause::LifetimeOutlives { a, b } => lifetime_can_shift(
            *a,
            source_binder,
            outer_binder,
        ) && lifetime_can_shift(*b, source_binder, outer_binder),
        WhereClause::TypeOutlives { ty, lifetime } => ty_can_shift(
            ty,
            source_binder,
            outer_binder,
        ) && lifetime_can_shift(*lifetime, source_binder, outer_binder),
    }
}

pub fn clauses_can_shift(
    clauses: &Vec<QuantifiedWhereClause>,
    source_binder: DebruijnIndex,
    outer_binder: DebruijnIndex,
) -> (can: bool)
    ensures
        can == can_shift_clauses(
            clauses_view(clauses@),
            source_binder.depth as int,
            outer_binder.depth as int,
        ),
    decreases clauses,
{
    for i in 0..clauses.len()
        invariant
            forall|j: int|
                0 <= j < i ==> can_shift_clause(
                    #[trigger] clauses_view(clauses@)[j],
                    source_binder.depth as int,
                    outer_binder.depth as int,
                ),
    {
        assert(clauses_view(clauses@)[i as int] == clause_view(clauses@[i as int]));
        if outer_binder.depth == u32::MAX || !where_can_shift(
            &clauses[i].value,
            source_binder,
            outer_binder.shifted_in(),
        ) {
            return false;
        }
    }
    true
}

impl Ty {
    /// Whether this type can be written inside one more binder: all numbers fit.
    pub fn can_shift_in(&self) -> (can: bool)
        ensures
            can == can_shift_ty(self@, 1, 0),
    {
        ty_can_shift(self, DebruijnIndex::one(), DebruijnIndex::innermost())
    }

    /// This type, as it is written inside one more binder.
    pub fn shifted_in(&self) -> (shifted: Ty)
        requires
            can_shift_ty(self@, 1, 0),
        ensures
            shifted@ == shifted_ty(self@, 1, 0),
    {
        shift_ty(self, DebruijnIndex::one(), DebruijnIndex::innermost())
    }
}

impl WhereClause {
    /// This clause, as it is written inside one more binder.
    pub fn shifted_in(&self) -> (shifted: WhereClause)
        requires
            can_shift_where(self@, 1, 0),
        ensures
            shifted@ == shifted_where(self@, 1, 0),
    {
        shift_where(self, DebruijnIndex::one(), DebruijnIndex::innermost())
    }
}

} // verus!
