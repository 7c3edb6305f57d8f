//! The variables of a term that belong to binders outside it, and where a move takes them.

use vstd::prelude::*;

use crate::bound_var::BoundVar;
use crate::ir::{
    AliasTyView, ConstValue, ConstView, GenericArgView, Lifetime, QuantifiedWhereClauseView,
    TyView, WhereClauseView,
};
use crate::shift::{
    can_shift_arg, can_shift_args, can_shift_clause, can_shift_clauses, can_shift_ty,
    can_shift_where, shifted_arg, shifted_args, shifted_clause, shifted_clauses, shifted_ty,
    shifted_where,
};
use crate::shift_laws::{shift_in_of_ty_is_undone, shift_in_of_where_is_undone};

verus! {

/// Whether `var`, under `outer` binders of a term, is the `index`-th variable of the binder that
/// stands `depth` binders outside the term.
pub open spec fn is_free_var(var: BoundVar, depth: int, index: usize, outer: int) -> bool {
    &&& var.debruijn.depth == depth + outer
    &&& var.index == index
}

pub open spec fn free_in_lifetime(
    lifetime: Lifetime,
    depth: int,
    index: usize,
    outer: int,
) -> bool {
    lifetime matches Lifetime::BoundVar(var) && is_free_var(var, depth, index, outer)
}

/// The type of a constant that is a variable is closed, and is not looked at.
pub open spec fn free_in_const(constant: ConstView, depth: int, index: usize, outer: int) -> bool
    decreases constant,
{
    match constant.value {
        ConstValue::BoundVar(var) => is_free_var(var, depth, index, outer),
        _ => free_in_ty(constant.ty, depth, index, outer),
    }
}

/// Whether the variable occurs in `ty`.
pub open spec fn free_in_ty(ty: TyView, depth: int, index: usize, outer: int) -> bool
    decreases ty,
{
    match ty {
        TyView::BoundVar(var) => is_free_var(var, depth, index, outer),
        TyView::Apply { name, args } => free_in_args(args, depth, index, outer),
        TyView::Function { num_binders, sig, args } => free_in_args(args, depth, index, outer + 1),
        TyView::Dyn { binders, bounds, lifetime } => {
            ||| free_in_clauses(bounds, depth, index, outer + 1)
            ||| free_in_lifetime(lifetime, depth, index, outer)
        },
    }
}

pub open spec fn free_in_arg(arg: GenericArgView, depth: int, index: usize, outer: int) -> bool
    decreases arg,
{
    match arg {
        GenericArgView::Ty(ty) => free_in_ty(ty, depth, index, outer),
        GenericArgView::Lifetime(lifetime) => free_in_lifetime(lifetime, depth, index, outer),
        GenericArgView::Const(constant) => free_in_const(constant, depth, index, outer),
    }
}

pub open spec fn free_in_args(
    args: Seq<GenericArgView>,
    depth: int,
    index: usize,
    outer: int,
) -> bool
    decreases args,
{
    exists|i: int| 0 <= i < args.len() && free_in_arg(#[trigger] args[i], depth, index, outer)
}

/// Whether the variable occurs in `clause`.
pub open spec fn free_in_where(
    clause: WhereClauseView,
    depth: int,
    index: usize,
    outer: int,
) -> bool
    decreases clause,
{
    match clause {
        WhereClauseView::Implemented(trait_ref) => free_in_args(
            trait_ref.substitution,
            depth,
            index,
            outer,
        ),
        WhereClauseView::AliasEq { alias, ty } => {
            ||| match alias {
                AliasTyView::Projection { associated_ty_id, substitution } => free_in_args(
                    substitution,
                    depth,
                    index,
                    outer,
                ),
                AliasTyView::Opaque { opaque_ty_id, substitution } => free_in_args(
                    substitution,
                    depth,
                    index,
                    outer,
                ),
            }
            ||| free_in_ty(ty, depth, index, outer)
        },
        WhereClauseView::LifetimeOutlives { a, b } => {
            ||| free_in_lifetime(a, depth, index, outer)
            ||| free_in_lifetime(b, depth, index, outer)
        },
        WhereClauseView::TypeOutlives { ty, lifetime } => {
            ||| free_in_ty(ty, depth, index, outer)
            ||| free_in_lifetime(lifetime, depth, index, outer)
        },
    }
}

pub open spec fn free_in_clauses(
    clauses: Seq<QuantifiedWhereClauseView>,
    depth: int,
    index: usize,
    outer: int,
) -> bool
    decreases clauses,
{
    exists|i: int|
        0 <= i < clauses.len() && free_in_where(
            (#[trigger] clauses[i]).value,
            depth,
            index,
            outer + 1,
        )
}

/// A move takes each free variable of a type to the binder that is as many binders further out,
/// at the same position in it, and makes up none.
pub proof fn free_variables_of_ty_move(ty: TyView, by: int, outer: int, depth: int, index: usize)
    requires
        0 <= outer,
        0 <= depth,
        0 <= depth + by,
        can_shift_ty(ty, by, outer),
    ensures
        free_in_ty(shifted_ty(ty, by, outer), depth + by, index, outer) <==> free_in_ty(
            ty,
            depth,
            index,
            outer,
        ),
    decreases ty,
{
    match ty {
        TyView::BoundVar(var) => {},
        TyView::Apply { name, args } => {
            free_variables_of_args_move(args, by, outer, depth, index);
        },
        TyView::Function { num_binders, sig, args } => {
            free_variables_of_args_move(args, by, outer + 1, depth, index);
        },
        TyView::Dyn { binders, bounds, lifetime } => {
            free_variables_of_clauses_move(bounds, by, outer + 1, depth, index);
        },
    }
}

proof fn free_variables_of_arg_move(
    arg: GenericArgView,
    by: int,
    outer: int,
    depth: int,
    index: usize,
)
    requires
        0 <= outer,
        0 <= depth,
        0 <= depth + by,
        can_shift_arg(arg, by, outer),
    ensures
        free_in_arg(shifted_arg(arg, by, outer), depth + by, index, outer) <==> free_in_arg(
            arg,
            depth,
            index,
            outer,
        ),
    decreases arg,
{
    match arg {
        GenericArgView::Ty(ty) => {
            free_variables_of_ty_move(ty, by, outer, depth, index);
        },
        GenericArgView::Lifetime(lifetime) => {},
        GenericArgView::Const(constant) => {
            if !(constant.value is BoundVar) {
                free_variables_of_ty_move(constant.ty, by, outer, depth, index);
            }
        },
    }
}

proof fn free_variables_of_args_move(
    args: Seq<GenericArgView>,
    by: int,
    outer: int,
    depth: int,
    index: usize,
)
    requires
        0 <= outer,
        0 <= depth,
        0 <= depth + by,
        can_shift_args(args, by, outer),
    ensures
        free_in_args(shifted_args(args, by, outer), depth + by, index, outer) <==> free_in_args(
            args,
            depth,
            index,
            outer,
        ),
    decreases args,
{
    let moved = shifted_args(args, by, outer);
    assert forall|i: int| 0 <= i < args.len() implies free_in_arg(
        #[trigger] moved[i],
        depth + by,
        index,
        outer,
    ) == free_in_arg(args[i], depth, index, outer) by {
        assert(can_shift_arg(args[i], by, outer));
        free_variables_of_arg_move(args[i], by, outer, depth, index);
    }
    if free_in_args(args, depth, index, outer) {
        let i = choose|i: int|
            0 <= i < args.len() && free_in_arg(#[trigger] args[i], depth, index, outer);
        assert(free_in_arg(moved[i], depth + by, index, outer));
    }
}

/// A move takes each free variable of a where clause to the binder that is as many binders further
/// out, at the same position in it, and makes up none.
pub proof fn free_variables_of_where_move(
    clause: WhereClauseView,
    by: int,
    outer: int,
    depth: int,
    index: usize,
)
    requires
        0 <= outer,
        0 <= depth,
        0 <= depth + by,
        can_shift_where(clause, by, outer),
    ensures
        free_in_where(shifted_where(clause, by, outer), depth + by, index, outer)
            <==> free_in_where(clause, depth, index, outer),
    decreases clause,
{
    match clause {
        WhereClauseView::Implemented(trait_ref) => {
            free_variables_of_args_move(trait_ref.substitution, by, outer, depth, index);
        },
        WhereClauseView::AliasEq { alias, ty } => {
            match alias {
                AliasTyView::Projection { associated_ty_id, substitution } => {
                    free_variables_of_args_move(substitution, by, outer, depth, index);
                },
                AliasTyView::Opaque { opaque_ty_id, substitution } => {
                    free_variables_of_args_move(substitution, by, outer, depth, index);
                },
            }
            free_variables_of_ty_move(ty, by, outer, depth, index);
        },
        WhereClauseView::LifetimeOutlives { a, b } => {},
        WhereClauseView::TypeOutlives { ty, lifetime } => {
            free_variables_of_ty_move(ty, by, outer, depth, index);
        },
    }
}

proof fn free_variables_of_clauses_move(
    clauses: Seq<QuantifiedWhereClauseView>,
    by: int,
    outer: int,
    depth: int,
    index: usize,
)
    requires
        0 <= outer,
        0 <= depth,
        0 <= depth + by,
        can_shift_clauses(clauses, by, outer),
    ensures
        free_in_clauses(shifted_clauses(clauses, by, outer), depth + by, index, outer)
            <==> free_in_clauses(clauses, depth, index, outer),
    decreases clauses,
{
    let moved = shifted_clauses(clauses, by, outer);
    assert forall|i: int| 0 <= i < clauses.len() implies free_in_where(
        (#[trigger] moved[i]).value,
        depth + by,
        index,
        outer + 1,
    ) == free_in_where(clauses[i].value, depth, index, outer + 1) by {
        assert(can_shift_clause(clauses[i], by, outer));
        assert(moved[i] == shifted_clause(clauses[i], by, outer));
        free_variables_of_where_move(clauses[i].value, by, outer + 1, depth, index);
    }
    if free_in_clauses(clauses, depth, index, outer) {
        let i = choose|i: int|
            0 <= i < clauses.len() && free_in_where(
                (#[trigger] clauses[i]).value,
                depth,
                index,
                outer + 1,
            );
        assert(free_in_where(moved[i].value, depth + by, index, outer + 1));
    }
}

/// A type that can be moved out through some binders refers to no variable of theirs.
pub proof fn ty_that_can_leave_is_not_bound(
    ty: TyView,
    by: int,
    outer: int,
    depth: int,
    index: usize,
)
    requires
        0 <= outer,
        0 <= depth < by,
        can_shift_ty(ty, -by, outer),
    ensures
        !free_in_ty(ty, depth, index, outer),
    decreases ty,
{
    match ty {
        TyView::BoundVar(var) => {},
        TyView::Apply { name, args } => {
            args_that_can_leave_are_not_bound(args, by, outer, depth, index);
        },
        TyView::Function { num_binders, sig, args } => {
            args_that_can_leave_are_not_bound(args, by, outer + 1, depth, index);
        },
        TyView::Dyn { binders, bounds, lifetime } => {
            assert forall|i: int| 0 <= i < bounds.len() implies !free_in_where(
                (#[trigger] bounds[i]).value,
                depth,
                index,
                outer + 2,
            ) by {
                assert(can_shift_clause(bounds[i], -by, outer + 1));
                where_that_can_leave_is_not_bound(bounds[i].value, by, outer + 2, depth, index);
            }
            assert(!free_in_clauses(bounds, depth, index, outer + 1));
        },
    }
}

proof fn args_that_can_leave_are_not_bound(
    args: Seq<GenericArgView>,
    by: int,
    outer: int,
    depth: int,
    index: usize,
)
    requires
        0 <= outer,
        0 <= depth < by,
        can_shift_args(args, -by, outer),
    ensures
        !free_in_args(args, depth, index, outer),
    decreases args,
{
    assert forall|i: int| 0 <= i < args.len() implies !free_in_arg(
        #[trigger] args[i],
        depth,
        index,
        outer,
    ) by {
        assert(can_shift_arg(args[i], -by, outer));
        match args[i] {
            GenericArgView::Ty(ty) => {
                ty_that_can_leave_is_not_bound(ty, by, outer, depth, index);
            },
            GenericArgView::Lifetime(lifetime) => {},
            GenericArgView::Const(constant) => {
                if !(constant.value is BoundVar) {
                    ty_that_can_leave_is_not_bound(constant.ty, by, outer, depth, index);
                }
            },
        }
    }
}

/// A where clause that can be moved out through some binders refers to no variable of theirs.
pub proof fn where_that_can_leave_is_not_bound(
    clause: WhereClauseView,
    by: int,
    outer: int,
    depth: int,
    index: usize,
)
    requires
        0 <= outer,
        0 <= depth < by,
        can_shift_where(clause, -by, outer),
    ensures
        !free_in_where(clause, depth, index, outer),
    decreases clause,
{
    match clause {
        WhereClauseView::Implemented(trait_ref) => {
            args_that_can_leave_are_not_bound(trait_ref.substitution, by, outer, depth, index);
        },
        WhereClauseView::AliasEq { alias, ty } => {
            match alias {
                AliasTyView::Projection { associated_ty_id, substitution } => {
                    args_that_can_leave_are_not_bound(substitution, by, outer, depth, index);
                },
                AliasTyView::Opaque { opaque_ty_id, substitution } => {
                    args_that_can_leave_are_not_bound(substitution, by, outer, depth, index);
                },
            }
            ty_that_can_leave_is_not_bound(ty, by, outer, depth, index);
        },
        WhereClauseView::LifetimeOutlives { a, b } => {},
        WhereClauseView::TypeOutlives { ty, lifetime } => {
            ty_that_can_leave_is_not_bound(ty, by, outer, depth, index);
        },
    }
}

/// A type that is moved in through some binders refers to no variable of theirs: nothing is caught
/// on the way.
pub proof fn moved_ty_is_not_caught(ty: TyView, by: int, outer: int, depth: int, index: usize)
    requires
        0 <= outer,
        0 <= depth < by,
        can_shift_ty(ty, by, outer),
    ensures
        !free_in_ty(shifted_ty(ty, by, outer), depth, index, outer),
{
    shift_in_of_ty_is_undone(ty, by, outer);
    ty_that_can_leave_is_not_bound(shifted_ty(ty, by, outer), by, outer, depth, index);
}

/// A where clause that is moved in through some binders refers to no variable of theirs.
pub proof fn moved_where_is_not_caught(
    clause: WhereClauseView,
    by: int,
    outer: int,
    depth: int,
    index: usize,
)
    requires
        0 <= outer,
        0 <= depth < by,
        can_shift_where(clause, by, outer),
    ensures
        !free_in_where(shifted_where(clause, by, outer), depth, index, outer),
{
    shift_in_of_where_is_undone(clause, by, outer);
    where_that_can_leave_is_not_bound(shifted_where(clause, by, outer), by, outer, depth, index);
}

} // verus!
