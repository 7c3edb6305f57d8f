//! What holds of every move through binders.

use vstd::prelude::*;

use crate::bound_var::BoundVar;
use crate::ir::{
    AliasTyView, ConstValue, ConstView, GenericArgView, Lifetime, QuantifiedWhereClauseView, TyView,
    WhereClauseView,
};
use crate::shift::{
    can_shift_alias, can_shift_arg, can_shift_args, can_shift_clause, can_shift_clauses,
    can_shift_const, can_shift_lifetime, can_shift_ty, can_shift_var, can_shift_where,
    shifted_alias, shifted_arg, shifted_args, shifted_clause, shifted_clauses, shifted_const,
    shifted_lifetime, shifted_ty, shifted_var, shifted_where,
};

verus! {

/// Two moves of a type, one after the other, are one move through the sum of the binders.
pub proof fn shifts_of_ty_add_up(ty: TyView, a: int, b: int, outer: int)
    requires
        0 <= outer,
        can_shift_ty(ty, a, outer),
        can_shift_ty(shifted_ty(ty, a, outer), b, outer),
    ensures
        can_shift_ty(ty, a + b, outer),
        shifted_ty(shifted_ty(ty, a, outer), b, outer) == shifted_ty(ty, a + b, outer),
    decreases ty,
{
    match ty {
        TyView::BoundVar(var) => {},
        TyView::Apply { name, args } => {
            shifts_of_args_add_up(args, a, b, outer);
        },
        TyView::Function { num_binders, sig, args } => {
            shifts_of_args_add_up(args, a, b, outer + 1);
        },
        TyView::Dyn { binders, bounds, lifetime } => {
            shifts_of_clauses_add_up(bounds, a, b, outer + 1);
        },
    }
}

proof fn shifts_of_arg_add_up(arg: GenericArgView, a: int, b: int, outer: int)
    requires
        0 <= outer,
        can_shift_arg(arg, a, outer),
        can_shift_arg(shifted_arg(arg, a, outer), b, outer),
    ensures
        can_shift_arg(arg, a + b, outer),
        shifted_arg(shifted_arg(arg, a, outer), b, outer) == shifted_arg(arg, a + b, outer),
    decreases arg,
{
    match arg {
        GenericArgView::Ty(ty) => {
            shifts_of_ty_add_up(ty, a, b, outer);
        },
        GenericArgView::Lifetime(lifetime) => {},
        GenericArgView::Const(constant) => {
            if !(constant.value is BoundVar) {
                shifts_of_ty_add_up(constant.ty, a, b, outer);
            }
        },
    }
}

proof fn shifts_of_args_add_up(args: Seq<GenericArgView>, a: int, b: int, outer: int)
    requires
        0 <= outer,
        can_shift_args(args, a, outer),
        can_shift_args(shifted_args(args, a, outer), b, outer),
    ensures
        can_shift_args(args, a + b, outer),
        shifted_args(shifted_args(args, a, outer), b, outer) == shifted_args(args, a + b, outer),
    decreases args,
{
    let once = shifted_args(args, a, outer);
    assert forall|i: int| 0 <= i < args.len() implies can_shift_arg(#[trigger] args[i], a + b, outer)
        && shifted_args(once, b, outer)[i] == shifted_args(args, a + b, outer)[i] by {
        assert(once[i] == shifted_arg(args[i], a, outer));
        assert(can_shift_arg(once[i], b, outer));
        shifts_of_arg_add_up(args[i], a, b, outer);
    }
    assert(shifted_args(once, b, outer) =~= shifted_args(args, a + b, outer));
}

/// Two moves of a where clause, one after the other, are one move through the sum of the binders.
pub proof fn shifts_of_where_add_up(clause: WhereClauseView, a: int, b: int, outer: int)
    requires
        0 <= outer,
        can_shift_where(clause, a, outer),
        can_shift_where(shifted_where(clause, a, outer), b, outer),
    ensures
        can_shift_where(clause, a + b, outer),
        shifted_where(shifted_where(clause, a, outer), b, outer) == shifted_where(
            clause,
            a + b,
            outer,
        ),
    decreases clause,
{
    match clause {
        WhereClauseView::Implemented(trait_ref) => {
            shifts_of_args_add_up(trait_ref.substitution, a, b, outer);
        },
        WhereClauseView::AliasEq { alias, ty } => {
            match alias {
                AliasTyView::Projection { associated_ty_id, substitution } => {
                    shifts_of_args_add_up(substitution, a, b, outer);
                },
                AliasTyView::Opaque { opaque_ty_id, substitution } => {
                    shifts_of_args_add_up(substitution, a, b, outer);
                },
            }
            shifts_of_ty_add_up(ty, a, b, outer);
        },
        WhereClauseView::LifetimeOutlives { a: x, b: y } => {},
        WhereClauseView::TypeOutlives { ty, lifetime } => {
            shifts_of_ty_add_up(ty, a, b, outer);
        },
    }
}

proof fn shifts_of_clauses_add_up(
    clauses: Seq<QuantifiedWhereClauseView>,
    a: int,
    b: int,
    outer: int,
)
    requires
        0 <= outer,
        can_shift_clauses(clauses, a, outer),
        can_shift_clauses(shifted_clauses(clauses, a, outer), b, outer),
    ensures
        can_shift_clauses(clauses, a + b, outer),
        shifted_clauses(shifted_clauses(clauses, a, outer), b, outer) == shifted_clauses(
            clauses,
            a + b,
            outer,
        ),
    decreases clauses,
{
    let once = shifted_clauses(clauses, a, outer);
    assert forall|i: int| 0 <= i < clauses.len() implies can_shift_clause(
        #[trigger] clauses[i],
        a + b,
        outer,
    ) && shifted_clauses(once, b, outer)[i] == shifted_clauses(clauses, a + b, outer)[i] by {
        assert(once[i] == shifted_clause(clauses[i], a, outer));
        assert(can_shift_clause(once[i], b, outer));
        shifts_of_where_add_up(clauses[i].value, a, b, outer + 1);
    }
    assert(shifted_clauses(once, b, outer) =~= shifted_clauses(clauses, a + b, outer));
}

/// A type that is moved through no binder stays as it is.
pub proof fn shift_of_ty_by_none(ty: TyView, outer: int)
    ensures
        shifted_ty(ty, 0, outer) == ty,
    decreases ty,
{
    match ty {
        TyView::BoundVar(var) => {},
        TyView::Apply { name, args } => {
            shift_of_args_by_none(args, outer);
        },
        TyView::Function { num_binders, sig, args } => {
            shift_of_args_by_none(args, outer + 1);
        },
        TyView::Dyn { binders, bounds, lifetime } => {
            shift_of_clauses_by_none(bounds, outer + 1);
        },
    }
}

proof fn shift_of_args_by_none(args: Seq<GenericArgView>, outer: int)
    ensures
        shifted_args(args, 0, outer) == args,
    decreases args,
{
    assert forall|i: int| 0 <= i < args.len() implies shifted_args(args, 0, outer)[i]
        == #[trigger] args[i] by {
        shift_of_arg_by_none(args[i], outer);
    }
    assert(shifted_args(args, 0, outer) =~= args);
}

proof fn shift_of_arg_by_none(arg: GenericArgView, outer: int)
    ensures
        shifted_arg(arg, 0, outer) == arg,
    decreases arg,
{
    match arg {
        GenericArgView::Ty(ty) => {
            shift_of_ty_by_none(ty, outer);
        },
        GenericArgView::Lifetime(lifetime) => {},
        GenericArgView::Const(constant) => {
            if !(constant.value is BoundVar) {
                shift_of_ty_by_none(constant.ty, outer);
            }
        },
    }
}

/// A where clause that is moved through no binder stays as it is.
pub proof fn shift_of_where_by_none(clause: WhereClauseView, outer: int)
    ensures
        shifted_where(clause, 0, outer) == clause,
    decreases clause,
{
    match clause {
        WhereClauseView::Implemented(trait_ref) => {
            shift_of_args_by_none(trait_ref.substitution, outer);
        },
        WhereClauseView::AliasEq { alias, ty } => {
            match alias {
                AliasTyView::Projection { associated_ty_id, substitution } => {
                    shift_of_args_by_none(substitution, outer);
                },
                AliasTyView::Opaque { opaque_ty_id, substitution } => {
                    shift_of_args_by_none(substitution, outer);
                },
            }
            shift_of_ty_by_none(ty, outer);
        },
        WhereClauseView::LifetimeOutlives { a, b } => {},
        WhereClauseView::TypeOutlives { ty, lifetime } => {
            shift_of_ty_by_none(ty, outer);
        },
    }
}

proof fn shift_of_clauses_by_none(clauses: Seq<QuantifiedWhereClauseView>, outer: int)
    ensures
        shifted_clauses(clauses, 0, outer) == clauses,
    decreases clauses,
{
    assert forall|i: int| 0 <= i < clauses.len() implies shifted_clauses(clauses, 0, outer)[i]
        == #[trigger] clauses[i] by {
        shift_of_where_by_none(clauses[i].value, outer + 1);
    }
    assert(shifted_clauses(clauses, 0, outer) =~= clauses);
}

/// A type that was moved in can be moved out again.
proof fn shifted_ty_can_return(ty: TyView, by: int, outer: int)
    requires
        0 <= outer,
        by >= 0,
        can_shift_ty(ty, by, outer),
    ensures
        can_shift_ty(shifted_ty(ty, by, outer), -by, outer),
    decreases ty,
{
    match ty {
        TyView::BoundVar(var) => {},
        TyView::Apply { name, args } => {
            shifted_args_can_return(args, by, outer);
        },
        TyView::Function { num_binders, sig, args } => {
            shifted_args_can_return(args, by, outer + 1);
        },
        TyView::Dyn { binders, bounds, lifetime } => {
            shifted_clauses_can_return(bounds, by, outer + 1);
        },
    }
}

proof fn shifted_args_can_return(args: Seq<GenericArgView>, by: int, outer: int)
    requires
        0 <= outer,
        by >= 0,
        can_shift_args(args, by, outer),
    ensures
        can_shift_args(shifted_args(args, by, outer), -by, outer),
    decreases args,
{
    let moved = shifted_args(args, by, outer);
    assert forall|i: int| 0 <= i < moved.len() implies can_shift_arg(
        #[trigger] moved[i],
        -by,
        outer,
    ) by {
        assert(can_shift_arg(args[i], by, outer));
        shifted_arg_can_return(args[i], by, outer);
    }
}

proof fn shifted_arg_can_return(arg: GenericArgView, by: int, outer: int)
    requires
        0 <= outer,
        by >= 0,
        can_shift_arg(arg, by, outer),
    ensures
        can_shift_arg(shifted_arg(arg, by, outer), -by, outer),
    decreases arg,
{
    match arg {
        GenericArgView::Ty(ty) => {
            shifted_ty_can_return(ty, by, outer);
        },
        GenericArgView::Lifetime(lifetime) => {},
        GenericArgView::Const(constant) => {
            if !(constant.value is BoundVar) {
                shifted_ty_can_return(constant.ty, by, outer);
            }
        },
    }
}

proof fn shifted_where_can_return(clause: WhereClauseView, by: int, outer: int)
    requires
        0 <= outer,
        by >= 0,
        can_shift_where(clause, by, outer),
    ensures
        can_shift_where(shifted_where(clause, by, outer), -by, outer),
    decreases clause,
{
    match clause {
        WhereClauseView::Implemented(trait_ref) => {
            shifted_args_can_return(trait_ref.substitution, by, outer);
        },
        WhereClauseView::AliasEq { alias, ty } => {
            match alias {
                AliasTyView::Projection { associated_ty_id, substitution } => {
                    shifted_args_can_return(substitution, by, outer);
                },
                AliasTyView::Opaque { opaque_ty_id, substitution } => {
                    shifted_args_can_return(substitution, by, outer);
                },
            }
            shifted_ty_can_return(ty, by, outer);
        },
        WhereClauseView::LifetimeOutlives { a, b } => {},
        WhereClauseView::TypeOutlives { ty, lifetime } => {
            shifted_ty_can_return(ty, by, outer);
        },
    }
}

proof fn shifted_clauses_can_return(
    clauses: Seq<QuantifiedWhereClauseView>,
    by: int,
    outer: int,
)
    requires
        0 <= outer,
        by >= 0,
        can_shift_clauses(clauses, by, outer),
    ensures
        can_shift_clauses(shifted_clauses(clauses, by, outer), -by, outer),
    decreases clauses,
{
    let moved = shifted_clauses(clauses, by, outer);
    assert forall|i: int| 0 <= i < moved.len() implies can_shift_clause(
        #[trigger] moved[i],
        -by,
        outer,
    ) by {
        assert(can_shift_clause(clauses[i], by, outer));
        shifted_where_can_return(clauses[i].value, by, outer + 1);
    }
}

/// Moving a type out undoes moving it in through as many binders: no variable is lost, and none
/// is caught by a binder on the way.
pub proof fn shift_in_of_ty_is_undone(ty: TyView, by: int, outer: int)
    requires
        0 <= outer,
        by >= 0,
        can_shift_ty(ty, by, outer),
    ensures
        can_shift_ty(shifted_ty(ty, by, outer), -by, outer),
        shifted_ty(shifted_ty(ty, by, outer), -by, outer) == ty,
{
    shifted_ty_can_return(ty, by, outer);
    shifts_of_ty_add_up(ty, by, -by, outer);
    shift_of_ty_by_none(ty, outer);
}

/// Moving a where clause out undoes moving it in through as many binders.
pub proof fn shift_in_of_where_is_undone(clause: WhereClauseView, by: int, outer: int)
    requires
        0 <= outer,
        by >= 0,
        can_shift_where(clause, by, outer),
    ensures
        can_shift_where(shifted_where(clause, by, outer), -by, outer),
        shifted_where(shifted_where(clause, by, outer), -by, outer) == clause,
{
    shifted_where_can_return(clause, by, outer);
    shifts_of_where_add_up(clause, by, -by, outer);
    shift_of_where_by_none(clause, outer);
}

/// A variable that is bound inside the term stays; one that is free keeps its position, and counts
/// as many binders more as it is moved through. It can be moved if the count fits, and if it does
/// not lead to a binder inside the term.
pub proof fn shift_of_var(var: BoundVar, by: int, outer: int)
    ensures
        var.debruijn.depth < outer ==> can_shift_var(var, by, outer) && shifted_var(var, by, outer)
            == var,
        var.debruijn.depth >= outer ==> (can_shift_var(var, by, outer) <==> outer
            <= var.debruijn.depth + by <= u32::MAX),
        var.debruijn.depth >= outer && can_shift_var(var, by, outer) && 0 <= outer ==> {
            &&& shifted_var(var, by, outer).debruijn.depth == var.debruijn.depth + by
            &&& shifted_var(var, by, outer).index == var.index
        },
{
}

/// A lifetime that is a variable moves as the variable does; every other one stays.
pub proof fn shift_of_lifetime(lifetime: Lifetime, by: int, outer: int)
    ensures
        match lifetime {
            Lifetime::BoundVar(var) => {
                &&& can_shift_lifetime(lifetime, by, outer) <==> can_shift_var(var, by, outer)
                &&& shifted_lifetime(lifetime, by, outer) matches Lifetime::BoundVar(v) && v
                    == shifted_var(var, by, outer)
            },
            _ => {
                &&& can_shift_lifetime(lifetime, by, outer)
                &&& shifted_lifetime(lifetime, by, outer) == lifetime
            },
        },
{
}

/// A constant that is a variable moves as the variable does, and keeps its type; every other one
/// keeps its value, and its type moves.
pub proof fn shift_of_const(constant: ConstView, by: int, outer: int)
    ensures
        match constant.value {
            ConstValue::BoundVar(var) => {
                &&& can_shift_const(constant, by, outer) <==> can_shift_var(var, by, outer)
                &&& shifted_const(constant, by, outer).ty == constant.ty
                &&& shifted_const(constant, by, outer).value matches ConstValue::BoundVar(v) && v
                    == shifted_var(var, by, outer)
            },
            _ => {
                &&& can_shift_const(constant, by, outer) <==> can_shift_ty(constant.ty, by, outer)
                &&& shifted_const(constant, by, outer).ty == shifted_ty(constant.ty, by, outer)
                &&& shifted_const(constant, by, outer).value == constant.value
            },
        },
{
}

/// A move keeps the head of a type, and goes into each of its parts: into the arguments of a
/// function pointer and the bounds of a trait object through one binder more. The kinds of the
/// binder stay.
pub proof fn shift_keeps_shape_of_ty(ty: TyView, by: int, outer: int)
    ensures
        match ty {
            TyView::BoundVar(var) => {
                &&& can_shift_ty(ty, by, outer) <==> can_shift_var(var, by, outer)
                &&& shifted_ty(ty, by, outer) matches TyView::BoundVar(v) && v == shifted_var(
                    var,
                    by,
                    outer,
                )
            },
            TyView::Apply { name, args } => {
                &&& can_shift_ty(ty, by, outer) <==> forall|i: int|
                    0 <= i < args.len() ==> can_shift_arg(#[trigger] args[i], by, outer)
                &&& shifted_ty(ty, by, outer) matches TyView::Apply { name: n, args: a } && {
                    &&& n == name
                    &&& a.len() == args.len()
                    &&& forall|i: int|
                        0 <= i < args.len() ==> #[trigger] a[i] == shifted_arg(args[i], by, outer)
                }
            },
            TyView::Function { num_binders, sig, args } => {
                &&& can_shift_ty(ty, by, outer) <==> outer < u32::MAX && forall|i: int|
                    0 <= i < args.len() ==> can_shift_arg(#[trigger] args[i], by, outer + 1)
                &&& shifted_ty(ty, by, outer) matches TyView::Function {
                    num_binders: n,
                    sig: s,
                    args: a,
                } && {
                    &&& n == num_binders
                    &&& s == sig
                    &&& a.len() == args.len()
                    &&& forall|i: int|
                        0 <= i < args.len() ==> #[trigger] a[i] == shifted_arg(
                            args[i],
                            by,
                            outer + 1,
                        )
                }
            },
            TyView::Dyn { binders, bounds, lifetime } => {
                &&& can_shift_ty(ty, by, outer) <==> {
                    &&& outer < u32::MAX
                    &&& can_shift_lifetime(lifetime, by, outer)
                    &&& forall|i: int|
                        0 <= i < bounds.len() ==> can_shift_clause(
                            #[trigger] bounds[i],
                            by,
                            outer + 1,
                        )
                }
                &&& shifted_ty(ty, by, outer) matches TyView::Dyn {
                    binders: k,
                    bounds: b,
                    lifetime: l,
                } && {
                    &&& k == binders
                    &&& l == shifted_lifetime(lifetime, by, outer)
                    &&& b.len() == bounds.len()
                    &&& forall|i: int|
                        0 <= i < bounds.len() ==> #[trigger] b[i] == shifted_clause(
                            bounds[i],
                            by,
                            outer + 1,
                        )
                }
            },
        },
{
}

/// A move keeps the kind of an argument.
pub proof fn shift_keeps_shape_of_arg(arg: GenericArgView, by: int, outer: int)
    ensures
        match arg {
            GenericArgView::Ty(ty) => {
                &&& can_shift_arg(arg, by, outer) <==> can_shift_ty(ty, by, outer)
                &&& shifted_arg(arg, by, outer) matches GenericArgView::Ty(t) && t == shifted_ty(
                    ty,
                    by,
                    outer,
                )
            },
            GenericArgView::Lifetime(lifetime) => {
                &&& can_shift_arg(arg, by, outer) <==> can_shift_lifetime(lifetime, by, outer)
                &&& shifted_arg(arg, by, outer) matches GenericArgView::Lifetime(l) && l
                    == shifted_lifetime(lifetime, by, outer)
            },
            GenericArgView::Const(constant) => {
                &&& can_shift_arg(arg, by, outer) <==> can_shift_const(constant, by, outer)
                &&& shifted_arg(arg, by, outer) matches GenericArgView::Const(c) && c
                    == shifted_const(constant, by, outer)
            },
        },
{
}

/// A move goes into each argument of a list and into each clause of a list, in order.
pub proof fn shift_keeps_order(
    args: Seq<GenericArgView>,
    clauses: Seq<QuantifiedWhereClauseView>,
    by: int,
    outer: int,
)
    ensures
        can_shift_args(args, by, outer) <==> forall|i: int|
            0 <= i < args.len() ==> can_shift_arg(#[trigger] args[i], by, outer),
        shifted_args(args, by, outer).len() == args.len(),
        forall|i: int|
            0 <= i < args.len() ==> #[trigger] shifted_args(args, by, outer)[i] == shifted_arg(
                args[i],
                by,
                outer,
            ),
        can_shift_clauses(clauses, by, outer) <==> forall|i: int|
            0 <= i < clauses.len() ==> can_shift_clause(#[trigger] clauses[i], by, outer),
        shifted_clauses(clauses, by, outer).len() == clauses.len(),
        forall|i: int|
            0 <= i < clauses.len() ==> #[trigger] shifted_clauses(clauses, by, outer)[i]
                == shifted_clause(clauses[i], by, outer),
{
}

/// A move keeps the definition of an alias, and goes into its arguments.
pub proof fn shift_keeps_shape_of_alias(alias: AliasTyView, by: int, outer: int)
    ensures
        match alias {
            AliasTyView::Projection { associated_ty_id, substitution } => {
                &&& can_shift_alias(alias, by, outer) <==> can_shift_args(substitution, by, outer)
                &&& shifted_alias(alias, by, outer) matches AliasTyView::Projection {
                    associated_ty_id: id,
                    substitution: s,
                } && id == associated_ty_id && s == shifted_args(substitution, by, outer)
            },
            AliasTyView::Opaque { opaque_ty_id, substitution } => {
                &&& can_shift_alias(alias, by, outer) <==> can_shift_args(substitution, by, outer)
                &&& shifted_alias(alias, by, outer) matches AliasTyView::Opaque {
                    opaque_ty_id: id,
                    substitution: s,
                } && id == opaque_ty_id && s == shifted_args(substitution, by, outer)
            },
        },
{
}

/// A move keeps what a where clause says, and goes into all that it relates.
pub proof fn shift_keeps_shape_of_where(clause: WhereClauseView, by: int, outer: int)
    ensures
        match clause {
            WhereClauseView::Implemented(trait_ref) => {
                &&& can_shift_where(clause, by, outer) <==> can_shift_args(
                    trait_ref.substitution,
                    by,
                    outer,
                )
                &&& shifted_where(clause, by, outer) matches WhereClauseView::Implemented(t) && {
                    &&& t.trait_id == trait_ref.trait_id
                    &&& t.substitution == shifted_args(trait_ref.substitution, by, outer)
                }
            },
            WhereClauseView::AliasEq { alias, ty } => {
                &&& can_shift_where(clause, by, outer) <==> can_shift_alias(alias, by, outer)
                    && can_shift_ty(ty, by, outer)
                &&& shifted_where(clause, by, outer) matches WhereClauseView::AliasEq {
                    alias: a,
                    ty: t,
                } && a == shifted_alias(alias, by, outer) && t == shifted_ty(ty, by, outer)
            },
            WhereClauseView::LifetimeOutlives { a, b } => {
                &&& can_shift_where(clause, by, outer) <==> can_shift_lifetime(a, by, outer)
                    && can_shift_lifetime(b, by, outer)
                &&& shifted_where(clause, by, outer) matches WhereClauseView::LifetimeOutlives {
                    a: c,
                    b: d,
                } && c == shifted_lifetime(a, by, outer) && d == shifted_lifetime(b, by, outer)
            },
            WhereClauseView::TypeOutlives { ty, lifetime } => {
                &&& can_shift_where(clause, by, outer) <==> can_shift_ty(ty, by, outer)
                    && can_shift_lifetime(lifetime, by, outer)
                &&& shifted_where(clause, by, outer) matches WhereClauseView::TypeOutlives {
                    ty: t,
                    lifetime: l,
                } && t == shifted_ty(ty, by, outer) && l == shifted_lifetime(lifetime, by, outer)
            },
        },
{
}

/// A move goes into a quantified clause through its binder, whose kinds stay.
pub proof fn shift_keeps_binder_of_clause(clause: QuantifiedWhereClauseView, by: int, outer: int)
    ensures
        can_shift_clause(clause, by, outer) <==> outer < u32::MAX && can_shift_where(
            clause.value,
            by,
            outer + 1,
        ),
        shifted_clause(clause, by, outer).binders == clause.binders,
        shifted_clause(clause, by, outer).value == shifted_where(clause.value, by, outer + 1),
{
}

} // verus!
