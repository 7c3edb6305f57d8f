//! Shifting, held against the solver's own.

use std::sync::Arc;

use chalk_ir::fold::shift::Shift;
use chalk_ir::{
    AliasEq, AliasTy, Binders, BoundVar, CanonicalVarKind, ConcreteConst, Const, ConstData,
    ConstValue, Constraint, DebruijnIndex, DynTy, FnPointer, FnSig, FnSubst, GenericArg,
    GenericArgData, Goal, GoalData, InEnvironment, InferenceVar, Lifetime, LifetimeData,
    LifetimeOutlives, OpaqueTy, PlaceholderIndex, ProgramClause, ProgramClauseData, ProjectionTy,
    QuantifiedWhereClause, QuantifiedWhereClauses, Substitution, TraitRef, Ty, TyData, TyKind,
    TyVariableKind, TypeOutlives, UniverseIndex, VariableKind, VariableKinds, Variance,
    WhereClause,
};

use chalk_lowering::{bound_var, hir, ids, ir, shift};

/// The terms of the solver, each behind a pointer of its own.
#[derive(Debug, Copy, Clone, Hash, PartialOrd, Ord, PartialEq, Eq)]
struct Interner;

impl chalk_ir::interner::HasInterner for Interner {
    type Interner = Interner;
}

impl chalk_ir::interner::Interner for Interner {
    type InternedType = Arc<TyData<Self>>;
    type InternedLifetime = Arc<LifetimeData<Self>>;
    type InternedConst = Arc<ConstData<Self>>;
    type InternedConcreteConst = u64;
    type InternedGenericArg = GenericArgData<Self>;
    type InternedGoal = Arc<GoalData<Self>>;
    type InternedGoals = Vec<Goal<Self>>;
    type InternedSubstitution = Vec<GenericArg<Self>>;
    type InternedProgramClause = ProgramClauseData<Self>;
    type InternedProgramClauses = Arc<[ProgramClause<Self>]>;
    type InternedQuantifiedWhereClauses = Vec<QuantifiedWhereClause<Self>>;
    type InternedVariableKinds = Vec<VariableKind<Self>>;
    type InternedCanonicalVarKinds = Vec<CanonicalVarKind<Self>>;
    type InternedConstraints = Vec<InEnvironment<Constraint<Self>>>;
    type InternedVariances = Vec<Variance>;
    type DefId = ids::InternId;
    type InternedAdtId = hir::AdtId;
    type Identifier = hir::TypeAliasId;
    type FnAbi = ();

    fn intern_ty(&self, kind: TyKind<Self>) -> Self::InternedType {
        let flags = kind.compute_flags(self);
        Arc::new(TyData { kind, flags })
    }

    fn ty_data<'a>(&self, ty: &'a Self::InternedType) -> &'a TyData<Self> {
        ty
    }

    fn intern_lifetime(&self, lifetime: LifetimeData<Self>) -> Self::InternedLifetime {
        Arc::new(lifetime)
    }

    fn lifetime_data<'a>(&self, lifetime: &'a Self::InternedLifetime) -> &'a LifetimeData<Self> {
        lifetime
    }

    fn intern_const(&self, constant: ConstData<Self>) -> Self::InternedConst {
        Arc::new(constant)
    }

    fn const_data<'a>(&self, constant: &'a Self::InternedConst) -> &'a ConstData<Self> {
        constant
    }

    fn const_eq(&self, _ty: &Self::InternedType, c1: &u64, c2: &u64) -> bool {
        c1 == c2
    }

    fn intern_generic_arg(&self, data: GenericArgData<Self>) -> Self::InternedGenericArg {
        data
    }

    fn generic_arg_data<'a>(
        &self,
        arg: &'a Self::InternedGenericArg,
    ) -> &'a GenericArgData<Self> {
        arg
    }

    fn intern_goal(&self, data: GoalData<Self>) -> Self::InternedGoal {
        Arc::new(data)
    }

    fn goal_data<'a>(&self, goal: &'a Self::InternedGoal) -> &'a GoalData<Self> {
        goal
    }

    fn intern_goals<E>(
        &self,
        data: impl IntoIterator<Item = Result<Goal<Self>, E>>,
    ) -> Result<Self::InternedGoals, E> {
        data.into_iter().collect()
    }

    fn goals_data<'a>(&self, goals: &'a Self::InternedGoals) -> &'a [Goal<Self>] {
        goals
    }

    fn intern_substitution<E>(
        &self,
        data: impl IntoIterator<Item = Result<GenericArg<Self>, E>>,
    ) -> Result<Self::InternedSubstitution, E> {
        data.into_iter().collect()
    }

    fn substitution_data<'a>(
        &self,
        substitution: &'a Self::InternedSubstitution,
    ) -> &'a [GenericArg<Self>] {
        substitution
    }

    fn intern_program_clause(&self, data: ProgramClauseData<Self>) -> Self::InternedProgramClause {
        data
    }

    fn program_clause_data<'a>(
        &self,
        clause: &'a Self::InternedProgramClause,
    ) -> &'a ProgramClauseData<Self> {
        clause
    }

    fn intern_program_clauses<E>(
        &self,
        data: impl IntoIterator<Item = Result<ProgramClause<Self>, E>>,
    ) -> Result<Self::InternedProgramClauses, E> {
        data.into_iter().collect()
    }

    fn program_clauses_data<'a>(
        &self,
        clauses: &'a Self::InternedProgramClauses,
    ) -> &'a [ProgramClause<Self>] {
        clauses
    }

    fn intern_quantified_where_clauses<E>(
        &self,
        data: impl IntoIterator<Item = Result<QuantifiedWhereClause<Self>, E>>,
    ) -> Result<Self::InternedQuantifiedWhereClauses, E> {
        data.into_iter().collect()
    }

    fn quantified_where_clauses_data<'a>(
        &self,
        clauses: &'a Self::InternedQuantifiedWhereClauses,
    ) -> &'a [QuantifiedWhereClause<Self>] {
        clauses
    }

    fn intern_generic_arg_kinds<E>(
        &self,
        data: impl IntoIterator<Item = Result<VariableKind<Self>, E>>,
    ) -> Result<Self::InternedVariableKinds, E> {
        data.into_iter().collect()
    }

    fn variable_kinds_data<'a>(
        &self,
        variable_kinds: &'a Self::InternedVariableKinds,
    ) -> &'a [VariableKind<Self>] {
        variable_kinds
    }

    fn intern_canonical_var_kinds<E>(
        &self,
        data: impl IntoIterator<Item = Result<CanonicalVarKind<Self>, E>>,
    ) -> Result<Self::InternedCanonicalVarKinds, E> {
        data.into_iter().collect()
    }

    fn canonical_var_kinds_data<'a>(
        &self,
        canonical_var_kinds: &'a Self::InternedCanonicalVarKinds,
    ) -> &'a [CanonicalVarKind<Self>] {
        canonical_var_kinds
    }

    fn intern_constraints<E>(
        &self,
        data: impl IntoIterator<Item = Result<InEnvironment<Constraint<Self>>, E>>,
    ) -> Result<Self::InternedConstraints, E> {
        data.into_iter().collect()
    }

    fn constraints_data<'a>(
        &self,
        constraints: &'a Self::InternedConstraints,
    ) -> &'a [InEnvironment<Constraint<Self>>] {
        constraints
    }

    fn intern_variances<E>(
        &self,
        data: impl IntoIterator<Item = Result<Variance, E>>,
    ) -> Result<Self::InternedVariances, E> {
        data.into_iter().collect()
    }

    fn variances_data<'a>(&self, variances: &'a Self::InternedVariances) -> &'a [Variance] {
        variances
    }
}

fn bound_var_to(var: bound_var::BoundVar) -> BoundVar {
    BoundVar::new(DebruijnIndex::new(var.debruijn.depth), var.index)
}

fn placeholder_to(index: ir::PlaceholderIndex) -> PlaceholderIndex {
    PlaceholderIndex { ui: UniverseIndex { counter: index.universe }, idx: index.idx }
}

fn mutability_to(mutability: ir::Mutability) -> chalk_ir::Mutability {
    match mutability {
        ir::Mutability::Mut => chalk_ir::Mutability::Mut,
        ir::Mutability::Not => chalk_ir::Mutability::Not,
    }
}

fn scalar_to(scalar: ir::Scalar) -> chalk_ir::Scalar {
    match scalar {
        ir::Scalar::Bool => chalk_ir::Scalar::Bool,
        ir::Scalar::Char => chalk_ir::Scalar::Char,
        ir::Scalar::Int(int) => chalk_ir::Scalar::Int(match int {
            ir::IntTy::Isize => chalk_ir::IntTy::Isize,
            ir::IntTy::I8 => chalk_ir::IntTy::I8,
            ir::IntTy::I16 => chalk_ir::IntTy::I16,
            ir::IntTy::I32 => chalk_ir::IntTy::I32,
            ir::IntTy::I64 => chalk_ir::IntTy::I64,
            ir::IntTy::I128 => chalk_ir::IntTy::I128,
        }),
        ir::Scalar::Uint(uint) => chalk_ir::Scalar::Uint(match uint {
            ir::UintTy::Usize => chalk_ir::UintTy::Usize,
            ir::UintTy::U8 => chalk_ir::UintTy::U8,
            ir::UintTy::U16 => chalk_ir::UintTy::U16,
            ir::UintTy::U32 => chalk_ir::UintTy::U32,
            ir::UintTy::U64 => chalk_ir::UintTy::U64,
            ir::UintTy::U128 => chalk_ir::UintTy::U128,
        }),
        ir::Scalar::Float(float) => chalk_ir::Scalar::Float(match float {
            ir::FloatTy::F32 => chalk_ir::FloatTy::F32,
            ir::FloatTy::F64 => chalk_ir::FloatTy::F64,
        }),
    }
}

fn ty_variable_kind_to(kind: ir::TyVariableKind) -> TyVariableKind {
    match kind {
        ir::TyVariableKind::General => TyVariableKind::General,
        ir::TyVariableKind::Integer => TyVariableKind::Integer,
        ir::TyVariableKind::Float => TyVariableKind::Float,
    }
}

fn kind_to(kind: &ir::VariableKind) -> VariableKind<Interner> {
    match kind {
        ir::VariableKind::Ty(kind) => VariableKind::Ty(ty_variable_kind_to(*kind)),
        ir::VariableKind::Lifetime => VariableKind::Lifetime,
        ir::VariableKind::Const(ty) => VariableKind::Const(ty_to(ty)),
    }
}

fn kinds_to(kinds: &[ir::VariableKind]) -> VariableKinds<Interner> {
    VariableKinds::from_iter(&Interner, kinds.iter().map(kind_to))
}

fn lifetime_to(lifetime: ir::Lifetime) -> Lifetime<Interner> {
    match lifetime {
        ir::Lifetime::BoundVar(var) => LifetimeData::BoundVar(bound_var_to(var)),
        ir::Lifetime::InferenceVar(var) => LifetimeData::InferenceVar(InferenceVar::from(var)),
        ir::Lifetime::Placeholder(index) => LifetimeData::Placeholder(placeholder_to(index)),
        ir::Lifetime::Static => LifetimeData::Static,
        ir::Lifetime::Empty(counter) => LifetimeData::Empty(UniverseIndex { counter }),
        ir::Lifetime::Erased => LifetimeData::Erased,
    }
    .intern(&Interner)
}

fn const_to(constant: &ir::Const) -> Const<Interner> {
    let value = match constant.value {
        ir::ConstValue::BoundVar(var) => ConstValue::BoundVar(bound_var_to(var)),
        ir::ConstValue::InferenceVar(var) => ConstValue::InferenceVar(InferenceVar::from(var)),
        ir::ConstValue::Placeholder(index) => ConstValue::Placeholder(placeholder_to(index)),
        ir::ConstValue::Concrete(value) => {
            ConstValue::Concrete(ConcreteConst { interned: value.0 })
        }
    };
    ConstData { ty: ty_to(&constant.ty), value }.intern(&Interner)
}

fn arg_to(arg: &ir::GenericArg) -> GenericArg<Interner> {
    match arg {
        ir::GenericArg::Ty(ty) => GenericArgData::Ty(ty_to(ty)),
        ir::GenericArg::Lifetime(lifetime) => GenericArgData::Lifetime(lifetime_to(*lifetime)),
        ir::GenericArg::Const(constant) => GenericArgData::Const(const_to(constant)),
    }
    .intern(&Interner)
}

fn args_to(args: &[ir::GenericArg]) -> Substitution<Interner> {
    Substitution::from_iter(&Interner, args.iter().map(arg_to))
}

fn sig_to(sig: ir::FnSig) -> FnSig<Interner> {
    FnSig {
        abi: (),
        safety: match sig.safety {
            ir::Safety::Safe => chalk_ir::Safety::Safe,
            ir::Safety::Unsafe => chalk_ir::Safety::Unsafe,
        },
        variadic: sig.variadic,
    }
}

fn ty_arg(args: &[ir::GenericArg], i: usize) -> Ty<Interner> {
    match &args[i] {
        ir::GenericArg::Ty(ty) => ty_to(ty),
        other => panic!("a type is expected, not {:?}", other),
    }
}

fn apply_to(name: ir::TypeName, args: &[ir::GenericArg]) -> TyKind<Interner> {
    match name {
        ir::TypeName::Adt(id) => TyKind::Adt(chalk_ir::AdtId(id.0), args_to(args)),
        ir::TypeName::AssociatedType(id) => {
            TyKind::AssociatedType(chalk_ir::AssocTypeId(id.0), args_to(args))
        }
        ir::TypeName::Scalar(scalar) => TyKind::Scalar(scalar_to(scalar)),
        ir::TypeName::Tuple(arity) => TyKind::Tuple(arity, args_to(args)),
        ir::TypeName::Array => {
            let length = match &args[1] {
                ir::GenericArg::Const(constant) => const_to(constant),
                other => panic!("a constant is expected, not {:?}", other),
            };
            TyKind::Array(ty_arg(args, 0), length)
        }
        ir::TypeName::Slice => TyKind::Slice(ty_arg(args, 0)),
        ir::TypeName::Raw(mutability) => TyKind::Raw(mutability_to(mutability), ty_arg(args, 0)),
        ir::TypeName::Ref(mutability) => {
            let lifetime = match &args[0] {
                ir::GenericArg::Lifetime(lifetime) => lifetime_to(*lifetime),
                other => panic!("a lifetime is expected, not {:?}", other),
            };
            TyKind::Ref(mutability_to(mutability), lifetime, ty_arg(args, 1))
        }
        ir::TypeName::OpaqueType(id) => {
            TyKind::OpaqueType(chalk_ir::OpaqueTyId(id.0), args_to(args))
        }
        ir::TypeName::FnDef(id) => TyKind::FnDef(chalk_ir::FnDefId(id.0), args_to(args)),
        ir::TypeName::Str => TyKind::Str,
        ir::TypeName::Never => TyKind::Never,
        ir::TypeName::Closure(id) => TyKind::Closure(chalk_ir::ClosureId(id.0), args_to(args)),
        ir::TypeName::Generator(id) => {
            TyKind::Generator(chalk_ir::GeneratorId(id.0), args_to(args))
        }
        ir::TypeName::GeneratorWitness(id) => {
            TyKind::GeneratorWitness(chalk_ir::GeneratorId(id.0), args_to(args))
        }
        ir::TypeName::Foreign(id) => TyKind::Foreign(chalk_ir::ForeignDefId(id.0)),
        ir::TypeName::Error => TyKind::Error,
        ir::TypeName::Placeholder(index) => TyKind::Placeholder(placeholder_to(index)),
        ir::TypeName::Projection(id) => TyKind::Alias(AliasTy::Projection(ProjectionTy {
            associated_ty_id: chalk_ir::AssocTypeId(id.0),
            substitution: args_to(args),
        })),
        ir::TypeName::OpaqueAlias(id) => TyKind::Alias(AliasTy::Opaque(OpaqueTy {
            opaque_ty_id: chalk_ir::OpaqueTyId(id.0),
            substitution: args_to(args),
        })),
        ir::TypeName::InferenceVar(var, kind) => {
            TyKind::InferenceVar(InferenceVar::from(var), ty_variable_kind_to(kind))
        }
    }
}

fn ty_to(ty: &ir::Ty) -> Ty<Interner> {
    match ty {
        ir::Ty::BoundVar(var) => TyKind::BoundVar(bound_var_to(*var)),
        ir::Ty::Apply { name, args } => apply_to(*name, args),
        ir::Ty::Function { num_binders, sig, args } => TyKind::Function(FnPointer {
            num_binders: *num_binders,
            sig: sig_to(*sig),
            substitution: FnSubst(args_to(args)),
        }),
        ir::Ty::Dyn { binders, bounds, lifetime } => TyKind::Dyn(DynTy {
            bounds: Binders::new(
                kinds_to(binders),
                QuantifiedWhereClauses::from_iter(&Interner, clauses_to(bounds)),
            ),
            lifetime: lifetime_to(*lifetime),
        }),
    }
    .intern(&Interner)
}

fn trait_ref_to(trait_ref: &ir::TraitRef) -> TraitRef<Interner> {
    TraitRef {
        trait_id: chalk_ir::TraitId(trait_ref.trait_id.0),
        substitution: args_to(&trait_ref.substitution),
    }
}

fn alias_to(alias: &ir::AliasTy) -> AliasTy<Interner> {
    match alias {
        ir::AliasTy::Projection { associated_ty_id, substitution } => {
            AliasTy::Projection(ProjectionTy {
                associated_ty_id: chalk_ir::AssocTypeId(associated_ty_id.0),
                substitution: args_to(substitution),
            })
        }
        ir::AliasTy::Opaque { opaque_ty_id, substitution } => AliasTy::Opaque(OpaqueTy {
            opaque_ty_id: chalk_ir::OpaqueTyId(opaque_ty_id.0),
            substitution: args_to(substitution),
        }),
    }
}

fn where_to(clause: &ir::WhereClause) -> WhereClause<Interner> {
    match clause {
        ir::WhereClause::Implemented(trait_ref) => {
            WhereClause::Implemented(trait_ref_to(trait_ref))
        }
        ir::WhereClause::AliasEq { alias, ty } => {
            WhereClause::AliasEq(AliasEq { alias: alias_to(alias), ty: ty_to(ty) })
        }
        ir::WhereClause::LifetimeOutlives { a, b } => {
            WhereClause::LifetimeOutlives(LifetimeOutlives {
                a: lifetime_to(*a),
                b: lifetime_to(*b),
            })
        }
        ir::WhereClause::TypeOutlives { ty, lifetime } => {
            WhereClause::TypeOutlives(TypeOutlives {
                ty: ty_to(ty),
                lifetime: lifetime_to(*lifetime),
            })
        }
    }
}

fn clauses_to(clauses: &[ir::QuantifiedWhereClause]) -> Vec<QuantifiedWhereClause<Interner>> {
    clauses
        .iter()
        .map(|clause| Binders::new(kinds_to(&clause.binders), where_to(&clause.value)))
        .collect()
}

fn var(depth: u32, index: usize) -> bound_var::BoundVar {
    bound_var::BoundVar { debruijn: bound_var::DebruijnIndex { depth }, index }
}

fn ty_var(depth: u32, index: usize) -> ir::GenericArg {
    ir::GenericArg::Ty(ir::Ty::BoundVar(var(depth, index)))
}

fn lifetime_var(depth: u32, index: usize) -> ir::Lifetime {
    ir::Lifetime::BoundVar(var(depth, index))
}

fn clause(binders: Vec<ir::VariableKind>, value: ir::WhereClause) -> ir::QuantifiedWhereClause {
    ir::Binders { binders, value }
}

fn apply(name: ir::TypeName, args: Vec<ir::GenericArg>) -> ir::Ty {
    ir::Ty::Apply { name, args }
}

fn scalar(scalar: ir::Scalar) -> ir::Ty {
    apply(ir::TypeName::Scalar(scalar), vec![])
}

fn constant(ty: ir::Ty, value: ir::ConstValue) -> ir::GenericArg {
    ir::GenericArg::Const(ir::Const { ty, value })
}

/// Constants of every kind, of types with and without free variables.
fn constants() -> Vec<ir::GenericArg> {
    let index = ir::PlaceholderIndex { universe: 3, idx: 1 };
    let known = ir::ConstValue::Concrete(ir::ConcreteConst(17));
    let slice = |depth| apply(ir::TypeName::Slice, vec![ty_var(depth, 2)]);
    vec![
        constant(scalar(ir::Scalar::Bool), ir::ConstValue::BoundVar(var(0, 4))),
        constant(slice(2), ir::ConstValue::BoundVar(var(1, 4))),
        constant(scalar(ir::Scalar::Char), ir::ConstValue::InferenceVar(6)),
        constant(slice(1), ir::ConstValue::InferenceVar(7)),
        constant(slice(0), ir::ConstValue::Placeholder(index)),
        constant(scalar(ir::Scalar::Uint(ir::UintTy::U8)), known),
        constant(slice(3), known),
    ]
}

/// One of each kind of where clause, with variables at the depths 0 to 3.
fn clauses() -> Vec<ir::WhereClause> {
    vec![
        ir::WhereClause::Implemented(ir::TraitRef {
            trait_id: ids::TraitId(ids::InternId(4)),
            substitution: vec![ty_var(0, 0), ty_var(1, 1), ty_var(2, 2), ty_var(3, 3)],
        }),
        ir::WhereClause::AliasEq {
            alias: ir::AliasTy::Projection {
                associated_ty_id: ids::AssocTypeId(ids::InternId(5)),
                substitution: vec![ty_var(1, 0), ty_var(2, 7)],
            },
            ty: ir::Ty::BoundVar(var(2, 0)),
        },
        ir::WhereClause::AliasEq {
            alias: ir::AliasTy::Opaque {
                opaque_ty_id: ids::OpaqueTyId(ids::InternId(6)),
                substitution: vec![ty_var(0, 0), ir::GenericArg::Lifetime(lifetime_var(3, 1))],
            },
            ty: ir::Ty::BoundVar(var(0, 2)),
        },
        ir::WhereClause::LifetimeOutlives { a: lifetime_var(1, 0), b: lifetime_var(2, 0) },
        ir::WhereClause::TypeOutlives {
            ty: ir::Ty::BoundVar(var(3, 0)),
            lifetime: ir::Lifetime::Static,
        },
    ]
}

/// Types of every shape, nested in each other.
fn types() -> Vec<ir::Ty> {
    let sig = ir::FnSig { safety: ir::Safety::Unsafe, variadic: true };
    let general = || ir::VariableKind::Ty(ir::TyVariableKind::General);
    let of_chars = || ir::VariableKind::Const(scalar(ir::Scalar::Char));
    let of_a_variable = || ir::VariableKind::Const(ir::Ty::BoundVar(var(2, 0)));
    let pointer = || ir::Ty::Function {
        num_binders: 2,
        sig,
        args: vec![
            ty_var(0, 0),
            ty_var(1, 0),
            ty_var(2, 5),
            ir::GenericArg::Lifetime(lifetime_var(0, 1)),
            ir::GenericArg::Lifetime(lifetime_var(1, 1)),
        ],
    };
    let object = || ir::Ty::Dyn {
        binders: vec![general(), of_chars(), ir::VariableKind::Lifetime, of_a_variable()],
        bounds: clauses()
            .into_iter()
            .map(|value| clause(vec![general(), ir::VariableKind::Lifetime, of_chars()], value))
            .collect(),
        lifetime: lifetime_var(0, 3),
    };
    let index = ir::PlaceholderIndex { universe: 1, idx: 2 };
    let adt = hir::AdtId::StructId(hir::StructId(ids::InternId(8)));
    vec![
        ir::Ty::BoundVar(var(0, 0)),
        ir::Ty::BoundVar(var(7, 3)),
        apply(ir::TypeName::Scalar(ir::Scalar::Uint(ir::UintTy::U32)), vec![]),
        apply(ir::TypeName::Placeholder(index), vec![]),
        apply(ir::TypeName::InferenceVar(3, ir::TyVariableKind::Integer), vec![]),
        apply(
            ir::TypeName::Array,
            vec![
                ty_var(0, 1),
                constant(
                    scalar(ir::Scalar::Uint(ir::UintTy::Usize)),
                    ir::ConstValue::BoundVar(var(1, 4)),
                ),
            ],
        ),
        apply(ir::TypeName::Adt(ids::AdtId(adt)), constants()),
        ir::Ty::Function { num_binders: 1, sig, args: constants() },
        apply(
            ir::TypeName::Ref(ir::Mutability::Mut),
            vec![
                ir::GenericArg::Lifetime(lifetime_var(2, 0)),
                ir::GenericArg::Ty(apply(ir::TypeName::Slice, vec![ty_var(1, 1)])),
            ],
        ),
        apply(
            ir::TypeName::Projection(ids::AssocTypeId(ids::InternId(1))),
            vec![ty_var(0, 0), ir::GenericArg::Ty(pointer())],
        ),
        pointer(),
        object(),
        ir::Ty::Function {
            num_binders: 0,
            sig: ir::FnSig { safety: ir::Safety::Safe, variadic: false },
            args: vec![ir::GenericArg::Ty(object()), ir::GenericArg::Ty(pointer())],
        },
        apply(
            ir::TypeName::Tuple(3),
            vec![
                ir::GenericArg::Ty(object()),
                constant(
                    scalar(ir::Scalar::Int(ir::IntTy::I64)),
                    ir::ConstValue::Concrete(ir::ConcreteConst(9)),
                ),
                ir::GenericArg::Lifetime(ir::Lifetime::Erased),
            ],
        ),
    ]
}

#[test]
fn types_shift_as_the_solver_shifts_them() {
    for ty in types() {
        assert!(ty.can_shift_in());
        assert_eq!(ty_to(&ty.shifted_in()), ty_to(&ty).shifted_in(&Interner));
    }
}

#[test]
fn types_shift_through_many_binders_as_the_solver_shifts_them() {
    for depth in [0, 1, 2, 5, 1000] {
        let source = bound_var::DebruijnIndex { depth };
        for ty in types() {
            let shifted = shift::shift_ty(&ty, source, bound_var::DebruijnIndex { depth: 0 });
            let expected = ty_to(&ty).shifted_in_from(&Interner, DebruijnIndex::new(depth));
            assert_eq!(ty_to(&shifted), expected);
        }
    }
}

#[test]
fn clauses_shift_as_the_solver_shifts_them() {
    for value in clauses() {
        assert_eq!(where_to(&value.shifted_in()), where_to(&value).shifted_in(&Interner));
    }
}

#[test]
fn the_solver_undoes_a_shift() {
    for ty in types() {
        let shifted = ty_to(&ty.shifted_in());
        assert_eq!(shifted.shifted_out(&Interner), Ok(ty_to(&ty)));
    }
}

#[test]
fn two_shifts_are_one() {
    let innermost = bound_var::DebruijnIndex { depth: 0 };
    for ty in types() {
        let twice = ty.shifted_in().shifted_in();
        let at_once = shift::shift_ty(&ty, bound_var::DebruijnIndex { depth: 2 }, innermost);
        assert_eq!(format!("{:?}", twice), format!("{:?}", at_once));
    }
}

#[test]
fn no_shift_changes_nothing() {
    let innermost = bound_var::DebruijnIndex { depth: 0 };
    for ty in types() {
        let same = shift::shift_ty(&ty, innermost, innermost);
        assert_eq!(format!("{:?}", same), format!("{:?}", ty));
    }
}

#[test]
fn free_variables_move_and_bound_ones_stay() {
    let args = vec![ty_var(0, 0), ty_var(1, 0)];
    let sig = ir::FnSig { safety: ir::Safety::Safe, variadic: false };
    match (ir::Ty::Function { num_binders: 1, sig, args }).shifted_in() {
        ir::Ty::Function { args, .. } => {
            assert_eq!(format!("{:?}", args), format!("{:?}", vec![ty_var(0, 0), ty_var(2, 0)]));
        }
        other => panic!("{:?}", other),
    }
}

#[test]
fn a_number_that_does_not_fit_cannot_be_shifted() {
    assert!(ir::Ty::BoundVar(var(u32::MAX - 1, 0)).can_shift_in());
    assert!(!ir::Ty::BoundVar(var(u32::MAX, 0)).can_shift_in());
    let slice = apply(ir::TypeName::Slice, vec![ty_var(u32::MAX, 0)]);
    assert!(!slice.can_shift_in());
    let bounds = vec![clause(
        vec![],
        ir::WhereClause::LifetimeOutlives {
            a: ir::Lifetime::Static,
            b: lifetime_var(u32::MAX, 0),
        },
    )];
    let object = ir::Ty::Dyn { binders: vec![], bounds, lifetime: ir::Lifetime::Static };
    assert!(!object.can_shift_in());
    let outermost = || ir::Ty::BoundVar(var(u32::MAX, 0));
    let of_type = |value| apply(ir::TypeName::Tuple(1), vec![constant(outermost(), value)]);
    assert!(of_type(ir::ConstValue::BoundVar(var(0, 0))).can_shift_in());
    assert!(!of_type(ir::ConstValue::BoundVar(var(u32::MAX, 0))).can_shift_in());
    assert!(!of_type(ir::ConstValue::InferenceVar(0)).can_shift_in());
    assert!(!of_type(ir::ConstValue::Concrete(ir::ConcreteConst(0))).can_shift_in());
}

#[test]
fn constants_keep_their_values_and_types() {
    let bool_ty = || scalar(ir::Scalar::Bool);
    let known = ir::ConstValue::Concrete(ir::ConcreteConst(1));
    let moved = |arg| apply(ir::TypeName::Tuple(1), vec![arg]).shifted_in();
    let same = |arg| apply(ir::TypeName::Tuple(1), vec![arg]);
    let show = |ty: ir::Ty| format!("{:?}", ty);
    let variable = |depth| ir::ConstValue::BoundVar(var(depth, 5));
    assert_eq!(show(moved(constant(bool_ty(), known))), show(same(constant(bool_ty(), known))));
    assert_eq!(
        show(moved(constant(bool_ty(), variable(0)))),
        show(same(constant(bool_ty(), variable(1)))),
    );
    assert_eq!(
        show(moved(constant(ir::Ty::BoundVar(var(0, 0)), known))),
        show(same(constant(ir::Ty::BoundVar(var(1, 0)), known))),
    );
}

#[test]
fn the_kinds_of_a_binder_stay() {
    let binders = || vec![
        ir::VariableKind::Const(scalar(ir::Scalar::Bool)),
        ir::VariableKind::Const(ir::Ty::BoundVar(var(0, 0))),
        ir::VariableKind::Lifetime,
    ];
    let bounds = || {
        let (a, b) = (ir::Lifetime::Static, ir::Lifetime::Erased);
        vec![clause(binders(), ir::WhereClause::LifetimeOutlives { a, b })]
    };
    let lifetime = ir::Lifetime::Static;
    let object = ir::Ty::Dyn { binders: binders(), bounds: bounds(), lifetime };
    assert_eq!(format!("{:?}", object.shifted_in()), format!("{:?}", object));
}

#[test]
fn variables_shift_in_and_out() {
    let two = bound_var::DebruijnIndex { depth: 2 };
    assert_eq!(var(3, 9).shifted_in_from(two), var(5, 9));
    assert_eq!(var(3, 9).shifted_out_to(two), Some(var(1, 9)));
    assert_eq!(var(2, 9).shifted_out_to(two), Some(var(0, 9)));
    assert_eq!(var(1, 9).shifted_out_to(two), None);
    assert_eq!(two.shifted_in().depth, 3);
    assert_eq!(bound_var::DebruijnIndex::innermost().depth, 0);
    assert_eq!(bound_var::DebruijnIndex::one().depth, 1);
    assert_eq!(bound_var::BoundVar::new(two, 4), var(2, 4));
}
