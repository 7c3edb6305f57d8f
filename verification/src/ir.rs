//! Types, generic arguments and where clauses, as the solver reads them.

use vstd::prelude::*;

use crate::bound_var::BoundVar;
use crate::ids::{
    AdtId, AssocTypeId, ClosureId, FnDefId, ForeignDefId, GeneratorId, OpaqueTyId, TraitId,
};

verus! {

#[derive(Clone, Copy, PartialEq, Eq, Structural, Debug, Hash)]
pub enum IntTy {
    Isize,
    I8,
    I16,
    I32,
    I64,
    I128,
}

#[derive(Clone, Copy, PartialEq, Eq, Structural, Debug, Hash)]
pub enum UintTy {
    Usize,
    U8,
    U16,
    U32,
    U64,
    U128,
}

#[derive(Clone, Copy, PartialEq, Eq, Structural, Debug, Hash)]
pub enum FloatTy {
    F32,
    F64,
}

#[derive(Clone, Copy, PartialEq, Eq, Structural, Debug, Hash)]
pub enum Scalar {
    Bool,
    Char,
    Int(IntTy),
    Uint(UintTy),
    Float(FloatTy),
}

#[derive(Clone, Copy, PartialEq, Eq, Structural, Debug, Hash)]
pub enum Mutability {
    Mut,
    Not,
}

#[derive(Clone, Copy, PartialEq, Eq, Structural, Debug, Hash)]
pub enum Safety {
    Safe,
    Unsafe,
}

#[derive(Clone, Copy, PartialEq, Eq, Structural, Debug, Hash)]
pub enum Variance {
    Covariant,
    Invariant,
    Contravariant,
}

/// What a type variable may stand for.
#[derive(Clone, Copy, PartialEq, Eq, Structural, Debug, Hash)]
pub enum TyVariableKind {
    General,
    Integer,
    Float,
}

/// A universally quantified variable.
#[derive(Clone, Copy, PartialEq, Eq, Structural, Debug, Hash)]
pub struct PlaceholderIndex {
    pub universe: usize,
    pub idx: usize,
}

/// What a function type says besides its arguments.
#[derive(Clone, Copy, PartialEq, Eq, Structural, Debug, Hash)]
pub struct FnSig {
    pub safety: Safety,
    pub variadic: bool,
}

#[derive(Clone, Copy, PartialEq, Eq, Structural, Debug, Hash)]
pub enum Lifetime {
    BoundVar(BoundVar),
    InferenceVar(u32),
    Placeholder(PlaceholderIndex),
    Static,
    Empty(usize),
    Erased,
}

/// The value of a known constant, by the number that stands for it.
#[derive(Clone, Copy, PartialEq, Eq, Structural, Debug, Hash)]
pub struct ConcreteConst(pub u64);

#[derive(Clone, Copy, PartialEq, Eq, Structural, Debug, Hash)]
pub enum ConstValue {
    BoundVar(BoundVar),
    InferenceVar(u32),
    Placeholder(PlaceholderIndex),
    Concrete(ConcreteConst),
}

/// The head of a type that is neither a variable nor a binder.
#[derive(Clone, Copy, PartialEq, Eq, Structural, Debug, Hash)]
pub enum TypeName {
    Adt(AdtId),
    AssociatedType(AssocTypeId),
    Scalar(Scalar),
    Tuple(usize),
    /// Arguments: the element type and the length.
    Array,
    Slice,
    Raw(Mutability),
    /// Arguments: the lifetime and the type referred to.
    Ref(Mutability),
    OpaqueType(OpaqueTyId),
    FnDef(FnDefId),
    Str,
    Never,
    Closure(ClosureId),
    Generator(GeneratorId),
    GeneratorWitness(GeneratorId),
    Foreign(ForeignDefId),
    Error,
    Placeholder(PlaceholderIndex),
    /// A projection `<P0 as Trait<P1..>>::Assoc` that is not normalized yet.
    Projection(AssocTypeId),
    /// An opaque type that is not replaced by its hidden type yet.
    OpaqueAlias(OpaqueTyId),
    InferenceVar(u32, TyVariableKind),
}

/// A type.
#[derive(Debug)]
pub enum Ty {
    BoundVar(BoundVar),
    Apply { name: TypeName, args: Vec<GenericArg> },
    /// A function pointer. The arguments, of which the last is the return type, stand inside
    /// a binder of `num_binders` lifetimes.
    Function { num_binders: usize, sig: FnSig, args: Vec<GenericArg> },
    /// A trait object. The bounds stand inside a binder, which is mostly of one variable, the
    /// self type.
    Dyn { binders: Vec<VariableKind>, bounds: Vec<QuantifiedWhereClause>, lifetime: Lifetime },
}

/// A constant with its type.
#[derive(Debug)]
pub struct Const {
    pub ty: Ty,
    pub value: ConstValue,
}

#[derive(Debug)]
pub enum GenericArg {
    Ty(Ty),
    Lifetime(Lifetime),
    Const(Const),
}

/// What a variable of a binder stands for. A constant has a type.
#[derive(Debug)]
pub enum VariableKind {
    Ty(TyVariableKind),
    Lifetime,
    Const(Ty),
}

/// A variable of a canonical query, with the universe that it lives in.
#[derive(Debug)]
pub struct CanonicalVarKind {
    pub kind: VariableKind,
    pub universe: usize,
}

/// A value inside a binder.
#[derive(Debug)]
pub struct Binders<T> {
    pub binders: Vec<VariableKind>,
    pub value: T,
}

/// A trait with its arguments, the self type first.
#[derive(Debug)]
pub struct TraitRef {
    pub trait_id: TraitId,
    pub substitution: Vec<GenericArg>,
}

#[derive(Debug)]
pub enum AliasTy {
    Projection { associated_ty_id: AssocTypeId, substitution: Vec<GenericArg> },
    Opaque { opaque_ty_id: OpaqueTyId, substitution: Vec<GenericArg> },
}

#[derive(Debug)]
pub enum WhereClause {
    Implemented(TraitRef),
    AliasEq { alias: AliasTy, ty: Ty },
    LifetimeOutlives { a: Lifetime, b: Lifetime },
    TypeOutlives { ty: Ty, lifetime: Lifetime },
}

pub type QuantifiedWhereClause = Binders<WhereClause>;

pub type QuantifiedWhereClauseView = BindersView<WhereClauseView>;

/// The contents of a [`Ty`].
#[verifier::ext_equal]
pub enum TyView {
    BoundVar(BoundVar),
    Apply { name: TypeName, args: Seq<GenericArgView> },
    Function { num_binders: usize, sig: FnSig, args: Seq<GenericArgView> },
    Dyn {
        binders: Seq<VariableKindView>,
        bounds: Seq<QuantifiedWhereClauseView>,
        lifetime: Lifetime,
    },
}

/// The contents of a [`Const`].
#[verifier::ext_equal]
pub struct ConstView {
    pub ty: TyView,
    pub value: ConstValue,
}

/// The contents of a [`GenericArg`].
#[verifier::ext_equal]
pub enum GenericArgView {
    Ty(TyView),
    Lifetime(Lifetime),
    Const(ConstView),
}

/// The contents of a [`VariableKind`].
#[verifier::ext_equal]
pub enum VariableKindView {
    Ty(TyVariableKind),
    Lifetime,
    Const(TyView),
}

/// The contents of a [`Binders`].
#[verifier::ext_equal]
pub struct BindersView<V> {
    pub binders: Seq<VariableKindView>,
    pub value: V,
}

/// The contents of a [`TraitRef`].
#[verifier::ext_equal]
pub struct TraitRefView {
    pub trait_id: TraitId,
    pub substitution: Seq<GenericArgView>,
}

/// The contents of an [`AliasTy`].
#[verifier::ext_equal]
pub enum AliasTyView {
    Projection { associated_ty_id: AssocTypeId, substitution: Seq<GenericArgView> },
    Opaque { opaque_ty_id: OpaqueTyId, substitution: Seq<GenericArgView> },
}

/// The contents of a [`WhereClause`].
#[verifier::ext_equal]
pub enum WhereClauseView {
    Implemented(TraitRefView),
    AliasEq { alias: AliasTyView, ty: TyView },
    LifetimeOutlives { a: Lifetime, b: Lifetime },
    TypeOutlives { ty: TyView, lifetime: Lifetime },
}

pub open spec fn ty_view(ty: Ty) -> TyView
    decreases ty,
{
    match ty {
        Ty::BoundVar(var) => TyView::BoundVar(var),
        Ty::Apply { name, args } => TyView::Apply { name, args: args_view(args@) },
        Ty::Function { num_binders, sig, args } => TyView::Function {
            num_binders,
            sig,
            args: args_view(args@),
        },
        Ty::Dyn { binders, bounds, lifetime } => TyView::Dyn {
            binders: kinds_view(binders@),
            bounds: clauses_view(bounds@),
            lifetime,
        },
    }
}

pub open spec fn const_view(constant: Const) -> ConstView
    decreases constant,
{
    ConstView { ty: ty_view(constant.ty), value: constant.value }
}

pub open spec fn kind_view(kind: VariableKind) -> VariableKindView
    decreases kind,
{
    match kind {
        VariableKind::Ty(kind) => VariableKindView::Ty(kind),
        VariableKind::Lifetime => VariableKindView::Lifetime,
        VariableKind::Const(ty) => VariableKindView::Const(ty_view(ty)),
    }
}

pub open spec fn kinds_view(kinds: Seq<VariableKind>) -> Seq<VariableKindView>
    decreases kinds,
{
    Seq::new(
        kinds.len(),
        |i: int|
            if 0 <= i < kinds.len() {
                kind_view(kinds[i])
            } else {
                arbitrary()
            },
    )
}

pub open spec fn arg_view(arg: GenericArg) -> GenericArgView
    decreases arg,
{
    match arg {
        GenericArg::Ty(ty) => GenericArgView::Ty(ty_view(ty)),
        GenericArg::Lifetime(lifetime) => GenericArgView::Lifetime(lifetime),
        GenericArg::Const(constant) => GenericArgView::Const(const_view(constant)),
    }
}

pub open spec fn args_view(args: Seq<GenericArg>) -> Seq<GenericArgView>
    decreases args,
{
    Seq::new(
        args.len(),
        |i: int|
            if 0 <= i < args.len() {
                arg_view(args[i])
            } else {
                arbitrary()
            },
    )
}

pub open spec fn trait_ref_view(trait_ref: TraitRef) -> TraitRefView
    decreases trait_ref,
{
    TraitRefView {
        trait_id: trait_ref.trait_id,
        substitution: args_view(trait_ref.substitution@),
    }
}

pub open spec fn alias_view(alias: AliasTy) -> AliasTyView
    decreases alias,
{
    match alias {
        AliasTy::Projection { associated_ty_id, substitution } => AliasTyView::Projection {
            associated_ty_id,
            substitution: args_view(substitution@),
        },
        AliasTy::Opaque { opaque_ty_id, substitution } => AliasTyView::Opaque {
            opaque_ty_id,
            substitution: args_view(substitution@),
        },
    }
}

pub open spec fn where_view(clause: WhereClause) -> WhereClauseView
    decreases clause,
{
    match clause {
        WhereClause::Implemented(trait_ref) => WhereClauseView::Implemented(
            trait_ref_view(trait_ref),
        ),
        WhereClause::AliasEq { alias, ty } => WhereClauseView::AliasEq {
            alias: alias_view(alias),
            ty: ty_view(ty),
        },
        WhereClause::LifetimeOutlives { a, b } => WhereClauseView::LifetimeOutlives { a, b },
        WhereClause::TypeOutlives { ty, lifetime } => WhereClauseView::TypeOutlives {
            ty: ty_view(ty),
            lifetime,
        },
    }
}

pub open spec fn clause_view(clause: QuantifiedWhereClause) -> QuantifiedWhereClauseView
    decreases clause,
{
    BindersView { binders: kinds_view(clause.binders@), value: where_view(clause.value) }
}

pub open spec fn clauses_view(clauses: Seq<QuantifiedWhereClause>) -> Seq<
    QuantifiedWhereClauseView,
>
    decreases clauses,
{
    Seq::new(
        clauses.len(),
        |i: int|
            if 0 <= i < clauses.len() {
                clause_view(clauses[i])
            } else {
                arbitrary()
            },
    )
}

pub open spec fn tys_view(tys: Seq<Ty>) -> Seq<TyView> {
    tys.map_values(|ty: Ty| ty_view(ty))
}

impl View for Ty {
    type V = TyView;

    open spec fn view(&self) -> TyView {
        ty_view(*self)
    }
}

impl View for Const {
    type V = ConstView;

    open spec fn view(&self) -> ConstView {
        const_view(*self)
    }
}

impl View for VariableKind {
    type V = VariableKindView;

    open spec fn view(&self) -> VariableKindView {
        kind_view(*self)
    }
}

impl View for GenericArg {
    type V = GenericArgView;

    open spec fn view(&self) -> GenericArgView {
        arg_view(*self)
    }
}

impl View for TraitRef {
    type V = TraitRefView;

    open spec fn view(&self) -> TraitRefView {
        trait_ref_view(*self)
    }
}

impl View for AliasTy {
    type V = AliasTyView;

    open spec fn view(&self) -> AliasTyView {
        alias_view(*self)
    }
}

impl View for WhereClause {
    type V = WhereClauseView;

    open spec fn view(&self) -> WhereClauseView {
        where_view(*self)
    }
}

impl View for Binders<WhereClause> {
    type V = QuantifiedWhereClauseView;

    open spec fn view(&self) -> QuantifiedWhereClauseView {
        clause_view(*self)
    }
}

impl Clone for Ty {
    fn clone(&self) -> (copy: Self)
        ensures
            copy@ == self@,
        decreases self,
    {
        match self {
            Ty::BoundVar(var) => Ty::BoundVar(*var),
            Ty::Apply { name, args } => Ty::Apply { name: *name, args: clone_args(args) },
            Ty::Function { num_binders, sig, args } => Ty::Function {
                num_binders: *num_binders,
                sig: *sig,
                args: clone_args(args),
            },
            Ty::Dyn { binders, bounds, lifetime } => Ty::Dyn {
                binders: clone_kinds(binders),
                bounds: clone_clauses(bounds),
                lifetime: *lifetime,
            },
        }
    }
}

impl Clone for Const {
    fn clone(&self) -> (copy: Self)
        ensures
            copy@ == self@,
        decreases self,
    {
        Const { ty: self.ty.clone(), value: self.value }
    }
}

impl Clone for VariableKind {
    fn clone(&self) -> (copy: Self)
        ensures
            copy@ == self@,
        decreases self,
    {
        match self {
            VariableKind::Ty(kind) => VariableKind::Ty(*kind),
            VariableKind::Lifetime => VariableKind::Lifetime,
            VariableKind::Const(ty) => VariableKind::Const(ty.clone()),
        }
    }
}

impl Clone for GenericArg {
    fn clone(&self) -> (copy: Self)
        ensures
            copy@ == self@,
        decreases self,
    {
        match self {
            GenericArg::Ty(ty) => GenericArg::Ty(ty.clone()),
            GenericArg::Lifetime(lifetime) => GenericArg::Lifetime(*lifetime),
            GenericArg::Const(constant) => GenericArg::Const(constant.clone()),
        }
    }
}

impl Clone for TraitRef {
    fn clone(&self) -> (copy: Self)
        ensures
            copy@ == self@,
        decreases self,
    {
        TraitRef { trait_id: self.trait_id, substitution: clone_args(&self.substitution) }
    }
}

impl Clone for AliasTy {
    fn clone(&self) -> (copy: Self)
        ensures
            copy@ == self@,
        decreases self,
    {
        match self {
            AliasTy::Projection { associated_ty_id, substitution } => AliasTy::Projection {
                associated_ty_id: *associated_ty_id,
                substitution: clone_args(substitution),
            },
            AliasTy::Opaque { opaque_ty_id, substitution } => AliasTy::Opaque {
                opaque_ty_id: *opaque_ty_id,
                substitution: clone_args(substitution),
            },
        }
    }
}

impl Clone for WhereClause {
    fn clone(&self) -> (copy: Self)
        ensures
            copy@ == self@,
        decreases self,
    {
        match self {
            WhereClause::Implemented(trait_ref) => WhereClause::Implemented(trait_ref.clone()),
            WhereClause::AliasEq { alias, ty } => WhereClause::AliasEq {
                alias: alias.clone(),
                ty: ty.clone(),
            },
            WhereClause::LifetimeOutlives { a, b } => WhereClause::LifetimeOutlives {
                a: *a,
                b: *b,
            },
            WhereClause::TypeOutlives { ty, lifetime } => WhereClause::TypeOutlives {
                ty: ty.clone(),
                lifetime: *lifetime,
            },
        }
    }
}

pub fn clone_args(args: &Vec<GenericArg>) -> (copy: Vec<GenericArg>)
    ensures
        args_view(copy@) == args_view(args@),
    decreases args,
{
    let mut copy: Vec<GenericArg> = Vec::new();
    for i in 0..args.len()
        invariant
            copy@.len() == i,
            forall|j: int| 0 <= j < i ==> arg_view(#[trigger] copy@[j]) == arg_view(args@[j]),
    {
        copy.push(args[i].clone());
    }
    copy
}

pub fn clone_clauses(clauses: &Vec<QuantifiedWhereClause>) -> (copy: Vec<QuantifiedWhereClause>)
    ensures
        clauses_view(copy@) == clauses_view(clauses@),
    decreases clauses,
{
    let mut copy: Vec<QuantifiedWhereClause> = Vec::new();
    for i in 0..clauses.len()
        invariant
            copy@.len() == i,
            forall|j: int|
                0 <= j < i ==> clause_view(#[trigger] copy@[j]) == clause_view(clauses@[j]),
    {
        copy.push(Binders {
            binders: clone_kinds(&clauses[i].binders),
            value: clauses[i].value.clone(),
        });
    }
    copy
}

pub fn clone_kinds(kinds: &Vec<VariableKind>) -> (copy: Vec<VariableKind>)
    ensures
        kinds_view(copy@) == kinds_view(kinds@),
    decreases kinds,
{
    let mut copy: Vec<VariableKind> = Vec::new();
    for i in 0..kinds.len()
        invariant
            copy@.len() == i,
            forall|j: int| 0 <= j < i ==> kind_view(#[trigger] copy@[j]) == kind_view(kinds@[j]),
    {
        copy.push(kinds[i].clone());
    }
    copy
}

} // verus!
