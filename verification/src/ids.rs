//! Identifiers of the trait solver, and the interned keys behind them.

use vstd::prelude::*;

use vstd::std_specs::convert::FromSpecImpl;

use crate::hir;

verus! {

/// A number handed out by an intern table; it is the position of the interned value.
#[derive(Clone, Copy, PartialEq, Eq, Structural, PartialOrd, Ord, Debug, Hash)]
pub struct InternId(pub u32);

/// A trait, as the solver names it.
#[derive(Clone, Copy, PartialEq, Eq, Structural, Debug, Hash)]
pub struct TraitId(pub InternId);

/// An impl, as the solver names it.
#[derive(Clone, Copy, PartialEq, Eq, Structural, Debug, Hash)]
pub struct ImplId(pub InternId);

/// An associated type declared in a trait.
#[derive(Clone, Copy, PartialEq, Eq, Structural, Debug, Hash)]
pub struct AssocTypeId(pub InternId);

/// An associated type given a value in an impl.
#[derive(Clone, Copy, PartialEq, Eq, Structural, Debug, Hash)]
pub struct AssociatedTyValueId(pub InternId);

/// A function, or the constructor of a struct or of an enum variant.
#[derive(Clone, Copy, PartialEq, Eq, Structural, Debug, Hash)]
pub struct FnDefId(pub InternId);

/// An opaque type: `impl Trait` in return position, or the type of an async block.
#[derive(Clone, Copy, PartialEq, Eq, Structural, Debug, Hash)]
pub struct OpaqueTyId(pub InternId);

/// A closure.
#[derive(Clone, Copy, PartialEq, Eq, Structural, Debug, Hash)]
pub struct ClosureId(pub InternId);

/// A generator.
#[derive(Clone, Copy, PartialEq, Eq, Structural, Debug, Hash)]
pub struct GeneratorId(pub InternId);

/// A foreign type.
#[derive(Clone, Copy, PartialEq, Eq, Structural, Debug, Hash)]
pub struct ForeignDefId(pub InternId);

/// A struct, enum or union, as the solver names it.
#[derive(Clone, Copy, PartialEq, Eq, Structural, Debug, Hash)]
pub struct AdtId(pub hir::AdtId);

/// Key of the table of callable definitions.
#[derive(Clone, Copy, PartialEq, Eq, Structural, Debug, Hash)]
pub struct InternedCallableDefId(pub InternId);

/// Key of the table of opaque types.
#[derive(Clone, Copy, PartialEq, Eq, Structural, Debug, Hash)]
pub struct InternedOpaqueTyId(pub InternId);

/// Key of the table of closures.
#[derive(Clone, Copy, PartialEq, Eq, Structural, Debug, Hash)]
pub struct InternedClosureId(pub InternId);

impl FromSpecImpl<FnDefId> for InternedCallableDefId {
    open spec fn obeys_from_spec() -> bool {
        true
    }

    open spec fn from_spec(fn_def_id: FnDefId) -> Self {
        InternedCallableDefId(fn_def_id.0)
    }
}

impl From<FnDefId> for InternedCallableDefId {
    fn from(fn_def_id: FnDefId) -> (key: Self) {
        InternedCallableDefId(fn_def_id.0)
    }
}

impl FromSpecImpl<InternedCallableDefId> for FnDefId {
    open spec fn obeys_from_spec() -> bool {
        true
    }

    open spec fn from_spec(callable_def_id: InternedCallableDefId) -> Self {
        FnDefId(callable_def_id.0)
    }
}

impl From<InternedCallableDefId> for FnDefId {
    fn from(callable_def_id: InternedCallableDefId) -> (id: Self) {
        FnDefId(callable_def_id.0)
    }
}

impl FromSpecImpl<OpaqueTyId> for InternedOpaqueTyId {
    open spec fn obeys_from_spec() -> bool {
        true
    }

    open spec fn from_spec(id: OpaqueTyId) -> Self {
        InternedOpaqueTyId(id.0)
    }
}

impl From<OpaqueTyId> for InternedOpaqueTyId {
    fn from(id: OpaqueTyId) -> (key: Self) {
        InternedOpaqueTyId(id.0)
    }
}

impl FromSpecImpl<InternedOpaqueTyId> for OpaqueTyId {
    open spec fn obeys_from_spec() -> bool {
        true
    }

    open spec fn from_spec(id: InternedOpaqueTyId) -> Self {
        OpaqueTyId(id.0)
    }
}

impl From<InternedOpaqueTyId> for OpaqueTyId {
    fn from(id: InternedOpaqueTyId) -> (opaque: Self) {
        OpaqueTyId(id.0)
    }
}

impl FromSpecImpl<ClosureId> for InternedClosureId {
    open spec fn obeys_from_spec() -> bool {
        true
    }

    open spec fn from_spec(id: ClosureId) -> Self {
        InternedClosureId(id.0)
    }
}

impl From<ClosureId> for InternedClosureId {
    fn from(id: ClosureId) -> (key: Self) {
        InternedClosureId(id.0)
    }
}

impl FromSpecImpl<InternedClosureId> for ClosureId {
    open spec fn obeys_from_spec() -> bool {
        true
    }

    open spec fn from_spec(id: InternedClosureId) -> Self {
        ClosureId(id.0)
    }
}

impl From<InternedClosureId> for ClosureId {
    fn from(id: InternedClosureId) -> (closure: Self) {
        ClosureId(id.0)
    }
}

} // verus!
