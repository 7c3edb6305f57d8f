//! Definitions of the program under analysis: their identifiers and names.

use vstd::prelude::*;

use crate::ids::InternId;

verus! {

/// A crate.
#[derive(Clone, Copy, PartialEq, Eq, Structural, Debug, Hash)]
pub struct CrateId(pub u32);

/// A trait.
#[derive(Clone, Copy, PartialEq, Eq, Structural, Debug, Hash)]
pub struct TraitId(pub InternId);

/// An impl block.
#[derive(Clone, Copy, PartialEq, Eq, Structural, Debug, Hash)]
pub struct ImplId(pub InternId);

/// A type alias: free standing, in a trait, or in an impl.
#[derive(Clone, Copy, PartialEq, Eq, Structural, PartialOrd, Ord, Debug, Hash)]
pub struct TypeAliasId(pub InternId);

/// A struct.
#[derive(Clone, Copy, PartialEq, Eq, Structural, PartialOrd, Ord, Debug, Hash)]
pub struct StructId(pub InternId);

/// An enum.
#[derive(Clone, Copy, PartialEq, Eq, Structural, PartialOrd, Ord, Debug, Hash)]
pub struct EnumId(pub InternId);

/// A union.
#[derive(Clone, Copy, PartialEq, Eq, Structural, PartialOrd, Ord, Debug, Hash)]
pub struct UnionId(pub InternId);

/// A function.
#[derive(Clone, Copy, PartialEq, Eq, Structural, Debug, Hash)]
pub struct FunctionId(pub InternId);

/// A constant.
#[derive(Clone, Copy, PartialEq, Eq, Structural, Debug, Hash)]
pub struct ConstId(pub InternId);

/// A static.
#[derive(Clone, Copy, PartialEq, Eq, Structural, Debug, Hash)]
pub struct StaticId(pub InternId);

/// A module.
#[derive(Clone, Copy, PartialEq, Eq, Structural, Debug, Hash)]
pub struct ModuleId(pub u32);

/// A variant of an enum, by its position.
#[derive(Clone, Copy, PartialEq, Eq, Structural, Debug, Hash)]
pub struct EnumVariantId {
    pub parent: EnumId,
    pub local_id: u32,
}

/// A struct, enum or union.
#[derive(Clone, Copy, PartialEq, Eq, Structural, PartialOrd, Ord, Debug, Hash)]
pub enum AdtId {
    StructId(StructId),
    EnumId(EnumId),
    UnionId(UnionId),
}

/// What can be called by its path.
#[derive(Clone, Copy, PartialEq, Eq, Structural, Debug, Hash)]
pub enum CallableDefId {
    FunctionId(FunctionId),
    StructId(StructId),
    EnumVariantId(EnumVariantId),
}

/// What can have generic parameters.
#[derive(Clone, Copy, PartialEq, Eq, Structural, Debug, Hash)]
pub enum GenericDefId {
    FunctionId(FunctionId),
    AdtId(AdtId),
    TraitId(TraitId),
    TypeAliasId(TypeAliasId),
    ImplId(ImplId),
    EnumVariantId(EnumVariantId),
}

/// An item of a trait or of an impl.
#[derive(Clone, Copy, PartialEq, Eq, Structural, Debug, Hash)]
pub enum AssocItemId {
    FunctionId(FunctionId),
    ConstId(ConstId),
    TypeAliasId(TypeAliasId),
}

/// Where an item stands.
#[derive(Clone, Copy, PartialEq, Eq, Structural, Debug, Hash)]
pub enum AssocContainerId {
    ModuleId(ModuleId),
    ImplId(ImplId),
    TraitId(TraitId),
}

/// What a `#[lang = ".."]` attribute stands on.
#[derive(Clone, Copy, PartialEq, Eq, Structural, Debug, Hash)]
pub enum LangItemTarget {
    EnumId(EnumId),
    FunctionId(FunctionId),
    ImplDefId(ImplId),
    StaticId(StaticId),
    StructId(StructId),
    TraitId(TraitId),
}

/// Where an opaque type comes from.
#[derive(Clone, Copy, PartialEq, Eq, Structural, Debug, Hash)]
pub enum ImplTraitId {
    /// The `idx`-th `impl Trait` in the return type of a function.
    ReturnTypeImplTrait(FunctionId, u16),
    /// The async block at an expression of a body.
    AsyncBlockTypeImplTrait(u32, u32),
}

impl LangItemTarget {
    pub fn as_trait(self) -> (trait_: Option<TraitId>)
        ensures
            trait_ == (match self {
                LangItemTarget::TraitId(id) => Some(id),
                _ => None,
            }),
    {
        match self {
            LangItemTarget::TraitId(id) => Some(id),
            _ => None,
        }
    }
}

/// The generic definition behind a callable one.
pub open spec fn callable_generic_def(def: CallableDefId) -> GenericDefId {
    match def {
        CallableDefId::FunctionId(id) => GenericDefId::FunctionId(id),
        CallableDefId::StructId(id) => GenericDefId::AdtId(AdtId::StructId(id)),
        CallableDefId::EnumVariantId(id) => GenericDefId::EnumVariantId(id),
    }
}

impl CallableDefId {
    pub fn generic_def(self) -> (def: GenericDefId)
        ensures
            def == callable_generic_def(self),
    {
        match self {
            CallableDefId::FunctionId(id) => GenericDefId::FunctionId(id),
            CallableDefId::StructId(id) => GenericDefId::AdtId(AdtId::StructId(id)),
            CallableDefId::EnumVariantId(id) => GenericDefId::EnumVariantId(id),
        }
    }
}

} // verus!
