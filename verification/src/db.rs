//! What is known of the program under analysis.
//!
//! Types and clauses are held in the form in which the solver reads them, and identifiers are
//! positions in tables.

use vstd::prelude::*;

use crate::hir;
use crate::hir::{
    AdtId, AssocContainerId, AssocItemId, CallableDefId, CrateId, EnumId, FunctionId,
    GenericDefId, ImplId, ImplTraitId, LangItemTarget, StructId, TraitId, TypeAliasId, UnionId,
};
use crate::ids::{InternId, InternedCallableDefId, InternedOpaqueTyId};
use crate::ir::{Binders, QuantifiedWhereClause, TraitRef, Ty};
use crate::rust_ir::QuantifiedInlineBound;

verus! {

/// The name of a definition.
#[derive(Debug)]
pub struct Name {
    pub text: String,
}

impl View for Name {
    type V = Seq<char>;

    open spec fn view(&self) -> Seq<char> {
        self.text@
    }
}

impl Name {
    pub fn same(&self, other: &Name) -> (same: bool)
        ensures
            same == (self@ == other@),
    {
        self.text == other.text
    }

    pub fn to_string(&self) -> (text: String)
        ensures
            text@ == self@,
    {
        self.text.clone()
    }
}

/// The generic parameters of a definition, those of the trait or impl around it included.
#[derive(Debug)]
pub struct Generics {
    pub num_params: usize,
    /// The predicates on the parameters, which are written as the variables of the innermost
    /// binder.
    pub where_clauses: Vec<QuantifiedWhereClause>,
}

/// An item of a trait, with its name.
#[derive(Debug)]
pub struct TraitItem {
    pub name: Name,
    pub item: AssocItemId,
}

#[derive(Debug)]
pub struct TraitData {
    pub name: Name,
    pub krate: CrateId,
    pub is_auto: bool,
    /// The `#[lang = ".."]` attribute.
    pub lang_attr: Option<String>,
    pub generics: Generics,
    pub items: Vec<TraitItem>,
}

#[derive(Debug)]
pub struct ImplData {
    pub krate: CrateId,
    pub is_negative: bool,
    pub generics: Generics,
    /// The trait that is implemented, if the impl has one that can be resolved; it stands
    /// inside a binder of the parameters of the impl.
    pub trait_ref: Option<Binders<TraitRef>>,
    pub items: Vec<AssocItemId>,
}

/// A bound on an associated type, lowered to the predicates that it stands for. A predicate that
/// does not speak of the associated type cannot be written as a bound on it.
#[derive(Debug)]
pub struct TypeBound {
    pub predicates: Vec<Option<QuantifiedInlineBound>>,
}

#[derive(Debug)]
pub struct TypeAliasData {
    pub name: Name,
    pub container: AssocContainerId,
    pub generics: Generics,
    pub bounds: Vec<TypeBound>,
    /// The aliased type, inside a binder of the parameters.
    pub ty: Binders<Ty>,
}

/// The type of a function.
#[derive(Debug)]
pub struct CallableSig {
    pub params: Vec<Ty>,
    pub ret: Ty,
    pub is_varargs: bool,
}

/// The bounds of an `impl Trait`, inside a binder of the type that they are on.
#[derive(Debug)]
pub struct ReturnTypeImplTrait {
    pub bounds: Binders<Vec<QuantifiedWhereClause>>,
}

#[derive(Debug)]
pub struct ReturnTypeImplTraits {
    pub impl_traits: Vec<ReturnTypeImplTrait>,
}

#[derive(Debug)]
pub struct FunctionData {
    pub generics: Generics,
    pub signature: Binders<CallableSig>,
    pub return_type_impl_traits: Option<Binders<ReturnTypeImplTraits>>,
}

#[derive(Debug)]
pub struct StructData {
    pub name: Name,
    pub krate: CrateId,
    pub generics: Generics,
    /// The type of the constructor.
    pub signature: Binders<CallableSig>,
}

#[derive(Debug)]
pub struct VariantData {
    /// The type of the constructor.
    pub signature: Binders<CallableSig>,
}

#[derive(Debug)]
pub struct EnumData {
    pub name: Name,
    pub krate: CrateId,
    pub generics: Generics,
    pub variants: Vec<VariantData>,
}

#[derive(Debug)]
pub struct UnionData {
    pub name: Name,
    pub krate: CrateId,
    pub generics: Generics,
}

/// A lang item, by the name in its attribute.
#[derive(Debug)]
pub struct LangItem {
    pub name: String,
    pub target: LangItemTarget,
}

/// The shape of a type without its arguments, by which impls are filed.
#[derive(Clone, Copy, PartialEq, Eq, Structural, Debug, Hash)]
pub struct TyFingerprint(pub u64);

/// The impls of a trait.
#[derive(Debug)]
pub struct ImplsOfTrait {
    pub trait_: TraitId,
    pub impls: Vec<ImplId>,
}

/// The impls of a trait that may apply to the types with a fingerprint.
#[derive(Debug)]
pub struct ImplsForSelfTy {
    pub trait_: TraitId,
    pub self_ty: TyFingerprint,
    pub impls: Vec<ImplId>,
}

/// The trait impls of some crates, filed by trait, and by trait and self type.
#[derive(Debug)]
pub struct TraitImpls {
    pub by_trait: Vec<ImplsOfTrait>,
    pub by_self_ty: Vec<ImplsForSelfTy>,
}

#[derive(Debug)]
pub struct CrateData {
    /// The lang items that can be seen from the crate.
    pub lang_items: Vec<LangItem>,
    pub trait_impls_in_crate: TraitImpls,
    pub trait_impls_in_deps: TraitImpls,
}

/// The tables; an identifier is a position in the table of its kind.
#[derive(Debug)]
pub struct HirDatabase {
    pub crates: Vec<CrateData>,
    pub traits: Vec<TraitData>,
    pub impls: Vec<ImplData>,
    pub type_aliases: Vec<TypeAliasData>,
    pub functions: Vec<FunctionData>,
    pub structs: Vec<StructData>,
    pub enums: Vec<EnumData>,
    pub unions: Vec<UnionData>,
    /// The fingerprints of all integer types.
    pub int_fps: Vec<TyFingerprint>,
    /// The fingerprints of all floating-point types.
    pub float_fps: Vec<TyFingerprint>,
    /// The callable definitions that have been interned.
    pub callable_defs: Vec<CallableDefId>,
    /// The opaque types that have been interned.
    pub impl_trait_ids: Vec<ImplTraitId>,
}

/// The first associated type called `name`.
pub open spec fn assoc_type_by_name(items: Seq<TraitItem>, name: Seq<char>) -> Option<TypeAliasId>
    decreases items.len(),
{
    if items.len() == 0 {
        None
    } else {
        match items[0].item {
            AssocItemId::TypeAliasId(alias) => if items[0].name@ == name {
                Some(alias)
            } else {
                assoc_type_by_name(items.drop_first(), name)
            },
            _ => assoc_type_by_name(items.drop_first(), name),
        }
    }
}

/// The associated types, in the order of the trait.
pub open spec fn assoc_types(items: Seq<TraitItem>) -> Seq<TypeAliasId> {
    items.filter(|item: TraitItem| item.item is TypeAliasId).map_values(
        |item: TraitItem| item.item->TypeAliasId_0,
    )
}

impl TraitData {
    pub fn associated_type_by_name(&self, name: &Name) -> (alias: Option<TypeAliasId>)
        ensures
            alias == assoc_type_by_name(self.items@, name@),
    {
        let mut i: usize = 0;
        assert(self.items@.skip(0) == self.items@);
        while i < self.items.len()
            invariant
                i <= self.items@.len(),
                assoc_type_by_name(self.items@, name@) == assoc_type_by_name(
                    self.items@.skip(i as int),
                    name@,
                ),
            decreases self.items@.len() - i,
        {
            assert(self.items@.skip(i as int)[0] == self.items@[i as int]);
            assert(self.items@.skip(i as int).drop_first() == self.items@.skip(i + 1));
            if let AssocItemId::TypeAliasId(alias) = self.items[i].item {
                if self.items[i].name.same(name) {
                    return Some(alias);
                }
            }
            i = i + 1;
        }
        None
    }

    pub fn associated_types(&self) -> (aliases: Vec<TypeAliasId>)
        ensures
            aliases@ == assoc_types(self.items@),
    {
        let mut aliases: Vec<TypeAliasId> = Vec::new();
        let ghost pred = |item: TraitItem| item.item is TypeAliasId;
        let ghost alias_of = |item: TraitItem| item.item->TypeAliasId_0;
        for i in 0..self.items.len()
            invariant
                pred == (|item: TraitItem| item.item is TypeAliasId),
                alias_of == (|item: TraitItem| item.item->TypeAliasId_0),
                aliases@ == self.items@.take(i as int).filter(pred).map_values(alias_of),
        {
            proof {
                lemma_filter_step(self.items@, i as int, pred);
            }
            if let AssocItemId::TypeAliasId(alias) = self.items[i].item {
                aliases.push(alias);
            }
        }
        assert(self.items@.take(self.items@.len() as int) == self.items@);
        aliases
    }
}

/// Filtering one element more.
pub proof fn lemma_filter_step<A>(s: Seq<A>, i: int, pred: spec_fn(A) -> bool)
    requires
        0 <= i < s.len(),
    ensures
        s.take(i + 1).filter(pred) == (if pred(s[i]) {
            s.take(i).filter(pred).push(s[i])
        } else {
            s.take(i).filter(pred)
        }),
{
    reveal(Seq::filter);
    assert(s.take(i + 1).drop_last() == s.take(i));
    assert(s.take(i + 1).last() == s[i]);
}

/// The impls filed under `trait_`.
pub open spec fn impls_of_trait(lists: Seq<ImplsOfTrait>, trait_: TraitId) -> Seq<ImplId>
    decreases lists.len(),
{
    if lists.len() == 0 {
        seq![]
    } else if lists[0].trait_ == trait_ {
        lists[0].impls@
    } else {
        impls_of_trait(lists.drop_first(), trait_)
    }
}

/// The impls filed under `trait_` and `self_ty`.
pub open spec fn impls_for_self_ty(
    lists: Seq<ImplsForSelfTy>,
    trait_: TraitId,
    self_ty: TyFingerprint,
) -> Seq<ImplId>
    decreases lists.len(),
{
    if lists.len() == 0 {
        seq![]
    } else if lists[0].trait_ == trait_ && lists[0].self_ty == self_ty {
        lists[0].impls@
    } else {
        impls_for_self_ty(lists.drop_first(), trait_, self_ty)
    }
}

impl TraitImpls {
    /// All impls of `trait_`.
    pub fn for_trait(&self, trait_: TraitId) -> (impls: &[ImplId])
        ensures
            impls@ == impls_of_trait(self.by_trait@, trait_),
    {
        let mut i: usize = 0;
        assert(self.by_trait@.skip(0) == self.by_trait@);
        while i < self.by_trait.len()
            invariant
                i <= self.by_trait@.len(),
                impls_of_trait(self.by_trait@, trait_) == impls_of_trait(
                    self.by_trait@.skip(i as int),
                    trait_,
                ),
            decreases self.by_trait@.len() - i,
        {
            assert(self.by_trait@.skip(i as int)[0] == self.by_trait@[i as int]);
            assert(self.by_trait@.skip(i as int).drop_first() == self.by_trait@.skip(i + 1));
            if self.by_trait[i].trait_ == trait_ {
                return self.by_trait[i].impls.as_slice();
            }
            i = i + 1;
        }
        &[]
    }

    /// The impls of `trait_` that may apply to the types with the fingerprint `self_ty`.
    pub fn for_trait_and_self_ty(&self, trait_: TraitId, self_ty: TyFingerprint) -> (impls: &[
        ImplId
    ])
        ensures
            impls@ == impls_for_self_ty(self.by_self_ty@, trait_, self_ty),
    {
        let mut i: usize = 0;
        assert(self.by_self_ty@.skip(0) == self.by_self_ty@);
        while i < self.by_self_ty.len()
            invariant
                i <= self.by_self_ty@.len(),
                impls_for_self_ty(self.by_self_ty@, trait_, self_ty) == impls_for_self_ty(
                    self.by_self_ty@.skip(i as int),
                    trait_,
                    self_ty,
                ),
            decreases self.by_self_ty@.len() - i,
        {
            assert(self.by_self_ty@.skip(i as int)[0] == self.by_self_ty@[i as int]);
            assert(self.by_self_ty@.skip(i as int).drop_first() == self.by_self_ty@.skip(i + 1));
            if self.by_self_ty[i].trait_ == trait_ && self.by_self_ty[i].self_ty == self_ty {
                return self.by_self_ty[i].impls.as_slice();
            }
            i = i + 1;
        }
        &[]
    }
}

/// What the first of `items` called `name` stands on.
pub open spec fn lang_item_target(items: Seq<LangItem>, name: Seq<char>) -> Option<LangItemTarget>
    decreases items.len(),
{
    if items.len() == 0 {
        None
    } else if items[0].name@ == name {
        Some(items[0].target)
    } else {
        lang_item_target(items.drop_first(), name)
    }
}

/// The position of the first element of `s` that is `x`; the length of `s` if there is none.
pub open spec fn first_position<A>(s: Seq<A>, x: A) -> nat
    decreases s.len(),
{
    if s.len() == 0 || s[0] == x {
        0
    } else {
        1 + first_position(s.drop_first(), x)
    }
}

pub proof fn lemma_first_position<A>(s: Seq<A>, x: A, k: int)
    requires
        0 <= k < s.len(),
        s[k] == x,
    ensures
        first_position(s, x) <= k,
        s[first_position(s, x) as int] == x,
    decreases s.len(),
{
    if s[0] != x {
        assert(s.drop_first()[k - 1] == x);
        lemma_first_position(s.drop_first(), x, k - 1);
    }
}

impl HirDatabase {
    pub open spec fn has_crate(self, id: CrateId) -> bool {
        id.0 < self.crates@.len()
    }

    pub open spec fn crate_at(self, id: CrateId) -> CrateData {
        self.crates@[id.0 as int]
    }

    pub open spec fn has_trait(self, id: TraitId) -> bool {
        id.0.0 < self.traits@.len()
    }

    pub open spec fn trait_at(self, id: TraitId) -> TraitData {
        self.traits@[id.0.0 as int]
    }

    pub open spec fn has_impl(self, id: ImplId) -> bool {
        id.0.0 < self.impls@.len()
    }

    pub open spec fn impl_at(self, id: ImplId) -> ImplData {
        self.impls@[id.0.0 as int]
    }

    pub open spec fn has_alias(self, id: TypeAliasId) -> bool {
        id.0.0 < self.type_aliases@.len()
    }

    pub open spec fn alias_at(self, id: TypeAliasId) -> TypeAliasData {
        self.type_aliases@[id.0.0 as int]
    }

    pub open spec fn has_function(self, id: FunctionId) -> bool {
        id.0.0 < self.functions@.len()
    }

    pub open spec fn function_at(self, id: FunctionId) -> FunctionData {
        self.functions@[id.0.0 as int]
    }

    pub open spec fn has_struct(self, id: StructId) -> bool {
        id.0.0 < self.structs@.len()
    }

    pub open spec fn struct_at(self, id: StructId) -> StructData {
        self.structs@[id.0.0 as int]
    }

    pub open spec fn has_enum(self, id: EnumId) -> bool {
        id.0.0 < self.enums@.len()
    }

    pub open spec fn enum_at(self, id: EnumId) -> EnumData {
        self.enums@[id.0.0 as int]
    }

    pub open spec fn has_variant(self, id: hir::EnumVariantId) -> bool {
        &&& self.has_enum(id.parent)
        &&& id.local_id < self.enum_at(id.parent).variants@.len()
    }

    pub open spec fn has_union(self, id: UnionId) -> bool {
        id.0.0 < self.unions@.len()
    }

    pub open spec fn union_at(self, id: UnionId) -> UnionData {
        self.unions@[id.0.0 as int]
    }

    pub open spec fn has_adt(self, id: AdtId) -> bool {
        match id {
            AdtId::StructId(id) => self.has_struct(id),
            AdtId::EnumId(id) => self.has_enum(id),
            AdtId::UnionId(id) => self.has_union(id),
        }
    }

    pub open spec fn adt_name_of(self, id: AdtId) -> Seq<char> {
        match id {
            AdtId::StructId(id) => self.struct_at(id).name@,
            AdtId::EnumId(id) => self.enum_at(id).name@,
            AdtId::UnionId(id) => self.union_at(id).name@,
        }
    }

    pub open spec fn adt_crate_of(self, id: AdtId) -> CrateId {
        match id {
            AdtId::StructId(id) => self.struct_at(id).krate,
            AdtId::EnumId(id) => self.enum_at(id).krate,
            AdtId::UnionId(id) => self.union_at(id).krate,
        }
    }

    pub open spec fn has_callable(self, def: CallableDefId) -> bool {
        match def {
            CallableDefId::FunctionId(id) => self.has_function(id),
            CallableDefId::StructId(id) => self.has_struct(id),
            CallableDefId::EnumVariantId(id) => self.has_variant(id),
        }
    }

    pub open spec fn signature_of(self, def: CallableDefId) -> Binders<CallableSig> {
        match def {
            CallableDefId::FunctionId(id) => self.function_at(id).signature,
            CallableDefId::StructId(id) => self.struct_at(id).signature,
            CallableDefId::EnumVariantId(id) => self.enum_at(
                id.parent,
            ).variants@[id.local_id as int].signature,
        }
    }

    pub open spec fn has_generic_def(self, def: GenericDefId) -> bool {
        match def {
            GenericDefId::FunctionId(id) => self.has_function(id),
            GenericDefId::AdtId(id) => self.has_adt(id),
            GenericDefId::TraitId(id) => self.has_trait(id),
            GenericDefId::TypeAliasId(id) => self.has_alias(id),
            GenericDefId::ImplId(id) => self.has_impl(id),
            GenericDefId::EnumVariantId(id) => self.has_variant(id),
        }
    }

    pub open spec fn generics_of(self, def: GenericDefId) -> Generics {
        match def {
            GenericDefId::FunctionId(id) => self.function_at(id).generics,
            GenericDefId::AdtId(AdtId::StructId(id)) => self.struct_at(id).generics,
            GenericDefId::AdtId(AdtId::EnumId(id)) => self.enum_at(id).generics,
            GenericDefId::AdtId(AdtId::UnionId(id)) => self.union_at(id).generics,
            GenericDefId::TraitId(id) => self.trait_at(id).generics,
            GenericDefId::TypeAliasId(id) => self.alias_at(id).generics,
            GenericDefId::ImplId(id) => self.impl_at(id).generics,
            GenericDefId::EnumVariantId(id) => self.enum_at(id.parent).generics,
        }
    }

    pub open spec fn has_interned_callable(self, key: InternedCallableDefId) -> bool {
        key.0.0 < self.callable_defs@.len()
    }

    pub open spec fn callable_of(self, key: InternedCallableDefId) -> CallableDefId {
        self.callable_defs@[key.0.0 as int]
    }

    /// Whether `def` has been interned.
    pub open spec fn is_interned(self, def: CallableDefId) -> bool {
        exists|k: int|
            0 <= k <= u32::MAX && k < self.callable_defs@.len() && #[trigger] self.callable_defs@[k]
                == def
    }

    /// The key of `def`: its first position in the table.
    pub open spec fn callable_key(self, def: CallableDefId) -> InternedCallableDefId {
        InternedCallableDefId(InternId(first_position(self.callable_defs@, def) as u32))
    }

    pub open spec fn has_interned_opaque(self, key: InternedOpaqueTyId) -> bool {
        key.0.0 < self.impl_trait_ids@.len()
    }

    pub open spec fn impl_trait_of(self, key: InternedOpaqueTyId) -> ImplTraitId {
        self.impl_trait_ids@[key.0.0 as int]
    }

    pub fn trait_data(&self, id: TraitId) -> (data: &TraitData)
        requires
            self.has_trait(id),
        ensures
            *data == self.trait_at(id),
    {
        &self.traits[id.0.0 as usize]
    }

    pub fn impl_data(&self, id: ImplId) -> (data: &ImplData)
        requires
            self.has_impl(id),
        ensures
            *data == self.impl_at(id),
    {
        &self.impls[id.0.0 as usize]
    }

    pub fn type_alias_data(&self, id: TypeAliasId) -> (data: &TypeAliasData)
        requires
            self.has_alias(id),
        ensures
            *data == self.alias_at(id),
    {
        &self.type_aliases[id.0.0 as usize]
    }

    pub fn struct_data(&self, id: StructId) -> (data: &StructData)
        requires
            self.has_struct(id),
        ensures
            *data == self.struct_at(id),
    {
        &self.structs[id.0.0 as usize]
    }

    pub fn enum_data(&self, id: EnumId) -> (data: &EnumData)
        requires
            self.has_enum(id),
        ensures
            *data == self.enum_at(id),
    {
        &self.enums[id.0.0 as usize]
    }

    pub fn union_data(&self, id: UnionId) -> (data: &UnionData)
        requires
            self.has_union(id),
        ensures
            *data == self.union_at(id),
    {
        &self.unions[id.0.0 as usize]
    }

    pub fn adt_crate(&self, id: AdtId) -> (krate: CrateId)
        requires
            self.has_adt(id),
        ensures
            krate == self.adt_crate_of(id),
    {
        match id {
            AdtId::StructId(id) => self.struct_data(id).krate,
            AdtId::EnumId(id) => self.enum_data(id).krate,
            AdtId::UnionId(id) => self.union_data(id).krate,
        }
    }

    /// The impls of the crates that `krate` depends on.
    pub fn trait_impls_in_deps(&self, krate: CrateId) -> (impls: &TraitImpls)
        requires
            self.has_crate(krate),
        ensures
            *impls == self.crate_at(krate).trait_impls_in_deps,
    {
        &self.crates[krate.0 as usize].trait_impls_in_deps
    }

    /// The impls of `krate` itself.
    pub fn trait_impls_in_crate(&self, krate: CrateId) -> (impls: &TraitImpls)
        requires
            self.has_crate(krate),
        ensures
            *impls == self.crate_at(krate).trait_impls_in_crate,
    {
        &self.crates[krate.0 as usize].trait_impls_in_crate
    }

    /// The lang item called `name`, as seen from `krate`.
    pub fn lang_item(&self, krate: CrateId, name: String) -> (target: Option<LangItemTarget>)
        requires
            self.has_crate(krate),
        ensures
            target == lang_item_target(self.crate_at(krate).lang_items@, name@),
    {
        let items = &self.crates[krate.0 as usize].lang_items;
        let mut i: usize = 0;
        assert(items@.skip(0) == items@);
        while i < items.len()
            invariant
                *items == self.crate_at(krate).lang_items,
                i <= items@.len(),
                lang_item_target(items@, name@) == lang_item_target(items@.skip(i as int), name@),
            decreases items@.len() - i,
        {
            assert(items@.skip(i as int)[0] == items@[i as int]);
            assert(items@.skip(i as int).drop_first() == items@.skip(i + 1));
            if items[i].name == name {
                return Some(items[i].target);
            }
            i = i + 1;
        }
        None
    }

    pub fn lookup_intern_callable_def(&self, key: InternedCallableDefId) -> (def: CallableDefId)
        requires
            self.has_interned_callable(key),
        ensures
            def == self.callable_of(key),
    {
        self.callable_defs[key.0.0 as usize]
    }

    /// The key of a callable definition that has been interned.
    pub fn intern_callable_def(&self, def: CallableDefId) -> (key: InternedCallableDefId)
        requires
            self.is_interned(def),
        ensures
            key == self.callable_key(def),
            self.has_interned_callable(key),
            self.callable_of(key) == def,
    {
        let mut i: u32 = 0;
        proof {
            let witness = choose|k: int|
                0 <= k <= u32::MAX && k < self.callable_defs@.len()
                    && #[trigger] self.callable_defs@[k] == def;
            lemma_first_position(self.callable_defs@, def, witness);
        }
        assert(self.callable_defs@.skip(0) == self.callable_defs@);
        while self.callable_defs[i as usize] != def
            invariant
                first_position(self.callable_defs@, def) < self.callable_defs@.len(),
                first_position(self.callable_defs@, def) <= u32::MAX,
                first_position(self.callable_defs@, def) == i + first_position(
                    self.callable_defs@.skip(i as int),
                    def,
                ),
            decreases first_position(self.callable_defs@, def) - i,
        {
            assert(self.callable_defs@.skip(i as int)[0] == self.callable_defs@[i as int]);
            assert(self.callable_defs@.skip(i as int).drop_first() == self.callable_defs@.skip(
                i + 1,
            ));
            i = i + 1;
        }
        assert(self.callable_defs@.skip(i as int)[0] == self.callable_defs@[i as int]);
        InternedCallableDefId(InternId(i))
    }

    pub fn lookup_intern_impl_trait_id(&self, key: InternedOpaqueTyId) -> (id: ImplTraitId)
        requires
            self.has_interned_opaque(key),
        ensures
            id == self.impl_trait_of(key),
    {
        self.impl_trait_ids[key.0.0 as usize]
    }

    /// The bounds of the `impl Trait`s in the return type of a function, if there are any.
    pub fn return_type_impl_traits(&self, func: FunctionId) -> (data: &Option<
        Binders<ReturnTypeImplTraits>,
    >)
        requires
            self.has_function(func),
        ensures
            *data == self.function_at(func).return_type_impl_traits,
    {
        &self.functions[func.0.0 as usize].return_type_impl_traits
    }

    pub fn callable_item_signature(&self, def: CallableDefId) -> (sig: &Binders<CallableSig>)
        requires
            self.has_callable(def),
        ensures
            *sig == self.signature_of(def),
    {
        match def {
            CallableDefId::FunctionId(id) => &self.functions[id.0.0 as usize].signature,
            CallableDefId::StructId(id) => &self.structs[id.0.0 as usize].signature,
            CallableDefId::EnumVariantId(id) => {
                &self.enums[id.parent.0.0 as usize].variants[id.local_id as usize].signature
            },
        }
    }

    pub fn generics(&self, def: GenericDefId) -> (generics: &Generics)
        requires
            self.has_generic_def(def),
        ensures
            *generics == self.generics_of(def),
    {
        match def {
            GenericDefId::FunctionId(id) => &self.functions[id.0.0 as usize].generics,
            GenericDefId::AdtId(AdtId::StructId(id)) => &self.structs[id.0.0 as usize].generics,
            GenericDefId::AdtId(AdtId::EnumId(id)) => &self.enums[id.0.0 as usize].generics,
            GenericDefId::AdtId(AdtId::UnionId(id)) => &self.unions[id.0.0 as usize].generics,
            GenericDefId::TraitId(id) => &self.traits[id.0.0 as usize].generics,
            GenericDefId::TypeAliasId(id) => &self.type_aliases[id.0.0 as usize].generics,
            GenericDefId::ImplId(id) => &self.impls[id.0.0 as usize].generics,
            GenericDefId::EnumVariantId(id) => &self.enums[id.parent.0.0 as usize].generics,
        }
    }
}

} // verus!
