//! Traits that the language itself knows, and the attributes that mark them.

use vstd::prelude::*;

verus! {

/// A trait that the solver treats specially.
#[derive(Clone, Copy, PartialEq, Eq, Structural, Debug, Hash)]
pub enum WellKnownTrait {
    Sized,
    Copy,
    Clone,
    Drop,
    FnOnce,
    FnMut,
    Fn,
    Unsize,
    Unpin,
    CoerceUnsized,
    DiscriminantKind,
}

/// The `#[lang = ".."]` attribute on a well-known trait.
pub open spec fn lang_attr(trait_: WellKnownTrait) -> Seq<char> {
    match trait_ {
        WellKnownTrait::Sized => "sized"@,
        WellKnownTrait::Copy => "copy"@,
        WellKnownTrait::Clone => "clone"@,
        WellKnownTrait::Drop => "drop"@,
        WellKnownTrait::FnOnce => "fn_once"@,
        WellKnownTrait::FnMut => "fn_mut"@,
        WellKnownTrait::Fn => "fn"@,
        WellKnownTrait::Unsize => "unsize"@,
        WellKnownTrait::Unpin => "unpin"@,
        WellKnownTrait::CoerceUnsized => "coerce_unsized"@,
        WellKnownTrait::DiscriminantKind => "discriminant_kind"@,
    }
}

/// The well-known trait that a trait with the attribute `name` is read as. `Unpin` is looked up
/// by its attribute, but no trait is read as it.
pub open spec fn marked_trait(name: Seq<char>) -> Option<WellKnownTrait> {
    if name == "sized"@ {
        Some(WellKnownTrait::Sized)
    } else if name == "copy"@ {
        Some(WellKnownTrait::Copy)
    } else if name == "clone"@ {
        Some(WellKnownTrait::Clone)
    } else if name == "drop"@ {
        Some(WellKnownTrait::Drop)
    } else if name == "fn_once"@ {
        Some(WellKnownTrait::FnOnce)
    } else if name == "fn_mut"@ {
        Some(WellKnownTrait::FnMut)
    } else if name == "fn"@ {
        Some(WellKnownTrait::Fn)
    } else if name == "unsize"@ {
        Some(WellKnownTrait::Unsize)
    } else if name == "coerce_unsized"@ {
        Some(WellKnownTrait::CoerceUnsized)
    } else if name == "discriminant_kind"@ {
        Some(WellKnownTrait::DiscriminantKind)
    } else {
        None
    }
}

/// No two well-known traits carry the same attribute.
pub proof fn lang_attrs_are_distinct(a: WellKnownTrait, b: WellKnownTrait)
    ensures
        lang_attr(a) == lang_attr(b) ==> a == b,
{
    reveal_strlit("sized");
    reveal_strlit("copy");
    reveal_strlit("clone");
    reveal_strlit("drop");
    reveal_strlit("fn_once");
    reveal_strlit("fn_mut");
    reveal_strlit("fn");
    reveal_strlit("unsize");
    reveal_strlit("unpin");
    reveal_strlit("coerce_unsized");
    reveal_strlit("discriminant_kind");
    if a != b {
        assert(lang_attr(a).len() != lang_attr(b).len() || exists|i: int|
            0 <= i < lang_attr(a).len() && #[trigger] lang_attr(a)[i] != lang_attr(b)[i]) by {
            if lang_attr(a).len() == lang_attr(b).len() {
                assert(lang_attr(a)[0] != lang_attr(b)[0] || lang_attr(a)[1] != lang_attr(b)[1]);
            }
        }
    }
}

fn same_str(a: &str, b: &str) -> (same: bool)
    ensures
        same == (a@ == b@),
{
    a.to_owned() == b.to_owned()
}

/// The well-known trait that the attribute `name` marks.
pub fn well_known_trait_from_lang_attr(name: &str) -> (trait_: Option<WellKnownTrait>)
    ensures
        trait_ == marked_trait(name@),
{
    if same_str(name, "sized") {
        Some(WellKnownTrait::Sized)
    } else if same_str(name, "copy") {
        Some(WellKnownTrait::Copy)
    } else if same_str(name, "clone") {
        Some(WellKnownTrait::Clone)
    } else if same_str(name, "drop") {
        Some(WellKnownTrait::Drop)
    } else if same_str(name, "fn_once") {
        Some(WellKnownTrait::FnOnce)
    } else if same_str(name, "fn_mut") {
        Some(WellKnownTrait::FnMut)
    } else if same_str(name, "fn") {
        Some(WellKnownTrait::Fn)
    } else if same_str(name, "unsize") {
        Some(WellKnownTrait::Unsize)
    } else if same_str(name, "coerce_unsized") {
        Some(WellKnownTrait::CoerceUnsized)
    } else if same_str(name, "discriminant_kind") {
        Some(WellKnownTrait::DiscriminantKind)
    } else {
        None
    }
}

/// The attribute by which a well-known trait is looked up.
pub fn lang_attr_from_well_known_trait(attr: WellKnownTrait) -> (name: &'static str)
    ensures
        name@ == lang_attr(attr),
{
    match attr {
        WellKnownTrait::Sized => "sized",
        WellKnownTrait::Copy => "copy",
        WellKnownTrait::Clone => "clone",
        WellKnownTrait::Drop => "drop",
        WellKnownTrait::FnOnce => "fn_once",
        WellKnownTrait::FnMut => "fn_mut",
        WellKnownTrait::Fn => "fn",
        WellKnownTrait::Unsize => "unsize",
        WellKnownTrait::Unpin => "unpin",
        WellKnownTrait::CoerceUnsized => "coerce_unsized",
        WellKnownTrait::DiscriminantKind => "discriminant_kind",
    }
}

/// The attribute of every well-known trait but `Unpin` is read back as that trait.
pub proof fn lang_attr_is_read_back(trait_: WellKnownTrait)
    requires
        trait_ != WellKnownTrait::Unpin,
    ensures
        marked_trait(lang_attr(trait_)) == Some(trait_),
{
    lang_attrs_are_distinct(trait_, WellKnownTrait::Sized);
    lang_attrs_are_distinct(trait_, WellKnownTrait::Copy);
    lang_attrs_are_distinct(trait_, WellKnownTrait::Clone);
    lang_attrs_are_distinct(trait_, WellKnownTrait::Drop);
    lang_attrs_are_distinct(trait_, WellKnownTrait::FnOnce);
    lang_attrs_are_distinct(trait_, WellKnownTrait::FnMut);
    lang_attrs_are_distinct(trait_, WellKnownTrait::Fn);
    lang_attrs_are_distinct(trait_, WellKnownTrait::Unsize);
    lang_attrs_are_distinct(trait_, WellKnownTrait::CoerceUnsized);
    lang_attrs_are_distinct(trait_, WellKnownTrait::DiscriminantKind);
}

/// Each well-known trait is looked up by the attribute with its own name.
pub proof fn attributes_are_named()
    ensures
        lang_attr(WellKnownTrait::Sized) == "sized"@,
        lang_attr(WellKnownTrait::Copy) == "copy"@,
        lang_attr(WellKnownTrait::Clone) == "clone"@,
        lang_attr(WellKnownTrait::Drop) == "drop"@,
        lang_attr(WellKnownTrait::FnOnce) == "fn_once"@,
        lang_attr(WellKnownTrait::FnMut) == "fn_mut"@,
        lang_attr(WellKnownTrait::Fn) == "fn"@,
        lang_attr(WellKnownTrait::Unsize) == "unsize"@,
        lang_attr(WellKnownTrait::Unpin) == "unpin"@,
        lang_attr(WellKnownTrait::CoerceUnsized) == "coerce_unsized"@,
        lang_attr(WellKnownTrait::DiscriminantKind) == "discriminant_kind"@,
{
}

/// An attribute marks a trait if and only if it is the one that the trait is looked up by, `Unpin`
/// left out.
pub proof fn attribute_is_read(name: Seq<char>, trait_: WellKnownTrait)
    ensures
        marked_trait(name) == Some(trait_) <==> name == lang_attr(trait_) && trait_
            != WellKnownTrait::Unpin,
{
    if trait_ != WellKnownTrait::Unpin {
        lang_attr_is_read_back(trait_);
    }
}

/// The attribute of `Unpin` marks no trait.
pub proof fn unpin_attr_is_not_read_back()
    ensures
        marked_trait(lang_attr(WellKnownTrait::Unpin)) is None,
{
    let unpin = WellKnownTrait::Unpin;
    lang_attrs_are_distinct(unpin, WellKnownTrait::Sized);
    lang_attrs_are_distinct(unpin, WellKnownTrait::Copy);
    lang_attrs_are_distinct(unpin, WellKnownTrait::Clone);
    lang_attrs_are_distinct(unpin, WellKnownTrait::Drop);
    lang_attrs_are_distinct(unpin, WellKnownTrait::FnOnce);
    lang_attrs_are_distinct(unpin, WellKnownTrait::FnMut);
    lang_attrs_are_distinct(unpin, WellKnownTrait::Fn);
    lang_attrs_are_distinct(unpin, WellKnownTrait::Unsize);
    lang_attrs_are_distinct(unpin, WellKnownTrait::CoerceUnsized);
    lang_attrs_are_distinct(unpin, WellKnownTrait::DiscriminantKind);
}

/// A trait that an attribute marks is looked up by that attribute again.
pub proof fn marked_trait_has_attr(name: Seq<char>)
    ensures
        marked_trait(name) matches Some(trait_) ==> lang_attr(trait_) == name,
{
}

} // verus!
