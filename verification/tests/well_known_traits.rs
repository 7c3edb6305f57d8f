use chalk_lowering::well_known::{
    lang_attr_from_well_known_trait, well_known_trait_from_lang_attr, WellKnownTrait,
};

const ALL: [(WellKnownTrait, &str); 11] = [
    (WellKnownTrait::Sized, "sized"),
    (WellKnownTrait::Copy, "copy"),
    (WellKnownTrait::Clone, "clone"),
    (WellKnownTrait::Drop, "drop"),
    (WellKnownTrait::FnOnce, "fn_once"),
    (WellKnownTrait::FnMut, "fn_mut"),
    (WellKnownTrait::Fn, "fn"),
    (WellKnownTrait::Unsize, "unsize"),
    (WellKnownTrait::Unpin, "unpin"),
    (WellKnownTrait::CoerceUnsized, "coerce_unsized"),
    (WellKnownTrait::DiscriminantKind, "discriminant_kind"),
];

#[test]
fn every_well_known_trait_has_its_attribute() {
    for (trait_, name) in ALL {
        assert_eq!(lang_attr_from_well_known_trait(trait_), name);
    }
}

#[test]
fn attributes_are_read_back_but_for_unpin() {
    for (trait_, name) in ALL {
        let expected = if name == "unpin" { None } else { Some(trait_) };
        assert_eq!(well_known_trait_from_lang_attr(name), expected);
    }
}

#[test]
fn other_attributes_mark_no_well_known_trait() {
    for name in ["", "Sized", "fn_", "future_trait", "sized "] {
        assert_eq!(well_known_trait_from_lang_attr(name), None);
    }
}
