use particle_sandbox::element::{all_kinds, DiffusionRule, Element, ElementType, PaletteColor, SelectedElement};

#[test]
fn every_kind_has_positive_density() {
    let kinds = all_kinds();
    assert_eq!(kinds.len(), 7);
    for kind in kinds {
        let e = Element::from_type(kind);
        assert!(e.density_milli > 0);
    }
}

#[test]
fn catalog_entries() {
    let steam = Element::from_type(ElementType::Steam);
    assert_eq!(steam.color, PaletteColor::White);
    assert_eq!(steam.diffusion_rule, DiffusionRule::Diffuse);
    assert_eq!(steam.density_milli, 100);
    assert!(!steam.flammable);

    let wall = Element::from_type(ElementType::Wall);
    assert_eq!(wall.diffusion_rule, DiffusionRule::Frozen);
    assert_eq!(wall.density_milli, 2000);

    let sand = Element::from_type(ElementType::Sand);
    assert_eq!(sand.color, PaletteColor::Tan);
    assert_eq!(sand.diffusion_rule, DiffusionRule::Fall);
    assert_eq!(sand.density_milli, 1500);

    let oil = Element::from_type(ElementType::Oil);
    assert_eq!(oil.diffusion_rule, DiffusionRule::Fill);
    assert_eq!(oil.density_milli, 800);
    assert!(oil.flammable);
}

#[test]
fn ordinals_follow_declaration_order() {
    let kinds = all_kinds();
    for (i, k) in kinds.iter().enumerate() {
        assert_eq!(k.ordinal(), i);
    }
    assert_eq!(ElementType::Wall.ordinal(), 6);
}

#[test]
fn defaults_pick_powder() {
    assert_eq!(ElementType::default(), ElementType::Powder);
    assert_eq!(SelectedElement::default(), SelectedElement(ElementType::Powder));
}

#[test]
fn element_new_keeps_fields() {
    let e = Element::new(PaletteColor::Grey, DiffusionRule::Frozen, 2000, false);
    assert_eq!(e, Element::from_type(ElementType::Wall));
}
