use particle_sandbox::element::{all_kinds, ElementType};
use particle_sandbox::reaction::{Reaction, ReactionRegistry, RegistrationError};

fn rule(a: ElementType, b: ElementType, product: ElementType, energy_milli: u32) -> Reaction {
    Reaction { reactants: vec![a, b], product, energy_milli }
}

fn snapshot(reg: &ReactionRegistry) -> Vec<Option<(ElementType, u32)>> {
    let mut out = Vec::new();
    for a in all_kinds() {
        for b in all_kinds() {
            out.push(reg.find_reaction(a, b).map(|r| (r.product, r.energy_milli)));
        }
    }
    out
}

#[test]
fn forward_registration_installs_both_orders() {
    let mut reg = ReactionRegistry::new();
    assert_eq!(reg.register_reaction(rule(ElementType::Water, ElementType::Fire, ElementType::Steam, 1200)), Ok(()));
    let f = reg.find_reaction(ElementType::Water, ElementType::Fire).unwrap();
    assert_eq!(f.product, ElementType::Steam);
    assert_eq!(f.energy_milli, 1200);
    assert_eq!(f.reactants, vec![ElementType::Water, ElementType::Fire]);
    let g = reg.find_reaction(ElementType::Fire, ElementType::Water).unwrap();
    assert_eq!(g.product, ElementType::Steam);
    assert_eq!(g.energy_milli, 1200);
    assert_eq!(g.reactants, vec![ElementType::Fire, ElementType::Water]);
}

#[test]
fn later_registration_overwrites_both_orders() {
    let mut reg = ReactionRegistry::new();
    reg.register_reaction(rule(ElementType::Oil, ElementType::Fire, ElementType::Fire, 5000)).unwrap();
    reg.register_reaction(rule(ElementType::Fire, ElementType::Oil, ElementType::Fire, 3000)).unwrap();
    assert_eq!(reg.find_reaction(ElementType::Oil, ElementType::Fire).unwrap().energy_milli, 3000);
    assert_eq!(reg.find_reaction(ElementType::Fire, ElementType::Oil).unwrap().energy_milli, 3000);
}

#[test]
fn unregistered_pair_is_none() {
    let reg = ReactionRegistry::default();
    assert!(reg.find_reaction(ElementType::Wall, ElementType::Water).is_none());
    assert!(ReactionRegistry::new().find_reaction(ElementType::Water, ElementType::Fire).is_none());
}

#[test]
fn non_binary_rules_are_refused() {
    let mut reg = ReactionRegistry::default();
    let before = snapshot(&reg);
    let one = Reaction { reactants: vec![ElementType::Wall], product: ElementType::Sand, energy_milli: 1000 };
    assert_eq!(reg.register_reaction(one), Err(RegistrationError::NonBinaryReaction));
    let three = Reaction {
        reactants: vec![ElementType::Wall, ElementType::Sand, ElementType::Water],
        product: ElementType::Sand,
        energy_milli: 1000,
    };
    assert_eq!(reg.register_reaction(three), Err(RegistrationError::NonBinaryReaction));
    assert_eq!(reg.register_reaction(Reaction::default()), Err(RegistrationError::NonBinaryReaction));
    assert_eq!(snapshot(&reg), before);
}

#[test]
fn default_registry_is_symmetric_and_positive() {
    let reg = ReactionRegistry::default();
    for a in all_kinds() {
        for b in all_kinds() {
            let x = reg.find_reaction(a, b).map(|r| (r.product, r.energy_milli));
            let y = reg.find_reaction(b, a).map(|r| (r.product, r.energy_milli));
            assert_eq!(x, y);
            if let Some((_, e)) = x {
                assert!(e > 0);
            }
        }
    }
}

#[test]
fn default_registry_rules() {
    let reg = ReactionRegistry::default();
    let expect = [
        (ElementType::Water, ElementType::Fire, ElementType::Steam, 1200),
        (ElementType::Oil, ElementType::Fire, ElementType::Fire, 5000),
        (ElementType::Powder, ElementType::Fire, ElementType::Sand, 800),
        (ElementType::Water, ElementType::Powder, ElementType::Sand, 1000),
        (ElementType::Water, ElementType::Steam, ElementType::Water, 800),
    ];
    let mut count = 0;
    for s in snapshot(&reg) {
        if s.is_some() {
            count += 1;
        }
    }
    assert_eq!(count, 10);
    for (a, b, p, e) in expect {
        let r = reg.find_reaction(b, a).unwrap();
        assert_eq!((r.product, r.energy_milli), (p, e));
    }
}

#[test]
fn from_rules_registers_in_order() {
    let rules = vec![
        rule(ElementType::Oil, ElementType::Fire, ElementType::Fire, 5000),
        rule(ElementType::Fire, ElementType::Oil, ElementType::Fire, 3000),
        rule(ElementType::Sand, ElementType::Water, ElementType::Powder, 900),
    ];
    let reg = ReactionRegistry::from_rules(&rules).unwrap();
    assert_eq!(reg.find_reaction(ElementType::Oil, ElementType::Fire).unwrap().energy_milli, 3000);
    assert_eq!(reg.find_reaction(ElementType::Water, ElementType::Sand).unwrap().product, ElementType::Powder);
    assert!(reg.find_reaction(ElementType::Water, ElementType::Fire).is_none());
}

#[test]
fn from_rules_stops_at_non_binary_rule() {
    let rules = vec![
        rule(ElementType::Oil, ElementType::Fire, ElementType::Fire, 5000),
        Reaction { reactants: vec![ElementType::Oil], product: ElementType::Fire, energy_milli: 100 },
    ];
    assert_eq!(ReactionRegistry::from_rules(&rules).err(), Some(RegistrationError::NonBinaryReaction));
}

#[test]
fn reaction_default_is_empty_neutral_powder() {
    let r = Reaction::default();
    assert!(r.reactants.is_empty());
    assert_eq!(r.product, ElementType::Powder);
    assert_eq!(r.energy_milli, 1000);
}
