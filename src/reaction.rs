//! The reaction registry: a symmetric table from ordered pairs of element
//! kinds to what their contact produces.

use vstd::prelude::*;

use crate::element::{ElementType, ELEMENT_COUNT, lemma_ordinal_bijective};

verus! {

/// Number of ordered pairs of element kinds.
pub const PAIR_COUNT: usize = ELEMENT_COUNT * ELEMENT_COUNT;

/// Slot of the ordered pair `(a, b)` in the registry's table.
pub open spec fn pair_index(a: ElementType, b: ElementType) -> int {
    a.spec_ordinal() * ELEMENT_COUNT + b.spec_ordinal()
}

/// Slots are in range and distinct pairs have distinct slots.
pub proof fn lemma_pair_index(a: ElementType, b: ElementType, c: ElementType, d: ElementType)
    ensures
        0 <= pair_index(a, b) < PAIR_COUNT,
        pair_index(a, b) == pair_index(c, d) <==> (a == c && b == d),
{
    lemma_ordinal_bijective(a, c);
    lemma_ordinal_bijective(b, d);
    let (oa, ob, oc, od) = (
        a.spec_ordinal() as int,
        b.spec_ordinal() as int,
        c.spec_ordinal() as int,
        d.spec_ordinal() as int,
    );
    assert(0 <= oa * 7 + ob < 49 && (oa * 7 + ob == oc * 7 + od ==> oa == oc && ob == od)) by (nonlinear_arith)
        requires
            0 <= oa < 7,
            0 <= ob < 7,
            0 <= oc < 7,
            0 <= od < 7,
    ;
}

fn pair_slot(a: ElementType, b: ElementType) -> (r: usize)
    ensures
        r == pair_index(a, b),
        r < PAIR_COUNT,
{
    proof {
        lemma_pair_index(a, b, a, b);
    }
    a.ordinal() * ELEMENT_COUNT + b.ordinal()
}

/// What the contact of two kinds gives: the product and the energy scalar, in
/// thousandths. Below 1000 the reaction absorbs energy, above 1000 it
/// releases energy, at 1000 it is neutral.
#[derive(Debug, Clone, Copy, PartialEq, Eq, Structural)]
pub struct ReactionOutcome {
    pub product: ElementType,
    pub energy_milli: u32,
}

/// A reaction rule. Only rules with exactly two reactants can be registered;
/// the energy scalar is in thousandths and must be positive.
#[derive(Debug)]
pub struct Reaction {
    pub reactants: Vec<ElementType>,
    pub product: ElementType,
    pub energy_milli: u32,
}

impl Reaction {
    pub open spec fn outcome(self) -> ReactionOutcome {
        ReactionOutcome { product: self.product, energy_milli: self.energy_milli }
    }

    pub open spec fn is_binary(self) -> bool {
        self.reactants@.len() == 2
    }
}

impl Default for Reaction {
    fn default() -> (r: Self)
        ensures
            r.reactants@.len() == 0,
            r.product == ElementType::Powder,
            r.energy_milli == 1000,
    {
        Reaction { reactants: Vec::new(), product: ElementType::Powder, energy_milli: 1000 }
    }
}

#[derive(Debug, Clone, Copy, PartialEq, Eq, Structural)]
pub enum RegistrationError {
    /// The rule does not have exactly two reactants.
    NonBinaryReaction,
}

/// Rule table as a map: registering `(a, b)` also installs `(b, a)`, and a
/// later rule on the same pair replaces the earlier one.
pub open spec fn with_rule(
    m: Map<(ElementType, ElementType), ReactionOutcome>,
    r: Reaction,
) -> Map<(ElementType, ElementType), ReactionOutcome> {
    if r.is_binary() {
        let (a, b) = (r.reactants@[0], r.reactants@[1]);
        m.insert((a, b), r.outcome()).insert((b, a), r.outcome())
    } else {
        m
    }
}

/// The rules of `rules` registered in order.
pub open spec fn with_rules(
    m: Map<(ElementType, ElementType), ReactionOutcome>,
    rules: Seq<Reaction>,
) -> Map<(ElementType, ElementType), ReactionOutcome>
    decreases rules.len(),
{
    if rules.len() == 0 {
        m
    } else {
        with_rule(with_rules(m, rules.drop_last()), rules.last())
    }
}

/// Both orders of every pair resolve to the same outcome.
pub open spec fn is_symmetric(m: Map<(ElementType, ElementType), ReactionOutcome>) -> bool {
    forall|a: ElementType, b: ElementType|
        #[trigger] m.contains_key((a, b)) ==> m.contains_key((b, a)) && m[(b, a)] == m[(a, b)]
}

/// Every rule has a positive energy scalar.
pub open spec fn energies_positive(m: Map<(ElementType, ElementType), ReactionOutcome>) -> bool {
    forall|a: ElementType, b: ElementType|
        #[trigger] m.contains_key((a, b)) ==> m[(a, b)].energy_milli > 0
}

pub struct ReactionRegistry {
    slots: Vec<Option<ReactionOutcome>>,
}

impl View for ReactionRegistry {
    type V = Map<(ElementType, ElementType), ReactionOutcome>;

    closed spec fn view(&self) -> Self::V {
        Map::new(
            |p: (ElementType, ElementType)| self.slots@[pair_index(p.0, p.1)] is Some,
            |p: (ElementType, ElementType)| self.slots@[pair_index(p.0, p.1)]->0,
        )
    }
}

impl ReactionRegistry {
    pub closed spec fn wf(self) -> bool {
        &&& self.slots@.len() == PAIR_COUNT
        &&& is_symmetric(self@)
        &&& energies_positive(self@)
    }

    /// A registry with no rules.
    pub fn new() -> (r: Self)
        ensures
            r.wf(),
            r@ == Map::<(ElementType, ElementType), ReactionOutcome>::empty(),
    {
        let mut slots: Vec<Option<ReactionOutcome>> = Vec::new();
        let mut i: usize = 0;
        while i < PAIR_COUNT
            invariant
                i <= PAIR_COUNT,
                slots@.len() == i,
                forall|j: int| 0 <= j < i ==> slots@[j] is None,
            decreases PAIR_COUNT - i,
        {
            slots.push(None);
            i = i + 1;
        }
        let r = ReactionRegistry { slots };
        assert forall|a: ElementType, b: ElementType| !r@.contains_key((a, b)) by {
            lemma_pair_index(a, b, a, b);
        }
        assert(r@ =~= Map::empty());
        r
    }

    /// Installs the outcome under `(a, b)` and `(b, a)`.
    fn install(&mut self, a: ElementType, b: ElementType, o: ReactionOutcome)
        requires
            old(self).wf(),
            o.energy_milli > 0,
        ensures
            final(self).wf(),
            final(self)@ == old(self)@.insert((a, b), o).insert((b, a), o),
    {
        let i = pair_slot(a, b);
        let j = pair_slot(b, a);
        self.slots.set(i, Some(o));
        self.slots.set(j, Some(o));
        let ghost m = old(self)@.insert((a, b), o).insert((b, a), o);
        assert forall|p: (ElementType, ElementType)|
            #![trigger self@.contains_key(p)]
            #![trigger m.contains_key(p)]
            self@.contains_key(p) == m.contains_key(p) && (m.contains_key(p) ==> self@[p] == m[p]) by {
            lemma_pair_index(p.0, p.1, a, b);
            lemma_pair_index(p.0, p.1, b, a);
        }
        assert(self@ =~= m);
        assert forall|c: ElementType, d: ElementType| #[trigger] m.contains_key((c, d)) implies
            m.contains_key((d, c)) && m[(d, c)] == m[(c, d)] && m[(c, d)].energy_milli > 0 by {
            assert(old(self)@.contains_key((c, d)) ==> old(self)@.contains_key((d, c)));
        }
    }

    /// Registers a binary rule in both orders; a later rule on the same pair
    /// replaces the earlier one. A rule without exactly two reactants is
    /// refused and leaves the registry unchanged.
    pub fn register_reaction(&mut self, reaction: Reaction) -> (r: Result<(), RegistrationError>)
        requires
            old(self).wf(),
            reaction.energy_milli > 0,
        ensures
            final(self).wf(),
            final(self)@ == with_rule(old(self)@, reaction),
            !reaction.is_binary() ==> final(self)@ == old(self)@,
            r is Err <==> !reaction.is_binary(),
            r is Err ==> r == Err::<(), RegistrationError>(RegistrationError::NonBinaryReaction),
    {
        self.register_ref(&reaction)
    }

    fn register_ref(&mut self, reaction: &Reaction) -> (r: Result<(), RegistrationError>)
        requires
            old(self).wf(),
            reaction.energy_milli > 0,
        ensures
            final(self).wf(),
            final(self)@ == with_rule(old(self)@, *reaction),
            r is Err <==> !reaction.is_binary(),
            r is Err ==> r == Err::<(), RegistrationError>(RegistrationError::NonBinaryReaction),
    {
        if reaction.reactants.len() != 2 {
            return Err(RegistrationError::NonBinaryReaction);
        }
        let a = reaction.reactants[0];
        let b = reaction.reactants[1];
        self.install(a, b, ReactionOutcome { product: reaction.product, energy_milli: reaction.energy_milli });
        Ok(())
    }

    /// Looks up the rule for the ordered pair `(a, b)`. The returned rule lists
    /// the reactants in the order asked; `None` means the kinds do not react.
    pub fn find_reaction(&self, element1: ElementType, element2: ElementType) -> (r: Option<Reaction>)
        requires
            self.wf(),
        ensures
            r is Some <==> self@.contains_key((element1, element2)),
            r matches Some(x) ==> {
                &&& x.reactants@ == seq![element1, element2]
                &&& x.outcome() == self@[(element1, element2)]
            },
    {
        let i = pair_slot(element1, element2);
        match self.slots[i] {
            Some(o) => {
                let reactants = vec![element1, element2];
                Some(Reaction { reactants, product: o.product, energy_milli: o.energy_milli })
            },
            None => None,
        }
    }

    /// Builds a registry from `rules`, registered in order. Stops with an
    /// error at the first rule that does not have exactly two reactants.
    pub fn from_rules(rules: &Vec<Reaction>) -> (r: Result<Self, RegistrationError>)
        requires
            forall|i: int| 0 <= i < rules@.len() ==> #[trigger] rules@[i].energy_milli > 0,
        ensures
            r is Err <==> exists|i: int| 0 <= i < rules@.len() && !(#[trigger] rules@[i].is_binary()),
            r matches Err(e) ==> e == RegistrationError::NonBinaryReaction,
            r matches Ok(reg) ==> reg.wf() && reg@ == with_rules(Map::empty(), rules@),
    {
        let mut reg = ReactionRegistry::new();
        let mut i: usize = 0;
        while i < rules.len()
            invariant
                i <= rules@.len(),
                reg.wf(),
                reg@ == with_rules(Map::empty(), rules@.subrange(0, i as int)),
                forall|j: int| 0 <= j < i ==> #[trigger] rules@[j].is_binary(),
                forall|j: int| 0 <= j < rules@.len() ==> #[trigger] rules@[j].energy_milli > 0,
            decreases rules@.len() - i,
        {
            let res = reg.register_ref(&rules[i]);
            if res.is_err() {
                return Err(RegistrationError::NonBinaryReaction);
            }
            assert(rules@.subrange(0, i + 1).drop_last() =~= rules@.subrange(0, i as int));
            i = i + 1;
        }
        assert(rules@.subrange(0, i as int) =~= rules@);
        Ok(reg)
    }
}


/// The seeded rule set, in registration order.
pub open spec fn default_rules() -> Map<(ElementType, ElementType), ReactionOutcome> {
    Map::empty()
        .insert((ElementType::Water, ElementType::Fire), ReactionOutcome { product: ElementType::Steam, energy_milli: 1200 })
        .insert((ElementType::Fire, ElementType::Water), ReactionOutcome { product: ElementType::Steam, energy_milli: 1200 })
        .insert((ElementType::Oil, ElementType::Fire), ReactionOutcome { product: ElementType::Fire, energy_milli: 5000 })
        .insert((ElementType::Fire, ElementType::Oil), ReactionOutcome { product: ElementType::Fire, energy_milli: 5000 })
        .insert((ElementType::Powder, ElementType::Fire), ReactionOutcome { product: ElementType::Sand, energy_milli: 800 })
        .insert((ElementType::Fire, ElementType::Powder), ReactionOutcome { product: ElementType::Sand, energy_milli: 800 })
        .insert((ElementType::Water, ElementType::Powder), ReactionOutcome { product: ElementType::Sand, energy_milli: 1000 })
        .insert((ElementType::Powder, ElementType::Water), ReactionOutcome { product: ElementType::Sand, energy_milli: 1000 })
        .insert((ElementType::Water, ElementType::Steam), ReactionOutcome { product: ElementType::Water, energy_milli: 800 })
        .insert((ElementType::Steam, ElementType::Water), ReactionOutcome { product: ElementType::Water, energy_milli: 800 })
}

impl ReactionRegistry {
    /// Registers the built-in rule set.
    fn register_reactions(&mut self)
        requires
            old(self).wf(),
        ensures
            final(self).wf(),
            final(self)@ == old(self)@.union_prefer_right(default_rules()),
    {
        let ghost m0 = self@;
        let _ = self.register_reaction(Reaction {
            reactants: vec![ElementType::Water, ElementType::Fire],
            product: ElementType::Steam,
            energy_milli: 1200,
        });
        let _ = self.register_reaction(Reaction {
            reactants: vec![ElementType::Oil, ElementType::Fire],
            product: ElementType::Fire,
            energy_milli: 5000,
        });
        let _ = self.register_reaction(Reaction {
            reactants: vec![ElementType::Powder, ElementType::Fire],
            product: ElementType::Sand,
            energy_milli: 800,
        });
        let _ = self.register_reaction(Reaction {
            reactants: vec![ElementType::Water, ElementType::Powder],
            product: ElementType::Sand,
            energy_milli: 1000,
        });
        let _ = self.register_reaction(Reaction {
            reactants: vec![ElementType::Water, ElementType::Steam],
            product: ElementType::Water,
            energy_milli: 800,
        });
        assert(self@ =~= m0.union_prefer_right(default_rules()));
    }
}

impl Default for ReactionRegistry {
    /// The registry seeded with the built-in rule set.
    fn default() -> (r: Self)
        ensures
            r.wf(),
            r@ == default_rules(),
    {
        let mut registry = ReactionRegistry::new();
        registry.register_reactions();
        assert(registry@ =~= default_rules());
        registry
    }
}

/// Lookup is symmetric: `(a, b)` is registered exactly when `(b, a)` is, and
/// both resolve to the same product and energy scalar.
pub proof fn lemma_find_symmetric(reg: ReactionRegistry, a: ElementType, b: ElementType)
    requires
        reg.wf(),
    ensures
        reg@.contains_key((a, b)) == reg@.contains_key((b, a)),
        reg@.contains_key((a, b)) ==> reg@[(a, b)] == reg@[(b, a)],
{
    assert(reg@.contains_key((a, b)) ==> reg@.contains_key((b, a)));
    assert(reg@.contains_key((b, a)) ==> reg@.contains_key((a, b)));
}

/// Every registered rule has a positive energy scalar.
pub proof fn lemma_energy_positive(reg: ReactionRegistry, a: ElementType, b: ElementType)
    requires
        reg.wf(),
    ensures
        reg@.contains_key((a, b)) ==> reg@[(a, b)].energy_milli > 0,
{
    assert(reg@.contains_key((a, b)) ==> reg@[(a, b)].energy_milli > 0);
}

} // verus!
