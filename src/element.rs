//! The element catalog: a total table from element kind to static properties.

use vstd::prelude::*;

verus! {

/// A placeable substance.
#[derive(Debug, Clone, Copy, PartialEq, Eq, Hash, Structural)]
pub enum ElementType {
    Powder,
    Sand,
    Water,
    Oil,
    Fire,
    Steam,
    Wall,
}

/// Number of element kinds.
pub const ELEMENT_COUNT: usize = 7;

impl ElementType {
    /// Position of the kind in the closed set, in declaration order.
    pub open spec fn spec_ordinal(self) -> usize {
        match self {
            ElementType::Powder => 0,
            ElementType::Sand => 1,
            ElementType::Water => 2,
            ElementType::Oil => 3,
            ElementType::Fire => 4,
            ElementType::Steam => 5,
            ElementType::Wall => 6,
        }
    }

    /// The kind whose ordinal is `i`.
    pub open spec fn spec_from_ordinal(i: usize) -> ElementType {
        if i == 0 {
            ElementType::Powder
        } else if i == 1 {
            ElementType::Sand
        } else if i == 2 {
            ElementType::Water
        } else if i == 3 {
            ElementType::Oil
        } else if i == 4 {
            ElementType::Fire
        } else if i == 5 {
            ElementType::Steam
        } else {
            ElementType::Wall
        }
    }

    #[verifier::when_used_as_spec(spec_ordinal)]
    pub fn ordinal(self) -> (r: usize)
        ensures
            r == self.spec_ordinal(),
            r < ELEMENT_COUNT,
    {
        match self {
            ElementType::Powder => 0,
            ElementType::Sand => 1,
            ElementType::Water => 2,
            ElementType::Oil => 3,
            ElementType::Fire => 4,
            ElementType::Steam => 5,
            ElementType::Wall => 6,
        }
    }
}

/// Ordinals are distinct, below the kind count, and invertible.
pub proof fn lemma_ordinal_bijective(a: ElementType, b: ElementType)
    ensures
        a.spec_ordinal() < ELEMENT_COUNT,
        ElementType::spec_from_ordinal(a.spec_ordinal()) == a,
        a.spec_ordinal() == b.spec_ordinal() <==> a == b,
{
}

/// Every kind, in declaration order.
pub fn all_kinds() -> (r: Vec<ElementType>)
    ensures
        r@.len() == ELEMENT_COUNT,
        forall|i: int| 0 <= i < ELEMENT_COUNT ==> (#[trigger] r@[i]).spec_ordinal() == i,
        forall|t: ElementType| r@.contains(t),
{
    let r = vec![
        ElementType::Powder,
        ElementType::Sand,
        ElementType::Water,
        ElementType::Oil,
        ElementType::Fire,
        ElementType::Steam,
        ElementType::Wall,
    ];
    assert forall|t: ElementType| r@.contains(t) by {
        assert(r@[t.spec_ordinal() as int] == t);
    }
    r
}

impl Default for ElementType {
    fn default() -> (r: Self)
        ensures
            r == ElementType::Powder,
    {
        ElementType::Powder
    }
}

/// How a particle moves: held in place, settling under gravity with friction,
/// flowing to fill its container, or wandering at random.
#[derive(Debug, Clone, Copy, PartialEq, Eq, Hash, Structural)]
pub enum DiffusionRule {
    Frozen,
    Fall,
    Fill,
    Diffuse,
}

/// A colour of the CSS named palette.
#[derive(Debug, Clone, Copy, PartialEq, Eq, Hash, Structural)]
pub enum PaletteColor {
    Bisque,
    Tan,
    RoyalBlue,
    Maroon,
    OrangeRed,
    White,
    Grey,
}

/// Static properties of an element kind. Densities are in thousandths.
#[derive(Debug, Clone, Copy, PartialEq, Eq, Structural)]
pub struct Element {
    pub color: PaletteColor,
    pub diffusion_rule: DiffusionRule,
    pub density_milli: u32,
    pub flammable: bool,
}

/// The authored catalog entry of each kind.
pub open spec fn element_of(t: ElementType) -> Element {
    match t {
        ElementType::Powder => Element {
            color: PaletteColor::Bisque,
            diffusion_rule: DiffusionRule::Fall,
            density_milli: 1000,
            flammable: false,
        },
        ElementType::Sand => Element {
            color: PaletteColor::Tan,
            diffusion_rule: DiffusionRule::Fall,
            density_milli: 1500,
            flammable: false,
        },
        ElementType::Water => Element {
            color: PaletteColor::RoyalBlue,
            diffusion_rule: DiffusionRule::Fill,
            density_milli: 1000,
            flammable: false,
        },
        ElementType::Oil => Element {
            color: PaletteColor::Maroon,
            diffusion_rule: DiffusionRule::Fill,
            density_milli: 800,
            flammable: true,
        },
        ElementType::Fire => Element {
            color: PaletteColor::OrangeRed,
            diffusion_rule: DiffusionRule::Diffuse,
            density_milli: 500,
            flammable: true,
        },
        ElementType::Steam => Element {
            color: PaletteColor::White,
            diffusion_rule: DiffusionRule::Diffuse,
            density_milli: 100,
            flammable: false,
        },
        ElementType::Wall => Element {
            color: PaletteColor::Grey,
            diffusion_rule: DiffusionRule::Frozen,
            density_milli: 2000,
            flammable: false,
        },
    }
}

impl Element {
    /// Properties are well formed when the density is positive.
    pub open spec fn wf(self) -> bool {
        self.density_milli > 0
    }

    pub fn new(color: PaletteColor, diffusion_rule: DiffusionRule, density_milli: u32, flammable: bool) -> (r: Self)
        requires
            density_milli > 0,
        ensures
            r.wf(),
            r == (Element { color, diffusion_rule, density_milli, flammable }),
    {
        Element { color, diffusion_rule, density_milli, flammable }
    }

    /// Looks up the catalog entry of a kind. Never fails.
    pub fn from_type(element_type: ElementType) -> (r: Self)
        ensures
            r == element_of(element_type),
            r.wf(),
    {
        match element_type {
            ElementType::Powder => Element {
                color: PaletteColor::Bisque,
                diffusion_rule: DiffusionRule::Fall,
                density_milli: 1000,
                flammable: false,
            },
            ElementType::Sand => Element {
                color: PaletteColor::Tan,
                diffusion_rule: DiffusionRule::Fall,
                density_milli: 1500,
                flammable: false,
            },
            ElementType::Water => Element {
                color: PaletteColor::RoyalBlue,
                diffusion_rule: DiffusionRule::Fill,
                density_milli: 1000,
                flammable: false,
            },
            ElementType::Oil => Element {
                color: PaletteColor::Maroon,
                diffusion_rule: DiffusionRule::Fill,
                density_milli: 800,
                flammable: true,
            },
            ElementType::Fire => Element {
                color: PaletteColor::OrangeRed,
                diffusion_rule: DiffusionRule::Diffuse,
                density_milli: 500,
                flammable: true,
            },
            ElementType::Steam => Element {
                color: PaletteColor::White,
                diffusion_rule: DiffusionRule::Diffuse,
                density_milli: 100,
                flammable: false,
            },
            ElementType::Wall => Element {
                color: PaletteColor::Grey,
                diffusion_rule: DiffusionRule::Frozen,
                density_milli: 2000,
                flammable: false,
            },
        }
    }
}

/// Every kind has a catalog entry, and its density is positive.
pub proof fn lemma_catalog_total(t: ElementType)
    ensures
        element_of(t).wf(),
        element_of(t).density_milli > 0,
{
}

/// The kind currently chosen for placement.
#[derive(Debug, Clone, Copy, PartialEq, Eq, Structural)]
pub struct SelectedElement(pub ElementType);

impl Default for SelectedElement {
    fn default() -> (r: Self)
        ensures
            r.0 == ElementType::Powder,
    {
        SelectedElement(ElementType::Powder)
    }
}

} // verus!
