//! Particles: an element together with the physical body that its motion
//! class asks for.

use vstd::prelude::*;

use crate::element::{DiffusionRule, Element, ElementType, element_of};

verus! {

/// Extent of a body, in thousandths of a world unit.
#[derive(Debug, Clone, Copy, PartialEq, Eq, Structural)]
pub enum Shape {
    Rectangle { width_milli: u32, height_milli: u32 },
    Circle { radius_milli: u32 },
}

/// Whether the physics solver may move a body.
#[derive(Debug, Clone, Copy, PartialEq, Eq, Structural)]
pub enum RigidBody {
    Static,
    Dynamic,
}

/// Shape of the collider and of the mesh drawn for a motion class: a unit
/// square for held and falling elements, circles for flowing and diffusing
/// ones.
pub open spec fn shape_of(rule: DiffusionRule) -> Shape {
    match rule {
        DiffusionRule::Frozen | DiffusionRule::Fall => Shape::Rectangle { width_milli: 1000, height_milli: 1000 },
        DiffusionRule::Fill => Shape::Circle { radius_milli: 500 },
        DiffusionRule::Diffuse => Shape::Circle { radius_milli: 100 },
    }
}

/// Only frozen elements are immovable.
pub open spec fn body_of(rule: DiffusionRule) -> RigidBody {
    match rule {
        DiffusionRule::Frozen => RigidBody::Static,
        _ => RigidBody::Dynamic,
    }
}

pub fn shape_for(rule: DiffusionRule) -> (r: Shape)
    ensures
        r == shape_of(rule),
{
    match rule {
        DiffusionRule::Frozen | DiffusionRule::Fall => Shape::Rectangle { width_milli: 1000, height_milli: 1000 },
        DiffusionRule::Fill => Shape::Circle { radius_milli: 500 },
        DiffusionRule::Diffuse => Shape::Circle { radius_milli: 100 },
    }
}

pub fn body_for(rule: DiffusionRule) -> (r: RigidBody)
    ensures
        r == body_of(rule),
{
    match rule {
        DiffusionRule::Frozen => RigidBody::Static,
        _ => RigidBody::Dynamic,
    }
}

/// A physical unit of an element: its properties and the body requested from
/// the physics solver. Where it stands is kept by the host.
#[derive(Debug, Clone, Copy, PartialEq, Eq, Structural)]
pub struct Particle {
    pub element: Element,
    pub collider: Shape,
    pub rigid_body: RigidBody,
}

impl Particle {
    /// The body of a particle follows from its element's motion class.
    pub open spec fn wf(self) -> bool {
        &&& self.collider == shape_of(self.element.diffusion_rule)
        &&& self.rigid_body == body_of(self.element.diffusion_rule)
    }

    pub fn new(element: Element) -> (r: Self)
        ensures
            r.wf(),
            r.element == element,
    {
        Particle {
            element,
            collider: shape_for(element.diffusion_rule),
            rigid_body: body_for(element.diffusion_rule),
        }
    }

    /// A particle of the given kind: its catalog entry and the matching body.
    pub fn spawn(kind: ElementType) -> (r: Self)
        ensures
            r.wf(),
            r.element == element_of(kind),
            r.element.wf(),
    {
        Particle::new(Element::from_type(kind))
    }
}

} // verus!
