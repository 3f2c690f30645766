//! The box that particles live in: which sides carry a wall, and the walls
//! that a boundary setting gives.

use vstd::prelude::*;

verus! {

/// Marks a particle whose position folds back into the world window when it
/// leaves it.
#[derive(Debug, Clone, Copy, PartialEq, Eq, Structural)]
pub struct ScreenWrap;

/// Marks a boundary wall.
#[derive(Debug, Clone, Copy, PartialEq, Eq, Structural)]
pub struct WallCollider;

/// Which sides of the simulation area carry a wall.
#[derive(Debug, Clone, Copy, PartialEq, Eq, Structural)]
pub struct PhysicsBoundary {
    pub top: bool,
    pub bottom: bool,
    pub left: bool,
    pub right: bool,
}

impl Default for PhysicsBoundary {
    /// Walls on top and bottom only.
    fn default() -> (r: Self)
        ensures
            r == (PhysicsBoundary { top: true, bottom: true, left: false, right: false }),
    {
        PhysicsBoundary { top: true, bottom: true, left: false, right: false }
    }
}

#[derive(Debug, Clone, Copy, PartialEq, Eq, Structural)]
pub enum Side {
    Top,
    Bottom,
    Left,
    Right,
}

/// A straight wall from `start` to `end`. Coordinates are signs (`-1` or
/// `1`) of the horizontal and vertical half extents of the world.
#[derive(Debug, Clone, Copy, PartialEq, Eq, Structural)]
pub struct WallSegment {
    pub side: Side,
    pub start_x: i8,
    pub start_y: i8,
    pub end_x: i8,
    pub end_y: i8,
}

/// The wall along a side.
pub open spec fn segment_of(side: Side) -> WallSegment {
    match side {
        Side::Top => WallSegment { side, start_x: -1i8, start_y: 1i8, end_x: 1i8, end_y: 1i8 },
        Side::Bottom => WallSegment { side, start_x: -1i8, start_y: -1i8, end_x: 1i8, end_y: -1i8 },
        Side::Left => WallSegment { side, start_x: -1i8, start_y: -1i8, end_x: -1i8, end_y: 1i8 },
        Side::Right => WallSegment { side, start_x: 1i8, start_y: -1i8, end_x: 1i8, end_y: 1i8 },
    }
}

pub fn segment_for(side: Side) -> (r: WallSegment)
    ensures
        r == segment_of(side),
{
    match side {
        Side::Top => WallSegment { side, start_x: -1, start_y: 1, end_x: 1, end_y: 1 },
        Side::Bottom => WallSegment { side, start_x: -1, start_y: -1, end_x: 1, end_y: -1 },
        Side::Left => WallSegment { side, start_x: -1, start_y: -1, end_x: -1, end_y: 1 },
        Side::Right => WallSegment { side, start_x: 1, start_y: -1, end_x: 1, end_y: 1 },
    }
}

/// The seq holding `segment_of(side)` when `on` holds, and nothing otherwise.
pub open spec fn wall_if(on: bool, side: Side) -> Seq<WallSegment> {
    if on {
        seq![segment_of(side)]
    } else {
        Seq::empty()
    }
}

/// One wall per enabled side, in the order top, bottom, left, right.
pub open spec fn walls_of(b: PhysicsBoundary) -> Seq<WallSegment> {
    wall_if(b.top, Side::Top) + wall_if(b.bottom, Side::Bottom) + wall_if(b.left, Side::Left)
        + wall_if(b.right, Side::Right)
}

/// Number of enabled sides.
pub open spec fn enabled_count(b: PhysicsBoundary) -> nat {
    (if b.top { 1nat } else { 0nat }) + (if b.bottom { 1nat } else { 0nat }) + (if b.left {
        1nat
    } else {
        0nat
    }) + (if b.right { 1nat } else { 0nat })
}

impl PhysicsBoundary {
    /// The walls of this setting.
    pub fn wall_segments(&self) -> (r: Vec<WallSegment>)
        ensures
            r@ == walls_of(*self),
    {
        let mut r: Vec<WallSegment> = Vec::new();
        if self.top {
            r.push(segment_for(Side::Top));
        }
        if self.bottom {
            r.push(segment_for(Side::Bottom));
        }
        if self.left {
            r.push(segment_for(Side::Left));
        }
        if self.right {
            r.push(segment_for(Side::Right));
        }
        assert(r@ =~= walls_of(*self));
        r
    }
}

/// The boundary walls that currently stand.
pub struct BoundaryWalls {
    walls: Vec<WallSegment>,
}

impl View for BoundaryWalls {
    type V = Seq<WallSegment>;

    closed spec fn view(&self) -> Seq<WallSegment> {
        self.walls@
    }
}

impl BoundaryWalls {
    /// No walls.
    pub fn new() -> (r: Self)
        ensures
            r@ == Seq::<WallSegment>::empty(),
    {
        BoundaryWalls { walls: Vec::new() }
    }

    /// Removes every wall and puts up one per enabled side of `boundary`.
    pub fn rebuild(&mut self, boundary: &PhysicsBoundary)
        ensures
            final(self)@ == walls_of(*boundary),
    {
        self.walls = boundary.wall_segments();
    }

    pub fn walls(&self) -> (r: &Vec<WallSegment>)
        ensures
            r@ == self@,
    {
        &self.walls
    }

    pub fn len(&self) -> (r: usize)
        ensures
            r == self@.len(),
    {
        self.walls.len()
    }
}

/// After a rebuild exactly one wall stands per enabled side, whatever stood
/// before: as many walls as enabled sides, no two on the same side, and each
/// on an enabled side.
pub proof fn lemma_rebuild_one_wall_per_side(b: PhysicsBoundary)
    ensures
        walls_of(b).len() == enabled_count(b),
        forall|i: int, j: int|
            0 <= i < j < walls_of(b).len() ==> #[trigger] walls_of(b)[i].side != #[trigger] walls_of(b)[j].side,
        forall|i: int|
            0 <= i < walls_of(b).len() ==> {
                let w = #[trigger] walls_of(b)[i];
                &&& w == segment_of(w.side)
                &&& match w.side {
                    Side::Top => b.top,
                    Side::Bottom => b.bottom,
                    Side::Left => b.left,
                    Side::Right => b.right,
                }
            },
{
    let s = walls_of(b);
    assert(s.len() == enabled_count(b));
    assert forall|i: int| 0 <= i < s.len() implies {
        let w = #[trigger] s[i];
        &&& w == segment_of(w.side)
        &&& match w.side {
            Side::Top => b.top,
            Side::Bottom => b.bottom,
            Side::Left => b.left,
            Side::Right => b.right,
        }
    } by {
    }
}

} // verus!
