//! Grid geometry and per-kind actor data: integer vectors, positions,
//! headings, and the small payload types each actor kind carries.

use vstd::prelude::*;

verus! {

/// An integer 2-vector; the base of both coordinates and direction vectors.
#[derive(Clone, Copy, PartialEq, Eq, Structural, Debug, Hash)]
pub struct IntVec2(pub i32, pub i32);

/// A grid coordinate. At any instant no two solid actors share one.
#[derive(Clone, Copy, PartialEq, Eq, Structural, Debug, Hash)]
pub struct Position(pub IntVec2);

/// The coordinate an actor was spawned at.
#[derive(Clone, Copy, PartialEq, Eq, Structural, Debug, Hash)]
pub struct StartPosition(pub IntVec2);

/// A heading: one of the four orthogonal unit vectors or zero. The player's
/// heading alone may combine independent x and y components.
#[derive(Clone, Copy, PartialEq, Eq, Structural, Debug, Hash)]
pub struct MovingDir(pub IntVec2);

/// A one-shot direction the player shoots in.
#[derive(Clone, Copy, PartialEq, Eq, Structural, Debug)]
pub struct ShootingDir {
    pub dir: IntVec2,
}

/// A magnet's fixed attraction direction.
#[derive(Clone, Copy, PartialEq, Eq, Structural, Debug)]
pub struct Magnet {
    pub dir: IntVec2,
}

/// A teleport's routing tag: (group id, ordinal within the group).
#[derive(Clone, Copy, PartialEq, Eq, Structural, Debug)]
pub struct Teleport(pub usize, pub usize);

/// An item the player picks up by walking into it.
#[derive(Clone, Copy, PartialEq, Eq, Structural, Debug)]
pub enum Collectable {
    Key,
    Screw,
    Ammo,
}

/// What a gun fires.
#[derive(Clone, Copy, PartialEq, Eq, Structural, Debug)]
pub enum GunType {
    Solid,
    Blaster,
    Burst,
}

/// How a rotatable gun picks its next shooting direction.
#[derive(Clone, Copy, PartialEq, Eq, Structural, Debug)]
pub enum Rotatable {
    Regular,
    Random,
}

/// An actor the player activates by walking into it.
#[derive(Clone, Copy, PartialEq, Eq, Structural, Debug)]
pub enum Usable {
    Door,
    Teleport,
    Capsule,
}

/// The player-controlled robot.
#[derive(Clone, Copy, PartialEq, Eq, Structural, Debug)]
pub struct Robbo;

/// An enemy that flies back and forth along a fixed axis.
#[derive(Clone, Copy, PartialEq, Eq, Structural, Debug)]
pub struct Bird;

/// A projectile fired by a burst gun.
#[derive(Clone, Copy, PartialEq, Eq, Structural, Debug)]
pub struct Bullet;

/// Static terrain; walls live in the terrain grid, never in the arena.
#[derive(Clone, Copy, PartialEq, Eq, Structural, Debug)]
pub struct Wall;

/// A box that keeps sliding after a push until it hits something.
#[derive(Clone, Copy, PartialEq, Eq, Structural, Debug)]
pub struct PushBox;

/// The level-exit capsule.
#[derive(Clone, Copy, PartialEq, Eq, Structural, Debug)]
pub struct Capsule;

/// A segment a laser head leaves behind while advancing.
#[derive(Clone, Copy, PartialEq, Eq, Structural, Debug)]
pub struct LaserTail;

/// The head of a blaster shot, eating destroyable actors in its path.
#[derive(Clone, Copy, PartialEq, Eq, Structural, Debug)]
pub struct BlasterHead;

/// A force-field segment's vertical track: it oscillates between `top`
/// (inclusive) and `bottom` (exclusive), bounds read off the adjacent wall
/// geometry at level load.
#[derive(Clone, Copy, PartialEq, Eq, Structural, Debug)]
pub struct ForceField {
    pub top: i32,
    pub bottom: i32,
}

/// A timed visual marker; `frames_left` keyframes remain before it ends.
#[derive(Clone, Copy, PartialEq, Eq, Structural, Debug)]
pub struct Animation {
    pub frames_left: u32,
}

/// Marks an actor whose on-screen position snaps instead of interpolating.
#[derive(Clone, Copy, PartialEq, Eq, Structural, Debug)]
pub struct RoughUpdate;

/// A bear's chirality: false turns clockwise first, true counter-clockwise.
#[derive(Clone, Copy, PartialEq, Eq, Structural, Debug)]
pub struct Bear(pub bool);

/// A bomb; the flag records whether it is armed (mid-detonation).
#[derive(Clone, Copy, PartialEq, Eq, Structural, Debug)]
pub struct Bomb(pub bool);

/// A laser projectile head; the flag records the return trip.
#[derive(Clone, Copy, PartialEq, Eq, Structural, Debug, Default)]
pub struct LaserHead {
    pub is_moving_back: bool,
}

/// A sprite index, opaque to the simulation.
#[derive(Clone, Copy, PartialEq, Eq, Structural, Debug, Hash)]
pub struct Tile(pub u32);

/// An actor's sprite cycle: the frame list and the current index.
#[derive(Clone, Debug)]
pub struct Tiles {
    pub tiles: Vec<u32>,
    pub current: usize,
}

impl Tiles {
    pub fn new(tiles: Vec<u32>) -> (r: Tiles)
        ensures
            r.tiles@ == tiles@,
            r.current == 0,
    {
        Tiles { tiles, current: 0 }
    }
}

/// The sign of `v` as an integer in {-1, 0, 1}.
pub open spec fn spec_sgn(v: int) -> int {
    if v > 0 {
        1
    } else if v < 0 {
        -1
    } else {
        0
    }
}

pub fn sgn(v: i32) -> (r: i32)
    ensures
        r == spec_sgn(v as int),
{
    if v > 0 {
        1
    } else if v < 0 {
        -1i32
    } else {
        0
    }
}

impl IntVec2 {
    /// Both components within the unit box: every heading satisfies this.
    pub open spec fn is_small(self) -> bool {
        -1 <= self.0 <= 1 && -1 <= self.1 <= 1
    }

    /// Exactly one of the four orthogonal unit vectors.
    pub open spec fn is_unit(self) -> bool {
        (self.0 == 0 && (self.1 == 1 || self.1 == -1))
            || (self.1 == 0 && (self.0 == 1 || self.0 == -1))
    }
}

impl Position {
    pub fn new(x: i32, y: i32) -> (r: Position)
        ensures
            r.0 == (IntVec2(x, y)),
    {
        Position(IntVec2(x, y))
    }

    pub fn x(&self) -> (r: i32)
        ensures
            r == self.0.0,
    {
        self.0.0
    }

    pub fn y(&self) -> (r: i32)
        ensures
            r == self.0.1,
    {
        self.0.1
    }

    pub fn as_tuple(&self) -> (r: (i32, i32))
        ensures
            r.0 == self.0.0,
            r.1 == self.0.1,
    {
        (self.0.0, self.0.1)
    }

    /// The cell one step along `d`.
    pub open spec fn spec_add(self, d: MovingDir) -> Position {
        Position(IntVec2((self.0.0 + d.0.0) as i32, (self.0.1 + d.0.1) as i32))
    }

    pub fn add(&self, d: &MovingDir) -> (r: Position)
        requires
            i32::MIN <= self.0.0 + d.0.0 <= i32::MAX,
            i32::MIN <= self.0.1 + d.0.1 <= i32::MAX,
        ensures
            r == self.spec_add(*d),
            r.0.0 == self.0.0 + d.0.0,
            r.0.1 == self.0.1 + d.0.1,
    {
        Position(IntVec2(self.0.0 + d.0.0, self.0.1 + d.0.1))
    }
}

impl MovingDir {
    pub fn new(x: i32, y: i32) -> (r: MovingDir)
        ensures
            r.0 == (IntVec2(x, y)),
    {
        MovingDir(IntVec2(x, y))
    }

    pub fn zero() -> (r: MovingDir)
        ensures
            r.0 == (IntVec2(0, 0)),
    {
        MovingDir(IntVec2(0, 0))
    }

    pub fn x(&self) -> (r: i32)
        ensures
            r == self.0.0,
    {
        self.0.0
    }

    pub fn y(&self) -> (r: i32)
        ensures
            r == self.0.1,
    {
        self.0.1
    }

    pub open spec fn spec_is_empty(self) -> bool {
        self.0.0 == 0 && self.0.1 == 0
    }

    pub fn is_empty(&self) -> (r: bool)
        ensures
            r == self.spec_is_empty(),
    {
        self.0.0 == 0 && self.0.1 == 0
    }

    /// The four orthogonal unit headings in their fixed cycle:
    /// index 0 is down the grid's y axis, and each following index is the
    /// previous one rotated a quarter turn.
    pub open spec fn spec_by_index(index: usize) -> MovingDir {
        if index % 4 == 0 {
            MovingDir(IntVec2(0, 1))
        } else if index % 4 == 1 {
            MovingDir(IntVec2(1, 0))
        } else if index % 4 == 2 {
            MovingDir(IntVec2(0, -1i32))
        } else {
            MovingDir(IntVec2(-1i32, 0))
        }
    }

    pub fn by_index(index: usize) -> (r: MovingDir)
        ensures
            r == MovingDir::spec_by_index(index),
            r.0.is_unit(),
    {
        let k: usize = index % 4;
        if k == 0 {
            MovingDir(IntVec2(0, 1))
        } else if k == 1 {
            MovingDir(IntVec2(1, 0))
        } else if k == 2 {
            MovingDir(IntVec2(0, -1i32))
        } else {
            MovingDir(IntVec2(-1i32, 0))
        }
    }

    pub open spec fn spec_to_index(self) -> usize {
        if self.0 == (IntVec2(0, 1)) {
            0
        } else if self.0 == (IntVec2(1, 0)) {
            1
        } else if self.0 == (IntVec2(0, -1i32)) {
            2
        } else if self.0 == (IntVec2(-1i32, 0)) {
            3
        } else {
            0
        }
    }

    pub fn to_index(&self) -> (r: usize)
        ensures
            r == self.spec_to_index(),
    {
        if self.0 == (IntVec2(0, 1)) {
            0
        } else if self.0 == (IntVec2(1, 0)) {
            1
        } else if self.0 == (IntVec2(0, -1i32)) {
            2
        } else if self.0 == (IntVec2(-1i32, 0)) {
            3
        } else {
            0
        }
    }

    pub open spec fn spec_neg(self) -> MovingDir {
        MovingDir(IntVec2((-self.0.0) as i32, (-self.0.1) as i32))
    }

    pub fn neg(&self) -> (r: MovingDir)
        requires
            self.0.is_small(),
        ensures
            r == self.spec_neg(),
            r.0.0 == -self.0.0,
            r.0.1 == -self.0.1,
    {
        MovingDir(IntVec2(-self.0.0, -self.0.1))
    }

    /// A quarter turn clockwise in grid coordinates (y grows downward).
    pub open spec fn spec_rotate_clockwise(self) -> MovingDir {
        MovingDir(IntVec2((-self.0.1) as i32, self.0.0))
    }

    pub fn rotate_clockwise(&self) -> (r: MovingDir)
        requires
            self.0.is_small(),
        ensures
            r == self.spec_rotate_clockwise(),
            r.0.0 == -self.0.1,
            r.0.1 == self.0.0,
    {
        MovingDir(IntVec2(-self.0.1, self.0.0))
    }

    /// A quarter turn counter-clockwise in grid coordinates.
    pub open spec fn spec_rotate_counter_clockwise(self) -> MovingDir {
        MovingDir(IntVec2(self.0.1, (-self.0.0) as i32))
    }

    pub fn rotate_counter_clockwise(&self) -> (r: MovingDir)
        requires
            self.0.is_small(),
        ensures
            r == self.spec_rotate_counter_clockwise(),
            r.0.0 == self.0.1,
            r.0.1 == -self.0.0,
    {
        MovingDir(IntVec2(self.0.1, -self.0.0))
    }
}

impl ShootingDir {
    pub fn new(x: i32, y: i32) -> (r: ShootingDir)
        ensures
            r.dir == (IntVec2(x, y)),
    {
        ShootingDir { dir: IntVec2(x, y) }
    }

    pub fn by_index(index: usize) -> (r: ShootingDir)
        ensures
            r.dir == MovingDir::spec_by_index(index).0,
            r.dir.is_unit(),
    {
        let d = MovingDir::by_index(index);
        ShootingDir { dir: d.0 }
    }

    pub fn as_moving_dir(&self) -> (r: MovingDir)
        ensures
            r.0 == self.dir,
    {
        MovingDir(self.dir)
    }
}

impl Magnet {
    pub fn new(x: i32, y: i32) -> (r: Magnet)
        ensures
            r.dir == (IntVec2(x, y)),
    {
        Magnet { dir: IntVec2(x, y) }
    }

    pub fn by_index(index: usize) -> (r: Magnet)
        ensures
            r.dir == MovingDir::spec_by_index(index).0,
            r.dir.is_unit(),
    {
        let d = MovingDir::by_index(index);
        Magnet { dir: d.0 }
    }

    pub fn as_moving_dir(&self) -> (r: MovingDir)
        ensures
            r.0 == self.dir,
    {
        MovingDir(self.dir)
    }
}

} // verus!
