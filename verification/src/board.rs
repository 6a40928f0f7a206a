//! The actor arena and the occupancy index.
//!
//! Actors live in an arena of slots; despawning clears a slot and never
//! reuses it within a level. The occupancy index maps each in-bounds cell to
//! the arena slot of the actor standing on it and is kept exactly in sync
//! with the arena by every operation, so stale entries cannot arise. Static
//! terrain (walls) is a separate per-level grid: walls never move and are
//! queried far more often.

use vstd::prelude::*;
use crate::components::Animation;
use crate::components::Bear;
use crate::components::Bird;
use crate::components::BlasterHead;
use crate::components::Bomb;
use crate::components::Bullet;
use crate::components::Capsule;
use crate::components::Collectable;
use crate::components::ForceField;
use crate::components::GunType;
use crate::components::IntVec2;
use crate::components::LaserHead;
use crate::components::LaserTail;
use crate::components::Magnet;
use crate::components::MovingDir;
use crate::components::Position;
use crate::components::PushBox;
use crate::components::Robbo;
use crate::components::RoughUpdate;
use crate::components::Rotatable;
use crate::components::ShootingDir;
use crate::components::Teleport;
use crate::components::Usable;
use crate::game_events::GameEvent;

verus! {

/// The closed set of actor kinds, each carrying its kind-specific data.
#[derive(Clone, Copy, PartialEq, Eq, Structural, Debug)]
pub enum Kind {
    Robbo(Robbo),
    Bird(Bird),
    Bear(Bear),
    PushBox(PushBox),
    /// A box the player can push but that never slides on.
    StaticBox,
    Bullet(Bullet),
    LaserHead(LaserHead),
    LaserTail(LaserTail),
    BlasterHead(BlasterHead),
    Bomb(Bomb),
    Capsule(Capsule),
    Door,
    Teleport(Teleport),
    Collectable(Collectable),
    Magnet(Magnet),
    /// A force-field segment oscillating on its vertical track.
    ForceField(ForceField),
    /// A gun: what it fires, its firing threshold out of `u32::MAX + 1` per
    /// keyframe, and how (whether) it rotates.
    Gun { gun_type: GunType, fire_threshold: u32, rotatable: Option<Rotatable> },
    /// Spawns a random item when destroyed.
    QuestionMark,
    /// A destructible ground tile.
    Ground,
    Eyes,
    /// A timed visual marker; may emit an event when it ends.
    Animation(Animation, Option<GameEvent>),
}

/// One simulated entity: its kind, cell, heading and capability data.
#[derive(Clone, Copy, PartialEq, Eq, Structural, Debug)]
pub struct Actor {
    pub kind: Kind,
    pub pos: Position,
    /// Current heading; zero when the actor is not moving.
    pub dir: MovingDir,
    /// A pending or fixed shooting direction (player one-shot, gun fixed).
    pub shooting: Option<ShootingDir>,
    /// Set when the player can activate this actor by walking into it.
    pub usable: Option<Usable>,
    /// Set when the player can push this actor.
    pub moveable: bool,
}

impl Kind {
    /// Destroyed by any damage, bomb-sourced or not.
    pub open spec fn spec_is_destroyable(self) -> bool {
        match self {
            Kind::Bird(_) => true,
            Kind::Bear(_) => true,
            Kind::Bomb(_) => true,
            Kind::QuestionMark => true,
            Kind::Ground => true,
            Kind::Eyes => true,
            Kind::ForceField(_) => true,
            _ => false,
        }
    }

    pub fn is_destroyable(&self) -> (r: bool)
        ensures
            r == self.spec_is_destroyable(),
    {
        match self {
            Kind::Bird(_) => true,
            Kind::Bear(_) => true,
            Kind::Bomb(_) => true,
            Kind::QuestionMark => true,
            Kind::Ground => true,
            Kind::Eyes => true,
            Kind::ForceField(_) => true,
            _ => false,
        }
    }

    /// Never destroyed, not even by bomb damage.
    pub open spec fn spec_is_undestroyable(self) -> bool {
        match self {
            Kind::Bullet(_) => true,
            Kind::LaserHead(_) => true,
            Kind::LaserTail(_) => true,
            Kind::BlasterHead(_) => true,
            Kind::Animation(_, _) => true,
            _ => false,
        }
    }

    pub fn is_undestroyable(&self) -> (r: bool)
        ensures
            r == self.spec_is_undestroyable(),
    {
        match self {
            Kind::Bullet(_) => true,
            Kind::LaserHead(_) => true,
            Kind::LaserTail(_) => true,
            Kind::BlasterHead(_) => true,
            Kind::Animation(_, _) => true,
            _ => false,
        }
    }

    /// The renderer's interpolation flag: a projectile head's on-screen
    /// position snaps instead of interpolating.
    pub fn rough_update(&self) -> (r: Option<RoughUpdate>)
        ensures
            r is Some <==> (self is LaserHead || self is BlasterHead),
    {
        match self {
            Kind::LaserHead(_) => Some(RoughUpdate),
            Kind::BlasterHead(_) => Some(RoughUpdate),
            _ => None,
        }
    }

    /// Kills the player on contact (magnets only on their front face).
    pub open spec fn spec_is_deadly(self) -> bool {
        match self {
            Kind::Bird(_) => true,
            Kind::Bear(_) => true,
            Kind::Magnet(_) => true,
            _ => false,
        }
    }

    pub fn is_deadly(&self) -> (r: bool)
        ensures
            r == self.spec_is_deadly(),
    {
        match self {
            Kind::Bird(_) => true,
            Kind::Bear(_) => true,
            Kind::Magnet(_) => true,
            _ => false,
        }
    }
}

/// The level board: static terrain plus the live actor arena with its
/// occupancy index.
pub struct Board {
    pub width: i32,
    pub height: i32,
    /// `walls[y][x]` marks immutable terrain.
    pub walls: Vec<Vec<bool>>,
    /// `occ[y][x]` holds the arena slot of the actor standing on the cell.
    pub occ: Vec<Vec<Option<usize>>>,
    /// The arena: despawned slots stay `None`.
    pub actors: Vec<Option<Actor>>,
}

impl Board {
    pub open spec fn in_bounds(self, p: Position) -> bool {
        0 <= p.0.0 < self.width && 0 <= p.0.1 < self.height
    }

    pub open spec fn wall_at(self, p: Position) -> bool {
        self.walls@[p.0.1 as int]@[p.0.0 as int]
    }

    /// The arena slot of the actor standing on `p`.
    pub open spec fn cell(self, p: Position) -> Option<usize> {
        self.occ@[p.0.1 as int]@[p.0.0 as int]
    }

    /// Blocked by terrain alone: outside the level or on a wall.
    pub open spec fn spec_terrain_blocked(self, p: Position) -> bool {
        !self.in_bounds(p) || self.wall_at(p)
    }

    /// Occupied for movement: terrain-blocked or holding an actor.
    pub open spec fn spec_occupied(self, p: Position) -> bool {
        self.spec_terrain_blocked(p) || self.cell(p) is Some
    }

    pub open spec fn spec_free(self, p: Position) -> bool {
        !self.spec_occupied(p)
    }

    pub open spec fn live(self, i: usize) -> bool {
        i < self.actors@.len() && self.actors@[i as int] is Some
    }

    /// The actor in slot `i`.
    pub open spec fn actor(self, i: usize) -> Actor {
        self.actors@[i as int]->Some_0
    }

    /// The grids have the level's dimensions.
    pub open spec fn grid_wf(self) -> bool {
        &&& 0 < self.width <= 1024
        &&& 0 < self.height <= 1024
        &&& self.walls@.len() == self.height
        &&& forall|y: int| 0 <= y < self.height ==> (#[trigger] self.walls@[y])@.len() == self.width
        &&& self.occ@.len() == self.height
        &&& forall|y: int| 0 <= y < self.height ==> (#[trigger] self.occ@[y])@.len() == self.width
    }

    /// Slot `i`, if live, stands on a legal cell that indexes back to it.
    pub open spec fn actor_ok(self, i: usize) -> bool {
        match self.actors@[i as int] {
            Some(a) => {
                &&& self.in_bounds(a.pos)
                &&& !self.wall_at(a.pos)
                &&& self.cell(a.pos) == Some(i)
                &&& a.dir.0.is_small()
                &&& match a.shooting {
                    Some(s) => s.dir.is_small(),
                    None => true,
                }
            },
            None => true,
        }
    }

    /// An occupied cell indexes a live actor standing on exactly that cell.
    pub open spec fn cell_ok(self, x: int, y: int) -> bool {
        match self.occ@[y]@[x] {
            Some(i) => {
                &&& self.live(i)
                &&& self.actor(i).pos == (Position(IntVec2(x as i32, y as i32)))
            },
            None => true,
        }
    }

    /// Well-formedness: the occupancy index and the arena agree exactly.
    pub open spec fn wf(self) -> bool {
        &&& self.grid_wf()
        &&& forall|i: usize| i < self.actors@.len() ==> self.actor_ok(i)
        &&& forall|x: int, y: int|
            0 <= x < self.width && 0 <= y < self.height ==> self.cell_ok(x, y)
    }

    /// An empty board of the given size, without walls or actors.
    pub fn new(width: i32, height: i32) -> (b: Board)
        requires
            0 < width <= 1024,
            0 < height <= 1024,
        ensures
            b.wf(),
            b.width == width,
            b.height == height,
            b.actors@.len() == 0,
            forall|p: Position| b.in_bounds(p) ==> !b.wall_at(p) && b.cell(p) is None,
    {
        let mut walls: Vec<Vec<bool>> = Vec::new();
        let mut occ: Vec<Vec<Option<usize>>> = Vec::new();
        let mut y: i32 = 0;
        while y < height
            invariant
                0 < width <= 1024,
                0 < height <= 1024,
                0 <= y <= height,
                walls@.len() == y,
                occ@.len() == y,
                forall|r: int| 0 <= r < y ==> (#[trigger] walls@[r])@.len() == width,
                forall|r: int| 0 <= r < y ==> (#[trigger] occ@[r])@.len() == width,
                forall|r: int, c: int|
                    0 <= r < y && 0 <= c < width ==> !(#[trigger] walls@[r]@[c]),
                forall|r: int, c: int|
                    0 <= r < y && 0 <= c < width ==> (#[trigger] occ@[r]@[c]) is None,
            decreases height - y,
        {
            let mut wall_row: Vec<bool> = Vec::new();
            let mut occ_row: Vec<Option<usize>> = Vec::new();
            let mut x: i32 = 0;
            while x < width
                invariant
                    0 < width <= 1024,
                    0 <= x <= width,
                    wall_row@.len() == x,
                    occ_row@.len() == x,
                    forall|c: int| 0 <= c < x ==> !(#[trigger] wall_row@[c]),
                    forall|c: int| 0 <= c < x ==> (#[trigger] occ_row@[c]) is None,
                decreases width - x,
            {
                wall_row.push(false);
                occ_row.push(None);
                x = x + 1;
            }
            walls.push(wall_row);
            occ.push(occ_row);
            y = y + 1;
        }
        Board { width, height, walls, occ, actors: Vec::new() }
    }

    /// True when `p` lies outside the level or on a wall; such a cell is
    /// always blocked, whatever the arena holds.
    pub fn is_terrain(&self, p: &Position) -> (r: bool)
        requires
            self.grid_wf(),
        ensures
            r == self.spec_terrain_blocked(*p),
    {
        if p.0.0 < 0 || p.0.1 < 0 || p.0.0 >= self.width || p.0.1 >= self.height {
            true
        } else {
            self.walls[p.0.1 as usize][p.0.0 as usize]
        }
    }

    /// The arena slot of the actor standing on `p`, if any.
    pub fn get_entity(&self, p: &Position) -> (r: Option<usize>)
        requires
            self.grid_wf(),
        ensures
            r == if self.in_bounds(*p) {
                self.cell(*p)
            } else {
                None::<usize>
            },
    {
        if p.0.0 < 0 || p.0.1 < 0 || p.0.0 >= self.width || p.0.1 >= self.height {
            None
        } else {
            self.occ[p.0.1 as usize][p.0.0 as usize]
        }
    }

    pub fn is_occupied(&self, p: &Position) -> (r: bool)
        requires
            self.grid_wf(),
        ensures
            r == self.spec_occupied(*p),
    {
        if self.is_terrain(p) {
            true
        } else {
            self.occ[p.0.1 as usize][p.0.0 as usize].is_some()
        }
    }

    pub fn is_free(&self, p: &Position) -> (r: bool)
        requires
            self.grid_wf(),
        ensures
            r == self.spec_free(*p),
    {
        !self.is_occupied(p)
    }

    /// The actor in live slot `i`, by value.
    pub fn actor_at(&self, i: usize) -> (a: Actor)
        requires
            self.live(i),
        ensures
            a == self.actor(i),
    {
        self.actors[i].unwrap()
    }

    /// Raise terrain at a free cell; part of board construction.
    pub fn set_wall(&mut self, x: i32, y: i32)
        requires
            old(self).wf(),
            old(self).spec_free(Position(IntVec2(x, y))),
        ensures
            final(self).wf(),
            final(self).width == old(self).width,
            final(self).height == old(self).height,
            final(self).actors@ == old(self).actors@,
            final(self).occ@ == old(self).occ@,
            final(self).wall_at(Position(IntVec2(x, y))),
            forall|q: Position|
                old(self).in_bounds(q) && q != (Position(IntVec2(x, y)))
                    ==> final(self).wall_at(q) == old(self).wall_at(q),
            forall|q: Position| old(self).in_bounds(q) ==> final(self).cell(q) == old(self).cell(q),
    {
        let row = &mut self.walls[y as usize];
        row.set(x as usize, true);
        proof {
            assert forall|i: usize| i < self.actors@.len() implies self.actor_ok(i) by {
                assert(old(self).actor_ok(i));
            }
            assert forall|cx: int, cy: int|
                0 <= cx < self.width && 0 <= cy < self.height implies self.cell_ok(cx, cy) by {
                assert(old(self).cell_ok(cx, cy));
            }
        }
    }

    /// Add an actor on a free cell; returns its arena slot.
    pub fn spawn(&mut self, actor: Actor) -> (i: usize)
        requires
            old(self).wf(),
            old(self).spec_free(actor.pos),
            actor.dir.0.is_small(),
            actor.shooting matches Some(s) ==> s.dir.is_small(),
        ensures
            final(self).wf(),
            final(self).width == old(self).width,
            final(self).height == old(self).height,
            final(self).walls@ == old(self).walls@,
            i == old(self).actors@.len(),
            final(self).actors@ == old(self).actors@.push(Some(actor)),
            final(self).cell(actor.pos) == Some(i),
            forall|q: Position|
                old(self).in_bounds(q) && q != actor.pos
                    ==> final(self).cell(q) == old(self).cell(q),
    {
        let i = self.actors.len();
        self.actors.push(Some(actor));
        let row = &mut self.occ[actor.pos.0.1 as usize];
        row.set(actor.pos.0.0 as usize, Some(i));
        proof {
            assert forall|j: usize| j < self.actors@.len() implies self.actor_ok(j) by {
                if j < i {
                    assert(old(self).actor_ok(j));
                }
            }
            assert forall|cx: int, cy: int|
                0 <= cx < self.width && 0 <= cy < self.height implies self.cell_ok(cx, cy) by {
                assert(old(self).cell_ok(cx, cy));
            }
        }
        i
    }

    /// Remove the actor in live slot `i`; its cell becomes free.
    pub fn despawn(&mut self, i: usize)
        requires
            old(self).wf(),
            old(self).live(i),
        ensures
            final(self).wf(),
            final(self).width == old(self).width,
            final(self).height == old(self).height,
            final(self).walls@ == old(self).walls@,
            final(self).actors@ == old(self).actors@.update(i as int, None),
            final(self).cell(old(self).actor(i).pos) is None,
            forall|q: Position|
                old(self).in_bounds(q) && q != old(self).actor(i).pos
                    ==> final(self).cell(q) == old(self).cell(q),
    {
        proof {
            assert(old(self).actor_ok(i));
        }
        let a = self.actors[i].unwrap();
        self.actors.set(i, None);
        let row = &mut self.occ[a.pos.0.1 as usize];
        row.set(a.pos.0.0 as usize, None);
        proof {
            assert forall|j: usize| j < self.actors@.len() implies self.actor_ok(j) by {
                assert(old(self).actor_ok(j));
            }
            assert forall|cx: int, cy: int|
                0 <= cx < self.width && 0 <= cy < self.height implies self.cell_ok(cx, cy) by {
                assert(old(self).cell_ok(cx, cy));
            }
        }
    }

    /// Replace the actor in live slot `i` without moving it.
    pub fn update_actor(&mut self, i: usize, a: Actor)
        requires
            old(self).wf(),
            old(self).live(i),
            a.pos == old(self).actor(i).pos,
            a.dir.0.is_small(),
            a.shooting matches Some(s) ==> s.dir.is_small(),
        ensures
            final(self).wf(),
            final(self).width == old(self).width,
            final(self).height == old(self).height,
            final(self).walls@ == old(self).walls@,
            final(self).occ@ == old(self).occ@,
            final(self).actors@ == old(self).actors@.update(i as int, Some(a)),
            forall|q: Position| old(self).in_bounds(q) ==> final(self).cell(q) == old(self).cell(q),
    {
        proof {
            assert(old(self).actor_ok(i));
        }
        self.actors.set(i, Some(a));
        proof {
            assert forall|j: usize| j < self.actors@.len() implies self.actor_ok(j) by {
                assert(old(self).actor_ok(j));
            }
            assert forall|cx: int, cy: int|
                0 <= cx < self.width && 0 <= cy < self.height implies self.cell_ok(cx, cy) by {
                assert(old(self).cell_ok(cx, cy));
            }
        }
    }

    /// Move the actor in live slot `i` onto the free cell `a.pos`,
    /// replacing its other data with `a` in the same step.
    pub fn move_replace(&mut self, i: usize, a: Actor)
        requires
            old(self).wf(),
            old(self).live(i),
            old(self).spec_free(a.pos),
            a.dir.0.is_small(),
            a.shooting matches Some(s) ==> s.dir.is_small(),
        ensures
            final(self).wf(),
            final(self).width == old(self).width,
            final(self).height == old(self).height,
            final(self).walls@ == old(self).walls@,
            final(self).actors@ == old(self).actors@.update(i as int, Some(a)),
            final(self).cell(old(self).actor(i).pos) is None,
            final(self).cell(a.pos) == Some(i),
            forall|q: Position|
                old(self).in_bounds(q) && q != old(self).actor(i).pos && q != a.pos
                    ==> final(self).cell(q) == old(self).cell(q),
    {
        proof {
            assert(old(self).actor_ok(i));
        }
        let from = self.actors[i].unwrap().pos;
        self.actors.set(i, Some(a));
        let row = &mut self.occ[from.0.1 as usize];
        row.set(from.0.0 as usize, None);
        let row2 = &mut self.occ[a.pos.0.1 as usize];
        row2.set(a.pos.0.0 as usize, Some(i));
        proof {
            assert forall|j: usize| j < self.actors@.len() implies self.actor_ok(j) by {
                assert(old(self).actor_ok(j));
            }
            assert forall|cx: int, cy: int|
                0 <= cx < self.width && 0 <= cy < self.height implies self.cell_ok(cx, cy) by {
                assert(old(self).cell_ok(cx, cy));
            }
        }
    }

    /// Relocate the occupant of `from` onto the free cell `to`, keeping the
    /// index and the arena in sync.
    pub fn mv(&mut self, from: &Position, to: &Position)
        requires
            old(self).wf(),
            old(self).in_bounds(*from),
            old(self).cell(*from) is Some,
            old(self).spec_free(*to),
        ensures
            final(self).wf(),
            final(self).width == old(self).width,
            final(self).height == old(self).height,
            final(self).walls@ == old(self).walls@,
            final(self).actors@ == old(self).actors@.update(
                old(self).cell(*from)->Some_0 as int,
                Some(
                    Actor {
                        pos: *to,
                        ..old(self).actor(old(self).cell(*from)->Some_0)
                    },
                ),
            ),
            final(self).cell(*from) is None,
            final(self).cell(*to) == old(self).cell(*from),
            forall|q: Position|
                old(self).in_bounds(q) && q != *from && q != *to
                    ==> final(self).cell(q) == old(self).cell(q),
    {
        proof {
            assert(old(self).cell_ok(from.0.0 as int, from.0.1 as int));
        }
        let i = self.occ[from.0.1 as usize][from.0.0 as usize].unwrap();
        proof {
            assert(old(self).actor_ok(i));
        }
        let a = self.actors[i].unwrap();
        let mut moved = a;
        moved.pos = *to;
        self.actors.set(i, Some(moved));
        let row = &mut self.occ[from.0.1 as usize];
        row.set(from.0.0 as usize, None);
        let row2 = &mut self.occ[to.0.1 as usize];
        row2.set(to.0.0 as usize, Some(i));
        proof {
            assert forall|j: usize| j < self.actors@.len() implies self.actor_ok(j) by {
                assert(old(self).actor_ok(j));
            }
            assert forall|cx: int, cy: int|
                0 <= cx < self.width && 0 <= cy < self.height implies self.cell_ok(cx, cy) by {
                assert(old(self).cell_ok(cx, cy));
            }
        }
    }
}

/// The first live player slot at or after index `k`, in arena order.
pub open spec fn spec_first_robbo_from(b: Board, k: int) -> Option<usize>
    decreases b.actors@.len() - k,
{
    if k < 0 || k >= b.actors@.len() {
        None
    } else {
        match b.actors@[k] {
            Some(a) => if a.kind is Robbo {
                Some(k as usize)
            } else {
                spec_first_robbo_from(b, k + 1)
            },
            None => spec_first_robbo_from(b, k + 1),
        }
    }
}

/// The first live player slot, scanning the arena in order.
pub fn find_robbo(board: &Board) -> (r: Option<usize>)
    requires
        board.wf(),
    ensures
        r == spec_first_robbo_from(*board, 0),
        r matches Some(i) ==> board.live(i) && board.actor(i).kind is Robbo,
        r is None ==> forall|j: usize|
            j < board.actors@.len() && board.live(j) ==> !(board.actor(j).kind is Robbo),
{
    let n = board.actors.len();
    let mut i: usize = 0;
    while i < n
        invariant
            board.wf(),
            n == board.actors@.len(),
            i <= n,
            spec_first_robbo_from(*board, 0) == spec_first_robbo_from(*board, i as int),
            forall|j: usize| j < i && board.live(j) ==> !(board.actor(j).kind is Robbo),
        decreases n - i,
    {
        match &board.actors[i] {
            Some(a) => {
                if matches!(a.kind, Kind::Robbo(_)) {
                    return Some(i);
                }
            },
            None => {},
        }
        i = i + 1;
    }
    None
}

/// Occupancy uniqueness: on a well-formed board no two live actors stand on
/// the same cell.
pub proof fn lemma_occupancy_unique(b: Board, i: usize, j: usize)
    requires
        b.wf(),
        b.live(i),
        b.live(j),
        i != j,
    ensures
        b.actor(i).pos != b.actor(j).pos,
{
    assert(b.actor_ok(i));
    assert(b.actor_ok(j));
}

} // verus!
