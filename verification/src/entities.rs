//! Constructors for every actor kind, fixing each kind's capability set.

use vstd::prelude::*;
use crate::board::Actor;
use crate::board::Kind;
use crate::components::Animation;
use crate::components::Bear;
use crate::components::Bird;
use crate::components::BlasterHead;
use crate::components::Bomb;
use crate::components::Bullet;
use crate::components::Capsule;
use crate::components::Collectable;
use crate::components::ForceField;
use crate::components::GunType;
use crate::components::LaserHead;
use crate::components::LaserTail;
use crate::components::Magnet;
use crate::components::MovingDir;
use crate::components::Position;
use crate::components::PushBox;
use crate::components::Robbo;
use crate::components::Rotatable;
use crate::components::ShootingDir;
use crate::components::Teleport;
use crate::components::Usable;
use crate::game_events::GameEvent;

verus! {

/// Keyframes an explosion marker stays on the board.
pub const EXPLOSION_FRAMES: u32 = 3;

/// The explosion marker actor spawned where something was destroyed.
pub open spec fn spec_explosion(pos: Position) -> Actor {
    Actor {
        kind: Kind::Animation(Animation { frames_left: EXPLOSION_FRAMES }, None),
        pos,
        dir: MovingDir(crate::components::IntVec2(0, 0)),
        shooting: None,
        usable: None,
        moveable: false,
    }
}

/// A gun's chance to fire each keyframe, as a threshold a fresh random
/// draw is compared against (about one shot in twenty keyframes).
pub const GUN_FIRE_THRESHOLD: u32 = 214748365;

pub fn create_robbo(pos: Position) -> (a: Actor)
    ensures
        a == spec_robbo(pos),
{
    Actor {
        kind: Kind::Robbo(Robbo),
        pos,
        dir: MovingDir::zero(),
        shooting: None,
        usable: None,
        moveable: false,
    }
}

pub fn create_bird(pos: Position) -> (a: Actor)
    ensures
        a == (Actor {
            kind: Kind::Bird(Bird),
            pos,
            dir: MovingDir(crate::components::IntVec2(0, 1)),
            shooting: None,
            usable: None,
            moveable: false,
        }),
{
    Actor {
        kind: Kind::Bird(Bird),
        pos,
        dir: MovingDir::new(0, 1),
        shooting: None,
        usable: None,
        moveable: false,
    }
}

pub fn create_bear(pos: Position, dir: MovingDir) -> (a: Actor)
    ensures
        a == (Actor {
            kind: Kind::Bear(Bear(false)),
            pos,
            dir,
            shooting: None,
            usable: None,
            moveable: false,
        }),
{
    Actor { kind: Kind::Bear(Bear(false)), pos, dir, shooting: None, usable: None, moveable: false }
}

pub fn create_black_bear(pos: Position, dir: MovingDir) -> (a: Actor)
    ensures
        a == (Actor {
            kind: Kind::Bear(Bear(true)),
            pos,
            dir,
            shooting: None,
            usable: None,
            moveable: false,
        }),
{
    Actor { kind: Kind::Bear(Bear(true)), pos, dir, shooting: None, usable: None, moveable: false }
}

pub fn create_push_box(pos: Position) -> (a: Actor)
    ensures
        a == (Actor {
            kind: Kind::PushBox(PushBox),
            pos,
            dir: MovingDir(crate::components::IntVec2(0, 0)),
            shooting: None,
            usable: None,
            moveable: true,
        }),
{
    Actor {
        kind: Kind::PushBox(PushBox),
        pos,
        dir: MovingDir::zero(),
        shooting: None,
        usable: None,
        moveable: true,
    }
}

pub fn create_static_box(pos: Position) -> (a: Actor)
    ensures
        a == (Actor {
            kind: Kind::StaticBox,
            pos,
            dir: MovingDir(crate::components::IntVec2(0, 0)),
            shooting: None,
            usable: None,
            moveable: true,
        }),
{
    Actor {
        kind: Kind::StaticBox,
        pos,
        dir: MovingDir::zero(),
        shooting: None,
        usable: None,
        moveable: true,
    }
}

pub fn create_bullet(pos: Position, kx: i32, ky: i32) -> (a: Actor)
    ensures
        a == (Actor {
            kind: Kind::Bullet(Bullet),
            pos,
            dir: MovingDir(crate::components::IntVec2(kx, ky)),
            shooting: None,
            usable: None,
            moveable: false,
        }),
{
    Actor {
        kind: Kind::Bullet(Bullet),
        pos,
        dir: MovingDir::new(kx, ky),
        shooting: None,
        usable: None,
        moveable: false,
    }
}

pub fn create_laser_head(pos: Position, kx: i32, ky: i32) -> (a: Actor)
    ensures
        a == (Actor {
            kind: Kind::LaserHead(LaserHead { is_moving_back: false }),
            pos,
            dir: MovingDir(crate::components::IntVec2(kx, ky)),
            shooting: None,
            usable: None,
            moveable: false,
        }),
{
    Actor {
        kind: Kind::LaserHead(LaserHead { is_moving_back: false }),
        pos,
        dir: MovingDir::new(kx, ky),
        shooting: None,
        usable: None,
        moveable: false,
    }
}

pub fn create_blaster_head(pos: Position, kx: i32, ky: i32) -> (a: Actor)
    ensures
        a == (Actor {
            kind: Kind::BlasterHead(BlasterHead),
            pos,
            dir: MovingDir(crate::components::IntVec2(kx, ky)),
            shooting: None,
            usable: None,
            moveable: false,
        }),
{
    Actor {
        kind: Kind::BlasterHead(BlasterHead),
        pos,
        dir: MovingDir::new(kx, ky),
        shooting: None,
        usable: None,
        moveable: false,
    }
}

/// The tail segment a laser head leaves behind.
pub open spec fn spec_laser_tail(pos: Position) -> Actor {
    Actor {
        kind: Kind::LaserTail(LaserTail),
        pos,
        dir: MovingDir(crate::components::IntVec2(0, 0)),
        shooting: None,
        usable: None,
        moveable: false,
    }
}

pub fn create_laser_tail(pos: Position) -> (a: Actor)
    ensures
        a == spec_laser_tail(pos),
{
    Actor {
        kind: Kind::LaserTail(LaserTail),
        pos,
        dir: MovingDir::zero(),
        shooting: None,
        usable: None,
        moveable: false,
    }
}

pub fn create_screw(pos: Position) -> (a: Actor)
    ensures
        a == (Actor {
            kind: Kind::Collectable(Collectable::Screw),
            pos,
            dir: MovingDir(crate::components::IntVec2(0, 0)),
            shooting: None,
            usable: None,
            moveable: false,
        }),
{
    Actor {
        kind: Kind::Collectable(Collectable::Screw),
        pos,
        dir: MovingDir::zero(),
        shooting: None,
        usable: None,
        moveable: false,
    }
}

pub fn create_ammo(pos: Position) -> (a: Actor)
    ensures
        a == (Actor {
            kind: Kind::Collectable(Collectable::Ammo),
            pos,
            dir: MovingDir(crate::components::IntVec2(0, 0)),
            shooting: None,
            usable: None,
            moveable: false,
        }),
{
    Actor {
        kind: Kind::Collectable(Collectable::Ammo),
        pos,
        dir: MovingDir::zero(),
        shooting: None,
        usable: None,
        moveable: false,
    }
}

pub fn create_key(pos: Position) -> (a: Actor)
    ensures
        a == (Actor {
            kind: Kind::Collectable(Collectable::Key),
            pos,
            dir: MovingDir(crate::components::IntVec2(0, 0)),
            shooting: None,
            usable: None,
            moveable: false,
        }),
{
    Actor {
        kind: Kind::Collectable(Collectable::Key),
        pos,
        dir: MovingDir::zero(),
        shooting: None,
        usable: None,
        moveable: false,
    }
}

pub fn create_ground(pos: Position) -> (a: Actor)
    ensures
        a == (Actor {
            kind: Kind::Ground,
            pos,
            dir: MovingDir(crate::components::IntVec2(0, 0)),
            shooting: None,
            usable: None,
            moveable: false,
        }),
{
    Actor {
        kind: Kind::Ground,
        pos,
        dir: MovingDir::zero(),
        shooting: None,
        usable: None,
        moveable: false,
    }
}

/// A fresh capsule: pushable, not yet usable; `repair_capsule` arms it.
pub fn create_capsule(pos: Position) -> (a: Actor)
    ensures
        a == (Actor {
            kind: Kind::Capsule(Capsule),
            pos,
            dir: MovingDir(crate::components::IntVec2(0, 0)),
            shooting: None,
            usable: None,
            moveable: true,
        }),
{
    Actor {
        kind: Kind::Capsule(Capsule),
        pos,
        dir: MovingDir::zero(),
        shooting: None,
        usable: None,
        moveable: true,
    }
}

pub fn create_bomb(pos: Position) -> (a: Actor)
    ensures
        a == (Actor {
            kind: Kind::Bomb(Bomb(false)),
            pos,
            dir: MovingDir(crate::components::IntVec2(0, 0)),
            shooting: None,
            usable: None,
            moveable: true,
        }),
{
    Actor {
        kind: Kind::Bomb(Bomb(false)),
        pos,
        dir: MovingDir::zero(),
        shooting: None,
        usable: None,
        moveable: true,
    }
}

pub fn create_explosion(pos: Position) -> (a: Actor)
    ensures
        a == spec_explosion(pos),
{
    Actor {
        kind: Kind::Animation(Animation { frames_left: EXPLOSION_FRAMES }, None),
        pos,
        dir: MovingDir::zero(),
        shooting: None,
        usable: None,
        moveable: false,
    }
}

pub fn create_small_explosion(pos: Position) -> (a: Actor)
    ensures
        a == spec_explosion(pos),
{
    create_explosion(pos)
}

/// The marker a blaster head leaves on every cell it covered.
pub fn create_blaster_tail(pos: Position) -> (a: Actor)
    ensures
        a == spec_explosion(pos),
{
    create_explosion(pos)
}

/// The player spawn flash actor for a cell; emits `SpawnRobbo` there when
/// it ends.
pub open spec fn spec_spawn_flash(pos: Position) -> Actor {
    Actor {
        kind: Kind::Animation(
            Animation { frames_left: EXPLOSION_FRAMES },
            Some(GameEvent::SpawnRobbo(pos)),
        ),
        pos,
        dir: MovingDir(crate::components::IntVec2(0, 0)),
        shooting: None,
        usable: None,
        moveable: false,
    }
}

/// The player actor standing at a cell.
pub open spec fn spec_robbo(pos: Position) -> Actor {
    Actor {
        kind: Kind::Robbo(Robbo),
        pos,
        dir: MovingDir(crate::components::IntVec2(0, 0)),
        shooting: None,
        usable: None,
        moveable: false,
    }
}

/// The player spawn flash; emits `SpawnRobbo` when it ends.
pub fn spawn_robbo(pos: Position) -> (a: Actor)
    ensures
        a == spec_spawn_flash(pos),
{
    Actor {
        kind: Kind::Animation(
            Animation { frames_left: EXPLOSION_FRAMES },
            Some(GameEvent::SpawnRobbo(pos)),
        ),
        pos,
        dir: MovingDir::zero(),
        shooting: None,
        usable: None,
        moveable: false,
    }
}

/// The departing-capsule flash left when the level is completed.
pub fn fly_away(pos: Position) -> (a: Actor)
    ensures
        a == spec_explosion(pos),
{
    create_explosion(pos)
}

pub fn create_questionmark(pos: Position) -> (a: Actor)
    ensures
        a == (Actor {
            kind: Kind::QuestionMark,
            pos,
            dir: MovingDir(crate::components::IntVec2(0, 0)),
            shooting: None,
            usable: None,
            moveable: true,
        }),
{
    Actor {
        kind: Kind::QuestionMark,
        pos,
        dir: MovingDir::zero(),
        shooting: None,
        usable: None,
        moveable: true,
    }
}

pub fn create_door(pos: Position) -> (a: Actor)
    ensures
        a == (Actor {
            kind: Kind::Door,
            pos,
            dir: MovingDir(crate::components::IntVec2(0, 0)),
            shooting: None,
            usable: Some(Usable::Door),
            moveable: false,
        }),
{
    Actor {
        kind: Kind::Door,
        pos,
        dir: MovingDir::zero(),
        shooting: None,
        usable: Some(Usable::Door),
        moveable: false,
    }
}

pub fn create_teleport(pos: Position, group: usize, ordinal: usize) -> (a: Actor)
    ensures
        a == (Actor {
            kind: Kind::Teleport(Teleport(group, ordinal)),
            pos,
            dir: MovingDir(crate::components::IntVec2(0, 0)),
            shooting: None,
            usable: Some(Usable::Teleport),
            moveable: false,
        }),
{
    Actor {
        kind: Kind::Teleport(Teleport(group, ordinal)),
        pos,
        dir: MovingDir::zero(),
        shooting: None,
        usable: Some(Usable::Teleport),
        moveable: false,
    }
}

pub fn create_eyes(pos: Position) -> (a: Actor)
    ensures
        a == (Actor {
            kind: Kind::Eyes,
            pos,
            dir: MovingDir(crate::components::IntVec2(0, 0)),
            shooting: None,
            usable: None,
            moveable: false,
        }),
{
    Actor {
        kind: Kind::Eyes,
        pos,
        dir: MovingDir::zero(),
        shooting: None,
        usable: None,
        moveable: false,
    }
}

/// A gun facing `index`'s direction; `moveable` guns patrol along
/// `moving_dir`, and `rotatable` guns re-aim between shots.
pub fn create_gun(
    pos: Position,
    index: usize,
    gun_type: GunType,
    moveable: bool,
    moving_dir: MovingDir,
    rotatable: Option<Rotatable>,
) -> (a: Actor)
    ensures
        a == (Actor {
            kind: Kind::Gun { gun_type, fire_threshold: GUN_FIRE_THRESHOLD, rotatable },
            pos,
            dir: if moveable {
                moving_dir
            } else {
                MovingDir(crate::components::IntVec2(0, 0))
            },
            shooting: Some(ShootingDir { dir: MovingDir::spec_by_index(index).0 }),
            usable: None,
            moveable,
        }),
{
    Actor {
        kind: Kind::Gun { gun_type, fire_threshold: GUN_FIRE_THRESHOLD, rotatable },
        pos,
        dir: if moveable {
            moving_dir
        } else {
            MovingDir::zero()
        },
        shooting: Some(ShootingDir::by_index(index)),
        usable: None,
        moveable,
    }
}

pub fn create_magnet(pos: Position, index: usize) -> (a: Actor)
    ensures
        a == (Actor {
            kind: Kind::Magnet(Magnet { dir: MovingDir::spec_by_index(index).0 }),
            pos,
            dir: MovingDir(crate::components::IntVec2(0, 0)),
            shooting: None,
            usable: None,
            moveable: false,
        }),
{
    Actor {
        kind: Kind::Magnet(Magnet::by_index(index)),
        pos,
        dir: MovingDir::zero(),
        shooting: None,
        usable: None,
        moveable: false,
    }
}

/// A force-field segment oscillating on the vertical track
/// `[top, bottom)`.
pub fn create_forcefield(pos: Position, dir: MovingDir, top: i32, bottom: i32) -> (a: Actor)
    ensures
        a == (Actor {
            kind: Kind::ForceField(ForceField { top, bottom }),
            pos,
            dir,
            shooting: None,
            usable: None,
            moveable: false,
        }),
{
    Actor {
        kind: Kind::ForceField(ForceField { top, bottom }),
        pos,
        dir,
        shooting: None,
        usable: None,
        moveable: false,
    }
}

/// The item a destroyed question mark turns into for the draw `r`:
/// explosion, push-box, screw, ammo, key, bomb, ground, eyes, random gun
/// or another question mark, one per residue of the draw.
pub open spec fn spec_spawn_random(pos: Position, r: u32) -> Actor {
    let k = r % 10;
    if k == 0 {
        spec_explosion(pos)
    } else if k == 1 {
        Actor {
            kind: Kind::PushBox(PushBox),
            pos,
            dir: MovingDir(crate::components::IntVec2(0, 0)),
            shooting: None,
            usable: None,
            moveable: true,
        }
    } else if k == 2 {
        Actor {
            kind: Kind::Collectable(Collectable::Screw),
            pos,
            dir: MovingDir(crate::components::IntVec2(0, 0)),
            shooting: None,
            usable: None,
            moveable: false,
        }
    } else if k == 3 {
        Actor {
            kind: Kind::Collectable(Collectable::Ammo),
            pos,
            dir: MovingDir(crate::components::IntVec2(0, 0)),
            shooting: None,
            usable: None,
            moveable: false,
        }
    } else if k == 4 {
        Actor {
            kind: Kind::Collectable(Collectable::Key),
            pos,
            dir: MovingDir(crate::components::IntVec2(0, 0)),
            shooting: None,
            usable: None,
            moveable: false,
        }
    } else if k == 5 {
        Actor {
            kind: Kind::Bomb(Bomb(false)),
            pos,
            dir: MovingDir(crate::components::IntVec2(0, 0)),
            shooting: None,
            usable: None,
            moveable: true,
        }
    } else if k == 6 {
        Actor {
            kind: Kind::Ground,
            pos,
            dir: MovingDir(crate::components::IntVec2(0, 0)),
            shooting: None,
            usable: None,
            moveable: false,
        }
    } else if k == 7 {
        Actor {
            kind: Kind::Eyes,
            pos,
            dir: MovingDir(crate::components::IntVec2(0, 0)),
            shooting: None,
            usable: None,
            moveable: false,
        }
    } else if k == 8 {
        Actor {
            kind: Kind::Gun {
                gun_type: GunType::Burst,
                fire_threshold: GUN_FIRE_THRESHOLD,
                rotatable: Some(Rotatable::Random),
            },
            pos,
            dir: MovingDir(crate::components::IntVec2(0, 0)),
            shooting: Some(ShootingDir { dir: crate::components::IntVec2(0, 1) }),
            usable: None,
            moveable: false,
        }
    } else {
        Actor {
            kind: Kind::QuestionMark,
            pos,
            dir: MovingDir(crate::components::IntVec2(0, 0)),
            shooting: None,
            usable: None,
            moveable: true,
        }
    }
}

pub fn spawn_random(pos: Position, r: u32) -> (a: Actor)
    ensures
        a == spec_spawn_random(pos, r),
        a.pos == pos,
        a.dir.0.is_small(),
        a.shooting matches Some(s) ==> s.dir.is_small(),
{
    let k: u32 = r % 10;
    if k == 0 {
        create_small_explosion(pos)
    } else if k == 1 {
        create_push_box(pos)
    } else if k == 2 {
        create_screw(pos)
    } else if k == 3 {
        create_ammo(pos)
    } else if k == 4 {
        create_key(pos)
    } else if k == 5 {
        create_bomb(pos)
    } else if k == 6 {
        create_ground(pos)
    } else if k == 7 {
        create_eyes(pos)
    } else if k == 8 {
        create_gun(pos, 0, GunType::Burst, false, MovingDir::zero(), Some(Rotatable::Random))
    } else {
        create_questionmark(pos)
    }
}

} // verus!
