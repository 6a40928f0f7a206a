//! Shooting resolution: guns fire with a fixed per-keyframe probability,
//! the player fires its one-shot direction; the projectile matches the gun
//! type and spawns in front of the shooter when free, else the blocked cell
//! is damaged.

use vstd::prelude::*;
use crate::board::Actor;
use crate::board::Board;
use crate::board::Kind;
use crate::components::GunType;
use crate::components::MovingDir;
use crate::components::Position;
use crate::components::ShootingDir;
use crate::damage::DamageMap;
use crate::entities::create_blaster_head;
use crate::entities::create_bullet;
use crate::entities::create_laser_head;
use crate::game_events::Sound;
use crate::rng::random_u32;

verus! {

/// Fire one shot from the actor in slot `i` along its shooting direction:
/// spawn the projectile of the gun type on the cell in front when that cell
/// is free, else register non-bomb damage there.
pub fn fire(board: &mut Board, damage_map: &mut DamageMap, i: usize, gun_type: GunType)
    requires
        old(board).wf(),
        old(damage_map).wf(),
        old(board).live(i),
        old(board).actor(i).shooting is Some,
    ensures
        final(board).wf(),
        final(damage_map).wf(),
        final(damage_map).width == old(damage_map).width,
        final(damage_map).height == old(damage_map).height,
        final(board).width == old(board).width,
        final(board).height == old(board).height,
        final(board).walls@ == old(board).walls@,
        final(board).actors@.len() >= old(board).actors@.len(),
        spec_fire_slot(*old(board), *final(board), *old(damage_map), *final(damage_map), i, gun_type),
        ({
            let a = old(board).actor(i);
            let sd = MovingDir(a.shooting->Some_0.dir);
            let bp = a.pos.spec_add(sd);
            if old(board).spec_free(bp) {
                &&& final(board).actors@.len() == old(board).actors@.len() + 1
                &&& forall|j: usize|
                    j < old(board).actors@.len() ==> final(board).actors@[j as int] == old(
                        board,
                    ).actors@[j as int]
                &&& final(board).actors@.last() matches Some(p)
                &&& final(board).actors@.last()->Some_0.pos == bp
                &&& final(board).actors@.last()->Some_0.dir == sd
                &&& final(board).actors@.last()->Some_0.kind == match gun_type {
                    GunType::Solid => Kind::LaserHead(
                        crate::components::LaserHead { is_moving_back: false },
                    ),
                    GunType::Blaster => Kind::BlasterHead(crate::components::BlasterHead),
                    GunType::Burst => Kind::Bullet(crate::components::Bullet),
                }
                &&& *final(damage_map) == *old(damage_map)
            } else {
                &&& final(board).actors@ == old(board).actors@
                &&& (old(damage_map).in_bounds(bp) ==> final(damage_map).damage_at(bp) == Some(
                    false,
                ))
                &&& (!old(damage_map).in_bounds(bp) ==> *final(damage_map) == *old(damage_map))
                &&& forall|q: Position|
                    q != bp ==> final(damage_map).damage_at(q) == old(damage_map).damage_at(q)
            }
        }),
{
    proof {
        assert(board.actor_ok(i));
    }
    let a = board.actor_at(i);
    let sd = match a.shooting {
        Some(s) => s.as_moving_dir(),
        None => MovingDir::zero(),
    };
    let bullet_pos = a.pos.add(&sd);
    if board.is_free(&bullet_pos) {
        match gun_type {
            GunType::Solid => {
                board.spawn(create_laser_head(bullet_pos, sd.x(), sd.y()));
            },
            GunType::Blaster => {
                board.spawn(create_blaster_head(bullet_pos, sd.x(), sd.y()));
            },
            GunType::Burst => {
                board.spawn(create_bullet(bullet_pos, sd.x(), sd.y()));
            },
        }
    } else {
        damage_map.do_damage(&bullet_pos, false);
    }
}

/// The exact one-slot relation of a fired shot from slot `i`: the
/// projectile of the gun type appears on the free cell in front (a fresh
/// arena slot), else that cell gains non-bomb damage.
pub open spec fn spec_fire_slot(
    pre: Board,
    post: Board,
    dm0: DamageMap,
    dm1: DamageMap,
    i: usize,
    gun_type: GunType,
) -> bool {
    let a = pre.actor(i);
    let sd = MovingDir(a.shooting->Some_0.dir);
    let bp = a.pos.spec_add(sd);
    &&& post.wf()
    &&& dm1.wf()
    &&& post.width == pre.width
    &&& post.height == pre.height
    &&& post.walls@ == pre.walls@
    &&& dm1.width == dm0.width
    &&& dm1.height == dm0.height
    &&& if pre.spec_free(bp) {
        &&& post.actors@.len() == pre.actors@.len() + 1
        &&& forall|j: usize|
            j < pre.actors@.len() ==> post.actors@[j as int] == pre.actors@[j as int]
        &&& post.actors@.last() matches Some(p)
        &&& post.actors@.last()->Some_0.pos == bp
        &&& post.actors@.last()->Some_0.dir == sd
        &&& post.actors@.last()->Some_0.kind == match gun_type {
            GunType::Solid => Kind::LaserHead(
                crate::components::LaserHead { is_moving_back: false },
            ),
            GunType::Blaster => Kind::BlasterHead(crate::components::BlasterHead),
            GunType::Burst => Kind::Bullet(crate::components::Bullet),
        }
        &&& dm1 == dm0
    } else {
        &&& post.actors@ == pre.actors@
        &&& (dm0.in_bounds(bp) ==> dm1.damage_at(bp) == Some(false))
        &&& (!dm0.in_bounds(bp) ==> dm1 == dm0)
        &&& forall|q: Position| q != bp ==> dm1.damage_at(q) == dm0.damage_at(q)
    }
}

/// One tick-slot of the shooting pass: a gun with a pending direction
/// fires or holds (its draw decides); a player with a pending one-shot
/// always fires it as a burst, loses the one-shot and emits the shot
/// sound; every other slot changes nothing.
pub open spec fn spec_shot_tick_slot(
    mid: Board,
    post: Board,
    dm0: DamageMap,
    dm1: DamageMap,
    s0: Seq<Sound>,
    s1: Seq<Sound>,
    i: usize,
) -> bool {
    if mid.live(i) && mid.actor(i).shooting is Some {
        match mid.actor(i).kind {
            Kind::Gun { gun_type, .. } => {
                ||| (post == mid && dm1 == dm0 && s1 == s0)
                ||| (spec_fire_slot(mid, post, dm0, dm1, i, gun_type) && s1 == s0)
            },
            Kind::Robbo(_) => exists|fired: Board|
                {
                    &&& #[trigger] spec_fire_slot(mid, fired, dm0, dm1, i, GunType::Burst)
                    &&& post.wf()
                    &&& post.width == fired.width
                    &&& post.height == fired.height
                    &&& post.walls@ == fired.walls@
                    &&& post.actors@ == fired.actors@.update(
                        i as int,
                        Some(Actor { shooting: None, ..fired.actor(i) }),
                    )
                    &&& s1 == s0.push(Sound::SHOT)
                },
            _ => post == mid && dm1 == dm0 && s1 == s0,
        }
    } else {
        post == mid && dm1 == dm0 && s1 == s0
    }
}

/// The whole shooting pass as a chain of tick-slots over arena order,
/// threading the damage ledger and the sound stream through the chain.
pub open spec fn spec_shots_pass(
    pre: Board,
    post: Board,
    dm_pre: DamageMap,
    dm_post: DamageMap,
    s_pre: Seq<Sound>,
    s_post: Seq<Sound>,
    k: int,
) -> bool
    decreases k,
{
    if k <= 0 {
        post == pre && dm_post == dm_pre && s_post == s_pre
    } else {
        exists|mid: Board, dm_mid: DamageMap, s_mid: Seq<Sound>|
            #![trigger spec_shot_tick_slot(mid, post, dm_mid, dm_post, s_mid, s_post, (k - 1) as usize)]
            spec_shots_pass(pre, mid, dm_pre, dm_mid, s_pre, s_mid, k - 1) && spec_shot_tick_slot(
                mid,
                post,
                dm_mid,
                dm_post,
                s_mid,
                s_post,
                (k - 1) as usize,
            )
    }
}

/// What one shooting tick does to arena slot `j`, whatever the draws: the
/// player may lose its pending one-shot direction; every other slot is
/// untouched (projectiles spawn on fresh slots).
pub open spec fn shot_outcome(pre: Board, post: Board, j: usize) -> bool {
    match pre.actors@[j as int] {
        Some(a) => {
            if a.kind is Robbo {
                ||| post.actors@[j as int] == Some(a)
                ||| post.actors@[j as int] == Some(Actor { shooting: None, ..a })
            } else {
                post.actors@[j as int] == Some(a)
            }
        },
        None => post.actors@[j as int] is None,
    }
}

/// The shooting resolver: every gun fires when its random draw falls under
/// its threshold; the player fires its pending one-shot direction (always,
/// as a burst) and the one-shot is cleared, with a shot sound.
pub fn shot_system(board: &mut Board, damage_map: &mut DamageMap, sounds: &mut Vec<Sound>)
    requires
        old(board).wf(),
        old(damage_map).wf(),
    ensures
        final(board).wf(),
        final(damage_map).wf(),
        final(damage_map).width == old(damage_map).width,
        final(damage_map).height == old(damage_map).height,
        final(board).width == old(board).width,
        final(board).height == old(board).height,
        final(board).walls@ == old(board).walls@,
        final(board).actors@.len() >= old(board).actors@.len(),
        spec_shots_pass(
            *old(board),
            *final(board),
            *old(damage_map),
            *final(damage_map),
            old(sounds)@,
            final(sounds)@,
            old(board).actors@.len() as int,
        ),
        forall|j: usize|
            j < old(board).actors@.len() ==> shot_outcome(*old(board), *final(board), j),
{
    let n = board.actors.len();
    let mut i: usize = 0;
    while i < n
        invariant
            board.wf(),
            damage_map.wf(),
            damage_map.width == old(damage_map).width,
            damage_map.height == old(damage_map).height,
            n == old(board).actors@.len(),
            n <= board.actors@.len(),
            board.width == old(board).width,
            board.height == old(board).height,
            board.walls@ == old(board).walls@,
            i <= n,
            forall|j: usize| i <= j < n ==> board.actors@[j as int] == old(board).actors@[j as int],
            forall|j: usize| j < i ==> shot_outcome(*old(board), *board, j),
            spec_shots_pass(
                *old(board),
                *board,
                *old(damage_map),
                *damage_map,
                old(sounds)@,
                sounds@,
                i as int,
            ),
        decreases n - i,
    {
        let ghost prev = *board;
        let ghost prev_dm = *damage_map;
        let ghost prev_s = sounds@;
        let slot_live = board.actors[i].is_some();
        if slot_live {
            let a = board.actor_at(i);
            if a.shooting.is_some() {
                match a.kind {
                    Kind::Gun { gun_type, fire_threshold, rotatable: _ } => {
                        if random_u32() < fire_threshold {
                            fire(board, damage_map, i, gun_type);
                        }
                    },
                    Kind::Robbo(_) => {
                        fire(board, damage_map, i, GunType::Burst);
                        let ghost fired = *board;
                        proof {
                            assert(board.actor_ok(i));
                        }
                        let live_after = board.actors[i].is_some();
                        if live_after {
                            let ra = board.actor_at(i);
                            let mut cleared = ra;
                            cleared.shooting = None;
                            board.update_actor(i, cleared);
                        }
                        sounds.push(Sound::SHOT);
                        proof {
                            assert(spec_fire_slot(prev, fired, prev_dm, *damage_map, i, GunType::Burst));
                            assert(spec_shot_tick_slot(
                                prev,
                                *board,
                                prev_dm,
                                *damage_map,
                                prev_s,
                                sounds@,
                                i,
                            ));
                        }
                    },
                    _ => {},
                }
            }
        }
        proof {
            let ghost kk: int = i as int + 1;
            assert(spec_shot_tick_slot(prev, *board, prev_dm, *damage_map, prev_s, sounds@, (kk - 1) as usize));
            assert(spec_shots_pass(*old(board), prev, *old(damage_map), prev_dm, old(sounds)@, prev_s, kk - 1));
            assert(spec_shots_pass(*old(board), *board, *old(damage_map), *damage_map, old(sounds)@, sounds@, kk));
            assert(shot_outcome(*old(board), *board, i));
            assert forall|j: usize| j < i implies shot_outcome(*old(board), *board, j) by {
                assert(shot_outcome(*old(board), prev, j));
                assert(board.actors@[j as int] == prev.actors@[j as int]);
            }
        }
        i = i + 1;
    }
}

} // verus!
