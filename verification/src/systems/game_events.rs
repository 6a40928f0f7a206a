//! Game-event handling: the "use" interactions the player emits (door,
//! capsule, teleport) and the spawn/kill requests queued by other phases.
//! Level-reload requests stay queued for the surrounding collaborator.

use vstd::prelude::*;
use crate::board::Actor;
use crate::board::Board;
use crate::board::Kind;
use crate::board::find_robbo;
use crate::board::spec_first_robbo_from;
use crate::components::MovingDir;
use crate::components::Position;
use crate::components::Usable;
use crate::damage::DamageMap;
use crate::entities::create_robbo;
use crate::entities::create_small_explosion;
use crate::entities::fly_away;
use crate::entities::spawn_random;
use crate::entities::spawn_robbo;
use crate::entities::spec_explosion;
use crate::entities::spec_robbo;
use crate::entities::spec_spawn_flash;
use crate::entities::spec_spawn_random;
use crate::game_events::GameEvent;
use crate::game_events::Sound;
use crate::inventory::Inventory;
use crate::rng::random_u32;
use crate::systems::utils::spec_route;
use crate::systems::utils::teleport_dest_position;

verus! {

/// The exact door-use relation: with a key in the inventory the door and
/// one key are consumed (door sound); without keys nothing happens.
pub open spec fn spec_use_door_rel(
    pre: Board,
    post: Board,
    inv0: Inventory,
    inv1: Inventory,
    s0: Seq<Sound>,
    s1: Seq<Sound>,
    e: usize,
) -> bool {
    &&& post.wf()
    &&& post.width == pre.width
    &&& post.height == pre.height
    &&& post.walls@ == pre.walls@
    &&& if inv0.keys > 0 {
        &&& post.actors@ == pre.actors@.update(e as int, None)
        &&& inv1 == (Inventory { keys: (inv0.keys - 1) as usize, ..inv0 })
        &&& s1 == s0.push(Sound::DOOR)
    } else {
        &&& post == pre
        &&& inv1 == inv0
        &&& s1 == s0
    }
}

/// The exact capsule-use relation: with a player on the board, the player
/// and the capsule despawn and the departing flash takes the capsule's
/// cell (capsule sound); without a player nothing happens.
pub open spec fn spec_use_capsule_rel(
    pre: Board,
    post: Board,
    s0: Seq<Sound>,
    s1: Seq<Sound>,
    e: usize,
) -> bool {
    &&& post.wf()
    &&& post.width == pre.width
    &&& post.height == pre.height
    &&& post.walls@ == pre.walls@
    &&& match spec_first_robbo_from(pre, 0) {
        Some(r) => {
            let pos = pre.actor(e).pos;
            &&& if r != e {
                post.actors@ == pre.actors@.update(r as int, None).update(e as int, None).push(
                    Some(spec_explosion(pos)),
                )
            } else {
                post.actors@ == pre.actors@.update(e as int, None).push(
                    Some(spec_explosion(pos)),
                )
            }
            &&& s1 == s0.push(Sound::CAPSULE)
        },
        None => post == pre && s1 == s0,
    }
}

/// The exact teleport-use relation: when the router yields a destination
/// and a player is on the board, the player despawns with a small
/// explosion at its old cell and the spawn flash starts at the destination
/// (teleport sound); otherwise nothing happens.
pub open spec fn spec_use_teleport_rel(
    pre: Board,
    post: Board,
    s0: Seq<Sound>,
    s1: Seq<Sound>,
    e: usize,
    direction: MovingDir,
) -> bool {
    let g = (pre.actor(e).kind->Teleport_0).0;
    let ord = (pre.actor(e).kind->Teleport_0).1;
    let cc = direction.0.0 != 0;
    &&& post.wf()
    &&& post.width == pre.width
    &&& post.height == pre.height
    &&& post.walls@ == pre.walls@
    &&& match spec_route(pre, g, ord, direction, cc, pre.actors@.len() as int) {
        Some(q) => match spec_first_robbo_from(pre, 0) {
            Some(r) => {
                let rp = pre.actor(r).pos;
                &&& post.actors@ == pre.actors@.update(r as int, None).push(
                    Some(spec_explosion(rp)),
                ).push(Some(spec_spawn_flash(q)))
                &&& s1 == s0.push(Sound::TELEPORT)
            },
            None => post == pre && s1 == s0,
        },
        None => post == pre && s1 == s0,
    }
}

/// Use a door: exactly `spec_use_door_rel`.
pub fn game_event_use_item(
    board: &mut Board,
    inventory: &mut Inventory,
    e: usize,
    sounds: &mut Vec<Sound>,
)
    requires
        old(board).wf(),
        old(board).live(e),
        old(board).actor(e).usable == Some(Usable::Door),
    ensures
        spec_use_door_rel(
            *old(board),
            *final(board),
            *old(inventory),
            *final(inventory),
            old(sounds)@,
            final(sounds)@,
            e,
        ),
        final(inventory).screws == old(inventory).screws,
        final(inventory).bullets == old(inventory).bullets,
{
    if inventory.keys > 0 {
        inventory.keys = inventory.keys - 1;
        board.despawn(e);
        sounds.push(Sound::DOOR);
    }
}

/// Use the capsule (level completion): exactly `spec_use_capsule_rel`.
pub fn game_event_use_capsule(board: &mut Board, e: usize, sounds: &mut Vec<Sound>)
    requires
        old(board).wf(),
        old(board).live(e),
        old(board).actor(e).usable == Some(Usable::Capsule),
    ensures
        spec_use_capsule_rel(*old(board), *final(board), old(sounds)@, final(sounds)@, e),
{
    let r = match find_robbo(board) {
        Some(r) => r,
        None => {
            return ;
        },
    };
    proof {
        assert(board.actor_ok(e));
        assert(board.actor_ok(r));
    }
    let pos = board.actor_at(e).pos;
    if r != e {
        board.despawn(r);
    }
    board.despawn(e);
    board.spawn(fly_away(pos));
    sounds.push(Sound::CAPSULE);
}

/// Use a teleport: exactly `spec_use_teleport_rel`.
pub fn game_event_use_teleport(
    board: &mut Board,
    e: usize,
    direction: MovingDir,
    sounds: &mut Vec<Sound>,
)
    requires
        old(board).wf(),
        old(board).live(e),
        old(board).actor(e).kind is Teleport,
        direction.0.is_small(),
    ensures
        spec_use_teleport_rel(
            *old(board),
            *final(board),
            old(sounds)@,
            final(sounds)@,
            e,
            direction,
        ),
{
    let dest = match teleport_dest_position(board, e, direction) {
        Some(d) => d,
        None => {
            return ;
        },
    };
    let r = match find_robbo(board) {
        Some(r) => r,
        None => {
            return ;
        },
    };
    proof {
        assert(board.actor_ok(r));
    }
    let rp = board.actor_at(r).pos;
    board.despawn(r);
    board.spawn(create_small_explosion(rp));
    board.spawn(spawn_robbo(dest));
    sounds.push(Sound::TELEPORT);
}

/// The exact effect of handling one queued event, relating the board, the
/// damage ledger, the inventory, the retained (outgoing) queue and the
/// sound stream around it. Use interactions follow the use relations;
/// spawn requests take effect on a free cell and lapse otherwise; a kill
/// request books non-bomb damage on the player's cell; a reload request is
/// the one event retained.
pub open spec fn spec_event_step(
    ev: GameEvent,
    b0: Board,
    b1: Board,
    dm0: DamageMap,
    dm1: DamageMap,
    inv0: Inventory,
    inv1: Inventory,
    out0: Seq<GameEvent>,
    out1: Seq<GameEvent>,
    s0: Seq<Sound>,
    s1: Seq<Sound>,
) -> bool {
    match ev {
        GameEvent::Use(e, pos, dir) => {
            &&& dm1 == dm0
            &&& out1 == out0
            &&& if b0.live(e) {
                match b0.actor(e).usable {
                    Some(Usable::Door) => spec_use_door_rel(b0, b1, inv0, inv1, s0, s1, e),
                    Some(Usable::Capsule) => spec_use_capsule_rel(b0, b1, s0, s1, e) && inv1
                        == inv0,
                    Some(Usable::Teleport) => {
                        &&& inv1 == inv0
                        &&& if b0.actor(e).kind is Teleport && dir.0.is_small() {
                            spec_use_teleport_rel(b0, b1, s0, s1, e, dir)
                        } else {
                            b1 == b0 && s1 == s0
                        }
                    },
                    None => b1 == b0 && inv1 == inv0 && s1 == s0,
                }
            } else {
                b1 == b0 && inv1 == inv0 && s1 == s0
            }
        },
        GameEvent::SpawnRobbo(pos) => {
            &&& dm1 == dm0
            &&& inv1 == inv0
            &&& out1 == out0
            &&& s1 == s0
            &&& if b0.spec_free(pos) {
                &&& b1.wf()
                &&& b1.width == b0.width
                &&& b1.height == b0.height
                &&& b1.walls@ == b0.walls@
                &&& b1.actors@ == b0.actors@.push(Some(spec_robbo(pos)))
            } else {
                b1 == b0
            }
        },
        GameEvent::PreSpawnRobbo(pos) => {
            &&& dm1 == dm0
            &&& inv1 == inv0
            &&& out1 == out0
            &&& s1 == s0.push(Sound::SPAWN)
            &&& if b0.spec_free(pos) {
                &&& b1.wf()
                &&& b1.width == b0.width
                &&& b1.height == b0.height
                &&& b1.walls@ == b0.walls@
                &&& b1.actors@ == b0.actors@.push(Some(spec_spawn_flash(pos)))
            } else {
                b1 == b0
            }
        },
        GameEvent::SpawnRandom(pos) => {
            &&& dm1 == dm0
            &&& inv1 == inv0
            &&& out1 == out0
            &&& s1 == s0
            &&& if b0.spec_free(pos) {
                &&& b1.wf()
                &&& b1.width == b0.width
                &&& b1.height == b0.height
                &&& b1.walls@ == b0.walls@
                &&& exists|rv: u32| b1.actors@ == b0.actors@.push(
                    Some(#[trigger] spec_spawn_random(pos, rv)),
                )
            } else {
                b1 == b0
            }
        },
        GameEvent::KillRobbo => {
            &&& b1 == b0
            &&& inv1 == inv0
            &&& out1 == out0
            &&& s1 == s0
            &&& dm1.wf()
            &&& dm1.width == dm0.width
            &&& dm1.height == dm0.height
            &&& match spec_first_robbo_from(b0, 0) {
                Some(r) => {
                    let rp = b0.actor(r).pos;
                    &&& (dm0.in_bounds(rp) ==> dm1.damage_at(rp) == Some(false))
                    &&& (!dm0.in_bounds(rp) ==> dm1 == dm0)
                    &&& forall|q: Position| q != rp ==> dm1.damage_at(q) == dm0.damage_at(q)
                },
                None => dm1 == dm0,
            }
        },
        GameEvent::ReloadLevel(_) => {
            &&& b1 == b0
            &&& dm1 == dm0
            &&& inv1 == inv0
            &&& s1 == s0
            &&& out1 == out0.push(ev)
        },
    }
}

/// The whole queue drain as a chain of event steps in queue order.
pub open spec fn spec_events_pass(
    q: Seq<GameEvent>,
    b_pre: Board,
    b_post: Board,
    dm_pre: DamageMap,
    dm_post: DamageMap,
    inv_pre: Inventory,
    inv_post: Inventory,
    out_pre: Seq<GameEvent>,
    out_post: Seq<GameEvent>,
    s_pre: Seq<Sound>,
    s_post: Seq<Sound>,
    k: int,
) -> bool
    decreases k,
{
    if k <= 0 {
        b_post == b_pre && dm_post == dm_pre && inv_post == inv_pre && out_post == out_pre
            && s_post == s_pre
    } else {
        exists|bm: Board, dmm: DamageMap, invm: Inventory, outm: Seq<GameEvent>, sm: Seq<Sound>|
            #![trigger spec_event_step(q[k - 1], bm, b_post, dmm, dm_post, invm, inv_post, outm, out_post, sm, s_post)]
            spec_events_pass(
                q,
                b_pre,
                bm,
                dm_pre,
                dmm,
                inv_pre,
                invm,
                out_pre,
                outm,
                s_pre,
                sm,
                k - 1,
            ) && spec_event_step(
                q[k - 1],
                bm,
                b_post,
                dmm,
                dm_post,
                invm,
                inv_post,
                outm,
                out_post,
                sm,
                s_post,
            )
    }
}

/// Drain the event queue in order: each event takes exactly its
/// `spec_event_step` effect, reload requests are the only events retained,
/// and nothing else remains queued.
pub fn game_event_system(
    board: &mut Board,
    damage_map: &mut DamageMap,
    inventory: &mut Inventory,
    events: &mut Vec<GameEvent>,
    sounds: &mut Vec<Sound>,
)
    requires
        old(board).wf(),
        old(damage_map).wf(),
    ensures
        final(board).wf(),
        final(damage_map).wf(),
        final(damage_map).width == old(damage_map).width,
        final(damage_map).height == old(damage_map).height,
        final(board).width == old(board).width,
        final(board).height == old(board).height,
        final(board).walls@ == old(board).walls@,
        spec_events_pass(
            old(events)@,
            *old(board),
            *final(board),
            *old(damage_map),
            *final(damage_map),
            *old(inventory),
            *final(inventory),
            Seq::empty(),
            final(events)@,
            old(sounds)@,
            final(sounds)@,
            old(events)@.len() as int,
        ),
        forall|k: int|
            0 <= k < final(events)@.len() ==> (#[trigger] final(events)@[k]) is ReloadLevel,
{
    let mut queue: Vec<GameEvent> = Vec::new();
    core::mem::swap(events, &mut queue);
    let n = queue.len();
    let mut k: usize = 0;
    while k < n
        invariant
            board.wf(),
            damage_map.wf(),
            damage_map.width == old(damage_map).width,
            damage_map.height == old(damage_map).height,
            board.width == old(board).width,
            board.height == old(board).height,
            board.walls@ == old(board).walls@,
            n == queue@.len(),
            queue@ == old(events)@,
            k <= n,
            spec_events_pass(
                queue@,
                *old(board),
                *board,
                *old(damage_map),
                *damage_map,
                *old(inventory),
                *inventory,
                Seq::empty(),
                events@,
                old(sounds)@,
                sounds@,
                k as int,
            ),
            forall|t: int| 0 <= t < events@.len() ==> (#[trigger] events@[t]) is ReloadLevel,
        decreases n - k,
    {
        let ghost prev_b = *board;
        let ghost prev_dm = *damage_map;
        let ghost prev_inv = *inventory;
        let ghost prev_out = events@;
        let ghost prev_s = sounds@;
        let ev = queue[k];
        match ev {
            GameEvent::Use(e, _pos, dir) => {
                let usable = if e < board.actors.len() {
                    match &board.actors[e] {
                        Some(a) => a.usable,
                        None => None,
                    }
                } else {
                    None
                };
                match usable {
                    Some(Usable::Door) => {
                        game_event_use_item(board, inventory, e, sounds);
                    },
                    Some(Usable::Capsule) => {
                        game_event_use_capsule(board, e, sounds);
                    },
                    Some(Usable::Teleport) => {
                        let is_teleport = matches!(board.actor_at(e).kind, Kind::Teleport(_));
                        let small = dir.x() >= -1 && dir.x() <= 1 && dir.y() >= -1 && dir.y() <= 1;
                        if is_teleport && small {
                            game_event_use_teleport(board, e, dir, sounds);
                        }
                    },
                    None => {},
                }
            },
            GameEvent::SpawnRobbo(pos) => {
                if board.is_free(&pos) {
                    board.spawn(create_robbo(pos));
                }
            },
            GameEvent::PreSpawnRobbo(pos) => {
                sounds.push(Sound::SPAWN);
                if board.is_free(&pos) {
                    board.spawn(spawn_robbo(pos));
                }
            },
            GameEvent::SpawnRandom(pos) => {
                if board.is_free(&pos) {
                    let rv = random_u32();
                    board.spawn(spawn_random(pos, rv));
                    proof {
                        assert(board.actors@ == prev_b.actors@.push(
                            Some(spec_spawn_random(pos, rv)),
                        ));
                    }
                }
            },
            GameEvent::KillRobbo => {
                match find_robbo(board) {
                    Some(r) => {
                        proof {
                            assert(board.actor_ok(r));
                        }
                        let rp = board.actor_at(r).pos;
                        damage_map.do_damage(&rp, false);
                    },
                    None => {},
                }
            },
            GameEvent::ReloadLevel(_) => {
                events.push(ev);
            },
        }
        proof {
            let ghost kk: int = k as int + 1;
            assert(spec_event_step(
                queue@[kk - 1],
                prev_b,
                *board,
                prev_dm,
                *damage_map,
                prev_inv,
                *inventory,
                prev_out,
                events@,
                prev_s,
                sounds@,
            ));
            assert(spec_events_pass(
                queue@,
                *old(board),
                prev_b,
                *old(damage_map),
                prev_dm,
                *old(inventory),
                prev_inv,
                Seq::empty(),
                prev_out,
                old(sounds)@,
                prev_s,
                kk - 1,
            ));
            assert(spec_events_pass(
                queue@,
                *old(board),
                *board,
                *old(damage_map),
                *damage_map,
                *old(inventory),
                *inventory,
                Seq::empty(),
                events@,
                old(sounds)@,
                sounds@,
                kk,
            ));
        }
        k = k + 1;
    }
}

} // verus!
