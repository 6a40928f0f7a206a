//! Player resolution: the player's heading may combine x and y components;
//! each tick the x-only sub-direction is attempted first, then the y-only
//! one, and only the first success is applied. A sub-attempt walks into a
//! free cell, collects, pushes a movable actor, or emits a "use" event.

use vstd::prelude::*;
use crate::board::Actor;
use crate::board::Board;
use crate::board::Kind;
use crate::board::find_robbo;
use crate::board::spec_first_robbo_from;
use crate::components::MovingDir;
use crate::components::IntVec2;
use crate::components::Position;
use crate::components::ShootingDir;
use crate::game_events::GameEvent;
use crate::game_events::Sound;
use crate::inventory::Inventory;
use crate::inventory::spec_collect;
use crate::inventory::spec_collect_sound;

verus! {

/// How one sub-attempt of the player's move resolves.
#[derive(Clone, Copy, PartialEq, Eq, Structural, Debug)]
pub enum SubMove {
    /// The cell ahead is free: walk in.
    Walk,
    /// The cell ahead holds a collectible: take it and walk in.
    Collect,
    /// The cell ahead holds a movable actor with a free cell beyond: push.
    Push,
    /// The cell ahead holds a usable actor: emit a use interaction.
    UseItem,
    /// Nothing applies; the attempt is a no-op.
    Blocked,
}

/// Classify the sub-attempt of a player at `p` toward `d`.
pub open spec fn spec_sub_move(b: Board, p: Position, d: MovingDir) -> SubMove {
    let np = p.spec_add(d);
    if b.spec_free(np) {
        SubMove::Walk
    } else if !b.in_bounds(np) {
        SubMove::Blocked
    } else {
        match b.cell(np) {
            Some(e) => {
                let t = b.actor(e);
                if t.kind is Collectable {
                    SubMove::Collect
                } else if t.moveable && b.spec_free(np.spec_add(d)) {
                    SubMove::Push
                } else if t.usable is Some {
                    SubMove::UseItem
                } else {
                    SubMove::Blocked
                }
            },
            None => SubMove::Blocked,
        }
    }
}

/// What applying the sub-attempt toward `d` does, relating the board, the
/// inventory, the event queue and the sound stream before and after.
pub open spec fn spec_sub_applied(
    pre: Board,
    post: Board,
    inv0: Inventory,
    inv1: Inventory,
    ev0: Seq<GameEvent>,
    ev1: Seq<GameEvent>,
    snd0: Seq<Sound>,
    snd1: Seq<Sound>,
    r: usize,
    d: MovingDir,
) -> bool {
    let a = pre.actor(r);
    let np = a.pos.spec_add(d);
    match spec_sub_move(pre, a.pos, d) {
        SubMove::Walk => {
            &&& post.actors@ == pre.actors@.update(r as int, Some(Actor { pos: np, ..a }))
            &&& inv1 == inv0
            &&& ev1 == ev0
            &&& snd1 == snd0.push(Sound::WALK)
        },
        SubMove::Collect => {
            let e = pre.cell(np)->Some_0;
            let item = pre.actor(e).kind->Collectable_0;
            &&& post.actors@ == pre.actors@.update(e as int, None).update(
                r as int,
                Some(Actor { pos: np, ..a }),
            )
            &&& inv1 == spec_collect(inv0, item)
            &&& ev1 == ev0
            &&& snd1 == snd0.push(spec_collect_sound(item)).push(Sound::WALK)
        },
        SubMove::Push => {
            let e = pre.cell(np)->Some_0;
            let t = pre.actor(e);
            let np2 = np.spec_add(d);
            let pushed = if t.kind is PushBox {
                Actor { pos: np2, dir: d, ..t }
            } else {
                Actor { pos: np2, ..t }
            };
            &&& post.actors@ == pre.actors@.update(e as int, Some(pushed)).update(
                r as int,
                Some(Actor { pos: np, ..a }),
            )
            &&& inv1 == inv0
            &&& ev1 == ev0
            &&& snd1 == snd0.push(Sound::WALK)
        },
        SubMove::UseItem => {
            let e = pre.cell(np)->Some_0;
            &&& post == pre
            &&& inv1 == inv0
            &&& ev1 == ev0.push(GameEvent::Use(e, np, d))
            &&& snd1 == snd0
        },
        SubMove::Blocked => {
            &&& post == pre
            &&& inv1 == inv0
            &&& ev1 == ev0
            &&& snd1 == snd0
        },
    }
}

/// Apply one sub-attempt of the player in slot `r` toward `d`; returns
/// whether the attempt acted (anything but blocked).
fn sub_move_apply(
    board: &mut Board,
    inventory: &mut Inventory,
    events: &mut Vec<GameEvent>,
    sounds: &mut Vec<Sound>,
    r: usize,
    d: MovingDir,
) -> (acted: bool)
    requires
        old(board).wf(),
        old(board).live(r),
        old(board).actor(r).kind is Robbo,
        d.0.is_small(),
    ensures
        final(board).wf(),
        final(board).width == old(board).width,
        final(board).height == old(board).height,
        final(board).walls@ == old(board).walls@,
        final(board).actors@.len() == old(board).actors@.len(),
        acted == !(spec_sub_move(*old(board), old(board).actor(r).pos, d) is Blocked),
        spec_sub_applied(
            *old(board),
            *final(board),
            *old(inventory),
            *final(inventory),
            old(events)@,
            final(events)@,
            old(sounds)@,
            final(sounds)@,
            r,
            d,
        ),
{
    proof {
        assert(board.actor_ok(r));
    }
    let a = board.actor_at(r);
    let np = a.pos.add(&d);
    if board.is_free(&np) {
        board.mv(&a.pos, &np);
        proof {
            assert(old(board).cell_ok(a.pos.0.0 as int, a.pos.0.1 as int));
        }
        sounds.push(Sound::WALK);
        return true;
    }
    let front = board.get_entity(&np);
    proof {
        if old(board).in_bounds(np) {
            assert(old(board).cell_ok(np.0.0 as int, np.0.1 as int));
        }
    }
    match front {
        Some(e) => {
            proof {
                assert(board.actor_ok(e));
            }
            let target = board.actor_at(e);
            match target.kind {
                Kind::Collectable(item) => {
                    proof {
                        assert(e != r && np != a.pos);
                    }
                    inventory.collect(item, sounds);
                    board.despawn(e);
                    board.mv(&a.pos, &np);
                    proof {
                        assert(old(board).cell_ok(a.pos.0.0 as int, a.pos.0.1 as int));
                    }
                    sounds.push(Sound::WALK);
                    true
                },
                _ => {
                    let np2 = np.add(&d);
                    if target.moveable && board.is_free(&np2) {
                        proof {
                            assert(e != r && np != a.pos);
                            assert(np2 != a.pos);
                        }
                        let mut pushed = target;
                        pushed.pos = np2;
                        if matches!(target.kind, Kind::PushBox(_)) {
                            pushed.dir = d;
                        }
                        board.move_replace(e, pushed);
                        board.mv(&a.pos, &np);
                        proof {
                            assert(old(board).cell_ok(a.pos.0.0 as int, a.pos.0.1 as int));
                        }
                        sounds.push(Sound::WALK);
                        true
                    } else if target.usable.is_some() {
                        events.push(GameEvent::Use(e, np, d));
                        true
                    } else {
                        false
                    }
                },
            }
        },
        None => false,
    }
}

/// Set the player's heading from decoded input; the input mapping itself
/// (keys to components) lives outside the simulation.
pub fn robbo_set_direction(board: &mut Board, kx: i32, ky: i32)
    requires
        old(board).wf(),
        -1 <= kx <= 1,
        -1 <= ky <= 1,
    ensures
        final(board).wf(),
        final(board).width == old(board).width,
        final(board).height == old(board).height,
        final(board).walls@ == old(board).walls@,
        ({
            match spec_first_robbo_from(*old(board), 0) {
                Some(r) => final(board).actors@ == old(board).actors@.update(
                    r as int,
                    Some(Actor { dir: MovingDir(IntVec2(kx, ky)), ..old(board).actor(r) }),
                ),
                None => final(board).actors@ == old(board).actors@,
            }
        }),
{
    let r = match find_robbo(board) {
        Some(r) => r,
        None => {
            return ;
        },
    };
    proof {
        assert(board.actor_ok(r));
    }
    let mut turned = board.actor_at(r);
    turned.dir = MovingDir::new(kx, ky);
    board.update_actor(r, turned);
}

/// Arm one shot from decoded input: with a round of ammunition left, the
/// player stops (heading zeroed), a one-shot shooting direction is
/// attached and one round is consumed; without ammunition nothing happens.
pub fn robbo_shoot(board: &mut Board, inventory: &mut Inventory, kx: i32, ky: i32)
    requires
        old(board).wf(),
        -1 <= kx <= 1,
        -1 <= ky <= 1,
    ensures
        final(board).wf(),
        final(board).width == old(board).width,
        final(board).height == old(board).height,
        final(board).walls@ == old(board).walls@,
        ({
            match spec_first_robbo_from(*old(board), 0) {
                Some(r) => if old(inventory).bullets > 0 {
                    &&& final(board).actors@ == old(board).actors@.update(
                        r as int,
                        Some(
                            Actor {
                                dir: MovingDir(IntVec2(0, 0)),
                                shooting: Some(ShootingDir { dir: IntVec2(kx, ky) }),
                                ..old(board).actor(r)
                            },
                        ),
                    )
                    &&& final(inventory).bullets == old(inventory).bullets - 1
                } else {
                    &&& final(board).actors@ == old(board).actors@
                    &&& final(inventory).bullets == old(inventory).bullets
                },
                None => {
                    &&& final(board).actors@ == old(board).actors@
                    &&& final(inventory).bullets == old(inventory).bullets
                },
            }
        }),
        final(inventory).keys == old(inventory).keys,
        final(inventory).screws == old(inventory).screws,
{
    let r = match find_robbo(board) {
        Some(r) => r,
        None => {
            return ;
        },
    };
    if inventory.bullets == 0 {
        return ;
    }
    inventory.bullets = inventory.bullets - 1;
    proof {
        assert(board.actor_ok(r));
    }
    let mut armed = board.actor_at(r);
    armed.dir = MovingDir::zero();
    armed.shooting = Some(ShootingDir::new(kx, ky));
    board.update_actor(r, armed);
}

/// The exact relation of the player's move: the x-only sub-direction is
/// attempted first, then the y-only one against the same board, and only
/// the first success is applied.
pub open spec fn spec_move_robbo_rel(
    pre: Board,
    post: Board,
    inv0: Inventory,
    inv1: Inventory,
    ev0: Seq<GameEvent>,
    ev1: Seq<GameEvent>,
    s0: Seq<Sound>,
    s1: Seq<Sound>,
) -> bool {
    &&& post.wf()
    &&& post.width == pre.width
    &&& post.height == pre.height
    &&& post.walls@ == pre.walls@
    &&& post.actors@.len() == pre.actors@.len()
    &&& match spec_first_robbo_from(pre, 0) {
        Some(r) => {
            let a = pre.actor(r);
            let dx = MovingDir(IntVec2(a.dir.0.0, 0));
            let dy = MovingDir(IntVec2(0, a.dir.0.1));
            if a.dir.0.0 != 0 && !(spec_sub_move(pre, a.pos, dx) is Blocked) {
                spec_sub_applied(pre, post, inv0, inv1, ev0, ev1, s0, s1, r, dx)
            } else if a.dir.0.1 != 0 && !(spec_sub_move(pre, a.pos, dy) is Blocked) {
                spec_sub_applied(pre, post, inv0, inv1, ev0, ev1, s0, s1, r, dy)
            } else {
                &&& post.actors@ == pre.actors@
                &&& inv1 == inv0
                &&& ev1 == ev0
                &&& s1 == s0
            }
        },
        None => {
            &&& post.actors@ == pre.actors@
            &&& inv1 == inv0
            &&& ev1 == ev0
            &&& s1 == s0
        },
    }
}

/// The player resolver: decompose the heading into its x-only and y-only
/// sub-directions, attempt each in that order against the board each sees,
/// and apply only the first success.
pub fn move_robbo(
    board: &mut Board,
    inventory: &mut Inventory,
    events: &mut Vec<GameEvent>,
    sounds: &mut Vec<Sound>,
)
    requires
        old(board).wf(),
    ensures
        final(board).wf(),
        final(board).width == old(board).width,
        final(board).height == old(board).height,
        final(board).walls@ == old(board).walls@,
        final(board).actors@.len() == old(board).actors@.len(),
        spec_move_robbo_rel(
            *old(board),
            *final(board),
            *old(inventory),
            *final(inventory),
            old(events)@,
            final(events)@,
            old(sounds)@,
            final(sounds)@,
        ),
{
    let r = match find_robbo(board) {
        Some(r) => r,
        None => {
            return ;
        },
    };
    proof {
        assert(board.actor_ok(r));
    }
    let a = board.actor_at(r);
    let dx = MovingDir::new(a.dir.x(), 0);
    let dy = MovingDir::new(0, a.dir.y());
    if !dx.is_empty() {
        if sub_move_apply(board, inventory, events, sounds, r, dx) {
            return ;
        }
    }
    if !dy.is_empty() {
        if sub_move_apply(board, inventory, events, sounds, r, dy) {
            return ;
        }
    }
}

} // verus!
