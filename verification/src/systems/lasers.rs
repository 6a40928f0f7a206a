//! Laser head resolution: the head advances leaving tail segments behind;
//! on an obstacle it reverses once and registers damage; on the return trip
//! it consumes its own tail, and self-destructs at its origin.

use vstd::prelude::*;
use crate::board::Actor;
use crate::board::Board;
use crate::board::Kind;
use crate::components::LaserHead;
use crate::components::Position;
use crate::damage::DamageMap;
use crate::entities::create_laser_tail;
use crate::entities::create_small_explosion;
use crate::entities::spec_explosion;
use crate::entities::spec_laser_tail;

verus! {

/// The exact one-slot relation of the laser pass, one of four cases:
/// advance leaving a tail on the old cell; consume the tail ahead while
/// returning; turn around on first impact, registering damage; or
/// self-destruct into a small explosion.
pub open spec fn spec_laser_slot(
    pre: Board,
    post: Board,
    dm0: DamageMap,
    dm1: DamageMap,
    i: usize,
) -> bool {
    let a = pre.actor(i);
    let np = a.pos.spec_add(a.dir);
    let moving_back = (a.kind->LaserHead_0).is_moving_back;
    let tail_in_front = pre.in_bounds(np) && match pre.cell(np) {
        Some(t) => pre.actor(t).kind is LaserTail,
        None => false,
    };
    &&& post.wf()
    &&& dm1.wf()
    &&& post.width == pre.width
    &&& post.height == pre.height
    &&& post.walls@ == pre.walls@
    &&& dm1.width == dm0.width
    &&& dm1.height == dm0.height
    &&& if pre.spec_free(np) {
        &&& post.actors@ == pre.actors@.update(i as int, Some(Actor { pos: np, ..a })).push(
            Some(spec_laser_tail(a.pos)),
        )
        &&& dm1 == dm0
    } else if moving_back && tail_in_front {
        &&& post.actors@ == pre.actors@.update(pre.cell(np)->Some_0 as int, None).update(
            i as int,
            Some(Actor { pos: np, ..a }),
        )
        &&& dm1 == dm0
    } else if !moving_back {
        &&& post.actors@ == pre.actors@.update(
            i as int,
            Some(
                Actor {
                    kind: Kind::LaserHead(LaserHead { is_moving_back: true }),
                    dir: a.dir.spec_neg(),
                    ..a
                },
            ),
        )
        &&& (dm0.in_bounds(np) ==> dm1.damage_at(np) == Some(false))
        &&& (!dm0.in_bounds(np) ==> dm1 == dm0)
        &&& forall|q: Position| q != np ==> dm1.damage_at(q) == dm0.damage_at(q)
    } else {
        &&& post.actors@ == pre.actors@.update(i as int, None).push(Some(spec_explosion(a.pos)))
        &&& dm1 == dm0
    }
}

/// One tick-slot of the laser pass: a live laser head follows
/// `spec_laser_slot`; every other slot changes nothing.
pub open spec fn spec_laser_tick_slot(
    mid: Board,
    post: Board,
    dm0: DamageMap,
    dm1: DamageMap,
    i: usize,
) -> bool {
    if mid.live(i) && mid.actor(i).kind is LaserHead {
        spec_laser_slot(mid, post, dm0, dm1, i)
    } else {
        post == mid && dm1 == dm0
    }
}

/// The whole laser pass as a chain of tick-slots over arena order,
/// threading the damage ledger through the chain.
pub open spec fn spec_lasers_pass(
    pre: Board,
    post: Board,
    dm_pre: DamageMap,
    dm_post: DamageMap,
    k: int,
) -> bool
    decreases k,
{
    if k <= 0 {
        post == pre && dm_post == dm_pre
    } else {
        exists|mid: Board, dm_mid: DamageMap|
            #![trigger spec_laser_tick_slot(mid, post, dm_mid, dm_post, (k - 1) as usize)]
            spec_lasers_pass(pre, mid, dm_pre, dm_mid, k - 1) && spec_laser_tick_slot(
                mid,
                post,
                dm_mid,
                dm_post,
                (k - 1) as usize,
            )
    }
}

/// One laser head's move against the current board, exactly one of:
/// advance leaving a tail; consume the tail ahead while returning; turn
/// around on first impact, registering damage; or self-destruct into a
/// small explosion when back at its origin.
pub fn laser_head_step(board: &mut Board, damage_map: &mut DamageMap, i: usize)
    requires
        old(board).wf(),
        old(damage_map).wf(),
        old(board).live(i),
        old(board).actor(i).kind is LaserHead,
    ensures
        final(board).wf(),
        final(damage_map).wf(),
        final(damage_map).width == old(damage_map).width,
        final(damage_map).height == old(damage_map).height,
        final(board).width == old(board).width,
        final(board).height == old(board).height,
        final(board).walls@ == old(board).walls@,
        final(board).actors@.len() >= old(board).actors@.len(),
        spec_laser_slot(*old(board), *final(board), *old(damage_map), *final(damage_map), i),
        ({
            let a = old(board).actor(i);
            let np = a.pos.spec_add(a.dir);
            let moving_back = (a.kind->LaserHead_0).is_moving_back;
            let tail_in_front = old(board).in_bounds(np) && match old(board).cell(np) {
                Some(t) => old(board).actor(t).kind is LaserTail,
                None => false,
            };
            if old(board).spec_free(np) {
                &&& final(board).actors@ == old(board).actors@.update(
                    i as int,
                    Some(Actor { pos: np, ..a }),
                ).push(Some(spec_laser_tail(a.pos)))
                &&& *final(damage_map) == *old(damage_map)
            } else if moving_back && tail_in_front {
                &&& final(board).actors@ == old(board).actors@.update(
                    old(board).cell(np)->Some_0 as int,
                    None,
                ).update(i as int, Some(Actor { pos: np, ..a }))
                &&& *final(damage_map) == *old(damage_map)
            } else if !moving_back {
                &&& final(board).actors@ == old(board).actors@.update(
                    i as int,
                    Some(
                        Actor {
                            kind: Kind::LaserHead(LaserHead { is_moving_back: true }),
                            dir: a.dir.spec_neg(),
                            ..a
                        },
                    ),
                )
                &&& (old(damage_map).in_bounds(np) ==> final(damage_map).damage_at(np) == Some(
                    false,
                ))
                &&& (!old(damage_map).in_bounds(np) ==> *final(damage_map) == *old(damage_map))
                &&& forall|q: Position|
                    q != np ==> final(damage_map).damage_at(q) == old(damage_map).damage_at(q)
            } else {
                &&& final(board).actors@ == old(board).actors@.update(i as int, None).push(
                    Some(spec_explosion(a.pos)),
                )
                &&& *final(damage_map) == *old(damage_map)
            }
        }),
{
    proof {
        assert(board.actor_ok(i));
    }
    let a = board.actor_at(i);
    let moving_back = match a.kind {
        Kind::LaserHead(h) => h.is_moving_back,
        _ => false,
    };
    let new_pos = a.pos.add(&a.dir);
    let front = board.get_entity(&new_pos);
    proof {
        if old(board).in_bounds(new_pos) {
            assert(old(board).cell_ok(new_pos.0.0 as int, new_pos.0.1 as int));
        }
    }
    let tail_in_front = match front {
        Some(t) => matches!(board.actor_at(t).kind, Kind::LaserTail(_)),
        None => false,
    };
    if board.is_free(&new_pos) {
        board.mv(&a.pos, &new_pos);
        proof {
            assert(old(board).cell_ok(a.pos.0.0 as int, a.pos.0.1 as int));
        }
        board.spawn(create_laser_tail(a.pos));
    } else if moving_back && tail_in_front {
        let t = match front {
            Some(t) => t,
            None => 0,
        };
        proof {
            assert(board.cell_ok(new_pos.0.0 as int, new_pos.0.1 as int));
            assert(board.live(t));
            assert(board.actor_ok(t));
            assert(!board.wall_at(new_pos));
            assert(new_pos != a.pos);
        }
        board.despawn(t);
        board.mv(&a.pos, &new_pos);
        proof {
            assert(old(board).cell_ok(a.pos.0.0 as int, a.pos.0.1 as int));
        }
    } else if !moving_back {
        let mut turned = a;
        turned.kind = Kind::LaserHead(LaserHead { is_moving_back: true });
        turned.dir = a.dir.neg();
        board.update_actor(i, turned);
        damage_map.do_damage(&new_pos, false);
    } else {
        board.despawn(i);
        board.spawn(create_small_explosion(a.pos));
    }
}

/// What one laser tick does to arena slot `j`: only laser heads change
/// state, only tail segments are consumed; every other slot is untouched
/// (fresh tails and explosions spawn past the pre-tick length).
pub open spec fn laser_outcome(pre: Board, post: Board, j: usize) -> bool {
    match pre.actors@[j as int] {
        Some(a) => {
            if a.kind is LaserHead {
                ||| post.actors@[j as int] is None
                ||| (post.actors@[j as int] matches Some(p) && p.kind is LaserHead)
            } else if a.kind is LaserTail {
                ||| post.actors@[j as int] == Some(a)
                ||| post.actors@[j as int] is None
            } else {
                post.actors@[j as int] == Some(a)
            }
        },
        None => post.actors@[j as int] is None,
    }
}

/// The laser resolver: steps every live laser head in arena order. Tails
/// and explosions spawned on the way take fresh arena slots.
pub fn move_laser_head(board: &mut Board, damage_map: &mut DamageMap)
    requires
        old(board).wf(),
        old(damage_map).wf(),
    ensures
        final(board).wf(),
        final(damage_map).wf(),
        final(damage_map).width == old(damage_map).width,
        final(damage_map).height == old(damage_map).height,
        final(board).width == old(board).width,
        final(board).height == old(board).height,
        final(board).walls@ == old(board).walls@,
        final(board).actors@.len() >= old(board).actors@.len(),
        spec_lasers_pass(
            *old(board),
            *final(board),
            *old(damage_map),
            *final(damage_map),
            old(board).actors@.len() as int,
        ),
        forall|j: usize|
            j < old(board).actors@.len() ==> laser_outcome(*old(board), *final(board), j),
        forall|q: Position|
            final(damage_map).damage_at(q) == old(damage_map).damage_at(q) || final(damage_map).damage_at(q) == Some(false),
{
    let n = board.actors.len();
    let mut i: usize = 0;
    while i < n
        invariant
            board.wf(),
            damage_map.wf(),
            damage_map.width == old(damage_map).width,
            damage_map.height == old(damage_map).height,
            n == old(board).actors@.len(),
            n <= board.actors@.len(),
            board.width == old(board).width,
            board.height == old(board).height,
            board.walls@ == old(board).walls@,
            i <= n,
            forall|j: usize| j < n ==> laser_outcome(*old(board), *board, j),
            spec_lasers_pass(*old(board), *board, *old(damage_map), *damage_map, i as int),
            forall|q: Position|
                damage_map.damage_at(q) == old(damage_map).damage_at(q) || damage_map.damage_at(q)
                    == Some(false),
        decreases n - i,
    {
        let ghost prev = *board;
        let ghost prev_dm = *damage_map;
        if self_is_laser_head(board, i) {
            laser_head_step(board, damage_map, i);
        }
        proof {
            let ghost kk: int = i as int + 1;
            assert(spec_laser_tick_slot(prev, *board, prev_dm, *damage_map, (kk - 1) as usize));
            assert(spec_lasers_pass(*old(board), prev, *old(damage_map), prev_dm, kk - 1));
            assert(spec_lasers_pass(*old(board), *board, *old(damage_map), *damage_map, kk));
            assert forall|j: usize| j < n implies laser_outcome(prev, *board, j) by {
                if prev.live(i) && prev.actor(i).kind is LaserHead {
                    let a = prev.actor(i);
                    let np = a.pos.spec_add(a.dir);
                    let moving_back = (a.kind->LaserHead_0).is_moving_back;
                    let tail_in_front = prev.in_bounds(np) && match prev.cell(np) {
                        Some(t) => prev.actor(t).kind is LaserTail,
                        None => false,
                    };
                    if !prev.spec_free(np) && moving_back && tail_in_front {
                        let t = prev.cell(np)->Some_0;
                        assert(prev.cell_ok(np.0.0 as int, np.0.1 as int));
                        assert(prev.live(t));
                        assert(prev.actor(t).kind is LaserTail);
                        assert(t != i);
                        if j != t && j != i {
                            assert(board.actors@[j as int] == prev.actors@[j as int]);
                        }
                    }
                } else {
                    assert(board.actors@[j as int] == prev.actors@[j as int]);
                }
            }
            assert forall|j: usize| j < n implies laser_outcome(*old(board), *board, j) by {
                assert(laser_outcome(*old(board), prev, j));
                assert(laser_outcome(prev, *board, j));
            }
        }
        i = i + 1;
    }
}

/// True when slot `i` holds a live laser head.
fn self_is_laser_head(board: &Board, i: usize) -> (r: bool)
    requires
        board.wf(),
        i < board.actors@.len(),
    ensures
        r == (board.live(i) && board.actor(i).kind is LaserHead),
{
    match &board.actors[i] {
        Some(a) => matches!(a.kind, Kind::LaserHead(_)),
        None => false,
    }
}

} // verus!
