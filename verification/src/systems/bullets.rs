//! Bullet resolution: a bullet flies one cell per tick along its fixed
//! direction; on hitting anything it is destroyed, leaves a small explosion
//! on its last free cell and registers damage at the impact cell.

use vstd::prelude::*;
use crate::board::Actor;
use crate::board::Board;
use crate::components::Position;
use crate::damage::DamageMap;
use crate::entities::create_small_explosion;
use crate::entities::spec_explosion;

verus! {

/// What one bullet tick does to arena slot `j`: a bullet either advances
/// one cell along its heading or is gone (destroyed on impact); every other
/// pre-existing slot is untouched.
pub open spec fn bullet_outcome(pre: Board, post: Board, j: usize) -> bool {
    match pre.actors@[j as int] {
        Some(a) => {
            if a.kind is Bullet {
                ||| post.actors@[j as int] == Some(Actor { pos: a.pos.spec_add(a.dir), ..a })
                ||| post.actors@[j as int] is None
            } else {
                post.actors@[j as int] == Some(a)
            }
        },
        None => post.actors@[j as int] is None,
    }
}

/// The exact one-slot relation of the bullet pass: the bullet in slot `i`
/// advances one cell when free; otherwise it is despawned, a small
/// explosion takes its last cell and the impact cell gains non-bomb damage.
pub open spec fn spec_bullet_slot(
    pre: Board,
    post: Board,
    dm0: DamageMap,
    dm1: DamageMap,
    i: usize,
) -> bool {
    let a = pre.actor(i);
    let np = a.pos.spec_add(a.dir);
    &&& post.wf()
    &&& dm1.wf()
    &&& post.width == pre.width
    &&& post.height == pre.height
    &&& post.walls@ == pre.walls@
    &&& dm1.width == dm0.width
    &&& dm1.height == dm0.height
    &&& if pre.spec_free(np) {
        &&& post.actors@ == pre.actors@.update(i as int, Some(Actor { pos: np, ..a }))
        &&& dm1 == dm0
    } else {
        &&& post.actors@ == pre.actors@.update(i as int, None).push(Some(spec_explosion(a.pos)))
        &&& (dm0.in_bounds(np) ==> dm1.damage_at(np) == Some(false))
        &&& (!dm0.in_bounds(np) ==> dm1 == dm0)
        &&& forall|q: Position| q != np ==> dm1.damage_at(q) == dm0.damage_at(q)
    }
}

/// One tick-slot of the bullet pass: a live bullet follows
/// `spec_bullet_slot`; every other slot changes nothing.
pub open spec fn spec_bullet_tick_slot(
    mid: Board,
    post: Board,
    dm0: DamageMap,
    dm1: DamageMap,
    i: usize,
) -> bool {
    if mid.live(i) && mid.actor(i).kind is Bullet {
        spec_bullet_slot(mid, post, dm0, dm1, i)
    } else {
        post == mid && dm1 == dm0
    }
}

/// The whole bullet pass as a chain of tick-slots over arena order,
/// threading the damage ledger through the chain.
pub open spec fn spec_bullets_pass(
    pre: Board,
    post: Board,
    dm_pre: DamageMap,
    dm_post: DamageMap,
    k: int,
) -> bool
    decreases k,
{
    if k <= 0 {
        post == pre && dm_post == dm_pre
    } else {
        exists|mid: Board, dm_mid: DamageMap|
            #![trigger spec_bullet_tick_slot(mid, post, dm_mid, dm_post, (k - 1) as usize)]
            spec_bullets_pass(pre, mid, dm_pre, dm_mid, k - 1) && spec_bullet_tick_slot(
                mid,
                post,
                dm_mid,
                dm_post,
                (k - 1) as usize,
            )
    }
}

/// One bullet's move: advance one cell along the heading when free;
/// otherwise the bullet is despawned, a small explosion takes its last
/// cell, and non-bomb damage is registered at the impact cell.
pub fn bullet_step(board: &mut Board, damage_map: &mut DamageMap, i: usize)
    requires
        old(board).wf(),
        old(damage_map).wf(),
        old(board).live(i),
    ensures
        final(board).wf(),
        final(damage_map).wf(),
        final(damage_map).width == old(damage_map).width,
        final(damage_map).height == old(damage_map).height,
        final(board).width == old(board).width,
        final(board).height == old(board).height,
        final(board).walls@ == old(board).walls@,
        spec_bullet_slot(*old(board), *final(board), *old(damage_map), *final(damage_map), i),
        ({
            let a = old(board).actor(i);
            let np = a.pos.spec_add(a.dir);
            if old(board).spec_free(np) {
                &&& final(board).actors@ == old(board).actors@.update(
                    i as int,
                    Some(Actor { pos: np, ..a }),
                )
                &&& *final(damage_map) == *old(damage_map)
            } else {
                &&& final(board).actors@ == old(board).actors@.update(i as int, None).push(
                    Some(spec_explosion(a.pos)),
                )
                &&& (old(damage_map).in_bounds(np) ==> final(damage_map).damage_at(np) == Some(
                    false,
                ))
                &&& (!old(damage_map).in_bounds(np) ==> *final(damage_map) == *old(damage_map))
                &&& forall|q: Position|
                    q != np ==> final(damage_map).damage_at(q) == old(damage_map).damage_at(q)
            }
        }),
{
    proof {
        assert(board.actor_ok(i));
    }
    let a = board.actor_at(i);
    let new_pos = a.pos.add(&a.dir);
    if board.is_free(&new_pos) {
        board.mv(&a.pos, &new_pos);
        proof {
            assert(old(board).cell_ok(a.pos.0.0 as int, a.pos.0.1 as int));
        }
    } else {
        board.despawn(i);
        board.spawn(create_small_explosion(a.pos));
        damage_map.do_damage(&new_pos, false);
    }
}

/// The bullet resolver: steps every live bullet in arena order. Explosions
/// spawned on impact take fresh arena slots past the pre-tick length.
pub fn move_bullet(board: &mut Board, damage_map: &mut DamageMap)
    requires
        old(board).wf(),
        old(damage_map).wf(),
    ensures
        final(board).wf(),
        final(damage_map).wf(),
        final(damage_map).width == old(damage_map).width,
        final(damage_map).height == old(damage_map).height,
        final(board).width == old(board).width,
        final(board).height == old(board).height,
        final(board).walls@ == old(board).walls@,
        final(board).actors@.len() >= old(board).actors@.len(),
        spec_bullets_pass(
            *old(board),
            *final(board),
            *old(damage_map),
            *final(damage_map),
            old(board).actors@.len() as int,
        ),
        forall|j: usize|
            j < old(board).actors@.len() ==> bullet_outcome(*old(board), *final(board), j),
        forall|j: usize|
            old(board).actors@.len() <= j < final(board).actors@.len() ==> ((#[trigger] final(board).actors@[j as int]) matches Some(a) && a.kind is Animation),
        forall|q: Position|
            final(damage_map).damage_at(q) == old(damage_map).damage_at(q) || final(damage_map).damage_at(q) == Some(false),
{
    let n = board.actors.len();
    let mut i: usize = 0;
    while i < n
        invariant
            board.wf(),
            damage_map.wf(),
            damage_map.width == old(damage_map).width,
            damage_map.height == old(damage_map).height,
            n == old(board).actors@.len(),
            n <= board.actors@.len(),
            board.width == old(board).width,
            board.height == old(board).height,
            board.walls@ == old(board).walls@,
            i <= n,
            forall|j: usize| i <= j < n ==> board.actors@[j as int] == old(board).actors@[j as int],
            forall|j: usize| j < i ==> bullet_outcome(*old(board), *board, j),
            spec_bullets_pass(*old(board), *board, *old(damage_map), *damage_map, i as int),
            forall|j: usize|
                n <= j < board.actors@.len() ==> ((#[trigger] board.actors@[j as int]) matches Some(a) && a.kind is Animation),
            forall|q: Position|
                damage_map.damage_at(q) == old(damage_map).damage_at(q) || damage_map.damage_at(q)
                    == Some(false),
        decreases n - i,
    {
        let ghost prev = *board;
        let ghost prev_dm = *damage_map;
        if self_is_bullet(board, i) {
            bullet_step(board, damage_map, i);
        }
        proof {
            let ghost kk: int = i as int + 1;
            assert(spec_bullet_tick_slot(prev, *board, prev_dm, *damage_map, (kk - 1) as usize));
            assert(spec_bullets_pass(*old(board), prev, *old(damage_map), prev_dm, kk - 1));
            assert(spec_bullets_pass(*old(board), *board, *old(damage_map), *damage_map, kk));
            assert(bullet_outcome(*old(board), *board, i));
            assert forall|j: usize| j < i implies bullet_outcome(*old(board), *board, j) by {
                assert(bullet_outcome(*old(board), prev, j));
                assert(board.actors@[j as int] == prev.actors@[j as int]);
            }
        }
        i = i + 1;
    }
}

/// True when slot `i` holds a live bullet.
fn self_is_bullet(board: &Board, i: usize) -> (r: bool)
    requires
        board.wf(),
        i < board.actors@.len(),
    ensures
        r == (board.live(i) && board.actor(i).kind is Bullet),
{
    match &board.actors[i] {
        Some(a) => matches!(a.kind, crate::board::Kind::Bullet(_)),
        None => false,
    }
}

} // verus!
