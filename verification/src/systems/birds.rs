//! Bird resolution: a bird flies one cell along its heading each tick and
//! reverses (without turning) when blocked.

use vstd::prelude::*;
use crate::board::Actor;
use crate::board::Board;
use crate::damage::DamageMap;

verus! {

/// What one bird tick does to arena slot `j`: a bird on an undamaged cell
/// either advances one cell along its heading or keeps its cell and
/// reverses; every other slot is untouched.
pub open spec fn bird_outcome(pre: Board, post: Board, dm: DamageMap, j: usize) -> bool {
    match pre.actors@[j as int] {
        Some(a) => {
            if a.kind is Bird && dm.damage_at(a.pos) is None {
                ||| post.actors@[j as int] == Some(Actor { pos: a.pos.spec_add(a.dir), ..a })
                ||| post.actors@[j as int] == Some(Actor { dir: a.dir.spec_neg(), ..a })
            } else {
                post.actors@[j as int] == Some(a)
            }
        },
        None => post.actors@[j as int] is None,
    }
}

/// The exact one-slot relation of the bird pass: the bird in slot `i`
/// advances one cell along its heading when that cell is free, otherwise
/// keeps its cell and reverses; nothing else changes.
pub open spec fn spec_bird_slot(pre: Board, post: Board, i: usize) -> bool {
    let a = pre.actor(i);
    let np = a.pos.spec_add(a.dir);
    &&& post.wf()
    &&& post.width == pre.width
    &&& post.height == pre.height
    &&& post.walls@ == pre.walls@
    &&& post.actors@ == pre.actors@.update(
        i as int,
        if pre.spec_free(np) {
            Some(Actor { pos: np, ..a })
        } else {
            Some(Actor { dir: a.dir.spec_neg(), ..a })
        },
    )
}

/// One tick-slot of the bird pass: an undamaged live bird follows
/// `spec_bird_slot`; every other slot leaves the board exactly as it was.
pub open spec fn spec_bird_tick_slot(mid: Board, post: Board, dm: DamageMap, i: usize) -> bool {
    if mid.live(i) && mid.actor(i).kind is Bird && dm.damage_at(mid.actor(i).pos) is None {
        spec_bird_slot(mid, post, i)
    } else {
        post == mid
    }
}

/// The whole bird pass as a chain of tick-slots over arena order: `post`
/// is what processing slots `0..k` of `pre` leaves behind.
pub open spec fn spec_birds_pass(pre: Board, post: Board, dm: DamageMap, k: int) -> bool
    decreases k,
{
    if k <= 0 {
        post == pre
    } else {
        exists|mid: Board|
            #![trigger spec_bird_tick_slot(mid, post, dm, (k - 1) as usize)]
            spec_birds_pass(pre, mid, dm, k - 1) && spec_bird_tick_slot(
                mid,
                post,
                dm,
                (k - 1) as usize,
            )
    }
}

/// One bird's move: advance one cell along the heading when that cell is
/// free, otherwise stay put and reverse the heading.
pub fn bird_step(board: &mut Board, i: usize)
    requires
        old(board).wf(),
        old(board).live(i),
    ensures
        spec_bird_slot(*old(board), *final(board), i),
        final(board).wf(),
        final(board).width == old(board).width,
        final(board).height == old(board).height,
        final(board).walls@ == old(board).walls@,
        ({
            let a = old(board).actor(i);
            let np = a.pos.spec_add(a.dir);
            if old(board).spec_free(np) {
                final(board).actors@ == old(board).actors@.update(
                    i as int,
                    Some(Actor { pos: np, ..a }),
                )
            } else {
                final(board).actors@ == old(board).actors@.update(
                    i as int,
                    Some(Actor { dir: a.dir.spec_neg(), ..a }),
                )
            }
        }),
{
    proof {
        assert(board.actor_ok(i));
    }
    let a = board.actor_at(i);
    let new_pos = a.pos.add(&a.dir);
    if board.is_free(&new_pos) {
        board.mv(&a.pos, &new_pos);
        proof {
            assert(old(board).cell_ok(a.pos.0.0 as int, a.pos.0.1 as int));
        }
    } else {
        let mut turned = a;
        turned.dir = a.dir.neg();
        board.update_actor(i, turned);
    }
}

/// The bird resolver: steps every live bird, in arena order, skipping those
/// standing on damaged cells.
pub fn move_bird(board: &mut Board, damage_map: &DamageMap)
    requires
        old(board).wf(),
        damage_map.wf(),
    ensures
        final(board).wf(),
        final(board).width == old(board).width,
        final(board).height == old(board).height,
        final(board).walls@ == old(board).walls@,
        final(board).actors@.len() == old(board).actors@.len(),
        spec_birds_pass(
            *old(board),
            *final(board),
            *damage_map,
            old(board).actors@.len() as int,
        ),
        forall|j: usize|
            j < old(board).actors@.len() ==> bird_outcome(
                *old(board),
                *final(board),
                *damage_map,
                j,
            ),
{
    let n = board.actors.len();
    let mut i: usize = 0;
    while i < n
        invariant
            board.wf(),
            damage_map.wf(),
            n == board.actors@.len(),
            n == old(board).actors@.len(),
            board.width == old(board).width,
            board.height == old(board).height,
            board.walls@ == old(board).walls@,
            i <= n,
            forall|j: usize| i <= j < n ==> board.actors@[j as int] == old(board).actors@[j as int],
            forall|j: usize| j < i ==> bird_outcome(*old(board), *board, *damage_map, j),
            spec_birds_pass(*old(board), *board, *damage_map, i as int),
        decreases n - i,
    {
        let ghost prev = *board;
        if self_is_bird(board, i) {
            let a = board.actor_at(i);
            if !damage_map.is_damaged(&a.pos) {
                bird_step(board, i);
            }
        }
        proof {
            let ghost kk: int = i as int + 1;
            assert(spec_bird_tick_slot(prev, *board, *damage_map, (kk - 1) as usize));
            assert(spec_birds_pass(*old(board), prev, *damage_map, kk - 1));
            assert(spec_birds_pass(*old(board), *board, *damage_map, kk));
            assert(bird_outcome(*old(board), *board, *damage_map, i));
            assert forall|j: usize| j < i implies bird_outcome(
                *old(board),
                *board,
                *damage_map,
                j,
            ) by {
                assert(bird_outcome(*old(board), prev, *damage_map, j));
                assert(board.actors@[j as int] == prev.actors@[j as int]);
            }
        }
        i = i + 1;
    }
}

/// True when slot `i` holds a live bird.
fn self_is_bird(board: &Board, i: usize) -> (r: bool)
    requires
        board.wf(),
        i < board.actors@.len(),
    ensures
        r == (board.live(i) && board.actor(i).kind is Bird),
{
    match &board.actors[i] {
        Some(a) => matches!(a.kind, crate::board::Kind::Bird(_)),
        None => false,
    }
}

} // verus!
