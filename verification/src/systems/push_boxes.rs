//! Push-box resolution: a driven box slides one cell per tick along its
//! direction; on hitting anything it stops and crushes the obstacle.

use vstd::prelude::*;
use crate::board::Actor;
use crate::board::Board;
use crate::components::MovingDir;
use crate::components::IntVec2;
use crate::damage::DamageMap;

verus! {

/// What one push-box tick does to arena slot `j`: a box either slides one
/// cell keeping its direction, stops with its direction reset to zero, or
/// is left alone (direction already zero, or its cell damaged); every other
/// slot is untouched.
pub open spec fn box_outcome(pre: Board, post: Board, j: usize) -> bool {
    match pre.actors@[j as int] {
        Some(a) => {
            if a.kind is PushBox {
                ||| post.actors@[j as int] == Some(Actor { pos: a.pos.spec_add(a.dir), ..a })
                ||| post.actors@[j as int] == Some(
                    Actor { dir: MovingDir(IntVec2(0, 0)), ..a },
                )
                ||| post.actors@[j as int] == Some(a)
            } else {
                post.actors@[j as int] == Some(a)
            }
        },
        None => post.actors@[j as int] is None,
    }
}

/// The exact one-slot relation of the push-box pass: the box in slot `i`
/// slides one cell along its direction when free; otherwise it stops
/// (direction zeroed) and the blocked cell gains non-bomb damage.
pub open spec fn spec_box_slot(
    pre: Board,
    post: Board,
    dm0: DamageMap,
    dm1: DamageMap,
    i: usize,
) -> bool {
    let a = pre.actor(i);
    let np = a.pos.spec_add(a.dir);
    &&& post.wf()
    &&& dm1.wf()
    &&& post.width == pre.width
    &&& post.height == pre.height
    &&& post.walls@ == pre.walls@
    &&& dm1.width == dm0.width
    &&& dm1.height == dm0.height
    &&& if pre.spec_free(np) {
        &&& post.actors@ == pre.actors@.update(i as int, Some(Actor { pos: np, ..a }))
        &&& dm1 == dm0
    } else {
        &&& post.actors@ == pre.actors@.update(
            i as int,
            Some(Actor { dir: MovingDir(IntVec2(0, 0)), ..a }),
        )
        &&& (dm0.in_bounds(np) ==> dm1.damage_at(np) == Some(false))
        &&& (!dm0.in_bounds(np) ==> dm1 == dm0)
        &&& forall|q: crate::components::Position|
            q != np ==> dm1.damage_at(q) == dm0.damage_at(q)
    }
}

/// One tick-slot of the push-box pass: a live, driven, undamaged box
/// follows `spec_box_slot`; every other slot changes nothing.
pub open spec fn spec_box_tick_slot(
    mid: Board,
    post: Board,
    dm0: DamageMap,
    dm1: DamageMap,
    i: usize,
) -> bool {
    if mid.live(i) && mid.actor(i).kind is PushBox && !mid.actor(i).dir.spec_is_empty()
        && dm0.damage_at(mid.actor(i).pos) is None {
        spec_box_slot(mid, post, dm0, dm1, i)
    } else {
        post == mid && dm1 == dm0
    }
}

/// The whole push-box pass as a chain of tick-slots over arena order,
/// threading the damage ledger through the chain.
pub open spec fn spec_boxes_pass(
    pre: Board,
    post: Board,
    dm_pre: DamageMap,
    dm_post: DamageMap,
    k: int,
) -> bool
    decreases k,
{
    if k <= 0 {
        post == pre && dm_post == dm_pre
    } else {
        exists|mid: Board, dm_mid: DamageMap|
            #![trigger spec_box_tick_slot(mid, post, dm_mid, dm_post, (k - 1) as usize)]
            spec_boxes_pass(pre, mid, dm_pre, dm_mid, k - 1) && spec_box_tick_slot(
                mid,
                post,
                dm_mid,
                dm_post,
                (k - 1) as usize,
            )
    }
}

/// One driven box's move: slide one cell along the direction when free;
/// otherwise stop (direction reset to zero) and register non-bomb damage at
/// the blocked cell, crushing whatever is there.
pub fn box_step(board: &mut Board, damage_map: &mut DamageMap, i: usize)
    requires
        old(board).wf(),
        old(damage_map).wf(),
        old(board).live(i),
    ensures
        final(board).wf(),
        final(damage_map).wf(),
        final(damage_map).width == old(damage_map).width,
        final(damage_map).height == old(damage_map).height,
        final(board).width == old(board).width,
        final(board).height == old(board).height,
        final(board).walls@ == old(board).walls@,
        spec_box_slot(*old(board), *final(board), *old(damage_map), *final(damage_map), i),
        ({
            let a = old(board).actor(i);
            let np = a.pos.spec_add(a.dir);
            if old(board).spec_free(np) {
                &&& final(board).actors@ == old(board).actors@.update(
                    i as int,
                    Some(Actor { pos: np, ..a }),
                )
                &&& *final(damage_map) == *old(damage_map)
            } else {
                &&& final(board).actors@ == old(board).actors@.update(
                    i as int,
                    Some(Actor { dir: MovingDir(IntVec2(0, 0)), ..a }),
                )
                &&& (old(damage_map).in_bounds(np) ==> final(damage_map).damage_at(np) == Some(
                    false,
                ))
                &&& (!old(damage_map).in_bounds(np) ==> *final(damage_map) == *old(damage_map))
                &&& forall|q: crate::components::Position|
                    q != np ==> final(damage_map).damage_at(q) == old(damage_map).damage_at(q)
            }
        }),
{
    proof {
        assert(board.actor_ok(i));
    }
    let a = board.actor_at(i);
    let new_pos = a.pos.add(&a.dir);
    if board.is_free(&new_pos) {
        board.mv(&a.pos, &new_pos);
        proof {
            assert(old(board).cell_ok(a.pos.0.0 as int, a.pos.0.1 as int));
        }
    } else {
        damage_map.do_damage(&new_pos, false);
        let mut stopped = a;
        stopped.dir = MovingDir::zero();
        board.update_actor(i, stopped);
    }
}

/// The push-box resolver: steps every driven box (nonzero direction) whose
/// cell is not damaged, in arena order.
pub fn move_pushbox(board: &mut Board, damage_map: &mut DamageMap)
    requires
        old(board).wf(),
        old(damage_map).wf(),
    ensures
        final(board).wf(),
        final(damage_map).wf(),
        final(damage_map).width == old(damage_map).width,
        final(damage_map).height == old(damage_map).height,
        final(board).width == old(board).width,
        final(board).height == old(board).height,
        final(board).walls@ == old(board).walls@,
        final(board).actors@.len() == old(board).actors@.len(),
        spec_boxes_pass(
            *old(board),
            *final(board),
            *old(damage_map),
            *final(damage_map),
            old(board).actors@.len() as int,
        ),
        forall|j: usize|
            j < old(board).actors@.len() ==> box_outcome(*old(board), *final(board), j),
        forall|q: crate::components::Position|
            final(damage_map).damage_at(q) == old(damage_map).damage_at(q) || final(damage_map).damage_at(q) == Some(false),
{
    let n = board.actors.len();
    let mut i: usize = 0;
    while i < n
        invariant
            board.wf(),
            damage_map.wf(),
            damage_map.width == old(damage_map).width,
            damage_map.height == old(damage_map).height,
            n == board.actors@.len(),
            n == old(board).actors@.len(),
            board.width == old(board).width,
            board.height == old(board).height,
            board.walls@ == old(board).walls@,
            i <= n,
            forall|j: usize| i <= j < n ==> board.actors@[j as int] == old(board).actors@[j as int],
            forall|j: usize| j < i ==> box_outcome(*old(board), *board, j),
            spec_boxes_pass(*old(board), *board, *old(damage_map), *damage_map, i as int),
            forall|q: crate::components::Position|
                damage_map.damage_at(q) == old(damage_map).damage_at(q) || damage_map.damage_at(q)
                    == Some(false),
        decreases n - i,
    {
        let ghost prev = *board;
        let ghost prev_dm = *damage_map;
        if self_is_pushbox(board, i) {
            let a = board.actor_at(i);
            if !damage_map.is_damaged(&a.pos) && !a.dir.is_empty() {
                box_step(board, damage_map, i);
            }
        }
        proof {
            let ghost kk: int = i as int + 1;
            assert(spec_box_tick_slot(prev, *board, prev_dm, *damage_map, (kk - 1) as usize));
            assert(spec_boxes_pass(*old(board), prev, *old(damage_map), prev_dm, kk - 1));
            assert(spec_boxes_pass(*old(board), *board, *old(damage_map), *damage_map, kk));
            assert(box_outcome(*old(board), *board, i));
            assert forall|j: usize| j < i implies box_outcome(*old(board), *board, j) by {
                assert(box_outcome(*old(board), prev, j));
                assert(board.actors@[j as int] == prev.actors@[j as int]);
            }
        }
        i = i + 1;
    }
}

/// True when slot `i` holds a live push-box.
fn self_is_pushbox(board: &Board, i: usize) -> (r: bool)
    requires
        board.wf(),
        i < board.actors@.len(),
    ensures
        r == (board.live(i) && board.actor(i).kind is PushBox),
{
    match &board.actors[i] {
        Some(a) => matches!(a.kind, crate::board::Kind::PushBox(_)),
        None => false,
    }
}

} // verus!
