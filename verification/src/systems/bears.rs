//! Bear resolution: wall-following. Each tick a bear tries, in order, its
//! preferred quarter turn, straight ahead, the opposite quarter turn, and a
//! half turn, moving only for the first two.

use vstd::prelude::*;
use crate::board::Actor;
use crate::board::Board;
use crate::components::MovingDir;
use crate::damage::DamageMap;

verus! {

/// A bear's preferred quarter turn: clockwise for the light variant,
/// counter-clockwise for the dark (mirrored) one.
pub open spec fn spec_turn_preferred(chirality: bool, d: MovingDir) -> MovingDir {
    if !chirality {
        d.spec_rotate_clockwise()
    } else {
        d.spec_rotate_counter_clockwise()
    }
}

/// The turn away from the preferred side.
pub open spec fn spec_turn_other(chirality: bool, d: MovingDir) -> MovingDir {
    if !chirality {
        d.spec_rotate_counter_clockwise()
    } else {
        d.spec_rotate_clockwise()
    }
}

/// The bear's full decision: where it stands and faces after one tick,
/// given the board it saw. The first free option of (preferred turn,
/// straight, other turn, half turn) wins; with all four blocked it stays.
pub open spec fn spec_bear_decision(pre: Board, i: usize) -> Actor {
    let a = pre.actor(i);
    let chirality = (a.kind->Bear_0).0;
    let d1 = spec_turn_preferred(chirality, a.dir);
    let d2 = spec_turn_other(chirality, a.dir);
    let d3 = spec_turn_other(chirality, d2);
    if pre.spec_free(a.pos.spec_add(d1)) {
        Actor { pos: a.pos.spec_add(d1), dir: d1, ..a }
    } else if pre.spec_free(a.pos.spec_add(a.dir)) {
        Actor { pos: a.pos.spec_add(a.dir), ..a }
    } else if pre.spec_free(a.pos.spec_add(d2)) {
        Actor { dir: d2, ..a }
    } else if pre.spec_free(a.pos.spec_add(d3)) {
        Actor { dir: d3, ..a }
    } else {
        a
    }
}

/// What one bear tick does to arena slot `j`: a bear on an undamaged cell
/// follows its decision against some intermediate board state; every other
/// slot is untouched. The heading only ever changes by a quarter or half
/// turn, and the cell by at most one step.
pub open spec fn bear_outcome(pre: Board, post: Board, dm: DamageMap, j: usize) -> bool {
    match pre.actors@[j as int] {
        Some(a) => {
            if a.kind is Bear && dm.damage_at(a.pos) is None {
                let chirality = (a.kind->Bear_0).0;
                let d1 = spec_turn_preferred(chirality, a.dir);
                let d2 = spec_turn_other(chirality, a.dir);
                let d3 = spec_turn_other(chirality, d2);
                ||| post.actors@[j as int] == Some(
                    Actor { pos: a.pos.spec_add(d1), dir: d1, ..a },
                )
                ||| post.actors@[j as int] == Some(Actor { pos: a.pos.spec_add(a.dir), ..a })
                ||| post.actors@[j as int] == Some(Actor { dir: d2, ..a })
                ||| post.actors@[j as int] == Some(Actor { dir: d3, ..a })
                ||| post.actors@[j as int] == Some(a)
            } else {
                post.actors@[j as int] == Some(a)
            }
        },
        None => post.actors@[j as int] is None,
    }
}

/// The exact one-slot relation of the bear pass: slot `i` is replaced by
/// its decision against `pre`, everything else (and the terrain) is kept,
/// and the result is well-formed.
pub open spec fn spec_bear_slot(pre: Board, post: Board, i: usize) -> bool {
    &&& post.wf()
    &&& post.width == pre.width
    &&& post.height == pre.height
    &&& post.walls@ == pre.walls@
    &&& post.actors@ == pre.actors@.update(i as int, Some(spec_bear_decision(pre, i)))
}

/// One tick-slot of the bear pass: an undamaged live bear follows its
/// decision; every other slot leaves the board exactly as it was.
pub open spec fn spec_bear_tick_slot(mid: Board, post: Board, dm: DamageMap, i: usize) -> bool {
    if mid.live(i) && mid.actor(i).kind is Bear && dm.damage_at(mid.actor(i).pos) is None {
        spec_bear_slot(mid, post, i)
    } else {
        post == mid
    }
}

/// The whole bear pass as a chain of tick-slots over arena order: `post`
/// is what processing slots `0..k` of `pre` leaves behind. Together with
/// `spec_bear_decision` this makes the resolver a function of the board
/// and the damage ledger alone.
pub open spec fn spec_bears_pass(pre: Board, post: Board, dm: DamageMap, k: int) -> bool
    decreases k,
{
    if k <= 0 {
        post == pre
    } else {
        exists|mid: Board|
            #![trigger spec_bear_tick_slot(mid, post, dm, (k - 1) as usize)]
            spec_bears_pass(pre, mid, dm, k - 1) && spec_bear_tick_slot(
                mid,
                post,
                dm,
                (k - 1) as usize,
            )
    }
}

/// One bear's move, exactly `spec_bear_decision` against the current board.
pub fn bear_step(board: &mut Board, i: usize)
    requires
        old(board).wf(),
        old(board).live(i),
        old(board).actor(i).kind is Bear,
    ensures
        spec_bear_slot(*old(board), *final(board), i),
        final(board).wf(),
        final(board).width == old(board).width,
        final(board).height == old(board).height,
        final(board).walls@ == old(board).walls@,
        final(board).actors@ == old(board).actors@.update(
            i as int,
            Some(spec_bear_decision(*old(board), i)),
        ),
{
    proof {
        assert(board.actor_ok(i));
    }
    let a = board.actor_at(i);
    let chirality = match a.kind {
        crate::board::Kind::Bear(b) => b.0,
        _ => false,
    };
    let d1 = if !chirality {
        a.dir.rotate_clockwise()
    } else {
        a.dir.rotate_counter_clockwise()
    };
    let d2 = if !chirality {
        a.dir.rotate_counter_clockwise()
    } else {
        a.dir.rotate_clockwise()
    };
    let d3 = if !chirality {
        d2.rotate_counter_clockwise()
    } else {
        d2.rotate_clockwise()
    };
    let p1 = a.pos.add(&d1);
    let p_straight = a.pos.add(&a.dir);
    let p2 = a.pos.add(&d2);
    let p3 = a.pos.add(&d3);
    if board.is_free(&p1) {
        let mut turned = a;
        turned.pos = p1;
        turned.dir = d1;
        board.move_replace(i, turned);
    } else if board.is_free(&p_straight) {
        board.mv(&a.pos, &p_straight);
        proof {
            assert(old(board).cell_ok(a.pos.0.0 as int, a.pos.0.1 as int));
        }
    } else if board.is_free(&p2) {
        let mut turned = a;
        turned.dir = d2;
        board.update_actor(i, turned);
    } else if board.is_free(&p3) {
        let mut turned = a;
        turned.dir = d3;
        board.update_actor(i, turned);
    } else {
        proof {
            assert(board.actors@ =~= old(board).actors@.update(
                i as int,
                Some(spec_bear_decision(*old(board), i)),
            ));
        }
    }
}

/// The bear resolver: steps every live bear, in arena order, skipping
/// those standing on damaged cells.
pub fn move_bear(board: &mut Board, damage_map: &DamageMap)
    requires
        old(board).wf(),
        damage_map.wf(),
    ensures
        final(board).wf(),
        final(board).width == old(board).width,
        final(board).height == old(board).height,
        final(board).walls@ == old(board).walls@,
        final(board).actors@.len() == old(board).actors@.len(),
        spec_bears_pass(
            *old(board),
            *final(board),
            *damage_map,
            old(board).actors@.len() as int,
        ),
        forall|j: usize|
            j < old(board).actors@.len() ==> bear_outcome(
                *old(board),
                *final(board),
                *damage_map,
                j,
            ),
{
    let n = board.actors.len();
    let mut i: usize = 0;
    while i < n
        invariant
            board.wf(),
            damage_map.wf(),
            n == board.actors@.len(),
            n == old(board).actors@.len(),
            board.width == old(board).width,
            board.height == old(board).height,
            board.walls@ == old(board).walls@,
            i <= n,
            forall|j: usize| i <= j < n ==> board.actors@[j as int] == old(board).actors@[j as int],
            forall|j: usize| j < i ==> bear_outcome(*old(board), *board, *damage_map, j),
            spec_bears_pass(*old(board), *board, *damage_map, i as int),
        decreases n - i,
    {
        let ghost prev = *board;
        if self_is_bear(board, i) {
            let a = board.actor_at(i);
            if !damage_map.is_damaged(&a.pos) {
                bear_step(board, i);
            }
        }
        proof {
            let ghost kk: int = i as int + 1;
            assert(spec_bear_tick_slot(prev, *board, *damage_map, (kk - 1) as usize));
            assert(spec_bears_pass(*old(board), prev, *damage_map, kk - 1));
            assert(spec_bears_pass(*old(board), *board, *damage_map, kk));
            assert(bear_outcome(*old(board), *board, *damage_map, i));
            assert forall|j: usize| j < i implies bear_outcome(
                *old(board),
                *board,
                *damage_map,
                j,
            ) by {
                assert(bear_outcome(*old(board), prev, *damage_map, j));
                assert(board.actors@[j as int] == prev.actors@[j as int]);
            }
        }
        i = i + 1;
    }
}

/// True when slot `i` holds a live bear.
fn self_is_bear(board: &Board, i: usize) -> (r: bool)
    requires
        board.wf(),
        i < board.actors@.len(),
    ensures
        r == (board.live(i) && board.actor(i).kind is Bear),
{
    match &board.actors[i] {
        Some(a) => matches!(a.kind, crate::board::Kind::Bear(_)),
        None => false,
    }
}

} // verus!
