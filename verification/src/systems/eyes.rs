//! "Eyes" chaser resolution: each tick an eyes actor picks, by a coin
//! flip, either a random orthogonal direction or the direction toward the
//! player, then takes the first free cell of the x-component step and the
//! y-component step.

use vstd::prelude::*;
use crate::board::Actor;
use crate::board::Board;
use crate::board::Kind;
use crate::board::find_robbo;
use crate::components::MovingDir;
use crate::components::Position;
use crate::components::sgn;
use crate::components::spec_sgn;
use crate::rng::random_u32;

verus! {

/// Probability threshold for the coin that picks a random direction over
/// chasing the player (an even coin).
pub const EYES_RANDOM_THRESHOLD: u32 = 0x8000_0000;

/// The exact one-slot relation of the eyes pass for a chosen delta
/// `(dx, dy)`: the first free of the x-component step and the y-component
/// step is taken; with both blocked the actor stays.
pub open spec fn spec_eyes_slot(pre: Board, post: Board, i: usize, dx: int, dy: int) -> bool {
    let a = pre.actor(i);
    let d1 = MovingDir(crate::components::IntVec2(spec_sgn(dx) as i32, 0));
    let d2 = MovingDir(crate::components::IntVec2(0, spec_sgn(dy) as i32));
    let p1 = a.pos.spec_add(d1);
    let p2 = a.pos.spec_add(d2);
    &&& post.wf()
    &&& post.width == pre.width
    &&& post.height == pre.height
    &&& post.walls@ == pre.walls@
    &&& if pre.spec_free(p1) {
        post.actors@ == pre.actors@.update(i as int, Some(Actor { pos: p1, ..a }))
    } else if pre.spec_free(p2) {
        post.actors@ == pre.actors@.update(i as int, Some(Actor { pos: p2, ..a }))
    } else {
        post.actors@ == pre.actors@
    }
}

/// One tick-slot of the eyes pass against the player cell `rp`: a live
/// eyes actor follows `spec_eyes_slot` for one of the deltas the coin can
/// yield — a random orthogonal unit vector, or the difference toward the
/// player; every other slot leaves the board exactly as it was. In
/// particular an eyes actor whose candidate cells are free never stays
/// put, whatever the draw.
pub open spec fn spec_eyes_tick_slot(mid: Board, post: Board, rp: Position, i: usize) -> bool {
    if mid.live(i) && mid.actor(i).kind is Eyes {
        ||| exists|k: int|
            0 <= k < 4 && #[trigger] spec_eyes_slot(
                mid,
                post,
                i,
                MovingDir::spec_by_index(k as usize).0.0 as int,
                MovingDir::spec_by_index(k as usize).0.1 as int,
            )
        ||| spec_eyes_slot(
            mid,
            post,
            i,
            rp.0.0 - mid.actor(i).pos.0.0,
            rp.0.1 - mid.actor(i).pos.0.1,
        )
    } else {
        post == mid
    }
}

/// The whole eyes pass as a chain of tick-slots over arena order.
pub open spec fn spec_eyes_pass(pre: Board, post: Board, rp: Position, k: int) -> bool
    decreases k,
{
    if k <= 0 {
        post == pre
    } else {
        exists|mid: Board|
            #![trigger spec_eyes_tick_slot(mid, post, rp, (k - 1) as usize)]
            spec_eyes_pass(pre, mid, rp, k - 1) && spec_eyes_tick_slot(
                mid,
                post,
                rp,
                (k - 1) as usize,
            )
    }
}

/// One eyes actor's move for a chosen delta `(dx, dy)`: try the x-component
/// step first, then the y-component step, taking the first free cell;
/// stay put when both are blocked.
pub fn eyes_step(board: &mut Board, i: usize, dx: i32, dy: i32)
    requires
        old(board).wf(),
        old(board).live(i),
    ensures
        final(board).wf(),
        final(board).width == old(board).width,
        final(board).height == old(board).height,
        final(board).walls@ == old(board).walls@,
        spec_eyes_slot(*old(board), *final(board), i, dx as int, dy as int),
        ({
            let a = old(board).actor(i);
            let d1 = MovingDir(crate::components::IntVec2(spec_sgn(dx as int) as i32, 0));
            let d2 = MovingDir(crate::components::IntVec2(0, spec_sgn(dy as int) as i32));
            let p1 = a.pos.spec_add(d1);
            let p2 = a.pos.spec_add(d2);
            if old(board).spec_free(p1) {
                final(board).actors@ == old(board).actors@.update(
                    i as int,
                    Some(Actor { pos: p1, ..a }),
                )
            } else if old(board).spec_free(p2) {
                final(board).actors@ == old(board).actors@.update(
                    i as int,
                    Some(Actor { pos: p2, ..a }),
                )
            } else {
                final(board).actors@ == old(board).actors@
            }
        }),
{
    proof {
        assert(board.actor_ok(i));
    }
    let a = board.actor_at(i);
    let d1 = MovingDir::new(sgn(dx), 0);
    let d2 = MovingDir::new(0, sgn(dy));
    let p1 = a.pos.add(&d1);
    let p2 = a.pos.add(&d2);
    if board.is_free(&p1) {
        board.mv(&a.pos, &p1);
        proof {
            assert(old(board).cell_ok(a.pos.0.0 as int, a.pos.0.1 as int));
        }
    } else if board.is_free(&p2) {
        board.mv(&a.pos, &p2);
        proof {
            assert(old(board).cell_ok(a.pos.0.0 as int, a.pos.0.1 as int));
        }
    }
}

/// The eyes resolver: with the player on the board, each eyes actor flips
/// a coin between a random direction and the player-chasing delta, then
/// steps. Whatever the draws, each eyes actor moves by at most one
/// orthogonal cell onto a free cell and nothing else changes.
pub fn eyes_system(board: &mut Board)
    requires
        old(board).wf(),
    ensures
        final(board).wf(),
        final(board).width == old(board).width,
        final(board).height == old(board).height,
        final(board).walls@ == old(board).walls@,
        final(board).actors@.len() == old(board).actors@.len(),
        ({
            match crate::board::spec_first_robbo_from(*old(board), 0) {
                Some(r) => spec_eyes_pass(
                    *old(board),
                    *final(board),
                    old(board).actor(r).pos,
                    old(board).actors@.len() as int,
                ),
                None => final(board).actors@ == old(board).actors@,
            }
        }),
        forall|j: usize|
            j < old(board).actors@.len() ==> eyes_outcome(*old(board), *final(board), j),
{
    let r = match find_robbo(board) {
        Some(r) => r,
        None => {
            proof {
                assert forall|j: usize| j < board.actors@.len() implies eyes_outcome(
                    *board,
                    *board,
                    j,
                ) by {
                    lemma_eyes_stay(*board, *board, j);
                }
            }
            return ;
        },
    };
    proof {
        assert(board.actor_ok(r));
    }
    let robbo_pos = board.actor_at(r).pos;
    let n = board.actors.len();
    let mut i: usize = 0;
    while i < n
        invariant
            board.wf(),
            n == board.actors@.len(),
            n == old(board).actors@.len(),
            board.width == old(board).width,
            board.height == old(board).height,
            board.walls@ == old(board).walls@,
            i <= n,
            0 <= robbo_pos.0.0 < board.width,
            0 <= robbo_pos.0.1 < board.height,
            crate::board::spec_first_robbo_from(*old(board), 0) == Some(r),
            robbo_pos == old(board).actor(r).pos,
            forall|j: usize| i <= j < n ==> board.actors@[j as int] == old(board).actors@[j as int],
            forall|j: usize| j < i ==> eyes_outcome(*old(board), *board, j),
            spec_eyes_pass(*old(board), *board, robbo_pos, i as int),
        decreases n - i,
    {
        let ghost prev = *board;
        if self_is_eyes(board, i) {
            let a = board.actor_at(i);
            let coin = random_u32();
            if coin < EYES_RANDOM_THRESHOLD {
                let idx = (random_u32() % 4) as usize;
                let d = MovingDir::by_index(idx);
                let (dx, dy) = (d.x(), d.y());
                eyes_step(board, i, dx, dy);
                proof {
                    let kw: int = (idx % 4) as int;
                    assert(spec_eyes_slot(
                        prev,
                        *board,
                        i,
                        MovingDir::spec_by_index(kw as usize).0.0 as int,
                        MovingDir::spec_by_index(kw as usize).0.1 as int,
                    ));
                    assert(spec_eyes_tick_slot(prev, *board, robbo_pos, i));
                    eyes_witness(prev, *board, i, dx, dy);
                }
            } else {
                proof {
                    assert(board.actor_ok(i));
                }
                let dx = robbo_pos.x() - a.pos.x();
                let dy = robbo_pos.y() - a.pos.y();
                eyes_step(board, i, dx, dy);
                proof {
                    assert(spec_eyes_slot(
                        prev,
                        *board,
                        i,
                        robbo_pos.0.0 - prev.actor(i).pos.0.0,
                        robbo_pos.0.1 - prev.actor(i).pos.0.1,
                    ));
                    assert(spec_eyes_tick_slot(prev, *board, robbo_pos, i));
                    eyes_witness(prev, *board, i, dx, dy);
                }
            }
        } else {
            proof {
                assert(spec_eyes_tick_slot(prev, *board, robbo_pos, i));
            }
        }
        proof {
            let ghost kk: int = i as int + 1;
            assert(spec_eyes_pass(*old(board), prev, robbo_pos, kk - 1));
            assert(spec_eyes_tick_slot(prev, *board, robbo_pos, (kk - 1) as usize));
            assert(spec_eyes_pass(*old(board), *board, robbo_pos, kk));
            if !(prev.live(i) && prev.actor(i).kind is Eyes) {
                lemma_eyes_stay(prev, *board, i);
            }
            assert(eyes_outcome(*old(board), *board, i));
            assert forall|j: usize| j < i implies eyes_outcome(*old(board), *board, j) by {
                assert(eyes_outcome(*old(board), prev, j));
                assert(board.actors@[j as int] == prev.actors@[j as int]);
            }
        }
        i = i + 1;
    }
}

/// After a step of slot `i` for the delta `(dx, dy)`, the eyes outcome of
/// that slot holds: the move was one unit step along an axis or a stay.
proof fn eyes_witness(pre: Board, post: Board, i: usize, dx: i32, dy: i32)
    requires
        pre.wf(),
        pre.live(i),
        pre.actor(i).kind is Eyes,
        spec_eyes_slot(pre, post, i, dx as int, dy as int),
    ensures
        eyes_outcome(pre, post, i),
{
    assert(pre.actor_ok(i));
    let a = pre.actor(i);
    let dd1 = MovingDir(crate::components::IntVec2(spec_sgn(dx as int) as i32, 0));
    let dd2 = MovingDir(crate::components::IntVec2(0, spec_sgn(dy as int) as i32));
    if pre.spec_free(a.pos.spec_add(dd1)) {
        assert(dd1.0.is_small() && (dd1.0.0 == 0 || dd1.0.1 == 0) && post.actors@[i as int]
            == Some(Actor { pos: a.pos.spec_add(dd1), ..a }));
    } else if pre.spec_free(a.pos.spec_add(dd2)) {
        assert(dd2.0.is_small() && (dd2.0.0 == 0 || dd2.0.1 == 0) && post.actors@[i as int]
            == Some(Actor { pos: a.pos.spec_add(dd2), ..a }));
    } else {
        lemma_eyes_stay(pre, post, i);
    }
}

/// What one eyes tick does to arena slot `j`, whatever the random draws: an
/// eyes actor steps one cell orthogonally or stays; every other slot is
/// untouched.
pub open spec fn eyes_outcome(pre: Board, post: Board, j: usize) -> bool {
    match pre.actors@[j as int] {
        Some(a) => {
            if a.kind is Eyes {
                exists|d: MovingDir|
                    d.0.is_small() && (d.0.0 == 0 || d.0.1 == 0) && post.actors@[j as int]
                        == Some(Actor { pos: a.pos.spec_add(d), ..a })
            } else {
                post.actors@[j as int] == Some(a)
            }
        },
        None => post.actors@[j as int] is None,
    }
}

/// A slot whose contents did not change satisfies the eyes outcome: an
/// untouched eyes actor is one that moved by the zero vector.
proof fn lemma_eyes_stay(pre: Board, post: Board, j: usize)
    requires
        post.actors@.len() == pre.actors@.len(),
        j < pre.actors@.len() ==> post.actors@[j as int] == pre.actors@[j as int],
    ensures
        j < pre.actors@.len() ==> eyes_outcome(pre, post, j),
{
    if j < pre.actors@.len() {
        match pre.actors@[j as int] {
            Some(a) => {
                if a.kind is Eyes {
                    let dz = MovingDir(crate::components::IntVec2(0, 0));
                    assert(a.pos.spec_add(dz) == a.pos);
                    assert(dz.0.is_small() && (dz.0.0 == 0 || dz.0.1 == 0)
                        && post.actors@[j as int] == Some(Actor { pos: a.pos.spec_add(dz), ..a }));
                }
            },
            None => {},
        }
    }
}

/// True when slot `i` holds a live eyes actor.
fn self_is_eyes(board: &Board, i: usize) -> (r: bool)
    requires
        board.wf(),
        i < board.actors@.len(),
    ensures
        r == (board.live(i) && board.actor(i).kind is Eyes),
{
    match &board.actors[i] {
        Some(a) => matches!(a.kind, Kind::Eyes),
        None => false,
    }
}

} // verus!
