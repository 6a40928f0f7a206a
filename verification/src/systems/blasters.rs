//! Blaster head resolution: the head eats destroyable actors in its path,
//! destroys itself on anything it cannot eat, and leaves a tail marker on
//! every cell it covered.

use vstd::prelude::*;
use crate::board::Actor;
use crate::board::Board;
use crate::board::Kind;
use crate::entities::create_blaster_tail;
use crate::entities::spec_explosion;

verus! {

/// The exact one-slot relation of the blaster pass: despawn on terrain
/// ahead; eat a destroyable actor and take its cell; destroy itself on an
/// undestroyable occupant; or advance into a free cell — with a tail
/// marker on the previous cell in every case.
pub open spec fn spec_blaster_slot(pre: Board, post: Board, i: usize) -> bool {
    let a = pre.actor(i);
    let np = a.pos.spec_add(a.dir);
    &&& post.wf()
    &&& post.width == pre.width
    &&& post.height == pre.height
    &&& post.walls@ == pre.walls@
    &&& if pre.spec_terrain_blocked(np) {
        post.actors@ == pre.actors@.update(i as int, None).push(Some(spec_explosion(a.pos)))
    } else {
        match pre.cell(np) {
            Some(e) => if pre.actor(e).kind.spec_is_destroyable() {
                post.actors@ == pre.actors@.update(e as int, None).update(
                    i as int,
                    Some(Actor { pos: np, ..a }),
                ).push(Some(spec_explosion(a.pos)))
            } else {
                post.actors@ == pre.actors@.update(i as int, None).push(
                    Some(spec_explosion(a.pos)),
                )
            },
            None => post.actors@ == pre.actors@.update(i as int, Some(Actor { pos: np, ..a })).push(
                Some(spec_explosion(a.pos)),
            ),
        }
    }
}

/// One tick-slot of the blaster pass: a live blaster head follows
/// `spec_blaster_slot`; every other slot leaves the board exactly as it
/// was.
pub open spec fn spec_blaster_tick_slot(mid: Board, post: Board, i: usize) -> bool {
    if mid.live(i) && mid.actor(i).kind is BlasterHead {
        spec_blaster_slot(mid, post, i)
    } else {
        post == mid
    }
}

/// The whole blaster pass as a chain of tick-slots over arena order.
pub open spec fn spec_blasters_pass(pre: Board, post: Board, k: int) -> bool
    decreases k,
{
    if k <= 0 {
        post == pre
    } else {
        exists|mid: Board|
            #![trigger spec_blaster_tick_slot(mid, post, (k - 1) as usize)]
            spec_blasters_pass(pre, mid, k - 1) && spec_blaster_tick_slot(
                mid,
                post,
                (k - 1) as usize,
            )
    }
}

/// One blaster head's move against the current board, exactly one of:
/// despawn on terrain ahead; eat a destroyable actor and take its cell;
/// destroy itself on an undestroyable occupant; or advance into a free
/// cell. A tail marker is spawned at the previous cell in every case.
pub fn blaster_head_step(board: &mut Board, i: usize)
    requires
        old(board).wf(),
        old(board).live(i),
        old(board).actor(i).kind is BlasterHead,
    ensures
        final(board).wf(),
        final(board).width == old(board).width,
        final(board).height == old(board).height,
        final(board).walls@ == old(board).walls@,
        final(board).actors@.len() >= old(board).actors@.len(),
        spec_blaster_slot(*old(board), *final(board), i),
        ({
            let a = old(board).actor(i);
            let np = a.pos.spec_add(a.dir);
            if old(board).spec_terrain_blocked(np) {
                final(board).actors@ == old(board).actors@.update(i as int, None).push(
                    Some(spec_explosion(a.pos)),
                )
            } else {
                match old(board).cell(np) {
                    Some(e) => if old(board).actor(e).kind.spec_is_destroyable() {
                        final(board).actors@ == old(board).actors@.update(e as int, None).update(
                            i as int,
                            Some(Actor { pos: np, ..a }),
                        ).push(Some(spec_explosion(a.pos)))
                    } else {
                        final(board).actors@ == old(board).actors@.update(i as int, None).push(
                            Some(spec_explosion(a.pos)),
                        )
                    },
                    None => final(board).actors@ == old(board).actors@.update(
                        i as int,
                        Some(Actor { pos: np, ..a }),
                    ).push(Some(spec_explosion(a.pos))),
                }
            }
        }),
{
    proof {
        assert(board.actor_ok(i));
    }
    let a = board.actor_at(i);
    let new_pos = a.pos.add(&a.dir);
    if board.is_terrain(&new_pos) {
        board.despawn(i);
    } else {
        let front = board.get_entity(&new_pos);
        proof {
            if old(board).in_bounds(new_pos) {
                assert(old(board).cell_ok(new_pos.0.0 as int, new_pos.0.1 as int));
            }
        }
        match front {
            Some(e) => {
                proof {
                    assert(board.actor_ok(e));
                }
                if board.actor_at(e).kind.is_destroyable() {
                    proof {
                        assert(new_pos != a.pos);
                    }
                    board.despawn(e);
                    board.mv(&a.pos, &new_pos);
                    proof {
                        assert(old(board).cell_ok(a.pos.0.0 as int, a.pos.0.1 as int));
                    }
                } else {
                    board.despawn(i);
                }
            },
            None => {
                board.mv(&a.pos, &new_pos);
                proof {
                    assert(old(board).cell_ok(a.pos.0.0 as int, a.pos.0.1 as int));
                }
            },
        }
    }
    board.spawn(create_blaster_tail(a.pos));
}

/// What one blaster tick does to arena slot `j`: only blaster heads
/// change state, only destroyable actors are eaten; every other slot is
/// untouched (tail markers spawn past the pre-tick length).
pub open spec fn blaster_outcome(pre: Board, post: Board, j: usize) -> bool {
    match pre.actors@[j as int] {
        Some(a) => {
            if a.kind is BlasterHead {
                ||| post.actors@[j as int] is None
                ||| (post.actors@[j as int] matches Some(p) && p.kind is BlasterHead)
            } else if a.kind.spec_is_destroyable() {
                ||| post.actors@[j as int] == Some(a)
                ||| post.actors@[j as int] is None
            } else {
                post.actors@[j as int] == Some(a)
            }
        },
        None => post.actors@[j as int] is None,
    }
}

/// The blaster resolver: steps every live blaster head in arena order.
pub fn move_blaster_head(board: &mut Board)
    requires
        old(board).wf(),
    ensures
        final(board).wf(),
        final(board).width == old(board).width,
        final(board).height == old(board).height,
        final(board).walls@ == old(board).walls@,
        final(board).actors@.len() >= old(board).actors@.len(),
        spec_blasters_pass(*old(board), *final(board), old(board).actors@.len() as int),
        forall|j: usize|
            j < old(board).actors@.len() ==> blaster_outcome(*old(board), *final(board), j),
{
    let n = board.actors.len();
    let mut i: usize = 0;
    while i < n
        invariant
            board.wf(),
            n == old(board).actors@.len(),
            n <= board.actors@.len(),
            board.width == old(board).width,
            board.height == old(board).height,
            board.walls@ == old(board).walls@,
            i <= n,
            forall|j: usize| j < n ==> blaster_outcome(*old(board), *board, j),
            spec_blasters_pass(*old(board), *board, i as int),
        decreases n - i,
    {
        let ghost prev = *board;
        if self_is_blaster_head(board, i) {
            blaster_head_step(board, i);
        }
        proof {
            let ghost kk: int = i as int + 1;
            assert(spec_blaster_tick_slot(prev, *board, (kk - 1) as usize));
            assert(spec_blasters_pass(*old(board), prev, kk - 1));
            assert(spec_blasters_pass(*old(board), *board, kk));
            assert forall|j: usize| j < n implies blaster_outcome(prev, *board, j) by {
                if prev.live(i) && prev.actor(i).kind is BlasterHead {
                    let a = prev.actor(i);
                    let np = a.pos.spec_add(a.dir);
                    if !prev.spec_terrain_blocked(np) && prev.cell(np) is Some {
                        let e = prev.cell(np)->Some_0;
                        assert(prev.cell_ok(np.0.0 as int, np.0.1 as int));
                        assert(prev.live(e));
                        if prev.actor(e).kind.spec_is_destroyable() {
                            assert(e != i);
                            if j != e && j != i {
                                assert(board.actors@[j as int] == prev.actors@[j as int]);
                            }
                        }
                    }
                } else {
                    assert(board.actors@[j as int] == prev.actors@[j as int]);
                }
            }
            assert forall|j: usize| j < n implies blaster_outcome(*old(board), *board, j) by {
                assert(blaster_outcome(*old(board), prev, j));
                assert(blaster_outcome(prev, *board, j));
            }
        }
        i = i + 1;
    }
}

/// True when slot `i` holds a live blaster head.
fn self_is_blaster_head(board: &Board, i: usize) -> (r: bool)
    requires
        board.wf(),
        i < board.actors@.len(),
    ensures
        r == (board.live(i) && board.actor(i).kind is BlasterHead),
{
    match &board.actors[i] {
        Some(a) => matches!(a.kind, Kind::BlasterHead(_)),
        None => false,
    }
}

} // verus!
