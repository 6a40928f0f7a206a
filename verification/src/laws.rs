//! Global laws of the simulation, stated over the resolvers' outcome
//! specifications and proved once for all boards. Occupancy uniqueness
//! itself lives beside the board as `board::lemma_occupancy_unique`.

use vstd::prelude::*;
use crate::board::Board;
use crate::components::MovingDir;
use crate::damage::DamageMap;
use crate::game_events::GameEvent;
use crate::game_events::Sound;
use crate::inventory::Inventory;
use crate::systems::bears::spec_bear_decision;
use crate::systems::birds::bird_outcome;
use crate::systems::bullets::bullet_outcome;
use crate::systems::eyes::eyes_outcome;
use crate::systems::push_boxes::box_outcome;
use crate::systems::robbo_move::spec_sub_applied;
use crate::systems::robbo_move::spec_sub_move;

verus! {

/// Slot `j` moved by one of the four unit vectors or not at all between
/// the two boards (when it is live in both).
pub open spec fn spec_moved_by_unit_or_zero(pre: Board, post: Board, j: usize) -> bool {
    match (pre.actors@[j as int], post.actors@[j as int]) {
        (Some(a), Some(b)) => {
            let dx = b.pos.0.0 - a.pos.0.0;
            let dy = b.pos.0.1 - a.pos.0.1;
            (dx == 0 && dy == 0) || (dx == 0 && (dy == 1 || dy == -1)) || (dy == 0 && (dx == 1
                || dx == -1))
        },
        _ => true,
    }
}

/// Bounded movement: a bird tick moves each bird (with a unit or zero
/// heading) by exactly one unit vector or not at all.
pub proof fn lemma_bird_bounded(pre: Board, post: Board, dm: DamageMap, j: usize)
    requires
        pre.wf(),
        pre.live(j),
        pre.actor(j).dir.0.is_unit() || pre.actor(j).dir.0 == (crate::components::IntVec2(0, 0)),
        bird_outcome(pre, post, dm, j),
    ensures
        spec_moved_by_unit_or_zero(pre, post, j),
{
    assert(pre.actor_ok(j));
}

/// Bounded movement: a push-box tick moves each box (with a unit or zero
/// heading) by exactly one unit vector or not at all.
pub proof fn lemma_box_bounded(pre: Board, post: Board, j: usize)
    requires
        pre.wf(),
        pre.live(j),
        pre.actor(j).dir.0.is_unit() || pre.actor(j).dir.0 == (crate::components::IntVec2(0, 0)),
        box_outcome(pre, post, j),
    ensures
        spec_moved_by_unit_or_zero(pre, post, j),
{
    assert(pre.actor_ok(j));
}

/// Bounded movement: a bullet tick moves each surviving bullet (with a
/// unit or zero heading) by exactly one unit vector or not at all.
pub proof fn lemma_bullet_bounded(pre: Board, post: Board, j: usize)
    requires
        pre.wf(),
        pre.live(j),
        pre.actor(j).dir.0.is_unit() || pre.actor(j).dir.0 == (crate::components::IntVec2(0, 0)),
        bullet_outcome(pre, post, j),
    ensures
        spec_moved_by_unit_or_zero(pre, post, j),
{
    assert(pre.actor_ok(j));
}

/// Bounded movement: an eyes tick moves each eyes actor by exactly one
/// unit vector or not at all, whatever the random draws.
pub proof fn lemma_eyes_bounded(pre: Board, post: Board, j: usize)
    requires
        pre.wf(),
        pre.live(j),
        eyes_outcome(pre, post, j),
    ensures
        spec_moved_by_unit_or_zero(pre, post, j),
{
    assert(pre.actor_ok(j));
    if pre.actor(j).kind is Eyes {
        let d = choose|d: MovingDir|
            d.0.is_small() && (d.0.0 == 0 || d.0.1 == 0) && post.actors@[j as int] == Some(
                crate::board::Actor { pos: pre.actor(j).pos.spec_add(d), ..pre.actor(j) },
            );
        assert(post.actors@[j as int]->Some_0.pos == pre.actor(j).pos.spec_add(d));
    }
}

/// Wall-following is deterministic and well-shaped: a bear's next state is
/// the function `spec_bear_decision` of the board alone (no randomness),
/// its next heading is a unit vector differing from the old one by no
/// turn, a quarter turn, or a half turn, and its cell moves by at most one
/// step of the new heading.
pub proof fn lemma_bear_wall_following(b: Board, i: usize)
    requires
        b.wf(),
        b.live(i),
        b.actor(i).kind is Bear,
        b.actor(i).dir.0.is_unit(),
    ensures
        ({
            let a = b.actor(i);
            let d = spec_bear_decision(b, i);
            &&& d.dir.0.is_unit()
            &&& (d.dir == a.dir || d.dir == a.dir.spec_rotate_clockwise() || d.dir
                == a.dir.spec_rotate_counter_clockwise() || d.dir
                == a.dir.spec_rotate_clockwise().spec_rotate_clockwise())
            &&& (d.pos == a.pos || d.pos == a.pos.spec_add(d.dir))
        }),
{
    assert(b.actor_ok(i));
}

/// The push invariant. With a push-box directly ahead of the player: when
/// the cell beyond the box is free, one sub-attempt moves the player onto
/// the box's old cell and the box one further cell along the push
/// direction; when that cell is blocked, the sub-attempt never moves the
/// player.
pub proof fn lemma_push_invariant(
    pre: Board,
    post: Board,
    inv0: Inventory,
    inv1: Inventory,
    ev0: Seq<GameEvent>,
    ev1: Seq<GameEvent>,
    snd0: Seq<Sound>,
    snd1: Seq<Sound>,
    r: usize,
    e: usize,
    d: MovingDir,
)
    requires
        pre.wf(),
        pre.live(r),
        pre.actor(r).kind is Robbo,
        pre.in_bounds(pre.actor(r).pos.spec_add(d)),
        pre.cell(pre.actor(r).pos.spec_add(d)) == Some(e),
        pre.actor(e).kind is PushBox,
        pre.actor(e).moveable,
        spec_sub_applied(pre, post, inv0, inv1, ev0, ev1, snd0, snd1, r, d),
    ensures
        ({
            let np = pre.actor(r).pos.spec_add(d);
            let np2 = np.spec_add(d);
            if pre.spec_free(np2) {
                &&& post.actors@[r as int]->Some_0.pos == np
                &&& post.actors@[e as int]->Some_0.pos == np2
                &&& post.actors@[e as int]->Some_0.dir == d
            } else {
                post.actors@[r as int]->Some_0.pos == pre.actor(r).pos
            }
        }),
{
    assert(pre.actor_ok(r));
    let np = pre.actor(r).pos.spec_add(d);
    assert(pre.cell_ok(np.0.0 as int, np.0.1 as int));
    assert(pre.actor_ok(e));
    if e == r {
        assert(pre.actor(e) == pre.actor(r));
        assert(false);
    }
    let np2 = np.spec_add(d);
    if pre.spec_free(np2) {
        assert(spec_sub_move(pre, pre.actor(r).pos, d) is Push);
    } else {
        assert(!(spec_sub_move(pre, pre.actor(r).pos, d) is Push));
        assert(!(spec_sub_move(pre, pre.actor(r).pos, d) is Walk));
        assert(!(spec_sub_move(pre, pre.actor(r).pos, d) is Collect));
    }
}

/// One flush wave never damages a cell twice: the ledger the flush walks
/// lists every damaged cell exactly once.
pub proof fn lemma_wave_hits_once(dm: DamageMap, k: int, l: int)
    requires
        dm.wf(),
        0 <= k < l < dm.damaged@.len(),
    ensures
        dm.damaged@[k] != dm.damaged@[l],
{
}

} // verus!
