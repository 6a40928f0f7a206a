//! Force-field oscillation: each segment steps one cell along its vertical
//! track per tick, wrapping at the track's bounds, and despawns whatever
//! non-wall, non-force-field occupant it lands on (bullets additionally
//! register damage). Segments are processed in ascending (x, y) order of
//! their cells, each once, to avoid read-after-write hazards in a group.

use vstd::prelude::*;
use crate::board::Actor;
use crate::board::Board;
use crate::board::Kind;
use crate::components::IntVec2;
use crate::components::Position;
use crate::damage::DamageMap;

verus! {

/// Where the segment in slot `i` lands this tick: one step along its
/// heading, wrapped back into its `[top, bottom)` track.
pub open spec fn spec_ff_target(b: Board, i: usize) -> Position {
    let a = b.actor(i);
    match a.kind {
        Kind::ForceField(ff) => {
            let np = a.pos.spec_add(a.dir);
            if np.0.1 < ff.top {
                Position(IntVec2(a.pos.0.0, (ff.bottom - 1) as i32))
            } else if np.0.1 >= ff.bottom {
                Position(IntVec2(a.pos.0.0, ff.top))
            } else {
                np
            }
        },
        _ => a.pos,
    }
}

/// The exact one-slot relation of a stepped segment: it stays put when
/// its target cell is its own, terrain, or another segment; otherwise any
/// occupant of the target is despawned (a bullet also registers non-bomb
/// damage there) and the segment takes the cell.
pub open spec fn spec_ff_slot(
    pre: Board,
    post: Board,
    dm0: DamageMap,
    dm1: DamageMap,
    i: usize,
) -> bool {
    let a = pre.actor(i);
    let target = spec_ff_target(pre, i);
    &&& post.wf()
    &&& dm1.wf()
    &&& post.width == pre.width
    &&& post.height == pre.height
    &&& post.walls@ == pre.walls@
    &&& dm1.width == dm0.width
    &&& dm1.height == dm0.height
    &&& if target == a.pos || pre.spec_terrain_blocked(target) {
        &&& post.actors@ == pre.actors@
        &&& dm1 == dm0
    } else {
        match pre.cell(target) {
            Some(e) => if pre.actor(e).kind is ForceField {
                &&& post.actors@ == pre.actors@
                &&& dm1 == dm0
            } else {
                &&& post.actors@ == pre.actors@.update(e as int, None).update(
                    i as int,
                    Some(Actor { pos: target, ..a }),
                )
                &&& if pre.actor(e).kind is Bullet {
                    &&& dm1.damage_at(target) == Some(false)
                    &&& forall|q: Position| q != target ==> dm1.damage_at(q) == dm0.damage_at(q)
                } else {
                    dm1 == dm0
                }
            },
            None => {
                &&& post.actors@ == pre.actors@.update(i as int, Some(Actor { pos: target, ..a }))
                &&& dm1 == dm0
            },
        }
    }
}

/// One cell of the oscillator's grid scan: a not-yet-moved segment on the
/// cell is marked moved and stepped; any other cell changes nothing.
pub open spec fn spec_ff_cell(
    mid: Board,
    post: Board,
    dm0: DamageMap,
    dm1: DamageMap,
    m0: Seq<bool>,
    m1: Seq<bool>,
    x: int,
    y: int,
) -> bool {
    let p = Position(IntVec2(x as i32, y as i32));
    match mid.cell(p) {
        Some(i) => match mid.actor(i).kind {
            Kind::ForceField(ff) => {
                if i < m0.len() && !m0[i as int] && ff.bottom > i32::MIN {
                    &&& m1 == m0.update(i as int, true)
                    &&& spec_ff_slot(mid, post, dm0, dm1, i)
                } else {
                    post == mid && dm1 == dm0 && m1 == m0
                }
            },
            _ => post == mid && dm1 == dm0 && m1 == m0,
        },
        None => post == mid && dm1 == dm0 && m1 == m0,
    }
}

/// One column of the scan: the cells `(x, 0..yk)` in ascending order.
pub open spec fn spec_ff_col_pass(
    pre: Board,
    post: Board,
    dm_pre: DamageMap,
    dm_post: DamageMap,
    m_pre: Seq<bool>,
    m_post: Seq<bool>,
    x: int,
    yk: int,
) -> bool
    decreases yk,
{
    if yk <= 0 {
        post == pre && dm_post == dm_pre && m_post == m_pre
    } else {
        exists|mid: Board, dm_mid: DamageMap, m_mid: Seq<bool>|
            #![trigger spec_ff_cell(mid, post, dm_mid, dm_post, m_mid, m_post, x, yk - 1)]
            spec_ff_col_pass(pre, mid, dm_pre, dm_mid, m_pre, m_mid, x, yk - 1) && spec_ff_cell(
                mid,
                post,
                dm_mid,
                dm_post,
                m_mid,
                m_post,
                x,
                yk - 1,
            )
    }
}

/// The whole oscillator pass: the columns `0..xk` in ascending order, so
/// segments are processed in ascending (x, y) order of their cells, each
/// exactly once (the moved flags thread through the chain).
pub open spec fn spec_ff_pass(
    pre: Board,
    post: Board,
    dm_pre: DamageMap,
    dm_post: DamageMap,
    m_pre: Seq<bool>,
    m_post: Seq<bool>,
    xk: int,
) -> bool
    decreases xk,
{
    if xk <= 0 {
        post == pre && dm_post == dm_pre && m_post == m_pre
    } else {
        exists|mid: Board, dm_mid: DamageMap, m_mid: Seq<bool>|
            #![trigger spec_ff_col_pass(mid, post, dm_mid, dm_post, m_mid, m_post, xk - 1, post.height as int)]
            spec_ff_pass(pre, mid, dm_pre, dm_mid, m_pre, m_mid, xk - 1) && spec_ff_col_pass(
                mid,
                post,
                dm_mid,
                dm_post,
                m_mid,
                m_post,
                xk - 1,
                post.height as int,
            )
    }
}

/// One segment's move. The segment stays put when its target cell is its
/// own, terrain, or another segment; otherwise any occupant of the target
/// is despawned (a bullet also registers non-bomb damage there) and the
/// segment takes the cell.
pub fn force_field_step(board: &mut Board, damage_map: &mut DamageMap, i: usize)
    requires
        old(board).wf(),
        old(damage_map).wf(),
        old(board).live(i),
        old(board).actor(i).kind matches Kind::ForceField(ff) && ff.bottom > i32::MIN,
        old(damage_map).width == old(board).width,
        old(damage_map).height == old(board).height,
    ensures
        final(board).wf(),
        final(damage_map).wf(),
        final(damage_map).width == old(damage_map).width,
        final(damage_map).height == old(damage_map).height,
        final(board).width == old(board).width,
        final(board).height == old(board).height,
        final(board).walls@ == old(board).walls@,
        final(board).actors@.len() == old(board).actors@.len(),
        spec_ff_slot(*old(board), *final(board), *old(damage_map), *final(damage_map), i),
        ({
            let a = old(board).actor(i);
            let target = spec_ff_target(*old(board), i);
            if target == a.pos || old(board).spec_terrain_blocked(target) {
                &&& final(board).actors@ == old(board).actors@
                &&& *final(damage_map) == *old(damage_map)
            } else {
                match old(board).cell(target) {
                    Some(e) => if old(board).actor(e).kind is ForceField {
                        &&& final(board).actors@ == old(board).actors@
                        &&& *final(damage_map) == *old(damage_map)
                    } else {
                        &&& final(board).actors@ == old(board).actors@.update(e as int, None).update(
                            i as int,
                            Some(Actor { pos: target, ..a }),
                        )
                        &&& if old(board).actor(e).kind is Bullet {
                            &&& final(damage_map).damage_at(target) == Some(false)
                            &&& forall|q: Position|
                                q != target ==> final(damage_map).damage_at(q) == old(damage_map).damage_at(q)
                        } else {
                            *final(damage_map) == *old(damage_map)
                        }
                    },
                    None => {
                        &&& final(board).actors@ == old(board).actors@.update(
                            i as int,
                            Some(Actor { pos: target, ..a }),
                        )
                        &&& *final(damage_map) == *old(damage_map)
                    },
                }
            }
        }),
{
    proof {
        assert(board.actor_ok(i));
    }
    let a = board.actor_at(i);
    let (top, bottom) = match a.kind {
        Kind::ForceField(ff) => (ff.top, ff.bottom),
        _ => (0, 0),
    };
    let np = a.pos.add(&a.dir);
    let target = if np.0.1 < top {
        Position(IntVec2(a.pos.0.0, bottom - 1))
    } else if np.0.1 >= bottom {
        Position(IntVec2(a.pos.0.0, top))
    } else {
        np
    };
    if target == a.pos {
        return ;
    }
    if board.is_terrain(&target) {
        return ;
    }
    let front = board.get_entity(&target);
    proof {
        if old(board).in_bounds(target) {
            assert(old(board).cell_ok(target.0.0 as int, target.0.1 as int));
        }
    }
    match front {
        Some(e) => {
            proof {
                assert(board.actor_ok(e));
            }
            let victim = board.actor_at(e);
            if matches!(victim.kind, Kind::ForceField(_)) {
                return ;
            }
            if matches!(victim.kind, Kind::Bullet(_)) {
                damage_map.do_damage(&target, false);
                proof {
                    assert(old(damage_map).in_bounds(target));
                }
            }
            proof {
                assert(e != i && target != a.pos);
            }
            board.despawn(e);
            board.mv(&a.pos, &target);
            proof {
                assert(old(board).cell_ok(a.pos.0.0 as int, a.pos.0.1 as int));
            }
        },
        None => {
            board.mv(&a.pos, &target);
            proof {
                assert(old(board).cell_ok(a.pos.0.0 as int, a.pos.0.1 as int));
            }
        },
    }
}

/// What one oscillator tick does to arena slot `j`: a segment survives
/// with its kind and heading intact; anything else is untouched or
/// despawned (burnt by a segment landing on it).
pub open spec fn ff_outcome(pre: Board, post: Board, j: usize) -> bool {
    match pre.actors@[j as int] {
        Some(a) => {
            if a.kind is ForceField {
                post.actors@[j as int] matches Some(p) && p.kind == a.kind && p.dir == a.dir
            } else {
                ||| post.actors@[j as int] == Some(a)
                ||| post.actors@[j as int] is None
            }
        },
        None => post.actors@[j as int] is None,
    }
}

/// The force-field resolver: walk the grid in ascending (x, y) order and
/// step each not-yet-moved segment exactly once.
pub fn force_field_system(board: &mut Board, damage_map: &mut DamageMap)
    requires
        old(board).wf(),
        old(damage_map).wf(),
        old(damage_map).width == old(board).width,
        old(damage_map).height == old(board).height,
    ensures
        final(board).wf(),
        final(damage_map).wf(),
        final(damage_map).width == old(damage_map).width,
        final(damage_map).height == old(damage_map).height,
        final(board).width == old(board).width,
        final(board).height == old(board).height,
        final(board).walls@ == old(board).walls@,
        final(board).actors@.len() == old(board).actors@.len(),
        exists|m_init: Seq<bool>, m_post: Seq<bool>|
            #![trigger spec_ff_pass(*old(board), *final(board), *old(damage_map), *final(damage_map), m_init, m_post, old(board).width as int)]
            {
                &&& m_init.len() == old(board).actors@.len()
                &&& (forall|t: int| 0 <= t < m_init.len() ==> !m_init[t])
                &&& spec_ff_pass(
                    *old(board),
                    *final(board),
                    *old(damage_map),
                    *final(damage_map),
                    m_init,
                    m_post,
                    old(board).width as int,
                )
            },
        forall|j: usize| j < old(board).actors@.len() ==> ff_outcome(*old(board), *final(board), j),
        forall|q: Position|
            final(damage_map).damage_at(q) == old(damage_map).damage_at(q) || final(damage_map).damage_at(q) == Some(false),
{
    let n = board.actors.len();
    let mut moved: Vec<bool> = Vec::new();
    let mut k: usize = 0;
    while k < n
        invariant
            moved@.len() == k,
            k <= n,
            forall|t: int| 0 <= t < k ==> !moved@[t],
        decreases n - k,
    {
        moved.push(false);
        k = k + 1;
    }
    let ghost m_init = moved@;
    let mut x: i32 = 0;
    while x < board.width
        invariant
            board.wf(),
            damage_map.wf(),
            damage_map.width == old(damage_map).width,
            damage_map.height == old(damage_map).height,
            damage_map.width == board.width,
            damage_map.height == board.height,
            n == board.actors@.len(),
            n == old(board).actors@.len(),
            board.width == old(board).width,
            board.height == old(board).height,
            board.walls@ == old(board).walls@,
            moved@.len() == n,
            0 <= x <= board.width,
            spec_ff_pass(
                *old(board),
                *board,
                *old(damage_map),
                *damage_map,
                m_init,
                moved@,
                x as int,
            ),
            forall|j: usize| j < n ==> ff_outcome(*old(board), *board, j),
            forall|q: Position|
                damage_map.damage_at(q) == old(damage_map).damage_at(q) || damage_map.damage_at(q)
                    == Some(false),
        decreases board.width - x,
    {
        let ghost col_b = *board;
        let ghost col_dm = *damage_map;
        let ghost col_m = moved@;
        let mut y: i32 = 0;
        while y < board.height
            invariant
                board.wf(),
                damage_map.wf(),
                damage_map.width == old(damage_map).width,
                damage_map.height == old(damage_map).height,
                damage_map.width == board.width,
                damage_map.height == board.height,
                n == board.actors@.len(),
                n == old(board).actors@.len(),
                board.width == old(board).width,
                board.height == old(board).height,
                board.walls@ == old(board).walls@,
                moved@.len() == n,
                0 <= x < board.width,
                0 <= y <= board.height,
                spec_ff_col_pass(
                    col_b,
                    *board,
                    col_dm,
                    *damage_map,
                    col_m,
                    moved@,
                    x as int,
                    y as int,
                ),
                forall|j: usize| j < n ==> ff_outcome(*old(board), *board, j),
                forall|j: usize| j < n ==> ff_outcome(col_b, *board, j),
                forall|q: Position|
                    damage_map.damage_at(q) == old(damage_map).damage_at(q) || damage_map.damage_at(
                        q,
                    ) == Some(false),
            decreases board.height - y,
        {
            let ghost prev = *board;
            let ghost prev_dm = *damage_map;
            let ghost prev_m = moved@;
            let p = Position(IntVec2(x, y));
            match board.get_entity(&p) {
                Some(i) => {
                    proof {
                        assert(board.cell_ok(x as int, y as int));
                    }
                    let a = board.actor_at(i);
                    match a.kind {
                        Kind::ForceField(ff) => {
                            if !moved[i] && ff.bottom > i32::MIN {
                                moved.set(i, true);
                                force_field_step(board, damage_map, i);
                            }
                        },
                        _ => {},
                    }
                },
                None => {},
            }
            proof {
                let ghost ky: int = y as int + 1;
                assert(spec_ff_cell(
                    prev,
                    *board,
                    prev_dm,
                    *damage_map,
                    prev_m,
                    moved@,
                    x as int,
                    ky - 1,
                ));
                assert(spec_ff_col_pass(col_b, prev, col_dm, prev_dm, col_m, prev_m, x as int, ky - 1));
                assert(spec_ff_col_pass(
                    col_b,
                    *board,
                    col_dm,
                    *damage_map,
                    col_m,
                    moved@,
                    x as int,
                    ky,
                ));
                assert forall|j: usize| j < n implies ff_outcome(prev, *board, j) by {
                    if board.actors@ != prev.actors@ {
                        match prev.cell(p) {
                            Some(i) => {
                                assert(prev.cell_ok(x as int, y as int));
                                let target = spec_ff_target(prev, i);
                                if !prev.spec_terrain_blocked(target) && target
                                    != prev.actor(i).pos {
                                    match prev.cell(target) {
                                        Some(e) => {
                                            assert(prev.cell_ok(
                                                target.0.0 as int,
                                                target.0.1 as int,
                                            ));
                                            if j != e && j != i {
                                                assert(board.actors@[j as int]
                                                    == prev.actors@[j as int]);
                                            }
                                        },
                                        None => {},
                                    }
                                }
                            },
                            None => {},
                        }
                    }
                }
                assert forall|j: usize| j < n implies ff_outcome(*old(board), *board, j) by {
                    assert(ff_outcome(*old(board), prev, j));
                    assert(ff_outcome(prev, *board, j));
                }
                assert forall|j: usize| j < n implies ff_outcome(col_b, *board, j) by {
                    assert(ff_outcome(col_b, prev, j));
                    assert(ff_outcome(prev, *board, j));
                }
            }
            y = y + 1;
        }
        proof {
            let ghost kx: int = x as int + 1;
            assert(spec_ff_col_pass(
                col_b,
                *board,
                col_dm,
                *damage_map,
                col_m,
                moved@,
                kx - 1,
                board.height as int,
            ));
            assert(spec_ff_pass(*old(board), col_b, *old(damage_map), col_dm, m_init, col_m, kx - 1));
            assert(spec_ff_pass(
                *old(board),
                *board,
                *old(damage_map),
                *damage_map,
                m_init,
                moved@,
                kx,
            ));
        }
        x = x + 1;
    }
}

} // verus!
