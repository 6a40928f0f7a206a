//! The teleport router: given the acting teleport and a desired exit
//! direction, pick the next usable sibling in the group (cyclically by
//! ordinal) and the first free exit around it, rotating the direction a
//! quarter turn at a time.

use vstd::prelude::*;
use crate::board::Board;
use crate::board::Kind;
use crate::components::MovingDir;
use crate::components::Position;

verus! {

/// Slot `j` holds a live teleport of group `g`.
pub open spec fn spec_is_group_member(b: Board, j: usize, g: usize) -> bool {
    b.live(j) && match b.actor(j).kind {
        Kind::Teleport(t) => t.0 == g,
        _ => false,
    }
}

/// One rotation step of the exit search: counter-clockwise when the exit
/// direction has a nonzero x component, clockwise otherwise. The
/// asymmetry is deliberate and load-bearing: existing level layouts depend
/// on this exact search order.
pub open spec fn spec_exit_rot(d: MovingDir, cc: bool) -> MovingDir {
    if cc {
        d.spec_rotate_counter_clockwise()
    } else {
        d.spec_rotate_clockwise()
    }
}

/// The first free exit around the teleport in slot `m`: its cell shifted by
/// `d`, then by up to three further quarter turns of `d`.
pub open spec fn spec_exit_of(b: Board, m: usize, d: MovingDir, cc: bool) -> Option<Position> {
    let p = b.actor(m).pos;
    let d1 = spec_exit_rot(d, cc);
    let d2 = spec_exit_rot(d1, cc);
    let d3 = spec_exit_rot(d2, cc);
    if b.spec_free(p.spec_add(d)) {
        Some(p.spec_add(d))
    } else if b.spec_free(p.spec_add(d1)) {
        Some(p.spec_add(d1))
    } else if b.spec_free(p.spec_add(d2)) {
        Some(p.spec_add(d2))
    } else if b.spec_free(p.spec_add(d3)) {
        Some(p.spec_add(d3))
    } else {
        None
    }
}

/// The accumulator scan behind the cyclic successor, over slots below
/// `j`: the group member with the smallest ordinal above `ord` (first
/// component) and the member with the smallest ordinal overall (second),
/// each as a (slot, ordinal) pair, earlier slots winning ties.
pub open spec fn spec_next_scan(b: Board, g: usize, ord: usize, j: int) -> (
    Option<(usize, usize)>,
    Option<(usize, usize)>,
)
    decreases j,
{
    if j <= 0 {
        (None, None)
    } else {
        let acc = spec_next_scan(b, g, ord, j - 1);
        let i = (j - 1) as usize;
        if spec_is_group_member(b, i, g) {
            let o = (b.actor(i).kind->Teleport_0).1;
            let best_gt = if o > ord {
                match acc.0 {
                    Some(bp) => if o < bp.1 {
                        Some((i, o))
                    } else {
                        Some(bp)
                    },
                    None => Some((i, o)),
                }
            } else {
                acc.0
            };
            let best_any = match acc.1 {
                Some(bp) => if o < bp.1 {
                    Some((i, o))
                } else {
                    Some(bp)
                },
                None => Some((i, o)),
            };
            (best_gt, best_any)
        } else {
            acc
        }
    }
}

/// The member of group `g` whose ordinal follows `ord` cyclically: the
/// smallest ordinal above `ord`, wrapping to the group's smallest.
pub open spec fn spec_next_in_group(b: Board, g: usize, ord: usize) -> Option<usize> {
    let acc = spec_next_scan(b, g, ord, b.actors@.len() as int);
    match acc.0 {
        Some(bp) => Some(bp.0),
        None => match acc.1 {
            Some(bp) => Some(bp.0),
            None => None,
        },
    }
}

/// The router's full selection: walk the group cyclically by ordinal,
/// starting after `ord`, and return the first member's first free exit;
/// `None` once `fuel` successors have been tried without one (the walk
/// runs with the arena length as fuel, enough to try every member when
/// ordinals are distinct, as the level data has them).
pub open spec fn spec_route(
    b: Board,
    g: usize,
    ord: usize,
    d: MovingDir,
    cc: bool,
    fuel: int,
) -> Option<Position>
    decreases fuel,
{
    if fuel <= 0 {
        None
    } else {
        match spec_next_in_group(b, g, ord) {
            Some(m) => match spec_exit_of(b, m, d, cc) {
                Some(p) => Some(p),
                None => spec_route(b, g, (b.actor(m).kind->Teleport_0).1, d, cc, fuel - 1),
            },
            None => None,
        }
    }
}

/// Exactly `spec_exit_of` for the member in slot `m`.
fn member_exit(board: &Board, m: usize, d: MovingDir, cc: bool) -> (r: Option<Position>)
    requires
        board.wf(),
        board.live(m),
        d.0.is_small(),
    ensures
        r == spec_exit_of(*board, m, d, cc),
        r matches Some(p) ==> board.spec_free(p),
{
    proof {
        assert(board.actor_ok(m));
    }
    let p = board.actor_at(m).pos;
    let d1 = if cc {
        d.rotate_counter_clockwise()
    } else {
        d.rotate_clockwise()
    };
    let d2 = if cc {
        d1.rotate_counter_clockwise()
    } else {
        d1.rotate_clockwise()
    };
    let d3 = if cc {
        d2.rotate_counter_clockwise()
    } else {
        d2.rotate_clockwise()
    };
    if board.is_free(&p.add(&d)) {
        Some(p.add(&d))
    } else if board.is_free(&p.add(&d1)) {
        Some(p.add(&d1))
    } else if board.is_free(&p.add(&d2)) {
        Some(p.add(&d2))
    } else if board.is_free(&p.add(&d3)) {
        Some(p.add(&d3))
    } else {
        None
    }
}

/// The member of group `g` whose ordinal follows `ord` cyclically:
/// exactly `spec_next_in_group`.
fn next_in_group(board: &Board, g: usize, ord: usize) -> (r: Option<usize>)
    requires
        board.wf(),
    ensures
        r == spec_next_in_group(*board, g, ord),
        r matches Some(m) ==> m < board.actors@.len() && spec_is_group_member(*board, m, g),
{
    let n = board.actors.len();
    let mut best_gt: Option<(usize, usize)> = None;
    let mut best_any: Option<(usize, usize)> = None;
    let mut j: usize = 0;
    while j < n
        invariant
            board.wf(),
            n == board.actors@.len(),
            j <= n,
            (best_gt, best_any) == spec_next_scan(*board, g, ord, j as int),
            best_gt matches Some(b) ==> b.0 < n && spec_is_group_member(*board, b.0, g),
            best_any matches Some(b) ==> b.0 < n && spec_is_group_member(*board, b.0, g),
        decreases n - j,
    {
        match &board.actors[j] {
            Some(a) => {
                match a.kind {
                    Kind::Teleport(t) => {
                        if t.0 == g {
                            let o = t.1;
                            if o > ord {
                                best_gt = match best_gt {
                                    Some((bj, bo)) => if o < bo {
                                        Some((j, o))
                                    } else {
                                        Some((bj, bo))
                                    },
                                    None => Some((j, o)),
                                };
                            }
                            best_any = match best_any {
                                Some((bj, bo)) => if o < bo {
                                    Some((j, o))
                                } else {
                                    Some((bj, bo))
                                },
                                None => Some((j, o)),
                            };
                        }
                    },
                    _ => {},
                }
            },
            None => {},
        }
        j = j + 1;
    }
    match best_gt {
        Some((m, _)) => Some(m),
        None => match best_any {
            Some((m, _)) => Some(m),
            None => None,
        },
    }
}

/// Route a teleport use, exactly `spec_route`: visit the acting
/// teleport's group cyclically by ordinal, starting after its own, and
/// take the first free exit found (the exit direction rotating a quarter
/// turn at a time at each sibling). A destination is always free.
pub fn teleport_dest_position(board: &Board, teleport_entity: usize, direction: MovingDir) -> (r:
    Option<Position>)
    requires
        board.wf(),
        board.live(teleport_entity),
        board.actor(teleport_entity).kind is Teleport,
        direction.0.is_small(),
    ensures
        ({
            let g = (board.actor(teleport_entity).kind->Teleport_0).0;
            let ord = (board.actor(teleport_entity).kind->Teleport_0).1;
            let cc = direction.0.0 != 0;
            &&& r == spec_route(*board, g, ord, direction, cc, board.actors@.len() as int)
            &&& (r matches Some(p) ==> board.spec_free(p) && exists|m: usize|
                m < board.actors@.len() && spec_is_group_member(*board, m, g) && spec_exit_of(
                    *board,
                    m,
                    direction,
                    cc,
                ) == Some(p))
        }),
{
    proof {
        assert(board.actor_ok(teleport_entity));
    }
    let (g, ord) = match board.actor_at(teleport_entity).kind {
        Kind::Teleport(t) => (t.0, t.1),
        _ => (0, 0),
    };
    let cc = direction.x() != 0;
    let n = board.actors.len();
    let mut cur_ord = ord;
    let mut tried: usize = 0;
    while tried < n
        invariant
            board.wf(),
            direction.0.is_small(),
            n == board.actors@.len(),
            tried <= n,
            board.live(teleport_entity),
            board.actor(teleport_entity).kind is Teleport,
            g == (board.actor(teleport_entity).kind->Teleport_0).0,
            ord == (board.actor(teleport_entity).kind->Teleport_0).1,
            cc == (direction.0.0 != 0),
            spec_route(*board, g, ord, direction, cc, n as int) == spec_route(
                *board,
                g,
                cur_ord,
                direction,
                cc,
                n - tried,
            ),
        decreases n - tried,
    {
        match next_in_group(board, g, cur_ord) {
            Some(m) => {
                match member_exit(board, m, direction, cc) {
                    Some(p) => {
                        proof {
                            assert(spec_is_group_member(*board, m, g) && spec_exit_of(
                                *board,
                                m,
                                direction,
                                cc,
                            ) == Some(p));
                        }
                        return Some(p);
                    },
                    None => {},
                }
                proof {
                    assert(board.actor_ok(m));
                }
                cur_ord = match board.actor_at(m).kind {
                    Kind::Teleport(t) => t.1,
                    _ => cur_ord,
                };
            },
            None => {
                return None;
            },
        }
        tried = tried + 1;
    }
    None
}

} // verus!
