//! Damage resolution: the deadly-contact check on the player, and the
//! once-per-tick flush of the damage ledger with bomb-chain propagation.

use vstd::prelude::*;
use crate::board::Actor;
use crate::board::Board;
use crate::board::Kind;
use crate::board::find_robbo;
use crate::board::spec_first_robbo_from;
use crate::components::Bomb;
use crate::components::MovingDir;
use crate::components::Position;
use crate::damage::DamageMap;
use crate::entities::create_explosion;
use crate::entities::spawn_random;
use crate::entities::spec_explosion;
use crate::game_events::Sound;
use crate::rng::random_u32;

verus! {

/// The deadly actor in slot `j` kills a player standing at `rp`: it is
/// orthogonally adjacent, and a magnet only kills on its front face.
pub open spec fn spec_deadly_hits(b: Board, j: usize, rp: Position) -> bool {
    b.live(j) && b.actor(j).kind.spec_is_deadly() && {
        let dp = b.actor(j).pos;
        let dx = rp.0.0 - dp.0.0;
        let dy = rp.0.1 - dp.0.1;
        let adjacent = (dx == 0 && (dy == 1 || dy == -1)) || (dy == 0 && (dx == 1 || dx == -1));
        adjacent && match b.actor(j).kind {
            Kind::Magnet(m) => m.dir.0 == dx && m.dir.1 == dy,
            _ => true,
        }
    }
}

/// The exact relation of the deadly-contact pass: with a deadly actor
/// orthogonally adjacent to the first player (a magnet only on its front
/// face), the player despawns into an explosion with the burn sound;
/// otherwise nothing happens.
pub open spec fn spec_deadly_rel(b0: Board, b1: Board, s0: Seq<Sound>, s1: Seq<Sound>) -> bool {
    &&& b1.wf()
    &&& b1.width == b0.width
    &&& b1.height == b0.height
    &&& b1.walls@ == b0.walls@
    &&& match spec_first_robbo_from(b0, 0) {
        Some(r) => {
            let rp = b0.actor(r).pos;
            if exists|j: usize| j < b0.actors@.len() && spec_deadly_hits(b0, j, rp) {
                &&& b1.actors@ == b0.actors@.update(r as int, None).push(Some(spec_explosion(rp)))
                &&& s1 == s0.push(Sound::BURN)
            } else {
                &&& b1.actors@ == b0.actors@
                &&& s1 == s0
            }
        },
        None => {
            &&& b1.actors@ == b0.actors@
            &&& s1 == s0
        },
    }
}

/// The deadly-contact check: the first player dies (explosion, burn sound)
/// when some deadly actor is orthogonally adjacent, a magnet counting only
/// when the player stands on its front face.
pub fn damage_system(board: &mut Board, sounds: &mut Vec<Sound>)
    requires
        old(board).wf(),
    ensures
        final(board).wf(),
        final(board).width == old(board).width,
        final(board).height == old(board).height,
        final(board).walls@ == old(board).walls@,
        spec_deadly_rel(*old(board), *final(board), old(sounds)@, final(sounds)@),
{
    let r = match find_robbo(board) {
        Some(r) => r,
        None => {
            return ;
        },
    };
    proof {
        assert(board.actor_ok(r));
    }
    let rp = board.actor_at(r).pos;
    let n = board.actors.len();
    let mut j: usize = 0;
    while j < n
        invariant
            board.wf(),
            *board == *old(board),
            n == board.actors@.len(),
            j <= n,
            board.live(r),
            spec_first_robbo_from(*old(board), 0) == Some(r),
            rp == board.actor(r).pos,
            0 <= rp.0.0 < board.width,
            0 <= rp.0.1 < board.height,
            sounds@ == old(sounds)@,
            forall|k: usize| k < j ==> !spec_deadly_hits(*board, k, rp),
        decreases n - j,
    {
        if deadly_hits(board, j, rp) {
            proof {
                assert(spec_deadly_hits(*old(board), j, rp));
                assert(board.actor_ok(r));
            }
            proof {
                assert(exists|k: usize|
                    k < old(board).actors@.len() && spec_deadly_hits(
                        *old(board),
                        k,
                        old(board).actor(r).pos,
                    ));
            }
            board.despawn(r);
            board.spawn(create_explosion(rp));
            sounds.push(Sound::BURN);
            return ;
        }
        j = j + 1;
    }
}

/// Exactly `spec_deadly_hits` for slot `j` against a player cell `rp`.
fn deadly_hits(board: &Board, j: usize, rp: Position) -> (r: bool)
    requires
        board.wf(),
        j < board.actors@.len(),
        0 <= rp.0.0 < board.width,
        0 <= rp.0.1 < board.height,
    ensures
        r == spec_deadly_hits(*board, j, rp),
{
    let a = match &board.actors[j] {
        Some(a) => a,
        None => {
            return false;
        },
    };
    if !a.kind.is_deadly() {
        return false;
    }
    proof {
        assert(board.actor_ok(j));
    }
    let dx = rp.x() - a.pos.x();
    let dy = rp.y() - a.pos.y();
    let adjacent = (dx == 0 && (dy == 1 || dy == -1)) || (dy == 0 && (dx == 1 || dx == -1));
    if !adjacent {
        return false;
    }
    match a.kind {
        Kind::Magnet(m) => m.dir.0 == dx && m.dir.1 == dy,
        _ => true,
    }
}

/// Whether `q` lies in the first blast wave of a bomb at `c`: Chebyshev
/// distance at most one (the eight neighbors plus the bomb's own cell).
pub open spec fn spec_ring9(c: Position, q: Position) -> bool {
    -1 <= q.0.0 - c.0.0 <= 1 && -1 <= q.0.1 - c.0.1 <= 1
}

/// Whether `q` lies in the secondary wave of an armed bomb at `c`: the four
/// orthogonal neighbors.
pub open spec fn spec_ring4(c: Position, q: Position) -> bool {
    let dx = q.0.0 - c.0.0;
    let dy = q.0.1 - c.0.1;
    (dx == 0 && (dy == 1 || dy == -1)) || (dy == 0 && (dx == 1 || dx == -1))
}

/// Slot `i` holds a bomb whose cell is damaged under `dm`, and `q` lies in
/// the wave it emits this tick: the full ring when it is just being armed,
/// the orthogonal cross once armed.
pub open spec fn spec_bomb_source(pre: Board, dm: DamageMap, i: usize, q: Position) -> bool {
    pre.live(i) && dm.damage_at(pre.actor(i).pos) is Some && match pre.actor(i).kind {
        Kind::Bomb(b) => if !b.0 {
            spec_ring9(pre.actor(i).pos, q)
        } else {
            spec_ring4(pre.actor(i).pos, q)
        },
        _ => false,
    }
}

/// What the flush does to arena slot `j` for the taken ledger `dm`:
/// undestroyable and undamaged actors are untouched; a fresh bomb is armed
/// in place; an armed bomb and every destroyable actor are despawned, as is
/// any actor under bomb-sourced damage.
pub open spec fn damage_outcome(pre: Board, post: Board, dm: DamageMap, j: usize) -> bool {
    match pre.actors@[j as int] {
        Some(a) => {
            if a.kind.spec_is_undestroyable() || dm.damage_at(a.pos) is None {
                post.actors@[j as int] == Some(a)
            } else {
                let is_bomb_damage = dm.damage_at(a.pos)->Some_0;
                match a.kind {
                    Kind::Bomb(b) => if !b.0 {
                        post.actors@[j as int] == Some(Actor { kind: Kind::Bomb(Bomb(true)), ..a })
                    } else {
                        post.actors@[j as int] is None
                    },
                    _ => if a.kind.spec_is_destroyable() || is_bomb_damage {
                        post.actors@[j as int] is None
                    } else {
                        post.actors@[j as int] == Some(a)
                    },
                }
            }
        },
        None => post.actors@[j as int] is None,
    }
}

/// The exact one-slot relation of the flush against the taken ledger
/// `taken`: a fresh bomb is armed in place and books its nine-cell ring; a
/// damaged armed bomb books the orthogonal cross and despawns into an
/// explosion; a destroyed question mark despawns into a random item; any
/// other destroyable actor, or any actor under bomb damage, despawns into
/// an explosion; everything else stays.
pub open spec fn spec_damage_slot(
    pre: Board,
    post: Board,
    taken: DamageMap,
    dmo0: DamageMap,
    dmo1: DamageMap,
    i: usize,
) -> bool {
    let a = pre.actor(i);
    let is_bomb_damage = taken.damage_at(a.pos)->Some_0;
    &&& post.wf()
    &&& dmo1.wf()
    &&& post.width == pre.width
    &&& post.height == pre.height
    &&& post.walls@ == pre.walls@
    &&& dmo1.width == dmo0.width
    &&& dmo1.height == dmo0.height
    &&& match a.kind {
        Kind::Bomb(b) => if !b.0 {
            &&& post.actors@ == pre.actors@.update(
                i as int,
                Some(Actor { kind: Kind::Bomb(Bomb(true)), ..a }),
            )
            &&& forall|q: Position|
                spec_ring9(a.pos, q) && dmo0.in_bounds(q) ==> dmo1.damage_at(q) == Some(true)
            &&& forall|q: Position|
                !(spec_ring9(a.pos, q) && dmo0.in_bounds(q)) ==> dmo1.damage_at(q)
                    == dmo0.damage_at(q)
        } else {
            &&& post.actors@ == pre.actors@.update(i as int, None).push(
                Some(spec_explosion(a.pos)),
            )
            &&& forall|q: Position|
                spec_ring4(a.pos, q) && dmo0.in_bounds(q) ==> dmo1.damage_at(q) == Some(true)
            &&& forall|q: Position|
                !(spec_ring4(a.pos, q) && dmo0.in_bounds(q)) ==> dmo1.damage_at(q)
                    == dmo0.damage_at(q)
        },
        Kind::QuestionMark => {
            &&& dmo1 == dmo0
            &&& exists|rv: u32| post.actors@ == pre.actors@.update(i as int, None).push(
                Some(#[trigger] crate::entities::spec_spawn_random(a.pos, rv)),
            )
        },
        _ => if a.kind.spec_is_destroyable() || is_bomb_damage {
            &&& dmo1 == dmo0
            &&& post.actors@ == pre.actors@.update(i as int, None).push(
                Some(spec_explosion(a.pos)),
            )
        } else {
            post == pre && dmo1 == dmo0
        },
    }
}

/// One tick-slot of the flush: a live, destructible-by-rules, damaged slot
/// follows `spec_damage_slot`; every other slot changes nothing.
pub open spec fn spec_damage_tick_slot(
    mid: Board,
    post: Board,
    taken: DamageMap,
    dmo0: DamageMap,
    dmo1: DamageMap,
    i: usize,
) -> bool {
    if mid.live(i) && !mid.actor(i).kind.spec_is_undestroyable() && taken.damage_at(
        mid.actor(i).pos,
    ) is Some {
        spec_damage_slot(mid, post, taken, dmo0, dmo1, i)
    } else {
        post == mid && dmo1 == dmo0
    }
}

/// The destruction phase of the flush as a chain of tick-slots over arena
/// order, threading the refilled ledger through the chain.
pub open spec fn spec_damage_pass(
    pre: Board,
    post: Board,
    taken: DamageMap,
    dmo_pre: DamageMap,
    dmo_post: DamageMap,
    k: int,
) -> bool
    decreases k,
{
    if k <= 0 {
        post == pre && dmo_post == dmo_pre
    } else {
        exists|mid: Board, dmo_mid: DamageMap|
            #![trigger spec_damage_tick_slot(mid, post, taken, dmo_mid, dmo_post, (k - 1) as usize)]
            spec_damage_pass(pre, mid, taken, dmo_pre, dmo_mid, k - 1) && spec_damage_tick_slot(
                mid,
                post,
                taken,
                dmo_mid,
                dmo_post,
                (k - 1) as usize,
            )
    }
}

/// One entry of the ground-marker walk: a bomb-damaged entry whose cell is
/// free (no occupant, not terrain) gains an explosion marker; any other
/// entry changes nothing.
pub open spec fn spec_marker_step(taken: DamageMap, b0: Board, b1: Board, t: int) -> bool {
    let p = taken.damaged@[t];
    if taken.damage_at(p) == Some(true) && b0.spec_free(p) {
        &&& b1.wf()
        &&& b1.width == b0.width
        &&& b1.height == b0.height
        &&& b1.walls@ == b0.walls@
        &&& b1.actors@ == b0.actors@.push(Some(spec_explosion(p)))
    } else {
        b1 == b0
    }
}

/// The ground-marker phase: the taken ledger's entries, walked in order.
pub open spec fn spec_markers_pass(taken: DamageMap, b_pre: Board, b_post: Board, k: int) -> bool
    decreases k,
{
    if k <= 0 {
        b_post == b_pre
    } else {
        exists|mid: Board|
            #![trigger spec_marker_step(taken, mid, b_post, k - 1)]
            spec_markers_pass(taken, b_pre, mid, k - 1) && spec_marker_step(taken, mid, b_post, k - 1)
    }
}

/// Process one arena slot of the flush against the taken ledger `dm`,
/// refilling `damage_map` with the blast ring when the slot holds a bomb.
fn damage_slot(
    board: &mut Board,
    damage_map: &mut DamageMap,
    dm: &DamageMap,
    sounds: &mut Vec<Sound>,
    i: usize,
)
    requires
        old(board).wf(),
        old(damage_map).wf(),
        dm.wf(),
        dm.width == old(board).width,
        dm.height == old(board).height,
        old(damage_map).width == old(board).width,
        old(damage_map).height == old(board).height,
        i < old(board).actors@.len(),
    ensures
        spec_damage_tick_slot(
            *old(board),
            *final(board),
            *dm,
            *old(damage_map),
            *final(damage_map),
            i,
        ),
        final(board).wf(),
        final(damage_map).wf(),
        final(damage_map).width == old(damage_map).width,
        final(damage_map).height == old(damage_map).height,
        final(board).width == old(board).width,
        final(board).height == old(board).height,
        final(board).walls@ == old(board).walls@,
        final(board).actors@.len() >= old(board).actors@.len(),
        forall|j: usize|
            j < old(board).actors@.len() && j != i ==> final(board).actors@[j as int] == old(board).actors@[j as int],
        damage_outcome(*old(board), *final(board), *dm, i),
        forall|q: Position|
            final(damage_map).damage_at(q) == old(damage_map).damage_at(q) || (final(damage_map).damage_at(q) == Some(true) && spec_bomb_source(*old(board), *dm, i, q)),
        forall|q: Position|
            spec_bomb_source(*old(board), *dm, i, q) && old(damage_map).in_bounds(q) ==> final(damage_map).damage_at(q) == Some(true),
{
    let live = board.actors[i].is_some();
    if !live {
        return ;
    }
    proof {
        assert(board.actor_ok(i));
    }
    let a = board.actor_at(i);
    if a.kind.is_undestroyable() {
        return ;
    }
    let is_bomb_damage = match dm.get(&a.pos) {
        Some(b) => b,
        None => {
            return ;
        },
    };
    let mut fresh_bomb = false;
    let mut armed_bomb = false;
    match a.kind {
        Kind::Bomb(b) => {
            if !b.0 {
                fresh_bomb = true;
            } else {
                armed_bomb = true;
            }
        },
        _ => {},
    }
    if fresh_bomb {
        let mut armed = a;
        armed.kind = Kind::Bomb(Bomb(true));
        board.update_actor(i, armed);
        damage_map.do_damage(&a.pos, true);
        damage_map.do_damage(&a.pos.add(&MovingDir::new(1, 1)), true);
        damage_map.do_damage(&a.pos.add(&MovingDir::new(-1i32, -1i32)), true);
        damage_map.do_damage(&a.pos.add(&MovingDir::new(1, -1i32)), true);
        damage_map.do_damage(&a.pos.add(&MovingDir::new(-1i32, 1)), true);
        damage_map.do_damage(&a.pos.add(&MovingDir::new(0, 1)), true);
        damage_map.do_damage(&a.pos.add(&MovingDir::new(0, -1i32)), true);
        damage_map.do_damage(&a.pos.add(&MovingDir::new(1, 0)), true);
        damage_map.do_damage(&a.pos.add(&MovingDir::new(-1i32, 0)), true);
        sounds.push(Sound::BOMB);
        proof {
            assert forall|q: Position|
                spec_bomb_source(*old(board), *dm, i, q) && old(damage_map).in_bounds(q) implies damage_map.damage_at(q) == Some(true) by {
                let c = a.pos;
                assert(q.0.0 == c.0.0 - 1 || q.0.0 == c.0.0 || q.0.0 == c.0.0 + 1);
                assert(q.0.1 == c.0.1 - 1 || q.0.1 == c.0.1 || q.0.1 == c.0.1 + 1);
            }
        }
        return ;
    }
    if armed_bomb {
        damage_map.do_damage(&a.pos.add(&MovingDir::new(0, 1)), true);
        damage_map.do_damage(&a.pos.add(&MovingDir::new(0, -1i32)), true);
        damage_map.do_damage(&a.pos.add(&MovingDir::new(1, 0)), true);
        damage_map.do_damage(&a.pos.add(&MovingDir::new(-1i32, 0)), true);
        proof {
            assert forall|q: Position|
                spec_bomb_source(*old(board), *dm, i, q) && old(damage_map).in_bounds(q) implies damage_map.damage_at(q) == Some(true) by {
                let c = a.pos;
                assert(spec_ring4(c, q));
            }
        }
    }
    if a.kind.is_destroyable() || is_bomb_damage {
        board.despawn(i);
        if matches!(a.kind, Kind::QuestionMark) {
            let rv = random_u32();
            board.spawn(spawn_random(a.pos, rv));
            proof {
                assert(board.actors@ == old(board).actors@.update(i as int, None).push(
                    Some(crate::entities::spec_spawn_random(a.pos, rv)),
                ));
            }
        } else {
            board.spawn(create_explosion(a.pos));
        }
        if !armed_bomb && !is_bomb_damage {
            sounds.push(Sound::BURN);
        }
    }
}

/// The damage flush. Consumes the whole ledger once; despawns what it
/// destroys (a destroyed question mark turns into a random item instead of
/// an explosion marker); arms fresh bombs, which refill the ledger with
/// their blast ring for the next tick; and marks bomb-reached empty ground
/// with explosion markers. Afterwards the ledger holds exactly the union
/// of the blast rings of the bombs that propagated this tick.
pub fn process_damage(board: &mut Board, damage_map: &mut DamageMap, sounds: &mut Vec<Sound>)
    requires
        old(board).wf(),
        old(damage_map).wf(),
        old(damage_map).width == old(board).width,
        old(damage_map).height == old(board).height,
    ensures
        final(board).wf(),
        final(damage_map).wf(),
        final(damage_map).width == old(damage_map).width,
        final(damage_map).height == old(damage_map).height,
        final(board).width == old(board).width,
        final(board).height == old(board).height,
        final(board).walls@ == old(board).walls@,
        final(board).actors@.len() >= old(board).actors@.len(),
        forall|j: usize|
            j < old(board).actors@.len() ==> damage_outcome(
                *old(board),
                *final(board),
                *old(damage_map),
                j,
            ),
        exists|mid_board: Board, dm_empty: DamageMap|
            #![trigger spec_damage_pass(*old(board), mid_board, *old(damage_map), dm_empty, *final(damage_map), old(board).actors@.len() as int), spec_markers_pass(*old(damage_map), mid_board, *final(board), old(damage_map).damaged@.len() as int)]
            {
                &&& dm_empty.wf()
                &&& dm_empty.width == old(damage_map).width
                &&& dm_empty.height == old(damage_map).height
                &&& (forall|q: Position| dm_empty.damage_at(q) is None)
                &&& spec_damage_pass(
                    *old(board),
                    mid_board,
                    *old(damage_map),
                    dm_empty,
                    *final(damage_map),
                    old(board).actors@.len() as int,
                )
                &&& spec_markers_pass(
                    *old(damage_map),
                    mid_board,
                    *final(board),
                    old(damage_map).damaged@.len() as int,
                )
            },
        forall|q: Position|
            final(damage_map).damage_at(q) == if exists|i: usize|
                i < old(board).actors@.len() && spec_bomb_source(
                    *old(board),
                    *old(damage_map),
                    i,
                    q,
                ) && old(damage_map).in_bounds(q) {
                Some(true)
            } else {
                None::<bool>
            },
{
    let dm = damage_map.take();
    let ghost dm_empty = *damage_map;
    let n = board.actors.len();
    let mut i: usize = 0;
    while i < n
        invariant
            board.wf(),
            damage_map.wf(),
            dm.wf(),
            dm == *old(damage_map),
            damage_map.width == old(damage_map).width,
            damage_map.height == old(damage_map).height,
            old(damage_map).width == old(board).width,
            old(damage_map).height == old(board).height,
            n == old(board).actors@.len(),
            n <= board.actors@.len(),
            board.width == old(board).width,
            board.height == old(board).height,
            board.walls@ == old(board).walls@,
            i <= n,
            forall|j: usize| i <= j < n ==> board.actors@[j as int] == old(board).actors@[j as int],
            forall|j: usize| j < i ==> damage_outcome(*old(board), *board, dm, j),
            forall|q: Position|
                damage_map.damage_at(q) is Some ==> damage_map.damage_at(q) == Some(true)
                    && exists|j: usize| j < i && spec_bomb_source(*old(board), dm, j, q),
            forall|j: usize, q: Position|
                j < i && spec_bomb_source(*old(board), dm, j, q) && old(damage_map).in_bounds(q)
                    ==> damage_map.damage_at(q) == Some(true),
            spec_damage_pass(*old(board), *board, dm, dm_empty, *damage_map, i as int),
        decreases n - i,
    {
        let ghost prev = *board;
        let ghost prev_dm = *damage_map;
        damage_slot(board, damage_map, &dm, sounds, i);
        proof {
            let ghost kk: int = i as int + 1;
            assert(spec_damage_tick_slot(prev, *board, dm, prev_dm, *damage_map, (kk - 1) as usize));
            assert(spec_damage_pass(*old(board), prev, dm, dm_empty, prev_dm, kk - 1));
            assert(spec_damage_pass(*old(board), *board, dm, dm_empty, *damage_map, kk));
            assert(damage_outcome(*old(board), *board, dm, i));
            assert forall|j: usize| j < i implies damage_outcome(*old(board), *board, dm, j) by {
                assert(damage_outcome(*old(board), prev, dm, j));
                assert(board.actors@[j as int] == prev.actors@[j as int]);
            }
            assert forall|q: Position|
                damage_map.damage_at(q) is Some implies damage_map.damage_at(q) == Some(true)
                && exists|j: usize| j < i + 1 && spec_bomb_source(*old(board), dm, j, q) by {
                if damage_map.damage_at(q) == prev_dm.damage_at(q) {
                    let j = choose|j: usize| j < i && spec_bomb_source(*old(board), dm, j, q);
                    assert(j < i + 1 && spec_bomb_source(*old(board), dm, j, q));
                } else {
                    assert(spec_bomb_source(*old(board), dm, i, q));
                    assert((i as usize) < i + 1);
                }
            }
            assert forall|j: usize, q: Position|
                j < i + 1 && spec_bomb_source(*old(board), dm, j, q) && old(damage_map).in_bounds(q) implies damage_map.damage_at(q) == Some(true) by {
                if j < i {
                    assert(prev_dm.damage_at(q) == Some(true));
                }
            }
        }
        i = i + 1;
    }
    let ghost mid = *board;
    let m = dm.damaged.len();
    let mut k: usize = 0;
    while k < m
        invariant
            board.wf(),
            dm.wf(),
            m == dm.damaged@.len(),
            k <= m,
            board.width == mid.width,
            board.height == mid.height,
            board.walls@ == mid.walls@,
            board.actors@.len() >= mid.actors@.len(),
            spec_markers_pass(dm, mid, *board, k as int),
            forall|j: usize|
                j < mid.actors@.len() ==> board.actors@[j as int] == mid.actors@[j as int],
        decreases m - k,
    {
        let ghost prev = *board;
        let p = dm.damaged[k];
        let flag = dm.get(&p);
        match flag {
            Some(true) => {
                if board.is_free(&p) {
                    board.spawn(create_explosion(p));
                }
            },
            _ => {},
        }
        proof {
            let ghost kk: int = k as int + 1;
            assert(spec_marker_step(dm, prev, *board, kk - 1));
            assert(spec_markers_pass(dm, mid, prev, kk - 1));
            assert(spec_markers_pass(dm, mid, *board, kk));
        }
        k = k + 1;
    }
    proof {
        assert(spec_damage_pass(
            *old(board),
            mid,
            *old(damage_map),
            dm_empty,
            *damage_map,
            old(board).actors@.len() as int,
        ));
        assert(spec_markers_pass(
            *old(damage_map),
            mid,
            *board,
            old(damage_map).damaged@.len() as int,
        ));
        assert forall|j: usize| j < old(board).actors@.len() implies damage_outcome(
            *old(board),
            *board,
            dm,
            j,
        ) by {
            assert(damage_outcome(*old(board), mid, dm, j));
            assert(board.actors@[j as int] == mid.actors@[j as int]);
        }
    }
}

} // verus!
