//! Per-keyframe bookkeeping: timed animations count down and vanish
//! (emitting their end event), and rotatable guns re-aim between shots.

use vstd::prelude::*;
use crate::board::Actor;
use crate::board::Board;
use crate::board::Kind;
use crate::components::Animation;
use crate::components::MovingDir;
use crate::components::Rotatable;
use crate::components::ShootingDir;
use crate::game_events::GameEvent;
use crate::rng::random_u32;

verus! {

/// Probability threshold for a rotatable gun re-aiming this keyframe (a
/// quarter of the draws).
pub const GUN_ROTATE_THRESHOLD: u32 = 0x4000_0000;

/// What one bookkeeping tick does to arena slot `j`, whatever the random
/// draws: an animation loses one frame or ends; a rotatable gun changes at
/// most its shooting direction; everything else is untouched.
pub open spec fn tick_outcome(pre: Board, post: Board, j: usize) -> bool {
    match pre.actors@[j as int] {
        Some(a) => match a.kind {
            Kind::Animation(anim, ev) => if anim.frames_left <= 1 {
                post.actors@[j as int] is None
            } else {
                post.actors@[j as int] == Some(
                    Actor {
                        kind: Kind::Animation(
                            Animation { frames_left: (anim.frames_left - 1) as u32 },
                            ev,
                        ),
                        ..a
                    },
                )
            },
            Kind::Gun { rotatable: Some(rot), .. } => (post.actors@[j as int] matches Some(p)
                && p.pos == a.pos && p.kind == a.kind && p.dir == a.dir && p.usable == a.usable
                && p.moveable == a.moveable && match rot {
                    Rotatable::Regular => match a.shooting {
                        Some(sd) => p.shooting == Some(sd) || p.shooting == Some(
                            ShootingDir { dir: MovingDir(sd.dir).spec_rotate_clockwise().0 },
                        ),
                        None => p.shooting is None || (p.shooting matches Some(s2)
                            && s2.dir.is_unit()),
                    },
                    Rotatable::Random => p.shooting == a.shooting || exists|kx: int|
                        0 <= kx < 4 && p.shooting == Some(
                            ShootingDir { dir: #[trigger] MovingDir::spec_by_index(kx as usize).0 },
                        ),
                }),
            _ => post.actors@[j as int] == Some(a),
        },
        None => post.actors@[j as int] is None,
    }
}

/// The bookkeeping resolver. An animation slot counts down and despawns on
/// its last frame, queueing its end event; a rotatable gun re-aims a
/// quarter turn (or at random) on a quarter of the draws. Events are only
/// appended.
pub fn tick_system(board: &mut Board, events: &mut Vec<GameEvent>)
    requires
        old(board).wf(),
    ensures
        final(board).wf(),
        final(board).width == old(board).width,
        final(board).height == old(board).height,
        final(board).walls@ == old(board).walls@,
        final(board).actors@.len() == old(board).actors@.len(),
        forall|j: usize|
            j < old(board).actors@.len() ==> tick_outcome(*old(board), *final(board), j),
        final(events)@.len() >= old(events)@.len(),
        forall|k: int| 0 <= k < old(events)@.len() ==> final(events)@[k] == old(events)@[k],
{
    let n = board.actors.len();
    let mut i: usize = 0;
    while i < n
        invariant
            board.wf(),
            n == board.actors@.len(),
            n == old(board).actors@.len(),
            board.width == old(board).width,
            board.height == old(board).height,
            board.walls@ == old(board).walls@,
            i <= n,
            forall|j: usize| i <= j < n ==> board.actors@[j as int] == old(board).actors@[j as int],
            forall|j: usize| j < i ==> tick_outcome(*old(board), *board, j),
            events@.len() >= old(events)@.len(),
            forall|k: int| 0 <= k < old(events)@.len() ==> events@[k] == old(events)@[k],
        decreases n - i,
    {
        let ghost prev = *board;
        let slot_live = board.actors[i].is_some();
        if slot_live {
            let a = board.actor_at(i);
            proof {
                assert(board.actor_ok(i));
            }
            match a.kind {
                Kind::Animation(anim, ev) => {
                    if anim.frames_left <= 1 {
                        board.despawn(i);
                        match ev {
                            Some(e) => {
                                events.push(e);
                            },
                            None => {},
                        }
                    } else {
                        let mut counted = a;
                        counted.kind = Kind::Animation(
                            Animation { frames_left: anim.frames_left - 1 },
                            ev,
                        );
                        board.update_actor(i, counted);
                    }
                },
                Kind::Gun { rotatable: Some(rot), .. } => {
                    if random_u32() < GUN_ROTATE_THRESHOLD {
                        let sd = match a.shooting {
                            Some(s) => s,
                            None => ShootingDir { dir: crate::components::IntVec2(0, 1) },
                        };
                        proof {
                            assert(board.actor_ok(i));
                        }
                        match rot {
                            Rotatable::Regular => {
                                let d = MovingDir(sd.dir).rotate_clockwise();
                                let mut aimed = a;
                                aimed.shooting = Some(ShootingDir { dir: d.0 });
                                board.update_actor(i, aimed);
                            },
                            Rotatable::Random => {
                                let idx = (random_u32() % 4) as usize;
                                let mut aimed = a;
                                aimed.shooting = Some(ShootingDir::by_index(idx));
                                board.update_actor(i, aimed);
                                proof {
                                    let ghost kw: int = idx as int;
                                    assert(board.actors@[i as int]->Some_0.shooting == Some(
                                        ShootingDir {
                                            dir: MovingDir::spec_by_index(kw as usize).0,
                                        },
                                    ));
                                }
                            },
                        }
                    }
                },
                _ => {},
            }
        }
        proof {
            assert(tick_outcome(*old(board), *board, i));
            assert forall|j: usize| j < i implies tick_outcome(*old(board), *board, j) by {
                assert(tick_outcome(*old(board), prev, j));
                assert(board.actors@[j as int] == prev.actors@[j as int]);
            }
        }
        i = i + 1;
    }
}

} // verus!
