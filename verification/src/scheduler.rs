//! The tick scheduler: the fixed, order-sensitive pipeline every keyframe
//! runs, and the frame gate around it. Later resolvers observe the board
//! state the earlier ones left within the same tick, so this order is a
//! documented constant of the engine, not an accident of call sites.

use vstd::prelude::*;
use crate::board::Board;
use crate::damage::DamageMap;
use crate::frame_cnt::FrameCnt;
use crate::game_events::GameEvent;
use crate::game_events::Sound;
use crate::inventory::Inventory;
use crate::levels::LevelInfo;
use crate::systems::activate_capsule::activate_capsule_system;
use crate::systems::bears::move_bear;
use crate::systems::birds::move_bird;
use crate::systems::blasters::move_blaster_head;
use crate::systems::bullets::move_bullet;
use crate::systems::damage::damage_system;
use crate::systems::damage::process_damage;
use crate::systems::eyes::eyes_system;
use crate::systems::force_field::force_field_system;
use crate::systems::game_events::game_event_system;
use crate::systems::lasers::move_laser_head;
use crate::systems::magnetic_field::magnetic_field_system;
use crate::systems::push_boxes::move_pushbox;
use crate::systems::reload_level::reload_level;
use crate::systems::robbo_move::move_robbo;
use crate::systems::shots::shot_system;
use crate::systems::ticks::tick_system;
use crate::systems::activate_capsule::capsule_outcome;
use crate::systems::bears::spec_bears_pass;
use crate::systems::birds::spec_birds_pass;
use crate::systems::blasters::spec_blasters_pass;
use crate::systems::bullets::spec_bullets_pass;
use crate::systems::damage::damage_outcome;
use crate::systems::damage::spec_bomb_source;
use crate::systems::damage::spec_damage_pass;
use crate::systems::damage::spec_deadly_rel;
use crate::systems::damage::spec_markers_pass;
use crate::systems::eyes::spec_eyes_pass;
use crate::systems::force_field::spec_ff_pass;
use crate::systems::game_events::spec_events_pass;
use crate::systems::lasers::spec_lasers_pass;
use crate::systems::magnetic_field::spec_magnetic_rel;
use crate::systems::push_boxes::spec_boxes_pass;
use crate::systems::reload_level::spec_reload_rel;
use crate::systems::robbo_move::spec_move_robbo_rel;
use crate::systems::shots::spec_shots_pass;
use crate::systems::ticks::tick_outcome;
use crate::components::Position;

verus! {

/// The whole simulation state one keyframe acts on, as one bundle for the
/// pipeline's stage chain.
pub ghost struct TickState {
    pub board: Board,
    pub damage_map: DamageMap,
    pub level_info: LevelInfo,
    pub inventory: Inventory,
    pub events: Seq<GameEvent>,
    pub sounds: Seq<Sound>,
}

/// The exact effect of pipeline stage `n` (in the engine's fixed order)
/// on the simulation state, each bound to its resolver's pass or relation;
/// components a stage cannot touch are unchanged. Sounds are left open for
/// the stages that only append to the stream (escalation, damage flush,
/// capsule activation).
pub open spec fn spec_stage(n: int, s0: TickState, s1: TickState) -> bool {
    let len0 = s0.board.actors@.len() as int;
    if n == 0 {
        &&& spec_magnetic_rel(s0.board, s1.board)
        &&& s1.damage_map == s0.damage_map
        &&& s1.level_info == s0.level_info
        &&& s1.inventory == s0.inventory
        &&& s1.events == s0.events
        &&& s1.sounds == s0.sounds
    } else if n == 1 {
        &&& spec_lasers_pass(s0.board, s1.board, s0.damage_map, s1.damage_map, len0)
        &&& s1.board.wf()
        &&& s1.damage_map.wf()
        &&& s1.level_info == s0.level_info
        &&& s1.inventory == s0.inventory
        &&& s1.events == s0.events
        &&& s1.sounds == s0.sounds
    } else if n == 2 {
        &&& spec_bears_pass(s0.board, s1.board, s0.damage_map, len0)
        &&& s1.board.wf()
        &&& s1.damage_map == s0.damage_map
        &&& s1.level_info == s0.level_info
        &&& s1.inventory == s0.inventory
        &&& s1.events == s0.events
        &&& s1.sounds == s0.sounds
    } else if n == 3 {
        &&& spec_birds_pass(s0.board, s1.board, s0.damage_map, len0)
        &&& s1.board.wf()
        &&& s1.damage_map == s0.damage_map
        &&& s1.level_info == s0.level_info
        &&& s1.inventory == s0.inventory
        &&& s1.events == s0.events
        &&& s1.sounds == s0.sounds
    } else if n == 4 {
        &&& spec_boxes_pass(s0.board, s1.board, s0.damage_map, s1.damage_map, len0)
        &&& s1.board.wf()
        &&& s1.damage_map.wf()
        &&& s1.level_info == s0.level_info
        &&& s1.inventory == s0.inventory
        &&& s1.events == s0.events
        &&& s1.sounds == s0.sounds
    } else if n == 5 {
        &&& spec_bullets_pass(s0.board, s1.board, s0.damage_map, s1.damage_map, len0)
        &&& s1.board.wf()
        &&& s1.damage_map.wf()
        &&& s1.level_info == s0.level_info
        &&& s1.inventory == s0.inventory
        &&& s1.events == s0.events
        &&& s1.sounds == s0.sounds
    } else if n == 6 {
        &&& spec_blasters_pass(s0.board, s1.board, len0)
        &&& s1.board.wf()
        &&& s1.damage_map == s0.damage_map
        &&& s1.level_info == s0.level_info
        &&& s1.inventory == s0.inventory
        &&& s1.events == s0.events
        &&& s1.sounds == s0.sounds
    } else if n == 7 {
        &&& match crate::board::spec_first_robbo_from(s0.board, 0) {
            Some(r) => spec_eyes_pass(s0.board, s1.board, s0.board.actor(r).pos, len0),
            None => s1.board.actors@ == s0.board.actors@,
        }
        &&& s1.board.wf()
        &&& s1.board.width == s0.board.width
        &&& s1.board.height == s0.board.height
        &&& s1.board.walls@ == s0.board.walls@
        &&& s1.damage_map == s0.damage_map
        &&& s1.level_info == s0.level_info
        &&& s1.inventory == s0.inventory
        &&& s1.events == s0.events
        &&& s1.sounds == s0.sounds
    } else if n == 8 {
        &&& exists|m_init: Seq<bool>, m_post: Seq<bool>|
            #![trigger spec_ff_pass(s0.board, s1.board, s0.damage_map, s1.damage_map, m_init, m_post, s0.board.width as int)]
            {
                &&& m_init.len() == s0.board.actors@.len()
                &&& (forall|t: int| 0 <= t < m_init.len() ==> !m_init[t])
                &&& spec_ff_pass(
                    s0.board,
                    s1.board,
                    s0.damage_map,
                    s1.damage_map,
                    m_init,
                    m_post,
                    s0.board.width as int,
                )
            }
        &&& s1.board.wf()
        &&& s1.damage_map.wf()
        &&& s1.level_info == s0.level_info
        &&& s1.inventory == s0.inventory
        &&& s1.events == s0.events
        &&& s1.sounds == s0.sounds
    } else if n == 9 {
        &&& spec_move_robbo_rel(
            s0.board,
            s1.board,
            s0.inventory,
            s1.inventory,
            s0.events,
            s1.events,
            s0.sounds,
            s1.sounds,
        )
        &&& s1.damage_map == s0.damage_map
        &&& s1.level_info == s0.level_info
    } else if n == 10 {
        &&& spec_reload_rel(
            s0.board,
            s1.board,
            s0.level_info,
            s1.level_info,
            s0.events,
            s1.events,
        )
        &&& s1.damage_map == s0.damage_map
        &&& s1.inventory == s0.inventory
    } else if n == 11 {
        &&& spec_shots_pass(
            s0.board,
            s1.board,
            s0.damage_map,
            s1.damage_map,
            s0.sounds,
            s1.sounds,
            len0,
        )
        &&& s1.board.wf()
        &&& s1.damage_map.wf()
        &&& s1.level_info == s0.level_info
        &&& s1.inventory == s0.inventory
        &&& s1.events == s0.events
    } else if n == 12 {
        &&& (forall|j: usize|
            j < s0.board.actors@.len() ==> damage_outcome(s0.board, s1.board, s0.damage_map, j))
        &&& (forall|q: Position|
            s1.damage_map.damage_at(q) == if exists|i: usize|
                i < s0.board.actors@.len() && spec_bomb_source(s0.board, s0.damage_map, i, q)
                    && s0.damage_map.in_bounds(q) {
                Some(true)
            } else {
                None::<bool>
            })
        &&& exists|mid_board: Board, dm_empty: DamageMap|
            #![trigger spec_damage_pass(s0.board, mid_board, s0.damage_map, dm_empty, s1.damage_map, s0.board.actors@.len() as int), spec_markers_pass(s0.damage_map, mid_board, s1.board, s0.damage_map.damaged@.len() as int)]
            {
                &&& dm_empty.wf()
                &&& dm_empty.width == s0.damage_map.width
                &&& dm_empty.height == s0.damage_map.height
                &&& (forall|q: Position| dm_empty.damage_at(q) is None)
                &&& spec_damage_pass(
                    s0.board,
                    mid_board,
                    s0.damage_map,
                    dm_empty,
                    s1.damage_map,
                    s0.board.actors@.len() as int,
                )
                &&& spec_markers_pass(
                    s0.damage_map,
                    mid_board,
                    s1.board,
                    s0.damage_map.damaged@.len() as int,
                )
            }
        &&& s1.board.wf()
        &&& s1.damage_map.wf()
        &&& s1.level_info == s0.level_info
        &&& s1.inventory == s0.inventory
        &&& s1.events == s0.events
    } else if n == 13 {
        &&& spec_events_pass(
            s0.events,
            s0.board,
            s1.board,
            s0.damage_map,
            s1.damage_map,
            s0.inventory,
            s1.inventory,
            Seq::empty(),
            s1.events,
            s0.sounds,
            s1.sounds,
            s0.events.len() as int,
        )
        &&& (forall|t: int| 0 <= t < s1.events.len() ==> (#[trigger] s1.events[t]) is ReloadLevel)
        &&& s1.board.wf()
        &&& s1.damage_map.wf()
        &&& s1.level_info == s0.level_info
    } else if n == 14 {
        &&& (forall|j: usize|
            #![trigger s1.board.actors@[j as int]]
            j < s0.board.actors@.len() ==> capsule_outcome(
                s0.board,
                s1.board,
                s0.inventory.screws >= s0.level_info.screws,
                j,
            ))
        &&& s1.board.wf()
        &&& s1.board.width == s0.board.width
        &&& s1.board.height == s0.board.height
        &&& s1.board.walls@ == s0.board.walls@
        &&& s1.board.actors@.len() == s0.board.actors@.len()
        &&& s1.damage_map == s0.damage_map
        &&& s1.level_info == s0.level_info
        &&& s1.inventory == s0.inventory
        &&& s1.events == s0.events
    } else if n == 15 {
        &&& (forall|j: usize| j < s0.board.actors@.len() ==> tick_outcome(s0.board, s1.board, j))
        &&& s1.board.wf()
        &&& s1.board.width == s0.board.width
        &&& s1.board.height == s0.board.height
        &&& s1.board.walls@ == s0.board.walls@
        &&& s1.board.actors@.len() == s0.board.actors@.len()
        &&& s1.events.len() >= s0.events.len()
        &&& (forall|t: int| 0 <= t < s0.events.len() ==> s1.events[t] == s0.events[t])
        &&& s1.damage_map == s0.damage_map
        &&& s1.level_info == s0.level_info
        &&& s1.inventory == s0.inventory
        &&& s1.sounds == s0.sounds
    } else if n == 16 {
        &&& spec_deadly_rel(s0.board, s1.board, s0.sounds, s1.sounds)
        &&& s1.damage_map == s0.damage_map
        &&& s1.level_info == s0.level_info
        &&& s1.inventory == s0.inventory
        &&& s1.events == s0.events
    } else {
        s1 == s0
    }
}

/// One snapshot of the pipeline state, for the stage chain.
pub open spec fn snap(
    b: Board,
    dm: DamageMap,
    li: LevelInfo,
    inv: Inventory,
    ev: Seq<GameEvent>,
    snd: Seq<Sound>,
) -> TickState {
    TickState { board: b, damage_map: dm, level_info: li, inventory: inv, events: ev, sounds: snd }
}

/// The pipeline as a chain of its stages `0..k`: a keyframe's end state is
/// related to its start state by every stage's exact effect, in order.
pub open spec fn spec_pipeline(s0: TickState, s1: TickState, k: int) -> bool
    decreases k,
{
    if k <= 0 {
        s1 == s0
    } else {
        exists|m: TickState|
            #![trigger spec_stage(k - 1, m, s1)]
            spec_pipeline(s0, m, k - 1) && spec_stage(k - 1, m, s1)
    }
}

/// Extending a stage chain by its next stage.
proof fn lemma_pipeline_step(s0: TickState, m: TickState, s1: TickState, k: int)
    requires
        k >= 1,
        spec_pipeline(s0, m, k - 1),
        spec_stage(k - 1, m, s1),
    ensures
        spec_pipeline(s0, s1, k),
{
}

/// One keyframe of the simulation, in the engine's fixed order:
/// magnetic pull on the player, then the movement resolvers (lasers,
/// bears, birds, push-boxes, bullets, blaster heads, eyes chasers, force
/// fields), the player's move, the missing-player escalation, shooting,
/// the damage flush, the queued game events, capsule activation, the
/// animation/gun bookkeeping, and the deadly-contact check.
pub fn keyframe_tick(
    board: &mut Board,
    damage_map: &mut DamageMap,
    level_info: &mut LevelInfo,
    inventory: &mut Inventory,
    events: &mut Vec<GameEvent>,
    sounds: &mut Vec<Sound>,
)
    requires
        old(board).wf(),
        old(damage_map).wf(),
        old(damage_map).width == old(board).width,
        old(damage_map).height == old(board).height,
    ensures
        final(board).wf(),
        final(damage_map).wf(),
        final(board).width == old(board).width,
        final(board).height == old(board).height,
        final(board).walls@ == old(board).walls@,
        final(damage_map).width == old(damage_map).width,
        final(damage_map).height == old(damage_map).height,
        spec_pipeline(
            TickState {
                board: *old(board),
                damage_map: *old(damage_map),
                level_info: *old(level_info),
                inventory: *old(inventory),
                events: old(events)@,
                sounds: old(sounds)@,
            },
            TickState {
                board: *final(board),
                damage_map: *final(damage_map),
                level_info: *final(level_info),
                inventory: *final(inventory),
                events: final(events)@,
                sounds: final(sounds)@,
            },
            17,
        ),
{
    let ghost st0 = snap(*board, *damage_map, *level_info, *inventory, events@, sounds@);
    magnetic_field_system(board);
    let ghost st1 = snap(*board, *damage_map, *level_info, *inventory, events@, sounds@);
    proof {
        assert(spec_pipeline(st0, st0, 0));
        assert(spec_stage(0, st0, st1));
        lemma_pipeline_step(st0, st0, st1, 1);
    }
    move_laser_head(board, damage_map);
    let ghost st2 = snap(*board, *damage_map, *level_info, *inventory, events@, sounds@);
    proof {
        assert(spec_stage(1, st1, st2));
        lemma_pipeline_step(st0, st1, st2, 2);
    }
    move_bear(board, damage_map);
    let ghost st3 = snap(*board, *damage_map, *level_info, *inventory, events@, sounds@);
    proof {
        assert(spec_stage(2, st2, st3));
        lemma_pipeline_step(st0, st2, st3, 3);
    }
    move_bird(board, damage_map);
    let ghost st4 = snap(*board, *damage_map, *level_info, *inventory, events@, sounds@);
    proof {
        assert(spec_stage(3, st3, st4));
        lemma_pipeline_step(st0, st3, st4, 4);
    }
    move_pushbox(board, damage_map);
    let ghost st5 = snap(*board, *damage_map, *level_info, *inventory, events@, sounds@);
    proof {
        assert(spec_stage(4, st4, st5));
        lemma_pipeline_step(st0, st4, st5, 5);
    }
    move_bullet(board, damage_map);
    let ghost st6 = snap(*board, *damage_map, *level_info, *inventory, events@, sounds@);
    proof {
        assert(spec_stage(5, st5, st6));
        lemma_pipeline_step(st0, st5, st6, 6);
    }
    move_blaster_head(board);
    let ghost st7 = snap(*board, *damage_map, *level_info, *inventory, events@, sounds@);
    proof {
        assert(spec_stage(6, st6, st7));
        lemma_pipeline_step(st0, st6, st7, 7);
    }
    eyes_system(board);
    let ghost st8 = snap(*board, *damage_map, *level_info, *inventory, events@, sounds@);
    proof {
        assert(spec_stage(7, st7, st8));
        lemma_pipeline_step(st0, st7, st8, 8);
    }
    force_field_system(board, damage_map);
    let ghost st9 = snap(*board, *damage_map, *level_info, *inventory, events@, sounds@);
    proof {
        assert(spec_stage(8, st8, st9));
        lemma_pipeline_step(st0, st8, st9, 9);
    }
    move_robbo(board, inventory, events, sounds);
    let ghost st10 = snap(*board, *damage_map, *level_info, *inventory, events@, sounds@);
    proof {
        assert(spec_stage(9, st9, st10));
        lemma_pipeline_step(st0, st9, st10, 10);
    }
    reload_level(board, level_info, events, sounds);
    let ghost st11 = snap(*board, *damage_map, *level_info, *inventory, events@, sounds@);
    proof {
        assert(spec_stage(10, st10, st11));
        lemma_pipeline_step(st0, st10, st11, 11);
    }
    shot_system(board, damage_map, sounds);
    let ghost st12 = snap(*board, *damage_map, *level_info, *inventory, events@, sounds@);
    proof {
        assert(spec_stage(11, st11, st12));
        lemma_pipeline_step(st0, st11, st12, 12);
    }
    process_damage(board, damage_map, sounds);
    let ghost st13 = snap(*board, *damage_map, *level_info, *inventory, events@, sounds@);
    proof {
        assert(spec_stage(12, st12, st13));
        lemma_pipeline_step(st0, st12, st13, 13);
    }
    game_event_system(board, damage_map, inventory, events, sounds);
    let ghost st14 = snap(*board, *damage_map, *level_info, *inventory, events@, sounds@);
    proof {
        assert(spec_stage(13, st13, st14));
        lemma_pipeline_step(st0, st13, st14, 14);
    }
    activate_capsule_system(board, inventory, level_info, sounds);
    let ghost st15 = snap(*board, *damage_map, *level_info, *inventory, events@, sounds@);
    proof {
        assert(spec_stage(14, st14, st15));
        lemma_pipeline_step(st0, st14, st15, 15);
    }
    tick_system(board, events);
    let ghost st16 = snap(*board, *damage_map, *level_info, *inventory, events@, sounds@);
    proof {
        assert(spec_stage(15, st15, st16));
        lemma_pipeline_step(st0, st15, st16, 16);
    }
    damage_system(board, sounds);
    let ghost st17 = snap(*board, *damage_map, *level_info, *inventory, events@, sounds@);
    proof {
        assert(spec_stage(16, st16, st17));
        lemma_pipeline_step(st0, st16, st17, 17);
    }
}

/// One rendering frame: the simulation advances only on keyframe
/// boundaries, then the frame counter ticks.
pub fn frame(
    board: &mut Board,
    damage_map: &mut DamageMap,
    level_info: &mut LevelInfo,
    inventory: &mut Inventory,
    events: &mut Vec<GameEvent>,
    sounds: &mut Vec<Sound>,
    frame_cnt: &mut FrameCnt,
)
    requires
        old(board).wf(),
        old(damage_map).wf(),
        old(damage_map).width == old(board).width,
        old(damage_map).height == old(board).height,
        old(frame_cnt).interval > 0,
    ensures
        final(board).wf(),
        final(damage_map).wf(),
        final(board).width == old(board).width,
        final(board).height == old(board).height,
        final(board).walls@ == old(board).walls@,
        final(damage_map).width == old(damage_map).width,
        final(damage_map).height == old(damage_map).height,
        final(frame_cnt).interval == old(frame_cnt).interval,
        final(frame_cnt).frame == if old(frame_cnt).frame == usize::MAX {
            0usize
        } else {
            (old(frame_cnt).frame + 1) as usize
        },
        !old(frame_cnt).spec_is_keyframe() ==> {
            &&& *final(board) == *old(board)
            &&& *final(damage_map) == *old(damage_map)
            &&& *final(level_info) == *old(level_info)
            &&& *final(inventory) == *old(inventory)
            &&& final(events)@ == old(events)@
            &&& final(sounds)@ == old(sounds)@
        },
{
    if frame_cnt.is_keyframe() {
        keyframe_tick(board, damage_map, level_info, inventory, events, sounds);
    }
    frame_cnt.tick();
}

} // verus!
