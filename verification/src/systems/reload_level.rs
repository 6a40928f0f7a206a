//! The missing-player escalation: after ten consecutive keyframes without
//! a player the whole board detonates; after twenty a level reload is
//! requested from the surrounding collaborator.

use vstd::prelude::*;
use crate::board::Board;
use crate::board::find_robbo;
use crate::board::spec_first_robbo_from;
use crate::entities::create_small_explosion;
use crate::game_events::GameEvent;
use crate::game_events::Sound;
use crate::levels::LevelInfo;

verus! {

/// Keyframes without a player before the board detonates.
pub const DETONATE_TICKS: usize = 10;

/// Keyframes without a player before a reload is requested.
pub const RELOAD_TICKS: usize = 20;

/// The exact relation of the escalation pass: the counter resets while a
/// player is on the board; otherwise it steps, the board detonates at the
/// detonation mark, and a reload request is queued at the reload mark.
pub open spec fn spec_reload_rel(
    b0: Board,
    b1: Board,
    li0: LevelInfo,
    li1: LevelInfo,
    ev0: Seq<GameEvent>,
    ev1: Seq<GameEvent>,
) -> bool {
    &&& b1.wf()
    &&& b1.width == b0.width
    &&& b1.height == b0.height
    &&& b1.walls@ == b0.walls@
    &&& li1.current_level == li0.current_level
    &&& li1.screws == li0.screws
    &&& if spec_first_robbo_from(b0, 0) is Some {
        &&& li1.missing_robbo_ticks == 0
        &&& b1.actors@ == b0.actors@
        &&& ev1 == ev0
    } else {
        let ticks = if li0.missing_robbo_ticks < usize::MAX {
            (li0.missing_robbo_ticks + 1) as usize
        } else {
            usize::MAX
        };
        &&& li1.missing_robbo_ticks == ticks
        &&& if ticks == DETONATE_TICKS {
            forall|j: usize| j < b0.actors@.len() ==> (#[trigger] b1.actors@[j as int]) is None
        } else {
            b1.actors@ == b0.actors@
        }
        &&& if ticks == RELOAD_TICKS {
            ev1 == ev0.push(GameEvent::ReloadLevel(0))
        } else {
            ev1 == ev0
        }
    }
}

/// Count keyframes without a player. The counter resets while the player
/// is on the board; at the detonation mark every actor is blown up in
/// place; at the reload mark a reload request is queued.
pub fn reload_level(
    board: &mut Board,
    level_info: &mut LevelInfo,
    events: &mut Vec<GameEvent>,
    sounds: &mut Vec<Sound>,
)
    requires
        old(board).wf(),
    ensures
        final(board).wf(),
        final(board).width == old(board).width,
        final(board).height == old(board).height,
        final(board).walls@ == old(board).walls@,
        spec_reload_rel(
            *old(board),
            *final(board),
            *old(level_info),
            *final(level_info),
            old(events)@,
            final(events)@,
        ),
{
    match find_robbo(board) {
        Some(_) => {
            level_info.missing_robbo_ticks = 0;
            return ;
        },
        None => {},
    }
    if level_info.missing_robbo_ticks < usize::MAX {
        level_info.missing_robbo_ticks = level_info.missing_robbo_ticks + 1;
    }
    if level_info.missing_robbo_ticks == DETONATE_TICKS {
        let n = board.actors.len();
        let mut i: usize = 0;
        while i < n
            invariant
                board.wf(),
                n == old(board).actors@.len(),
                n <= board.actors@.len(),
                board.width == old(board).width,
                board.height == old(board).height,
                board.walls@ == old(board).walls@,
                i <= n,
                forall|j: usize| j < i ==> (#[trigger] board.actors@[j as int]) is None,
            decreases n - i,
        {
            let slot_live = board.actors[i].is_some();
            if slot_live {
                proof {
                    assert(board.actor_ok(i));
                }
                let pos = board.actor_at(i).pos;
                board.despawn(i);
                board.spawn(create_small_explosion(pos));
                sounds.push(Sound::BOMB);
            }
            i = i + 1;
        }
    } else if level_info.missing_robbo_ticks == RELOAD_TICKS {
        events.push(GameEvent::ReloadLevel(0));
    }
}

} // verus!
