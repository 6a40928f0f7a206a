//! Capsule activation: once the player has collected the level's screws,
//! every capsule is repaired — it stops being pushable and becomes usable
//! as the level exit.

use vstd::prelude::*;
use crate::board::Actor;
use crate::board::Board;
use crate::board::Kind;
use crate::components::Usable;
use crate::game_events::Sound;
use crate::inventory::Inventory;
use crate::levels::LevelInfo;

verus! {

/// What capsule activation does to arena slot `j` when the screw quota is
/// met: an unrepaired capsule becomes usable and immovable; every other
/// slot is untouched.
pub open spec fn capsule_outcome(pre: Board, post: Board, armed: bool, j: usize) -> bool {
    match pre.actors@[j as int] {
        Some(a) => {
            if a.kind is Capsule && a.usable is None && armed {
                post.actors@[j as int] == Some(
                    Actor { usable: Some(Usable::Capsule), moveable: false, ..a },
                )
            } else {
                post.actors@[j as int] == Some(a)
            }
        },
        None => post.actors@[j as int] is None,
    }
}

/// Repair every capsule once the collected screws reach the level's count
/// (with the activation sound per capsule).
pub fn activate_capsule_system(
    board: &mut Board,
    inventory: &Inventory,
    level_info: &LevelInfo,
    sounds: &mut Vec<Sound>,
)
    requires
        old(board).wf(),
    ensures
        final(board).wf(),
        final(board).width == old(board).width,
        final(board).height == old(board).height,
        final(board).walls@ == old(board).walls@,
        final(board).actors@.len() == old(board).actors@.len(),
        forall|j: usize|
            #![trigger final(board).actors@[j as int]]
            j < old(board).actors@.len() ==> capsule_outcome(
                *old(board),
                *final(board),
                inventory.screws >= level_info.screws,
                j,
            ),
{
    let armed = inventory.screws >= level_info.screws;
    let n = board.actors.len();
    let mut i: usize = 0;
    while i < n
        invariant
            board.wf(),
            n == board.actors@.len(),
            n == old(board).actors@.len(),
            board.width == old(board).width,
            board.height == old(board).height,
            board.walls@ == old(board).walls@,
            i <= n,
            armed == (inventory.screws >= level_info.screws),
            forall|j: usize| i <= j < n ==> board.actors@[j as int] == old(board).actors@[j as int],
            forall|j: usize| j < i ==> capsule_outcome(*old(board), *board, armed, j),
        decreases n - i,
    {
        let ghost prev = *board;
        let slot_live = board.actors[i].is_some();
        if slot_live {
            let a = board.actor_at(i);
            proof {
                assert(board.actor_ok(i));
            }
            if matches!(a.kind, Kind::Capsule(_)) && a.usable.is_none() && armed {
                let mut repaired = a;
                repaired.usable = Some(Usable::Capsule);
                repaired.moveable = false;
                board.update_actor(i, repaired);
                sounds.push(Sound::BOMB);
            }
        }
        proof {
            assert(capsule_outcome(*old(board), *board, armed, i));
            assert forall|j: usize| j < i implies capsule_outcome(*old(board), *board, armed, j) by {
                assert(capsule_outcome(*old(board), prev, armed, j));
                assert(board.actors@[j as int] == prev.actors@[j as int]);
            }
        }
        i = i + 1;
    }
}

} // verus!
