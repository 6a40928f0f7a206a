//! The player's inventory: keys, screws and ammunition.

use vstd::prelude::*;
use crate::components::Collectable;
use crate::game_events::Sound;

verus! {

/// What the player has collected so far this level.
#[derive(Clone, Copy, PartialEq, Eq, Structural, Debug, Default)]
pub struct Inventory {
    pub keys: usize,
    pub screws: usize,
    pub bullets: usize,
}

/// The inventory after booking one picked-up item: a key or screw counts
/// one, an ammo crate nine rounds, saturating at the counters' end.
pub open spec fn spec_collect(inv: Inventory, item: Collectable) -> Inventory {
    match item {
        Collectable::Key => Inventory {
            keys: if inv.keys < usize::MAX {
                (inv.keys + 1) as usize
            } else {
                usize::MAX
            },
            ..inv
        },
        Collectable::Screw => Inventory {
            screws: if inv.screws < usize::MAX {
                (inv.screws + 1) as usize
            } else {
                usize::MAX
            },
            ..inv
        },
        Collectable::Ammo => Inventory {
            bullets: if inv.bullets <= usize::MAX - 9 {
                (inv.bullets + 9) as usize
            } else {
                inv.bullets
            },
            ..inv
        },
    }
}

/// The sound a pickup emits.
pub open spec fn spec_collect_sound(item: Collectable) -> Sound {
    match item {
        Collectable::Key => Sound::KEY,
        Collectable::Screw => Sound::SCREW,
        Collectable::Ammo => Sound::AMMO,
    }
}

impl Inventory {
    pub fn new() -> (r: Inventory)
        ensures
            r.keys == 0,
            r.screws == 0,
            r.bullets == 0,
    {
        Inventory { keys: 0, screws: 0, bullets: 0 }
    }

    /// Book a picked-up item: a key or screw counts one, an ammo crate nine
    /// rounds (saturating at the counters' end), and the matching pickup
    /// sound is emitted.
    pub fn collect(&mut self, item: Collectable, sounds: &mut Vec<Sound>)
        ensures
            *final(self) == spec_collect(*old(self), item),
            final(sounds)@ == old(sounds)@.push(spec_collect_sound(item)),
    {
        match item {
            Collectable::Key => {
                if self.keys < usize::MAX {
                    self.keys = self.keys + 1;
                }
                sounds.push(Sound::KEY);
            },
            Collectable::Screw => {
                if self.screws < usize::MAX {
                    self.screws = self.screws + 1;
                }
                sounds.push(Sound::SCREW);
            },
            Collectable::Ammo => {
                if self.bullets <= usize::MAX - 9 {
                    self.bullets = self.bullets + 9;
                }
                sounds.push(Sound::AMMO);
            },
        }
    }
}

} // verus!
