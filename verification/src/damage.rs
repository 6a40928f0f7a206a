//! The damage ledger: a per-tick buffer of pending destruction, tagged with
//! whether the damage is bomb-sourced. Writes accumulate during movement
//! resolution; the flush at the end of the tick consumes the whole buffer
//! (and refills it one blast ring at a time to chain explosions).

use vstd::prelude::*;
use crate::components::Position;

verus! {

/// Pending destruction per cell. A cell lookup grid and the list of damaged
/// cells are kept exactly in sync; cells outside the level are never
/// recorded (damage there can destroy nothing and marks no ground).
pub struct DamageMap {
    pub width: i32,
    pub height: i32,
    /// `cells[y][x]` holds the pending flag (true = bomb-sourced damage).
    pub cells: Vec<Vec<Option<bool>>>,
    /// Every damaged cell, each exactly once, for the flush to walk.
    pub damaged: Vec<Position>,
}

impl DamageMap {
    pub open spec fn in_bounds(self, p: Position) -> bool {
        0 <= p.0.0 < self.width && 0 <= p.0.1 < self.height
    }

    /// The pending damage flag at `p`; `None` when `p` is clean or outside.
    pub open spec fn damage_at(self, p: Position) -> Option<bool> {
        if self.in_bounds(p) {
            self.cells@[p.0.1 as int]@[p.0.0 as int]
        } else {
            None
        }
    }

    pub open spec fn grid_wf(self) -> bool {
        &&& 0 < self.width <= 1024
        &&& 0 < self.height <= 1024
        &&& self.cells@.len() == self.height
        &&& forall|y: int| 0 <= y < self.height ==> (#[trigger] self.cells@[y])@.len() == self.width
    }

    /// The list and the grid agree: every listed cell is damaged, no cell is
    /// listed twice, and every damaged cell is listed.
    pub open spec fn wf(self) -> bool {
        &&& self.grid_wf()
        &&& forall|k: int|
            0 <= k < self.damaged@.len()
                ==> self.in_bounds(#[trigger] self.damaged@[k]) && self.damage_at(
                self.damaged@[k],
            ) is Some
        &&& forall|k: int, l: int|
            0 <= k < l < self.damaged@.len() ==> self.damaged@[k] != self.damaged@[l]
        &&& forall|p: Position|
            self.damage_at(p) is Some ==> exists|k: int|
                0 <= k < self.damaged@.len() && self.damaged@[k] == p
    }

    /// An empty ledger for a level of the given size.
    pub fn new(width: i32, height: i32) -> (d: DamageMap)
        requires
            0 < width <= 1024,
            0 < height <= 1024,
        ensures
            d.wf(),
            d.width == width,
            d.height == height,
            forall|p: Position| d.damage_at(p) is None,
            d.damaged@.len() == 0,
    {
        let mut cells: Vec<Vec<Option<bool>>> = Vec::new();
        let mut y: i32 = 0;
        while y < height
            invariant
                0 < width <= 1024,
                0 <= y <= height,
                cells@.len() == y,
                forall|r: int| 0 <= r < y ==> (#[trigger] cells@[r])@.len() == width,
                forall|r: int, c: int|
                    0 <= r < y && 0 <= c < width ==> (#[trigger] cells@[r]@[c]) is None,
            decreases height - y,
        {
            let mut row: Vec<Option<bool>> = Vec::new();
            let mut x: i32 = 0;
            while x < width
                invariant
                    0 < width <= 1024,
                    0 <= x <= width,
                    row@.len() == x,
                    forall|c: int| 0 <= c < x ==> (#[trigger] row@[c]) is None,
                decreases width - x,
            {
                row.push(None);
                x = x + 1;
            }
            cells.push(row);
            y = y + 1;
        }
        DamageMap { width, height, cells, damaged: Vec::new() }
    }

    /// Record pending damage at `p`, overwriting the flag if `p` is already
    /// damaged; outside the level this is a no-op.
    pub fn do_damage(&mut self, pos: &Position, is_bomb: bool)
        requires
            old(self).wf(),
        ensures
            final(self).wf(),
            final(self).width == old(self).width,
            final(self).height == old(self).height,
            old(self).in_bounds(*pos) ==> final(self).damage_at(*pos) == Some(is_bomb),
            !old(self).in_bounds(*pos) ==> *final(self) == *old(self),
            forall|q: Position| q != *pos ==> final(self).damage_at(q) == old(self).damage_at(q),
    {
        if pos.0.0 < 0 || pos.0.1 < 0 || pos.0.0 >= self.width || pos.0.1 >= self.height {
            return ;
        }
        let was_clean = self.cells[pos.0.1 as usize][pos.0.0 as usize].is_none();
        let row = &mut self.cells[pos.0.1 as usize];
        row.set(pos.0.0 as usize, Some(is_bomb));
        if was_clean {
            proof {
                assert(old(self).damage_at(*pos) is None);
                assert forall|k: int|
                    0 <= k < self.damaged@.len() implies self.damaged@[k] != *pos by {
                    assert(old(self).damage_at(old(self).damaged@[k]) is Some);
                }
            }
            self.damaged.push(*pos);
        }
        proof {
            assert forall|p: Position| self.damage_at(p) is Some implies exists|k: int|
                0 <= k < self.damaged@.len() && self.damaged@[k] == p by {
                if p == *pos && was_clean {
                    let k = self.damaged@.len() - 1;
                    assert(self.damaged@[k] == p);
                } else {
                    assert(old(self).damage_at(p) is Some);
                    let k = choose|k: int|
                        0 <= k < old(self).damaged@.len() && old(self).damaged@[k] == p;
                    assert(self.damaged@[k] == p);
                }
            }
        }
    }

    pub fn is_damaged(&self, pos: &Position) -> (r: bool)
        requires
            self.wf(),
        ensures
            r == (self.damage_at(*pos) is Some),
    {
        if pos.0.0 < 0 || pos.0.1 < 0 || pos.0.0 >= self.width || pos.0.1 >= self.height {
            false
        } else {
            self.cells[pos.0.1 as usize][pos.0.0 as usize].is_some()
        }
    }

    /// The pending flag at `p` without consuming it.
    pub fn get(&self, pos: &Position) -> (r: Option<bool>)
        requires
            self.wf(),
        ensures
            r == self.damage_at(*pos),
    {
        if pos.0.0 < 0 || pos.0.1 < 0 || pos.0.0 >= self.width || pos.0.1 >= self.height {
            None
        } else {
            self.cells[pos.0.1 as usize][pos.0.0 as usize]
        }
    }

    /// Hand the whole buffer to the flush and leave the ledger empty.
    pub fn take(&mut self) -> (d: DamageMap)
        requires
            old(self).wf(),
        ensures
            d == *old(self),
            final(self).wf(),
            final(self).width == old(self).width,
            final(self).height == old(self).height,
            forall|p: Position| final(self).damage_at(p) is None,
            final(self).damaged@.len() == 0,
    {
        let mut out = DamageMap::new(self.width, self.height);
        core::mem::swap(self, &mut out);
        out
    }
}

} // verus!
