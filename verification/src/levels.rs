//! Level state and board construction from character-coded level data.
//!
//! The simulation consumes a finite grid of terrain characters plus a side
//! table of per-cell parameters (gun, teleport, bear, magnet and
//! force-field settings); parsing level files is the loading collaborator's
//! job.

use vstd::prelude::*;
use crate::board::Board;
use crate::components::MovingDir;
use crate::components::Position;
use crate::entities::create_ammo;
use crate::entities::create_bear;
use crate::entities::create_bird;
use crate::entities::create_black_bear;
use crate::entities::create_bomb;
use crate::entities::create_capsule;
use crate::entities::create_door;
use crate::entities::create_eyes;
use crate::entities::create_forcefield;
use crate::entities::create_gun;
use crate::entities::create_key;
use crate::entities::create_magnet;
use crate::entities::create_push_box;
use crate::entities::create_questionmark;
use crate::entities::create_screw;
use crate::entities::create_static_box;
use crate::entities::create_teleport;
use crate::entities::spawn_robbo;
use crate::components::GunType;
use crate::components::Rotatable;

verus! {

/// Per-level progress the simulation tracks beside the board.
#[derive(Clone, Copy, PartialEq, Eq, Structural, Debug)]
pub struct LevelInfo {
    /// Index of the current level in its set.
    pub current_level: usize,
    /// Screws the player must collect to arm the capsule.
    pub screws: usize,
    /// Consecutive keyframes without a player on the board.
    pub missing_robbo_ticks: usize,
}

impl LevelInfo {
    pub fn new() -> (r: LevelInfo)
        ensures
            r.current_level == 0,
            r.screws == 0,
            r.missing_robbo_ticks == 0,
    {
        LevelInfo { current_level: 0, screws: 0, missing_robbo_ticks: 0 }
    }

    /// Step the level index by `k`, wrapping around the set of
    /// `level_count` levels.
    pub fn inc_current_level(&mut self, k: i32, level_count: usize)
        requires
            0 < level_count,
            old(self).current_level < level_count,
            i32::MIN < k,
            -(old(self).current_level as int + level_count as int) <= k,
            old(self).current_level + level_count <= usize::MAX,
            old(self).current_level + level_count + k <= usize::MAX,
        ensures
            final(self).current_level == (old(self).current_level + level_count + k) % (
            level_count as int),
            final(self).screws == old(self).screws,
            final(self).missing_robbo_ticks == old(self).missing_robbo_ticks,
    {
        let base = self.current_level + level_count;
        let stepped = if k >= 0 {
            base + (k as usize)
        } else {
            base - ((-k) as usize)
        };
        self.current_level = stepped % level_count;
    }
}

/// The terrain characters of the level format, as byte values.
pub const CH_GROUND: u8 = 72;  // 'H'
pub const CH_ROBBO: u8 = 82;  // 'R'
pub const CH_DOOR: u8 = 68;  // 'D'
pub const CH_STATIC_BOX: u8 = 35;  // '#'
pub const CH_PUSH_BOX: u8 = 126;  // '~'
pub const CH_GUN: u8 = 125;  // '}'
pub const CH_TELEPORT: u8 = 38;  // '&'
pub const CH_BIRD: u8 = 94;  // '^'
pub const CH_BEAR: u8 = 64;  // '@'
pub const CH_BLACK_BEAR: u8 = 42;  // '*'
pub const CH_EYES: u8 = 86;  // 'V'
pub const CH_AMMO: u8 = 39;  // '\''
pub const CH_SCREW: u8 = 84;  // 'T'
pub const CH_KEY: u8 = 37;  // '%'
pub const CH_CAPSULE: u8 = 33;  // '!'
pub const CH_BOMB: u8 = 98;  // 'b'
pub const CH_QUESTIONMARK: u8 = 63;  // '?'
pub const CH_FORCEFIELD: u8 = 61;  // '='
pub const CH_MAGNET: u8 = 77;  // 'M'

/// Whether a terrain character codes a wall tile.
pub open spec fn spec_is_wall_char(c: u8) -> bool {
    c == 79 || c == 111 || c == 45 || c == 81 || c == 113 || c == 112 || c == 80 || c == 115
        || c == 83
}

fn is_wall_char(c: u8) -> (r: bool)
    ensures
        r == spec_is_wall_char(c),
{
    c == 79 || c == 111 || c == 45 || c == 81 || c == 113 || c == 112 || c == 80 || c == 115 || c
        == 83
}

/// Look up the side table entry for a cell.
fn additional_for(additional: &Vec<(i32, i32, Vec<usize>)>, x: i32, y: i32) -> (r: Option<
    Vec<usize>>)
{
    let n = additional.len();
    let mut k: usize = 0;
    while k < n
        invariant
            k <= n,
            n == additional@.len(),
        decreases n - k,
    {
        let entry = &additional[k];
        if entry.0 == x && entry.1 == y {
            return Some(entry.2.clone());
        }
        k = k + 1;
    }
    None
}

/// A `usize` parameter list entry, defaulting to zero when absent.
fn param(params: &Option<Vec<usize>>, idx: usize) -> (r: usize) {
    match params {
        Some(v) => {
            if idx < v.len() {
                v[idx]
            } else {
                0
            }
        },
        None => 0,
    }
}

/// The exact actor a non-wall terrain character spawns, where the side
/// parameters play no part; characters whose payload depends on the side
/// table (guns, teleports, bears, magnets, force fields, the player's
/// spawn flash) are pinned to their kind class.
pub open spec fn spec_char_spawns(c: u8, k: crate::board::Kind) -> bool {
    if c == CH_GROUND {
        k == crate::board::Kind::Ground
    } else if c == CH_ROBBO {
        k is Animation
    } else if c == CH_DOOR {
        k == crate::board::Kind::Door
    } else if c == CH_STATIC_BOX {
        k == crate::board::Kind::StaticBox
    } else if c == CH_PUSH_BOX {
        k == crate::board::Kind::PushBox(crate::components::PushBox)
    } else if c == CH_GUN {
        k is Gun
    } else if c == CH_TELEPORT {
        k is Teleport
    } else if c == CH_BIRD {
        k == crate::board::Kind::Bird(crate::components::Bird)
    } else if c == CH_BEAR || c == CH_BLACK_BEAR {
        k is Bear
    } else if c == CH_EYES {
        k == crate::board::Kind::Eyes
    } else if c == CH_AMMO {
        k == crate::board::Kind::Collectable(crate::components::Collectable::Ammo)
    } else if c == CH_SCREW {
        k == crate::board::Kind::Collectable(crate::components::Collectable::Screw)
    } else if c == CH_KEY {
        k == crate::board::Kind::Collectable(crate::components::Collectable::Key)
    } else if c == CH_CAPSULE {
        k == crate::board::Kind::Capsule(crate::components::Capsule)
    } else if c == CH_BOMB {
        k == crate::board::Kind::Bomb(crate::components::Bomb(false))
    } else if c == CH_QUESTIONMARK {
        k == crate::board::Kind::QuestionMark
    } else if c == CH_FORCEFIELD {
        k is ForceField
    } else if c == CH_MAGNET {
        k is Magnet
    } else {
        false
    }
}

/// Whether a terrain character spawns any actor at all.
pub open spec fn spec_is_spawn_char(c: u8) -> bool {
    c == CH_GROUND || c == CH_ROBBO || c == CH_DOOR || c == CH_STATIC_BOX || c == CH_PUSH_BOX || c
        == CH_GUN || c == CH_TELEPORT || c == CH_BIRD || c == CH_BEAR || c == CH_BLACK_BEAR || c
        == CH_EYES || c == CH_AMMO || c == CH_SCREW || c == CH_KEY || c == CH_CAPSULE || c
        == CH_BOMB || c == CH_QUESTIONMARK || c == CH_FORCEFIELD || c == CH_MAGNET
}

/// Screw characters in column `x` among rows `0..yk`.
pub open spec fn spec_screws_in_col(rows: Seq<Vec<u8>>, x: int, yk: int) -> int
    decreases yk,
{
    if yk <= 0 {
        0
    } else {
        spec_screws_in_col(rows, x, yk - 1) + if rows[yk - 1]@[x] == CH_SCREW {
            1int
        } else {
            0int
        }
    }
}

/// Screw characters in columns `0..xk` over `height` rows.
pub open spec fn spec_screw_count(rows: Seq<Vec<u8>>, height: int, xk: int) -> int
    decreases xk,
{
    if xk <= 0 {
        0
    } else {
        spec_screw_count(rows, height, xk - 1) + spec_screws_in_col(rows, xk - 1, height)
    }
}

/// A column holds between zero and `yk` screw characters.
proof fn lemma_col_count_bound(rows: Seq<Vec<u8>>, x: int, yk: int)
    requires
        yk >= 0,
    ensures
        0 <= spec_screws_in_col(rows, x, yk) <= yk,
    decreases yk,
{
    if yk > 0 {
        lemma_col_count_bound(rows, x, yk - 1);
    }
}

/// The whole count stays within the scanned area.
proof fn lemma_total_count_bound(rows: Seq<Vec<u8>>, height: int, xk: int)
    requires
        xk >= 0,
        0 <= height <= 1024,
    ensures
        0 <= spec_screw_count(rows, height, xk) <= xk * 1024,
    decreases xk,
{
    if xk > 0 {
        lemma_total_count_bound(rows, height, xk - 1);
        lemma_col_count_bound(rows, xk - 1, height);
        assert((xk - 1) * 1024 + 1024 == xk * 1024) by (nonlinear_arith);
    }
}

/// Build a level board from its character grid and side table. Walls land
/// in the terrain grid exactly where a wall character stands; every other
/// known character spawns its actor, the player as a spawn flash. Returns
/// the board and the level's screw count.
/// One built cell: terrain exactly where a wall character stands, the
/// matching actor on a spawning character's cell, and nothing on the rest.
pub open spec fn spec_cell_built(b: Board, rows: Seq<Vec<u8>>, cx: i32, cy: i32) -> bool {
    let c = rows[cy as int]@[cx as int];
    let p = Position(crate::components::IntVec2(cx, cy));
    &&& b.wall_at(p) == spec_is_wall_char(c)
    &&& (!spec_is_wall_char(c) && spec_is_spawn_char(c) ==> (b.cell(p) matches Some(idx)
        && spec_char_spawns(c, b.actor(idx).kind)))
    &&& (!spec_is_wall_char(c) && !spec_is_spawn_char(c) ==> b.cell(p) is None)
}

/// Build a level board from its character grid and side table: every cell
/// is built per `spec_cell_built`, and the screw count is exactly the
/// number of screw characters in the grid.
pub fn create_level(
    width: i32,
    height: i32,
    rows: &Vec<Vec<u8>>,
    additional: &Vec<(i32, i32, Vec<usize>)>,
) -> (r: (Board, usize))
    requires
        0 < width <= 1024,
        0 < height <= 1024,
        rows@.len() == height,
        forall|y: int| 0 <= y < height ==> (#[trigger] rows@[y])@.len() == width,
    ensures
        r.0.wf(),
        r.0.width == width,
        r.0.height == height,
        forall|cx: i32, cy: i32|
            0 <= cx < width && 0 <= cy < height ==> spec_cell_built(r.0, rows@, cx, cy),
        r.1 == spec_screw_count(rows@, height as int, width as int),
{
    let mut board = Board::new(width, height);
    proof {
        assert forall|cx: i32, cy: i32|
            0 <= cx < width && 0 <= cy < height implies !board.wall_at(
            Position(crate::components::IntVec2(cx, cy)),
        ) && board.cell(Position(crate::components::IntVec2(cx, cy))) is None by {
            assert(board.in_bounds(Position(crate::components::IntVec2(cx, cy))));
        }
    }
    let mut screws: usize = 0;
    let mut x: i32 = 0;
    while x < width
        invariant
            board.wf(),
            board.width == width,
            board.height == height,
            0 < width <= 1024,
            0 < height <= 1024,
            rows@.len() == height,
            forall|yy: int| 0 <= yy < height ==> (#[trigger] rows@[yy])@.len() == width,
            0 <= x <= width,
            forall|cx: i32, cy: i32|
                0 <= cx < width && 0 <= cy < height && cx < x ==> spec_cell_built(
                    board,
                    rows@,
                    cx,
                    cy,
                ),
            forall|cx: i32, cy: i32|
                #![trigger board.cell(Position(crate::components::IntVec2(cx, cy)))]
                0 <= cx < width && 0 <= cy < height && cx >= x ==> !board.wall_at(
                    Position(crate::components::IntVec2(cx, cy)),
                ) && board.cell(Position(crate::components::IntVec2(cx, cy))) is None,
            screws as int == spec_screw_count(rows@, height as int, x as int),
        decreases width - x,
    {
        // per-column scan so each force-field segment can learn the wall
        // bounds of its vertical track
        let mut wall_last_y: i32 = -1i32;
        let mut pending_ff: Vec<usize> = Vec::new();
        let mut y: i32 = 0;
        proof {
            lemma_total_count_bound(rows@, height as int, x as int);
        }
        while y < height
            invariant
                board.wf(),
                board.width == width,
                board.height == height,
                0 < width <= 1024,
                0 < height <= 1024,
                rows@.len() == height,
                forall|yy: int| 0 <= yy < height ==> (#[trigger] rows@[yy])@.len() == width,
                0 <= x < width,
                0 <= y <= height,
                -1 <= wall_last_y < y,
                forall|k: int|
                    0 <= k < pending_ff@.len() ==> board.live(#[trigger] pending_ff@[k])
                        && board.actor(pending_ff@[k]).kind is ForceField,
                forall|cx: i32, cy: i32|
                    0 <= cx < width && 0 <= cy < height && (cx < x || (cx == x && cy < y))
                        ==> spec_cell_built(board, rows@, cx, cy),
                forall|cx: i32, cy: i32|
                    #![trigger board.cell(Position(crate::components::IntVec2(cx, cy)))]
                    0 <= cx < width && 0 <= cy < height && (cx > x || (cx == x && cy >= y))
                        ==> !board.wall_at(Position(crate::components::IntVec2(cx, cy)))
                        && board.cell(Position(crate::components::IntVec2(cx, cy))) is None,
                screws as int == spec_screw_count(rows@, height as int, x as int)
                    + spec_screws_in_col(rows@, x as int, y as int),
                spec_screw_count(rows@, height as int, x as int) <= 1048576,
            decreases height - y,
        {
            let ghost prev = board;
            proof {
                lemma_col_count_bound(rows@, x as int, y as int);
            }
            let c = rows[y as usize][x as usize];
            let pos = Position(crate::components::IntVec2(x, y));
            let params = additional_for(additional, x, y);
            if is_wall_char(c) {
                proof {
                    assert(!board.wall_at(pos) && board.cell(pos) is None);
                }
                board.set_wall(x, y);
                proof {
                    assert(spec_cell_built(board, rows@, x, y));
                    assert forall|cx: i32, cy: i32|
                        0 <= cx < width && 0 <= cy < height && (cx < x || (cx == x && cy
                            < y)) implies spec_cell_built(board, rows@, cx, cy) by {
                        assert(spec_cell_built(prev, rows@, cx, cy));
                    }
                }
                // close the open force-field track at this wall
                let mut k: usize = 0;
                let nf = pending_ff.len();
                while k < nf
                    invariant
                        board.wf(),
                        board.width == width,
                        board.height == height,
                        0 < width <= 1024,
                        0 < height <= 1024,
                        rows@.len() == height,
                        forall|yy: int| 0 <= yy < height ==> (#[trigger] rows@[yy])@.len() == width,
                        0 <= x < width,
                        0 <= y < height,
                        nf == pending_ff@.len(),
                        k <= nf,
                        -1 <= wall_last_y,
                        wall_last_y < y < height <= 1024,
                        forall|t: int|
                            0 <= t < pending_ff@.len() ==> board.live(#[trigger] pending_ff@[t])
                                && board.actor(pending_ff@[t]).kind is ForceField,
                        forall|cx: i32, cy: i32|
                            0 <= cx < width && 0 <= cy < height && (cx < x || (cx == x && cy <= y))
                                ==> spec_cell_built(board, rows@, cx, cy),
                        forall|cx: i32, cy: i32|
                            #![trigger board.cell(Position(crate::components::IntVec2(cx, cy)))]
                            0 <= cx < width && 0 <= cy < height && (cx > x || (cx == x && cy > y))
                                ==> !board.wall_at(Position(crate::components::IntVec2(cx, cy)))
                                && board.cell(
                                Position(crate::components::IntVec2(cx, cy)),
                            ) is None,
                    decreases nf - k,
                {
                    let ghost patch_prev = board;
                    let seg = pending_ff[k];
                    proof {
                        assert(board.actor_ok(seg));
                    }
                    let a = board.actor_at(seg);
                    let mut bounded = a;
                    bounded.kind = crate::board::Kind::ForceField(
                        crate::components::ForceField { top: wall_last_y + 1, bottom: y },
                    );
                    board.update_actor(seg, bounded);
                    proof {
                        assert forall|cx: i32, cy: i32|
                            0 <= cx < width && 0 <= cy < height && (cx < x || (cx == x && cy
                                <= y)) implies spec_cell_built(board, rows@, cx, cy) by {
                            assert(spec_cell_built(patch_prev, rows@, cx, cy));
                            let cc = rows@[cy as int]@[cx as int];
                            let pp = Position(crate::components::IntVec2(cx, cy));
                            if !spec_is_wall_char(cc) && spec_is_spawn_char(cc) {
                                assert(patch_prev.cell_ok(cx as int, cy as int));
                                let idx = patch_prev.cell(pp)->Some_0;
                                if idx == seg {
                                    assert(patch_prev.actor(seg).kind is ForceField);
                                    assert(cc == CH_FORCEFIELD);
                                    assert(board.actor(idx).kind is ForceField);
                                } else {
                                    assert(board.actor(idx) == patch_prev.actor(idx));
                                }
                            }
                        }
                    }
                    k = k + 1;
                }
                pending_ff = Vec::new();
                wall_last_y = y;
            } else {
                if c == CH_GROUND {
                    board.spawn(crate::entities::create_ground(pos));
                } else if c == CH_ROBBO {
                    board.spawn(spawn_robbo(pos));
                } else if c == CH_DOOR {
                    board.spawn(create_door(pos));
                } else if c == CH_STATIC_BOX {
                    board.spawn(create_static_box(pos));
                } else if c == CH_PUSH_BOX {
                    board.spawn(create_push_box(pos));
                } else if c == CH_GUN {
                    let index = param(&params, 0) % 4;
                    let gt = match param(&params, 2) {
                        1 => GunType::Solid,
                        2 => GunType::Blaster,
                        _ => GunType::Burst,
                    };
                    let moveable = param(&params, 3) > 0;
                    let mdir = MovingDir::by_index(param(&params, 1));
                    let rot = if param(&params, 5) > 0 {
                        Some(Rotatable::Random)
                    } else if param(&params, 4) > 0 {
                        Some(Rotatable::Regular)
                    } else {
                        None
                    };
                    board.spawn(create_gun(pos, index, gt, moveable, mdir, rot));
                } else if c == CH_TELEPORT {
                    board.spawn(create_teleport(pos, param(&params, 0), param(&params, 1)));
                } else if c == CH_BIRD {
                    board.spawn(create_bird(pos));
                } else if c == CH_BEAR {
                    board.spawn(create_bear(pos, MovingDir::by_index(param(&params, 0))));
                } else if c == CH_BLACK_BEAR {
                    board.spawn(create_black_bear(pos, MovingDir::by_index(param(&params, 0))));
                } else if c == CH_EYES {
                    board.spawn(create_eyes(pos));
                } else if c == CH_AMMO {
                    board.spawn(create_ammo(pos));
                } else if c == CH_SCREW {
                    board.spawn(create_screw(pos));
                    if screws < usize::MAX {
                        screws = screws + 1;
                    }
                } else if c == CH_KEY {
                    board.spawn(create_key(pos));
                } else if c == CH_CAPSULE {
                    board.spawn(create_capsule(pos));
                } else if c == CH_BOMB {
                    board.spawn(create_bomb(pos));
                } else if c == CH_QUESTIONMARK {
                    board.spawn(create_questionmark(pos));
                } else if c == CH_FORCEFIELD {
                    // the track bounds are patched in when the closing wall
                    // of this column is reached
                    let dir = if param(&params, 0) % 2 == 0 {
                        MovingDir::new(0, 1)
                    } else {
                        MovingDir::new(0, -1i32)
                    };
                    let seg = board.spawn(create_forcefield(pos, dir, 0, height));
                    pending_ff.push(seg);
                } else if c == CH_MAGNET {
                    board.spawn(create_magnet(pos, param(&params, 0)));
                }
            }
            proof {
                assert(spec_cell_built(board, rows@, x, y));
                assert forall|cx: i32, cy: i32|
                    0 <= cx < width && 0 <= cy < height && (cx < x || (cx == x && cy
                        < y)) implies spec_cell_built(board, rows@, cx, cy) by {
                    if !spec_is_wall_char(rows@[y as int]@[x as int]) {
                        assert(spec_cell_built(prev, rows@, cx, cy));
                        let cc = rows@[cy as int]@[cx as int];
                        if !spec_is_wall_char(cc) && spec_is_spawn_char(cc) {
                            assert(prev.cell_ok(cx as int, cy as int));
                            let idx = prev.cell(
                                Position(crate::components::IntVec2(cx, cy)),
                            )->Some_0;
                            assert(board.actor(idx) == prev.actor(idx));
                        }
                    }
                }
            }
            y = y + 1;
        }
        x = x + 1;
    }
    (board, screws)
}

} // verus!
