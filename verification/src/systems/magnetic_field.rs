//! Magnetic field resolution: a magnet aligned with the player and facing
//! it pulls the player toward itself when no occupied cell blocks the ray;
//! the last qualifying magnet in arena order wins.

use vstd::prelude::*;
use crate::board::Actor;
use crate::board::Board;
use crate::board::Kind;
use crate::board::find_robbo;
use crate::components::MovingDir;
use crate::components::Position;
use crate::components::sgn;
use crate::components::spec_sgn;

verus! {

/// A ray from `from` along `d` reaches `to` within `steps` cells, crossing
/// only free cells on the way.
pub open spec fn spec_ray_reaches(
    b: Board,
    from: Position,
    d: MovingDir,
    to: Position,
    steps: nat,
) -> bool
    decreases steps,
{
    if from == to {
        true
    } else if steps == 0 {
        false
    } else {
        b.spec_free(from) && spec_ray_reaches(b, from.spec_add(d), d, to, (steps - 1) as nat)
    }
}

/// The fuel every ray query runs with: longer than any straight path on
/// the board.
pub open spec fn spec_ray_fuel(b: Board) -> nat {
    (b.width + b.height) as nat
}

/// Walk the ray cell by cell; exactly `spec_ray_reaches` with the board's
/// standard fuel.
pub fn ray_reaches(board: &Board, from: Position, d: MovingDir, to: Position) -> (r: bool)
    requires
        board.wf(),
        d.0.is_small(),
        -1 <= from.0.0 <= board.width,
        -1 <= from.0.1 <= board.height,
    ensures
        r == spec_ray_reaches(*board, from, d, to, spec_ray_fuel(*board)),
{
    let limit: usize = (board.width + board.height) as usize;
    let mut pos = from;
    let mut k: usize = 0;
    while k < limit
        invariant
            board.wf(),
            d.0.is_small(),
            limit == board.width + board.height,
            k <= limit,
            -1 <= pos.0.0 <= board.width,
            -1 <= pos.0.1 <= board.height,
            spec_ray_reaches(*board, from, d, to, spec_ray_fuel(*board)) == spec_ray_reaches(
                *board,
                pos,
                d,
                to,
                (limit - k) as nat,
            ),
        decreases limit - k,
    {
        if pos == to {
            return true;
        }
        if board.is_occupied(&pos) {
            return false;
        }
        pos = pos.add(&d);
        k = k + 1;
    }
    pos == to
}

/// Whether the magnet in slot `m` pulls a player standing at `rp`: they
/// share a row or column, the magnet's direction points at the player, and
/// the ray from the magnet's face to the player crosses only free cells.
pub open spec fn spec_magnet_pulls(b: Board, m: usize, rp: Position) -> bool {
    b.live(m) && b.actor(m).kind is Magnet && {
        let mp = b.actor(m).pos;
        let md = (b.actor(m).kind->Magnet_0).dir;
        let aligned = (mp.0.0 == rp.0.0 && md.0 == 0 && md.1 == spec_sgn(rp.0.1 - mp.0.1)) || (
        mp.0.1 == rp.0.1 && md.1 == 0 && md.0 == spec_sgn(rp.0.0 - mp.0.0));
        aligned && spec_ray_reaches(
            b,
            mp.spec_add(MovingDir(md)),
            MovingDir(md),
            rp,
            spec_ray_fuel(b),
        )
    }
}

/// The pull on a player at `rp` from the magnets in slots below `n`; the
/// one with the highest slot wins, and the pull is the negation of its
/// direction (toward the magnet).
pub open spec fn spec_pull_dir_upto(b: Board, rp: Position, n: int) -> Option<MovingDir>
    decreases n,
{
    if n <= 0 {
        None
    } else if spec_magnet_pulls(b, (n - 1) as usize, rp) {
        Some(MovingDir((b.actor((n - 1) as usize).kind->Magnet_0).dir).spec_neg())
    } else {
        spec_pull_dir_upto(b, rp, n - 1)
    }
}

/// The exact relation of the magnetic pass: the first player's heading
/// becomes the pull of the last qualifying magnet, if any; otherwise the
/// board is unchanged.
pub open spec fn spec_magnetic_rel(pre: Board, post: Board) -> bool {
    &&& post.wf()
    &&& post.width == pre.width
    &&& post.height == pre.height
    &&& post.walls@ == pre.walls@
    &&& match crate::board::spec_first_robbo_from(pre, 0) {
        Some(r) => {
            let a = pre.actor(r);
            match spec_pull_dir_upto(pre, a.pos, pre.actors@.len() as int) {
                Some(d) => post.actors@ == pre.actors@.update(r as int, Some(Actor { dir: d, ..a })),
                None => post.actors@ == pre.actors@,
            }
        },
        None => post.actors@ == pre.actors@,
    }
}

/// The magnetic field resolver: overrides the player's heading with the
/// pull of the last qualifying magnet, if any; with no player or no
/// qualifying magnet the board is unchanged.
pub fn magnetic_field_system(board: &mut Board)
    requires
        old(board).wf(),
    ensures
        spec_magnetic_rel(*old(board), *final(board)),
        final(board).wf(),
        final(board).width == old(board).width,
        final(board).height == old(board).height,
        final(board).walls@ == old(board).walls@,
{
    let r = match find_robbo(board) {
        Some(r) => r,
        None => {
            return ;
        },
    };
    proof {
        assert(board.actor_ok(r));
    }
    let a = board.actor_at(r);
    let rp = a.pos;
    let n = board.actors.len();
    let mut pull: Option<MovingDir> = None;
    let mut m: usize = 0;
    while m < n
        invariant
            board.wf(),
            *board == *old(board),
            n == board.actors@.len(),
            m <= n,
            0 <= rp.0.0 < board.width,
            0 <= rp.0.1 < board.height,
            pull == spec_pull_dir_upto(*board, rp, m as int),
            pull matches Some(d) ==> d.0.is_small(),
        decreases n - m,
    {
        if magnet_pulls(board, m, rp) {
            let md = match board.actor_at(m).kind {
                Kind::Magnet(mg) => MovingDir(mg.dir),
                _ => MovingDir::zero(),
            };
            proof {
                assert(board.actor_ok(m));
            }
            pull = Some(md.neg());
        }
        m = m + 1;
    }
    match pull {
        Some(d) => {
            let mut pulled = a;
            pulled.dir = d;
            board.update_actor(r, pulled);
        },
        None => {},
    }
}

/// Exactly `spec_magnet_pulls` for slot `m` against a player cell `rp`.
fn magnet_pulls(board: &Board, m: usize, rp: Position) -> (r: bool)
    requires
        board.wf(),
        m < board.actors@.len(),
        0 <= rp.0.0 < board.width,
        0 <= rp.0.1 < board.height,
    ensures
        r == spec_magnet_pulls(*board, m, rp),
{
    let mg = match &board.actors[m] {
        Some(a) => match a.kind {
            Kind::Magnet(mg) => mg,
            _ => {
                return false;
            },
        },
        None => {
            return false;
        },
    };
    proof {
        assert(board.actor_ok(m));
    }
    let a = board.actor_at(m);
    let mp = a.pos;
    let aligned = (mp.x() == rp.x() && mg.dir.0 == 0 && mg.dir.1 == sgn(rp.y() - mp.y())) || (
    mp.y() == rp.y() && mg.dir.1 == 0 && mg.dir.0 == sgn(rp.x() - mp.x()));
    if !aligned {
        return false;
    }
    let md = MovingDir(mg.dir);
    let from = mp.add(&md);
    ray_reaches(board, from, md, rp)
}

} // verus!
