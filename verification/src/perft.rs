//! Move-path counting: the number of leaf positions reachable in exactly
//! the given number of plies, specified recursively over the board's
//! generated move lists. It exercises the board collaborator; the
//! position comes back exactly as it was handed in.

use vstd::prelude::*;
use crate::board::{legal_of, move_datas, Position};

verus! {

/// The number of move paths of length `depth` from `(origin, hist)`.
pub open spec fn spec_perft(origin: Seq<char>, hist: Seq<u16>, depth: nat) -> nat
    decreases depth, legal_of(origin, hist).len() + 1,
{
    if depth == 0 {
        1
    } else {
        spec_perft_rest(origin, hist, depth, 0)
    }
}

/// The paths of length `depth` that start with the `i`-th or a later move
/// of the generated list at `(origin, hist)`.
pub open spec fn spec_perft_rest(origin: Seq<char>, hist: Seq<u16>, depth: nat, i: int) -> nat
    decreases depth, legal_of(origin, hist).len() - i,
{
    if depth == 0 || i < 0 || i >= legal_of(origin, hist).len() {
        0
    } else {
        spec_perft(origin, hist.push(legal_of(origin, hist)[i]), (depth - 1) as nat)
            + spec_perft_rest(origin, hist, depth, i + 1)
    }
}

/// Each tail sum is no more than the one starting a move earlier.
proof fn lemma_perft_rest_step(origin: Seq<char>, hist: Seq<u16>, depth: nat, i: int)
    requires
        depth >= 1,
        0 <= i < legal_of(origin, hist).len(),
    ensures
        spec_perft_rest(origin, hist, depth, i) == spec_perft(
            origin,
            hist.push(legal_of(origin, hist)[i]),
            (depth - 1) as nat,
        ) + spec_perft_rest(origin, hist, depth, i + 1),
{
}

fn sat_add(a: u64, b: u64) -> (r: u64)
    ensures
        r >= a,
        r >= b,
        a + b <= u64::MAX ==> r == a + b,
{
    if a > u64::MAX - b {
        u64::MAX
    } else {
        a + b
    }
}

/// Counts the move paths of the given length from the position: exactly
/// the specified count whenever it fits the counter, saturating past it.
pub fn perft(board: &mut Position, depth: u32) -> (r: u64)
    requires
        old(board).inv(),
        depth >= 1,
    ensures
        final(board).inv(),
        final(board).origin() == old(board).origin(),
        final(board).hist() == old(board).hist(),
        final(board).spec_key() == old(board).spec_key(),
        final(board).spec_past() == old(board).spec_past(),
        final(board).frames() == old(board).frames(),
        final(board).forcing() == old(board).forcing(),
        spec_perft(old(board).origin(), old(board).hist(), depth as nat) <= u64::MAX ==> r
            == spec_perft(old(board).origin(), old(board).hist(), depth as nat),
{
    perft_inner(board, depth)
}

fn perft_inner(board: &mut Position, depth: u32) -> (r: u64)
    requires
        old(board).inv(),
    ensures
        final(board).inv(),
        final(board).origin() == old(board).origin(),
        final(board).hist() == old(board).hist(),
        final(board).spec_key() == old(board).spec_key(),
        final(board).spec_past() == old(board).spec_past(),
        final(board).frames() == old(board).frames(),
        final(board).forcing() == old(board).forcing(),
        spec_perft(old(board).origin(), old(board).hist(), depth as nat) <= u64::MAX ==> r
            == spec_perft(old(board).origin(), old(board).hist(), depth as nat),
    decreases depth,
{
    if depth == 0 {
        return 1;
    }
    let ghost b0 = *old(board);
    let ghost o = b0.origin();
    let ghost h = b0.hist();
    let ghost total = spec_perft(o, h, depth as nat);
    let moves = board.generate_moves();
    let mut nodes: u64 = 0;
    let mut i: usize = 0;
    while i < moves.len()
        invariant
            b0 == *old(board),
            board.inv(),
            i <= moves@.len(),
            depth >= 1,
            o == b0.origin(),
            h == b0.hist(),
            total == spec_perft(o, h, depth as nat),
            board.origin() == b0.origin(),
            board.hist() == b0.hist(),
            board.spec_key() == b0.spec_key(),
            board.spec_past() == b0.spec_past(),
            board.frames() == b0.frames(),
            board.forcing() == b0.forcing(),
            move_datas(moves@) == legal_of(o, h),
            total <= u64::MAX ==> nodes + spec_perft_rest(o, h, depth as nat, i as int) == total,
        decreases moves@.len() - i,
    {
        let m = moves[i];
        proof {
            assert(move_datas(moves@)[i as int] == moves@[i as int].data);
            assert(legal_of(o, h).contains(m.data));
            lemma_perft_rest_step(o, h, depth as nat, i as int);
        }
        let ghost pre = *board;
        board.apply_move(m);
        proof {
            assert(board.hist() == h.push(legal_of(o, h)[i as int]));
        }
        let n = perft_inner(board, depth - 1);
        board.undo_move();
        proof {
            assert(pre.spec_past().push(pre.spec_key()).last() == pre.spec_key());
            assert(board.spec_past() =~= pre.spec_past());
            assert(board.hist() =~= pre.hist());
            assert(board.frames() =~= pre.frames());
        }
        nodes = sat_add(nodes, n);
        i = i + 1;
    }
    proof {
        assert(spec_perft_rest(o, h, depth as nat, moves@.len() as int) == 0);
    }
    nodes
}

} // verus!
