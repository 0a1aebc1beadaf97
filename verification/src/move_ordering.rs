//! Move ordering: the generated moves, sorted by a composite priority —
//! the cached best move first, then killers, then historically strong
//! moves, then winning captures by victim value less attacker value.
//! Sorting is pure reordering: the result is a permutation of what the
//! generator produced, non-increasing in the priority.

use vstd::prelude::*;
use vstd::multiset::Multiset;
use crate::board::{caps_of, checkmate_of, code_to_kind, legal_of, move_datas, piece_at_of, stalemate_of, Position};
use crate::evaluation::{spec_piece_value, ClassicEvaluator};
use crate::killer_moves::spec_is_killer;
use crate::moves::{spec_dest, spec_src, Mv};
use crate::search::Searcher;

verus! {

broadcast use vstd::seq_lib::group_to_multiset_ensures;

/// A move paired with its ordering priority.
#[derive(Clone, Copy)]
pub struct ScoredMove {
    pub mv: Mv,
    pub score: i64,
}

/// The raw move words of a scored list, in order.
pub open spec fn datas_of(s: Seq<ScoredMove>) -> Seq<u16> {
    s.map_values(|p: ScoredMove| p.mv.data)
}

/// Non-increasing priorities.
pub open spec fn sorted_desc(s: Seq<ScoredMove>) -> bool {
    forall|i: int, j: int| 0 <= i < j < s.len() ==> #[trigger] s[i].score >= #[trigger] s[j].score
}

/// The hash-move bonus: the move cached for this position comes first.
pub open spec fn spec_tt_bonus(board: Position, searcher: Searcher, m: Mv) -> int {
    if searcher.transposition_table@.contains_key(board.spec_key())
        && searcher.transposition_table@[board.spec_key()].best_move == m {
        9999999
    } else {
        0
    }
}

/// Most-valuable-victim, least-valuable-attacker: ten times the value of
/// what stands on the landing square, less the mover's value; zero for a
/// move to an empty square.
pub open spec fn spec_mvv_lva(board: Position, m: Mv) -> int {
    let victim = spec_piece_value(
        code_to_kind(piece_at_of(board.origin(), board.hist(), spec_dest(m.data) as u8)),
    );
    let attacker = spec_piece_value(
        code_to_kind(piece_at_of(board.origin(), board.hist(), spec_src(m.data) as u8)),
    );
    if victim == 0 {
        0
    } else {
        victim * 10 - attacker
    }
}

/// The composite ordering priority of one move.
pub open spec fn spec_priority(board: Position, searcher: Searcher, depth: u8, m: Mv) -> int {
    spec_tt_bonus(board, searcher, m) + (if spec_is_killer(
        searcher.killer_moves.killers@,
        depth as int,
        m,
    ) {
        99999int
    } else {
        0int
    }) + searcher.history_heuristics.score_of(m.data) + spec_mvv_lva(board, m)
}

/// Sorts by priority, highest first. The law of this function is that it
/// permutes: the multiset of entries — and so of move words — is
/// unchanged.
pub fn sort_moves_desc(input: Vec<ScoredMove>) -> (r: Vec<ScoredMove>)
    ensures
        r@.to_multiset() == input@.to_multiset(),
        datas_of(r@).to_multiset() == datas_of(input@).to_multiset(),
        sorted_desc(r@),
        r@.len() == input@.len(),
{
    let ghost input0 = input@;
    let mut rest = input;
    let mut out: Vec<ScoredMove> = Vec::new();
    proof {
        assert(out@.to_multiset().add(rest@.to_multiset()) =~= input0.to_multiset());
        assert(datas_of(out@) =~= Seq::<u16>::empty());
        assert(datas_of(out@).to_multiset().add(datas_of(rest@).to_multiset()) =~= datas_of(
            input0,
        ).to_multiset());
    }
    while rest.len() > 0
        invariant
            out@.to_multiset().add(rest@.to_multiset()) == input0.to_multiset(),
            datas_of(out@).to_multiset().add(datas_of(rest@).to_multiset()) == datas_of(
                input0,
            ).to_multiset(),
            sorted_desc(out@),
            out@.len() + rest@.len() == input0.len(),
            forall|a: int, b: int|
                0 <= a < out@.len() && 0 <= b < rest@.len() ==> #[trigger] out@[a].score
                    >= #[trigger] rest@[b].score,
        decreases rest@.len(),
    {
        let mut maxi: usize = 0;
        let mut k: usize = 1;
        while k < rest.len()
            invariant
                rest@.len() > 0,
                maxi < k,
                k <= rest@.len(),
                forall|j: int| 0 <= j < k ==> rest@[maxi as int].score >= #[trigger] rest@[j].score,
            decreases rest@.len() - k,
        {
            if rest[k].score > rest[maxi].score {
                maxi = k;
            }
            k = k + 1;
        }
        let ghost out0 = out@;
        let ghost rest0 = rest@;
        let x = rest.remove(maxi);
        out.push(x);
        proof {
            assert(rest@ == rest0.remove(maxi as int));
            assert(out@ == out0.push(x));
            assert(x == rest0[maxi as int]);
            assert(out@.to_multiset() =~= out0.to_multiset().insert(x));
            assert(rest0.to_multiset().count(x) > 0);
            assert(out@.to_multiset().add(rest@.to_multiset()) =~= input0.to_multiset());
            assert(datas_of(out@) =~= datas_of(out0).push(x.mv.data));
            assert(datas_of(rest@) =~= datas_of(rest0).remove(maxi as int));
            assert(datas_of(rest0)[maxi as int] == x.mv.data);
            assert(datas_of(rest@).to_multiset() =~= datas_of(rest0).to_multiset().remove(
                x.mv.data,
            ));
            assert(datas_of(rest0).to_multiset().count(x.mv.data) > 0);
            assert(datas_of(out@).to_multiset() =~= datas_of(out0).to_multiset().insert(
                x.mv.data,
            ));
            assert(datas_of(out@).to_multiset().add(datas_of(rest@).to_multiset()) =~= datas_of(
                input0,
            ).to_multiset());
            assert forall|a: int, b: int|
                0 <= a < out@.len() && 0 <= b < rest@.len() implies #[trigger] out@[a].score
                >= #[trigger] rest@[b].score by {
                let src = if b < maxi {
                    b
                } else {
                    b + 1
                };
                assert(rest@[b] == rest0[src]);
                if a < out0.len() {
                    assert(out@[a] == out0[a]);
                } else {
                    assert(out@[a] == x);
                }
            }
            assert(sorted_desc(out@)) by {
                assert forall|i: int, j: int| 0 <= i < j < out@.len() implies #[trigger] out@[i].score
                    >= #[trigger] out@[j].score by {
                    if j < out0.len() {
                    } else {
                        assert(out@[j] == x);
                        assert(rest0.to_multiset().count(x) > 0);
                    }
                }
            }
        }
    }
    proof {
        assert(rest@.to_multiset().len() == 0);
        assert(rest@.to_multiset() =~= Multiset::<ScoredMove>::empty());
        assert(out@.to_multiset() =~= input0.to_multiset());
        assert(datas_of(rest@) =~= Seq::<u16>::empty());
        assert(datas_of(out@).to_multiset() =~= datas_of(input0).to_multiset());
    }
    out
}

/// Generates the position's moves (captures only in quiescence) and hands
/// them back as a permutation of the generated list, sorted by priority,
/// highest first; every returned move may be played here.
pub fn order_moves(
    board: &Position,
    searcher: &Searcher,
    depth: u8,
    quiesence_search: bool,
) -> (r: Vec<Mv>)
    requires
        searcher.wf(),
    ensures
        !quiesence_search ==> move_datas(r@).to_multiset() == legal_of(
            board.origin(),
            board.hist(),
        ).to_multiset(),
        quiesence_search ==> move_datas(r@).to_multiset() == caps_of(
            board.origin(),
            board.hist(),
        ).to_multiset(),
        !quiesence_search ==> forall|i: int|
            0 <= i < r@.len() ==> legal_of(board.origin(), board.hist()).contains(
                (#[trigger] r@[i]).data,
            ),
        quiesence_search ==> forall|i: int|
            0 <= i < r@.len() ==> caps_of(board.origin(), board.hist()).contains(
                (#[trigger] r@[i]).data,
            ),
        forall|i: int| 0 <= i < r@.len() ==> (#[trigger] r@[i]).data != 0,
        !quiesence_search && r@.len() == 0 ==> stalemate_of(board.origin(), board.hist())
            || checkmate_of(board.origin(), board.hist()),
        forall|i: int, j: int|
            0 <= i < j < r@.len() ==> spec_priority(*board, *searcher, depth, r@[i])
                >= spec_priority(*board, *searcher, depth, r@[j]),
{
    let moves = if quiesence_search {
        board.generate_captures()
    } else {
        board.generate_moves()
    };
    let ghost gen = moves@;
    let best_move_tt = searcher.transposition_table.get_stored_move(board);
    let mut scored: Vec<ScoredMove> = Vec::new();
    let mut i: usize = 0;
    while i < moves.len()
        invariant
            searcher.wf(),
            i <= gen.len(),
            moves@ == gen,
            scored@.len() == i,
            best_move_tt == if searcher.transposition_table@.contains_key(board.spec_key()) {
                Some(searcher.transposition_table@[board.spec_key()].best_move)
            } else {
                Option::<Mv>::None
            },
            forall|j: int|
                0 <= j < i ==> (#[trigger] scored@[j]).mv == gen[j] && scored@[j].score
                    == spec_priority(*board, *searcher, depth, gen[j]),
        decreases gen.len() - i,
    {
        let m = moves[i];
        let mut transposition_table_value: i64 = 0;
        let is_tt = match best_move_tt {
            Some(t) => t.data == m.data,
            None => false,
        };
        if is_tt {
            transposition_table_value = 9999999;
        }
        proof {
            match best_move_tt {
                Some(t) => {
                    if t.data == m.data {
                        assert(t == m);
                    }
                },
                None => {},
            }
            assert(transposition_table_value == spec_tt_bonus(*board, *searcher, m));
        }
        let is_killer = searcher.killer_moves.is_killer(depth, m);
        let history = searcher.history_heuristics.get_score(m) as i64;
        let killer: i64 = if is_killer {
            99999
        } else {
            0
        };
        let victim_value = ClassicEvaluator::capture_value(board, m) as i64;
        let attacker_kind = board.piece_kind_at(m.get_src());
        let attacker_value = ClassicEvaluator::piece_value(attacker_kind) as i64;
        let mut mvv_lva_score: i64 = victim_value * 10 - attacker_value;
        if victim_value == 0 {
            mvv_lva_score = 0;
        }
        proof {
            assert(mvv_lva_score == spec_mvv_lva(*board, m));
        }
        let score = killer + history + mvv_lva_score + transposition_table_value;
        scored.push(ScoredMove { mv: m, score });
        i = i + 1;
    }
    let sorted = sort_moves_desc(scored);
    let mut out: Vec<Mv> = Vec::new();
    let mut k: usize = 0;
    while k < sorted.len()
        invariant
            k <= sorted@.len(),
            out@.len() == k,
            forall|j: int| 0 <= j < k ==> #[trigger] out@[j] == sorted@[j].mv,
        decreases sorted@.len() - k,
    {
        out.push(sorted[k].mv);
        k = k + 1;
    }
    proof {
        assert(datas_of(scored@) =~= move_datas(gen));
        assert(move_datas(out@) =~= datas_of(sorted@));
        assert(move_datas(out@).to_multiset() == move_datas(gen).to_multiset());
        assert forall|j: int|
            0 <= j < out@.len() implies sorted@[j].score == spec_priority(
            *board,
            *searcher,
            depth,
            out@[j],
        ) by {
            assert(sorted@.to_multiset().count(sorted@[j]) > 0) by {
                assert(sorted@.contains(sorted@[j]));
            }
            assert(scored@.to_multiset().count(sorted@[j]) > 0);
            assert(scored@.contains(sorted@[j]));
            let w = choose|w: int| 0 <= w < scored@.len() && scored@[w] == sorted@[j];
            assert(scored@[w].score == spec_priority(*board, *searcher, depth, scored@[w].mv));
        }
        assert(out@.len() == gen.len());
        assert forall|j: int| 0 <= j < out@.len() implies move_datas(gen).contains(
            (#[trigger] out@[j]).data,
        ) && out@[j].data != 0 by {
            assert(move_datas(out@)[j] == out@[j].data);
            assert(move_datas(out@).contains(out@[j].data)) by {
                assert(move_datas(out@).to_multiset().count(out@[j].data) > 0) by {
                    assert(move_datas(out@).contains(out@[j].data));
                }
            }
            assert(move_datas(gen).to_multiset().count(out@[j].data) > 0);
            assert(move_datas(gen).contains(out@[j].data));
            let w = choose|w: int| 0 <= w < move_datas(gen).len() && move_datas(gen)[w] == out@[j].data;
            assert(moves@[w].data == out@[j].data);
        }
    }
    out
}

} // verus!
