//! The search driver and the alpha-beta negamax explorer with quiescence.
//! Scores are centipawns from the mover's point of view; mates are scored
//! by their distance from the root so that nearer mates win.

use vstd::prelude::*;
use crate::board::{
    caps_of, checkmate_of, code_to_kind, legal_of, move_datas, piece_at_of, PieceKind, Position,
};
use crate::evaluation::{spec_board_eval, ClassicEvaluator, Evaluator};
use crate::extensions::calculate_extensions;
use crate::history_heuristics::HistoryHeuristic;
use crate::killer_moves::{KillerMoves, KillerSlot};
use crate::limiter::{instant_now, timed_out, Limiter};
use crate::move_ordering::order_moves;
use crate::moves::{spec_dest, Mv};
use crate::openings::{initial_root, view_node, OpeningBook};
use crate::transposition_table::{EvalType, TranspositionTable, TranspositionTableEntry};

verus! {

/// Effectively unbounded score; all real scores stay strictly inside.
pub const INFINITY: i32 = 2147483600;

pub const NEGATIVE_INFINITY: i32 = -2147483600;

/// Mate found at the node itself; a mate in `n` plies scores `100000 - n`.
pub const IMMEDIATE_MATE_SCORE: i32 = 100000;

/// The deepest iteration the driver will run.
pub const MAX_DEPTH: u8 = 64;

/// A score within a hundred of a mate at the node.
pub open spec fn spec_is_mate_eval(eval: int) -> bool {
    -100 < eval - 100000 < 100
}

/// Whether a score means a forced mate (for the mover) nearby.
pub fn is_mate_eval(eval: i32) -> (r: bool)
    ensures
        r == spec_is_mate_eval(eval as int),
{
    let d: i64 = eval as i64 - 100000;
    -100 < d && d < 100
}

/// Counters kept during one search, for reporting only.
#[derive(Clone, Copy, PartialEq, Eq, Structural, Debug)]
pub struct Statistics {
    pub evaluated_positions: u32,
    pub transposition_entries: u32,
    pub transposition_deletes: u32,
    pub transposition_uses: u32,
    pub beta_cutoffs: u32,
    pub nodes_searched: u32,
}

impl Statistics {
    /// All counters at zero.
    pub open spec fn new_spec() -> Statistics {
        Statistics {
            evaluated_positions: 0,
            transposition_entries: 0,
            transposition_deletes: 0,
            transposition_uses: 0,
            beta_cutoffs: 0,
            nodes_searched: 0,
        }
    }

    pub fn new() -> (r: Statistics)
        ensures
            r == (Statistics {
                evaluated_positions: 0,
                transposition_entries: 0,
                transposition_deletes: 0,
                transposition_uses: 0,
                beta_cutoffs: 0,
                nodes_searched: 0,
            }),
    {
        Statistics {
            evaluated_positions: 0,
            transposition_entries: 0,
            transposition_deletes: 0,
            transposition_uses: 0,
            beta_cutoffs: 0,
            nodes_searched: 0,
        }
    }
}

/// The search context: the cache and heuristics that persist across
/// moves, the evaluator, and the bookkeeping of the running search.
pub struct Searcher {
    pub opening_book: OpeningBook,
    pub transposition_table: TranspositionTable,
    pub history_heuristics: HistoryHeuristic,
    pub killer_moves: KillerMoves,
    pub best_move_this_iter: Mv,
    pub has_searched_one_move: bool,
    pub best_eval: i32,
    pub completed_depth: u8,
    pub time_control: std::time::Instant,
    pub target_depth: u8,
    pub target_time: Option<std::time::Duration>,
    pub evaluator: ClassicEvaluator,
    pub stats: Statistics,
}

impl Searcher {
    /// The parts with internal invariants are sound.
    pub open spec fn wf(self) -> bool {
        &&& self.opening_book.inv()
        &&& self.transposition_table.inv()
        &&& self.history_heuristics.inv()
        &&& self.evaluator.wf()
    }

    /// A fresh searcher: empty cache, zero history, empty killer slots,
    /// an empty enabled book (a loaded one may be put in its place), no
    /// committed move, no limits, zero counters.
    pub fn new() -> (r: Self)
        ensures
            r.wf(),
            r.transposition_table@ == Map::<u64, TranspositionTableEntry>::empty(),
            forall|d: u16| #[trigger] r.history_heuristics.score_of(d) == 0,
            r.killer_moves.killers@.len() == MAX_DEPTH as int,
            forall|i: int|
                0 <= i < r.killer_moves.killers@.len() ==> #[trigger] r.killer_moves.killers@[i]
                    == (KillerSlot { primary: None, secondary: None }),
            r.opening_book.spec_enabled(),
            view_node(r.opening_book.cur_node()) == initial_root(0, 0),
            r.best_move_this_iter.data == 0,
            !r.has_searched_one_move,
            r.best_eval == NEGATIVE_INFINITY,
            r.completed_depth == 0,
            r.target_depth == MAX_DEPTH,
            r.target_time is None,
            r.stats == Statistics::new_spec(),
    {
        Searcher {
            opening_book: OpeningBook::from_games(Vec::new()),
            transposition_table: TranspositionTable::new(),
            history_heuristics: HistoryHeuristic::new(),
            killer_moves: KillerMoves::new(MAX_DEPTH as usize),
            best_move_this_iter: Mv::null(),
            has_searched_one_move: false,
            best_eval: NEGATIVE_INFINITY,
            completed_depth: 0,
            time_control: instant_now(),
            target_depth: MAX_DEPTH,
            target_time: None,
            evaluator: ClassicEvaluator::new(),
            stats: Statistics::new(),
        }
    }
}

/// A raw move word taken from an index of a generated list is in the
/// list's word sequence.
proof fn lemma_move_in_list(s: Seq<Mv>, i: int)
    requires
        0 <= i < s.len(),
    ensures
        move_datas(s).contains(s[i].data),
{
    assert(move_datas(s)[i] == s[i].data);
}

/// Whether a list of moves holds this move's raw word.
fn contains_move(v: &Vec<Mv>, m: Mv) -> (r: bool)
    ensures
        r == move_datas(v@).contains(m.data),
{
    let mut i: usize = 0;
    while i < v.len()
        invariant
            i <= v@.len(),
            forall|j: int| 0 <= j < i ==> (#[trigger] v@[j]).data != m.data,
        decreases v@.len() - i,
    {
        if v[i].data == m.data {
            proof {
                lemma_move_in_list(v@, i as int);
            }
            return true;
        }
        i = i + 1;
    }
    proof {
        if move_datas(v@).contains(m.data) {
            let j = choose|j: int| 0 <= j < move_datas(v@).len() && move_datas(v@)[j] == m.data;
            assert(v@[j].data == m.data);
        }
    }
    false
}

/// Whether a move lands on an occupied square of the position.
pub fn is_capture(m: Mv, context: &Position) -> (r: bool)
    ensures
        r == (code_to_kind(
            piece_at_of(context.origin(), context.hist(), spec_dest(m.data) as u8),
        ) != PieceKind::Empty),
{
    let destination = m.get_dest();
    !matches!(context.piece_kind_at(destination), PieceKind::Empty)
}

fn bump(x: u32) -> (r: u32)
    ensures
        r >= x,
{
    if x < u32::MAX {
        x + 1
    } else {
        x
    }
}

impl Searcher {
    /// Whether the running search's time allowance, if one is set, has
    /// been used up; never, when none is set.
    fn out_of_time(&self) -> (r: bool)
        ensures
            self.target_time is None ==> !r,
    {
        match &self.target_time {
            Some(t) => timed_out(&self.time_control, t),
            None => false,
        }
    }

    /// Scans the replies of the current position for an immediate draw by
    /// repetition or the fifty-move rule; the position comes back as it
    /// was and only the statistics may differ.
    fn replies_reach_draw(&mut self, board: &mut Position) -> (r: bool)
        requires
            old(self).wf(),
            old(board).inv(),
        ensures
            final(self).wf(),
            *final(self) == *old(self),
            final(board).inv(),
            final(board).origin() == old(board).origin(),
            final(board).hist() == old(board).hist(),
            final(board).spec_key() == old(board).spec_key(),
            final(board).spec_past() == old(board).spec_past(),
            final(board).frames() == old(board).frames(),
            final(board).forcing() == old(board).forcing(),
    {
        let ghost b0 = *old(board);
        let replies = board.generate_moves();
        let mut found_draw = false;
        let mut j: usize = 0;
        while j < replies.len() && !found_draw
            invariant
                b0 == *old(board),
                self == old(self),
                self.wf(),
                board.inv(),
                j <= replies@.len(),
                move_datas(replies@) == legal_of(b0.origin(), b0.hist()),
                board.origin() == b0.origin(),
                board.hist() == b0.hist(),
                board.spec_key() == b0.spec_key(),
                board.spec_past() == b0.spec_past(),
                board.frames() == b0.frames(),
                board.forcing() == b0.forcing(),
            decreases replies@.len() - j,
        {
            let m2 = replies[j];
            proof {
                lemma_move_in_list(replies@, j as int);
            }
            let ghost pre = *board;
            board.apply_move(m2);
            if board.fifty_move_rule() || board.threefold_repetition() {
                found_draw = true;
            }
            board.undo_move();
            proof {
                assert(pre.spec_past().push(pre.spec_key()).last() == pre.spec_key());
                assert(board.spec_past() =~= pre.spec_past());
                assert(board.hist() =~= pre.hist());
                assert(board.frames() =~= pre.frames());
            }
            j = j + 1;
        }
        found_draw
    }

    /// Chooses a move for the position under the given budget: a book
    /// proposal if one applies, else the best move of the deepest
    /// completed iteration of the deepening loop. The position comes back
    /// exactly as it was handed in; a non-null result is legal there, and
    /// the book is left disabled until it is reset.
    pub fn search(&mut self, board: &mut Position, limiter: Limiter) -> (r: Mv)
        requires
            old(self).wf(),
            old(board).inv(),
        ensures
            final(self).wf(),
            final(board).inv(),
            final(board).origin() == old(board).origin(),
            final(board).hist() == old(board).hist(),
            final(board).spec_key() == old(board).spec_key(),
            final(board).spec_past() == old(board).spec_past(),
            final(board).frames() == old(board).frames(),
            final(board).forcing() == old(board).forcing(),
            !final(self).opening_book.spec_enabled(),
            r.data == 0 || legal_of(old(board).origin(), old(board).hist()).contains(r.data),
            limiter.spec_time() is None && (limiter.spec_depth() matches Some(d) ==> d >= 1)
                && !old(board).spec_drawn() && !checkmate_of(
                old(board).origin(),
                old(board).hist(),
            ) ==> r.data != 0,
    {
        let ghost b0 = *old(board);
        self.target_time = limiter.get_time();
        self.target_depth = match limiter.get_depth() {
            Some(d) => if d > MAX_DEPTH {
                MAX_DEPTH
            } else {
                d
            },
            None => MAX_DEPTH,
        };
        self.stats = Statistics::new();

        let proposal = self.opening_book.get_next_move();
        self.opening_book.set_disabled();
        match proposal {
            Some(m) => {
                if board.apply_uci_move(m.as_str()) {
                    let ghost h1 = board.hist();
                    let mv = board.last_move();
                    board.undo_move();
                    proof {
                        assert(b0.spec_past().push(b0.spec_key()).last() == b0.spec_key());
                        assert(board.spec_past() =~= b0.spec_past());
                        assert(board.hist() =~= b0.hist());
                        assert(board.frames() =~= b0.frames());
                        let w = crate::board::uci_move_of(b0.origin(), b0.hist(), m@)->Some_0;
                        assert(h1.last() == w);
                    }
                    match mv {
                        Some(mv) => {
                            return mv;
                        },
                        None => {},
                    }
                }
            },
            None => {},
        }

        self.time_control = instant_now();
        self.best_move_this_iter = Mv::null();
        self.has_searched_one_move = false;
        self.best_eval = NEGATIVE_INFINITY;
        self.completed_depth = 0;
        let mut best_move = Mv::null();
        let td: u8 = if self.target_depth > MAX_DEPTH {
            MAX_DEPTH
        } else {
            self.target_depth
        };
        let mut depth: u8 = 0;
        while depth <= td
            invariant
                b0 == *old(board),
                self.wf(),
                board.inv(),
                td <= MAX_DEPTH,
                depth <= td + 1,
                board.origin() == b0.origin(),
                board.hist() == b0.hist(),
                board.spec_key() == b0.spec_key(),
                board.spec_past() == b0.spec_past(),
                board.frames() == b0.frames(),
                board.forcing() == b0.forcing(),
                !self.opening_book.spec_enabled(),
                best_move.data == 0 || legal_of(b0.origin(), b0.hist()).contains(best_move.data),
                self.best_move_this_iter.data == 0 || legal_of(b0.origin(), b0.hist()).contains(
                    self.best_move_this_iter.data,
                ),
                self.target_time == limiter.spec_time(),
                limiter.spec_time() is None ==> !self.has_searched_one_move,
                limiter.spec_time() is None && !b0.spec_drawn() && !checkmate_of(
                    b0.origin(),
                    b0.hist(),
                ) && depth >= 2 ==> best_move.data != 0,
                td >= 1 || (limiter.spec_depth() matches Some(d) && d == 0),
            decreases td + 1 - depth,
        {
            if self.out_of_time() {
                return best_move;
            }
            self.stats = Statistics::new();
            let eval = self.alpha_beta(board, NEGATIVE_INFINITY, INFINITY, depth, 0, 0, false);

            if eval == -1 && self.out_of_time() && !self.best_move_this_iter.is_null() {
                return best_move;
            }

            if self.has_searched_one_move {
                best_move = self.best_move_this_iter;
                self.best_eval = eval;
                self.completed_depth = depth;
                self.has_searched_one_move = false;
                self.best_move_this_iter = Mv::null();
                if is_mate_eval(eval) {
                    return best_move;
                }
            }
            depth = depth + 1;
        }
        best_move
    }

    /// The negamax alpha-beta explorer. Whatever it returns, the position
    /// comes back byte-for-byte where it started: same zobrist key, same
    /// undo stack. An immediately drawn position scores exactly 0, a
    /// checkmated one exactly `-(IMMEDIATE_MATE_SCORE - ply)`; other
    /// scores stay inside the representable band, with `-1` doubling as
    /// the out-of-time sentinel. At the root, any committed best move is
    /// legal; away from it the committed move is untouched; and the
    /// killers, book and evaluator are never modified.
    pub fn alpha_beta(
        &mut self,
        board: &mut Position,
        alpha: i32,
        beta: i32,
        depth: u8,
        ply_from_root: u8,
        num_extensions: u8,
        can_do_null_move: bool,
    ) -> (r: i32)
        requires
            old(self).wf(),
            old(board).inv(),
            NEGATIVE_INFINITY <= alpha,
            alpha < beta,
            beta <= INFINITY,
            num_extensions <= 16,
            ply_from_root as int + depth as int + 16 - num_extensions as int <= 80,
        ensures
            final(self).wf(),
            final(board).inv(),
            final(board).origin() == old(board).origin(),
            final(board).hist() == old(board).hist(),
            final(board).spec_key() == old(board).spec_key(),
            final(board).spec_past() == old(board).spec_past(),
            final(board).frames() == old(board).frames(),
            final(board).forcing() == old(board).forcing(),
            NEGATIVE_INFINITY < r < INFINITY,
            final(self).target_time == old(self).target_time,
            old(board).spec_drawn() ==> r == 0,
            !old(board).spec_drawn() && checkmate_of(old(board).origin(), old(board).hist())
                ==> r == -(IMMEDIATE_MATE_SCORE - ply_from_root as int),
            final(self).killer_moves == old(self).killer_moves,
            final(self).opening_book == old(self).opening_book,
            final(self).evaluator == old(self).evaluator,
            ply_from_root != 0 ==> final(self).best_move_this_iter == old(
                self,
            ).best_move_this_iter && final(self).has_searched_one_move == old(
                self,
            ).has_searched_one_move,
            ply_from_root == 0 ==> final(self).best_move_this_iter == old(
                self,
            ).best_move_this_iter || legal_of(old(board).origin(), old(board).hist()).contains(
                final(self).best_move_this_iter.data,
            ),
            ply_from_root == 0 && final(self).has_searched_one_move && !old(
                self,
            ).has_searched_one_move ==> legal_of(old(board).origin(), old(board).hist()).contains(
                final(self).best_move_this_iter.data,
            ) && final(self).best_move_this_iter.data != 0,
            old(self).target_time is None && ply_from_root == 0 && alpha == NEGATIVE_INFINITY
                && beta == INFINITY && depth >= 1 && !old(board).spec_drawn() && !checkmate_of(
                old(board).origin(),
                old(board).hist(),
            ) ==> final(self).has_searched_one_move,
        decreases depth as int + 16 - num_extensions as int,
    {
        let ghost b0 = *old(board);
        self.stats.nodes_searched = bump(self.stats.nodes_searched);

        if board.stalemate() || board.fifty_move_rule() || board.threefold_repetition() {
            return 0;
        }
        if board.checkmate() {
            return -(IMMEDIATE_MATE_SCORE - ply_from_root as i32);
        }

        if depth == 0 {
            proof {
                board.lemma_inv_forcing();
            }
            return self.quiescence_search(board, alpha, beta, ply_from_root + 1);
        }

        match self.transposition_table.lookup_eval(board, depth, ply_from_root, alpha, beta) {
            Some(tt_eval) => {
                self.stats.transposition_uses = bump(self.stats.transposition_uses);
                if ply_from_root == 0 {
                    match self.transposition_table.get_stored_move(board) {
                        Some(stored_move) => {
                            let legal = board.generate_moves();
                            if contains_move(&legal, stored_move) {
                                let ghost pre = *board;
                                board.apply_move(stored_move);
                                let found_draw = self.replies_reach_draw(board);
                                board.undo_move();
                                proof {
                                    assert(pre.spec_past().push(pre.spec_key()).last()
                                        == pre.spec_key());
                                    assert(board.spec_past() =~= pre.spec_past());
                                    assert(board.hist() =~= pre.hist());
                                    assert(board.frames() =~= pre.frames());
                                }
                                if !found_draw {
                                    proof {
                                        let j = choose|j: int|
                                            0 <= j < move_datas(legal@).len() && move_datas(
                                                legal@,
                                            )[j] == stored_move.data;
                                        assert(legal@[j].data == stored_move.data);
                                    }
                                    self.best_move_this_iter = stored_move;
                                    self.has_searched_one_move = true;
                                    return tt_eval;
                                }
                            }
                        },
                        None => {},
                    }
                } else {
                    let found_draw = self.replies_reach_draw(board);
                    if !found_draw {
                        return tt_eval;
                    }
                }
            },
            None => {},
        }

        if ply_from_root > 3 {
            let eval = self.evaluator.evaluate_position(board);
            let margin: i32 = 50;
            if eval - margin >= beta {
                return eval - margin;
            }
        }

        let mut best_move = Mv::null();
        let sorted_moves = order_moves(board, self, depth, false);
        proof {
            assert(sorted_moves@.len() > 0);
        }
        let mut eval_bound = EvalType::UpperBound;
        let mut cur_alpha = alpha;
        let mut i: usize = 0;
        while i < sorted_moves.len()
            invariant
                b0 == *old(board),
                self.wf(),
                board.inv(),
                i <= sorted_moves@.len(),
                board.origin() == b0.origin(),
                board.hist() == b0.hist(),
                board.spec_key() == b0.spec_key(),
                board.spec_past() == b0.spec_past(),
                board.frames() == b0.frames(),
                board.forcing() == b0.forcing(),
                !b0.spec_drawn(),
                !checkmate_of(b0.origin(), b0.hist()),
                forall|j: int|
                    0 <= j < sorted_moves@.len() ==> legal_of(b0.origin(), b0.hist()).contains(
                        (#[trigger] sorted_moves@[j]).data,
                    ),
                NEGATIVE_INFINITY <= alpha <= cur_alpha,
                cur_alpha < beta,
                beta <= INFINITY,
                num_extensions <= 16,
                ply_from_root as int + depth as int + 16 - num_extensions as int <= 80,
                depth >= 1,
                self.killer_moves == old(self).killer_moves,
                self.opening_book == old(self).opening_book,
                self.evaluator == old(self).evaluator,
                ply_from_root != 0 ==> self.best_move_this_iter == old(self).best_move_this_iter
                    && self.has_searched_one_move == old(self).has_searched_one_move,
                ply_from_root == 0 ==> self.best_move_this_iter == old(self).best_move_this_iter
                    || legal_of(b0.origin(), b0.hist()).contains(self.best_move_this_iter.data),
                ply_from_root == 0 && self.has_searched_one_move && !old(
                    self,
                ).has_searched_one_move ==> legal_of(b0.origin(), b0.hist()).contains(
                    self.best_move_this_iter.data,
                ) && self.best_move_this_iter.data != 0,
                self.target_time == old(self).target_time,
                sorted_moves@.len() > 0,
                forall|j: int|
                    0 <= j < sorted_moves@.len() ==> (#[trigger] sorted_moves@[j]).data != 0,
                i == 0 ==> cur_alpha == alpha,
                i >= 1 ==> NEGATIVE_INFINITY < cur_alpha,
                old(self).target_time is None && ply_from_root == 0 && alpha == NEGATIVE_INFINITY
                    && beta == INFINITY && i >= 1 ==> self.has_searched_one_move,
            decreases sorted_moves@.len() - i,
        {
            let mve = sorted_moves[i];
            if self.out_of_time() {
                return -1;
            }

            let mut eval: i32 = NEGATIVE_INFINITY;
            let mut full_search = true;

            let ghost pre = *board;
            board.apply_move(mve);

            let extension = calculate_extensions(board, num_extensions);
            if i > 4 && extension == 0 && !board.in_check() && depth >= 3 {
                eval = -self.alpha_beta(
                    board,
                    -beta,
                    -cur_alpha,
                    depth - 1 - 2,
                    ply_from_root + 1,
                    num_extensions,
                    true,
                );
                full_search = eval > cur_alpha;
            }
            if full_search {
                if i == 0 {
                    eval = -self.alpha_beta(
                        board,
                        -beta,
                        -cur_alpha,
                        depth - 1 + extension,
                        ply_from_root + 1,
                        extension + num_extensions,
                        true,
                    );
                } else {
                    eval = -self.alpha_beta(
                        board,
                        -cur_alpha - 1,
                        -cur_alpha,
                        depth - 1,
                        ply_from_root + 1,
                        num_extensions + extension,
                        true,
                    );
                    if eval > cur_alpha && eval < beta {
                        eval = -self.alpha_beta(
                            board,
                            -beta,
                            -cur_alpha,
                            depth - 1,
                            ply_from_root + 1,
                            num_extensions + extension,
                            true,
                        );
                    }
                }
            }
            board.undo_move();
            proof {
                assert(pre.spec_past().push(pre.spec_key()).last() == pre.spec_key());
                assert(board.spec_past() =~= pre.spec_past());
                assert(board.hist() =~= pre.hist());
                assert(board.frames() =~= pre.frames());
                assert(NEGATIVE_INFINITY < eval < INFINITY);
            }
            if eval == -1 && self.out_of_time() {
                return -1;
            }

            if eval >= beta {
                self.transposition_table.store(
                    board,
                    depth,
                    ply_from_root,
                    eval,
                    EvalType::LowerBound,
                    mve,
                );
                self.stats.transposition_entries = bump(self.stats.transposition_entries);
                self.stats.beta_cutoffs = bump(self.stats.beta_cutoffs);
                return beta;
            }
            if eval > cur_alpha {
                eval_bound = EvalType::Exact;
                best_move = mve;
                cur_alpha = eval;
                self.history_heuristics.update(mve, depth);
                if ply_from_root == 0 {
                    self.best_move_this_iter = mve;
                    self.has_searched_one_move = true;
                    proof {
                        assert(legal_of(b0.origin(), b0.hist()).contains(mve.data));
                    }
                }
            }
            i = i + 1;
        }
        self.transposition_table.store(
            board,
            depth,
            ply_from_root,
            cur_alpha,
            eval_bound,
            best_move,
        );
        self.stats.transposition_entries = bump(self.stats.transposition_entries);
        cur_alpha
    }

    /// The quiescence extension: past the nominal horizon only captures
    /// (and promotions) are considered, so recursion is bounded by the men
    /// on the board. A checkmated or drawn position scores its terminal
    /// value; otherwise the stand-pat evaluation cuts off at `beta` or
    /// floors the result, which never leaves `[max(alpha, stand-pat),
    /// beta]`. Nothing of the searcher changes but its statistics.
    pub fn quiescence_search(
        &mut self,
        board: &mut Position,
        alpha: i32,
        beta: i32,
        ply_from_root: u8,
    ) -> (r: i32)
        requires
            old(self).wf(),
            old(board).inv(),
            NEGATIVE_INFINITY <= alpha < INFINITY,
            NEGATIVE_INFINITY < beta <= INFINITY,
            alpha <= beta,
            ply_from_root as int + old(board).forcing() <= 250,
        ensures
            final(self).wf(),
            final(board).inv(),
            final(board).origin() == old(board).origin(),
            final(board).hist() == old(board).hist(),
            final(board).spec_key() == old(board).spec_key(),
            final(board).spec_past() == old(board).spec_past(),
            final(board).frames() == old(board).frames(),
            final(board).forcing() == old(board).forcing(),
            NEGATIVE_INFINITY < r < INFINITY,
            *final(self) == (Searcher { stats: final(self).stats, ..*old(self) }),
            checkmate_of(old(board).origin(), old(board).hist()) ==> r == -(IMMEDIATE_MATE_SCORE
                - ply_from_root as int),
            !checkmate_of(old(board).origin(), old(board).hist()) && old(board).spec_drawn()
                ==> r == 0,
            !checkmate_of(old(board).origin(), old(board).hist()) && !old(board).spec_drawn()
                ==> {
                let sp = spec_board_eval(
                    old(self).evaluator.tables,
                    old(board).origin(),
                    old(board).hist(),
                );
                &&& (sp >= beta ==> r == beta)
                &&& (sp < beta ==> (if alpha >= sp {
                    alpha as int
                } else {
                    sp
                }) <= r <= beta)
            },
        decreases old(board).forcing(),
    {
        let ghost b0 = *old(board);
        let eval = self.evaluator.evaluate_position(board);

        if board.checkmate() {
            return -(IMMEDIATE_MATE_SCORE - ply_from_root as i32);
        } else if board.threefold_repetition() || board.fifty_move_rule() || board.stalemate() {
            return 0;
        }
        self.stats.evaluated_positions = bump(self.stats.evaluated_positions);
        if eval >= beta {
            self.stats.beta_cutoffs = bump(self.stats.beta_cutoffs);
            return beta;
        }

        let mut cur_alpha = if alpha >= eval {
            alpha
        } else {
            eval
        };

        let moves = order_moves(board, self, 0, true);
        let ghost floor = if alpha >= eval {
            alpha as int
        } else {
            eval as int
        };

        let mut i: usize = 0;
        while i < moves.len()
            invariant
                b0 == *old(board),
                self.wf(),
                board.inv(),
                i <= moves@.len(),
                board.origin() == b0.origin(),
                board.hist() == b0.hist(),
                board.spec_key() == b0.spec_key(),
                board.spec_past() == b0.spec_past(),
                board.frames() == b0.frames(),
                board.forcing() == b0.forcing(),
                forall|j: int|
                    0 <= j < moves@.len() ==> caps_of(b0.origin(), b0.hist()).contains(
                        (#[trigger] moves@[j]).data,
                    ),
                !b0.spec_drawn(),
                !checkmate_of(b0.origin(), b0.hist()),
                spec_board_eval(old(self).evaluator.tables, b0.origin(), b0.hist()) < beta,
                floor == (if alpha as int >= spec_board_eval(
                    old(self).evaluator.tables,
                    b0.origin(),
                    b0.hist(),
                ) {
                    alpha as int
                } else {
                    spec_board_eval(old(self).evaluator.tables, b0.origin(), b0.hist())
                }),
                floor <= cur_alpha <= beta,
                -400000 <= floor,
                cur_alpha < INFINITY,
                NEGATIVE_INFINITY < beta <= INFINITY,
                NEGATIVE_INFINITY <= cur_alpha,
                ply_from_root as int + board.forcing() <= 250,
                *self == (Searcher { stats: self.stats, ..*old(self) }),
            decreases moves@.len() - i,
        {
            let mve = moves[i];
            let ghost pre = *board;
            board.apply_move(mve);
            let score = -self.quiescence_search(board, -beta, -cur_alpha, ply_from_root + 1);
            board.undo_move();
            proof {
                assert(pre.spec_past().push(pre.spec_key()).last() == pre.spec_key());
                assert(board.spec_past() =~= pre.spec_past());
                assert(board.hist() =~= pre.hist());
                assert(board.frames() =~= pre.frames());
            }

            if score >= beta {
                self.stats.beta_cutoffs = bump(self.stats.beta_cutoffs);
                return beta;
            }
            if score > cur_alpha {
                cur_alpha = score;
            }
            i = i + 1;
        }

        cur_alpha
    }
}

impl Default for Statistics {
    /// All counters at zero.
    fn default() -> (r: Statistics)
        ensures
            r == (Statistics {
                evaluated_positions: 0,
                transposition_entries: 0,
                transposition_deletes: 0,
                transposition_uses: 0,
                beta_cutoffs: 0,
                nodes_searched: 0,
            }),
    {
        Statistics::new()
    }
}

} // verus!
