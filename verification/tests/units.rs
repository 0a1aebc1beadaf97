//! Component-level checks: evaluator symmetry and tapering, killers,
//! history, move ordering, the bounded map, the mate-distance correction,
//! and moves.

use chers::board::{PieceKind, Position};
use chers::evaluation::{ClassicEvaluator, Evaluator};
use chers::extensions::{calculate_extensions, extension_for, MAX_EXTENSIONS};
use chers::fixed_map::FixedSizeHashMap;
use chers::history_heuristics::HistoryHeuristic;
use chers::killer_moves::KillerMoves;
use chers::limiter::{time_budget_millis, Limiter};
use chers::move_ordering::order_moves;
use chers::moves::Mv;
use chers::piece_square_tables::{PieceSquareTables, ENDGAME_MATERIAL_START};
use chers::search::{is_mate_eval, Searcher, Statistics, MAX_DEPTH};
use chers::transposition_table::{EvalType, TranspositionTable};

fn mv(src: u16, dest: u16) -> Mv {
    Mv { data: src | (dest << 6) }
}

#[test]
fn start_position_evaluates_to_zero() {
    let pos = Position::start_pos();
    let mut eval = ClassicEvaluator::new();
    assert_eq!(eval.evaluate_board(&pos), 0);
}

#[test]
fn mirrored_position_evaluates_to_negation() {
    // White queen and king against a bare king, and the same position
    // with the colours carried to the other side of the board.
    let mut eval = ClassicEvaluator::new();
    let pos = Position::from_fen("k7/8/8/8/8/8/8/QK6 w - - 0 1").unwrap();
    let mirrored = Position::from_fen("6kq/8/8/8/8/8/8/7K w - - 0 1").unwrap();
    let a = eval.evaluate_board(&pos);
    let b = eval.evaluate_board(&mirrored);
    assert_eq!(a, -b);
    assert!(a > 0);
}

#[test]
fn endgame_phase_weight_tapering() {
    assert_eq!(ClassicEvaluator::endgame_phase_weight(0), 1620);
    assert_eq!(ClassicEvaluator::endgame_phase_weight(ENDGAME_MATERIAL_START), 0);
    assert_eq!(ClassicEvaluator::endgame_phase_weight(2000), 0);
    assert_eq!(ClassicEvaluator::endgame_phase_weight(810), 810);
    let w = ClassicEvaluator::endgame_phase_weight(333);
    assert!(0 <= w && w <= 1620);
}

#[test]
fn piece_values() {
    assert_eq!(ClassicEvaluator::piece_value(PieceKind::Pawn), 100);
    assert_eq!(ClassicEvaluator::piece_value(PieceKind::Knight), 300);
    assert_eq!(ClassicEvaluator::piece_value(PieceKind::Bishop), 320);
    assert_eq!(ClassicEvaluator::piece_value(PieceKind::Rook), 500);
    assert_eq!(ClassicEvaluator::piece_value(PieceKind::Queen), 900);
    assert_eq!(ClassicEvaluator::piece_value(PieceKind::King), 0);
    assert_eq!(ClassicEvaluator::piece_value(PieceKind::Empty), 0);
}

#[test]
fn capture_value_reads_destination() {
    let pos = Position::from_fen("k6q/8/8/8/8/8/8/R6K w - - 0 1").unwrap();
    // a1 rook takes a8... the destination holds nothing on a8? The black
    // queen stands on h8 (square 63); aim a move there.
    let take_queen = mv(7, 63);
    assert_eq!(ClassicEvaluator::capture_value(&pos, take_queen), 900);
    let quiet = mv(0, 8);
    assert_eq!(ClassicEvaluator::capture_value(&pos, quiet), 0);
}

#[test]
fn killer_added_twice_keeps_secondary() {
    let mut killers = KillerMoves::new(MAX_DEPTH as usize);
    let a = mv(1, 2);
    let b = mv(3, 4);
    killers.add_killer(5, a);
    killers.add_killer(5, b);
    // primary is b, secondary is a
    assert!(killers.is_killer(5, a));
    assert!(killers.is_killer(5, b));
    let before = killers.killers[5].secondary;
    killers.add_killer(5, b);
    assert_eq!(killers.killers[5].secondary, before);
    assert_eq!(before, Some(a));
}

#[test]
fn killer_out_of_range_depth_is_ignored() {
    let mut killers = KillerMoves::new(MAX_DEPTH as usize);
    killers.add_killer(200, mv(1, 2));
    assert!(!killers.is_killer(200, mv(1, 2)));
}

#[test]
fn history_scores_never_decrease() {
    let mut history = HistoryHeuristic::new();
    let m = mv(10, 20);
    let mut last = history.get_score(m);
    assert_eq!(last, 0);
    for depth in [1u8, 3, 7, 200, 255, 255, 255] {
        history.update(m, depth);
        let now = history.get_score(m);
        assert!(now >= last);
        last = now;
    }
    assert_eq!(history.get_score(m), 65535); // saturated at the ceiling
    assert_eq!(history.get_score(mv(11, 21)), 0);
}

#[test]
fn history_update_adds_square_of_depth() {
    let mut history = HistoryHeuristic::new();
    let m = mv(9, 18);
    history.update(m, 4);
    assert_eq!(history.get_score(m), 16);
    history.update(m, 3);
    assert_eq!(history.get_score(m), 25);
}

#[test]
fn ordering_is_permutation_of_legal_moves() {
    let pos = Position::start_pos();
    let searcher = Searcher::new();
    let ordered = order_moves(&pos, &searcher, 1, false);
    assert_eq!(ordered.len(), 20);
    let mut data: Vec<u16> = ordered.iter().map(|m| m.data).collect();
    data.sort();
    data.dedup();
    assert_eq!(data.len(), 20);
}

#[test]
fn ordering_puts_cached_move_first() {
    let pos = Position::start_pos();
    let mut searcher = Searcher::new();
    let e2e4 = {
        let legal = {
            let p = Position::start_pos();
            order_moves(&p, &searcher, 1, false)
        };
        // pick any legal move and cache it as the position's best
        legal[legal.len() - 1]
    };
    searcher
        .transposition_table
        .store(&pos, 1, 0, 10, EvalType::Exact, e2e4);
    let ordered = order_moves(&pos, &searcher, 1, false);
    assert_eq!(ordered[0].data, e2e4.data);
}

#[test]
fn fixed_map_insert_get_and_evict() {
    let mut map: FixedSizeHashMap<u32> = FixedSizeHashMap::new(2);
    map.insert(1, 10);
    map.insert(2, 20);
    assert_eq!(map.get(1), Some(&10));
    assert_eq!(map.get(2), Some(&20));
    assert_eq!(map.get_size(), 2);
    map.insert(3, 30);
    assert_eq!(map.get_size(), 2);
    assert_eq!(map.get(3), Some(&30));
    map.insert(3, 31);
    assert_eq!(map.get(3), Some(&31));
    assert_eq!(map.get_size(), 2);
}

#[test]
fn fixed_map_entry_never_evicts() {
    let mut map: FixedSizeHashMap<u32> = FixedSizeHashMap::new(1);
    map.insert(1, 10);
    assert_eq!(map.entry(1, 0), 10);
    assert_eq!(map.entry(2, 7), 7);
    assert_eq!(map.get(1), Some(&10));
    assert_eq!(map.get(2), Some(&7));
}

#[test]
fn mate_distance_correction_round_trips() {
    for ply in [0u8, 1, 7, 64] {
        for eval in [99_950, 99_901, 100_000, 42, -42, -99_950] {
            let stored = TranspositionTable::correct_mate_eval_store(eval, ply);
            let back = TranspositionTable::correct_mate_eval_retrive(stored, ply);
            assert_eq!(back, eval);
        }
    }
    // only scores near a winning mate are shifted
    assert_eq!(TranspositionTable::correct_mate_eval_store(99_950, 3), 99_953);
    assert_eq!(TranspositionTable::correct_mate_eval_store(42, 3), 42);
    assert_eq!(TranspositionTable::correct_mate_eval_store(-99_950, 3), -99_950);
}

#[test]
fn shallow_store_does_not_replace_deeper_entry() {
    let pos = Position::start_pos();
    let mut tt = TranspositionTable::new();
    tt.store(&pos, 5, 0, 42, EvalType::Exact, mv(0, 56));
    tt.store(&pos, 3, 0, 7, EvalType::Exact, mv(1, 2));
    assert_eq!(tt.lookup_eval(&pos, 5, 0, -1000, 1000), Some(42));
}

#[test]
fn lookup_respects_bound_kinds() {
    let pos = Position::start_pos();
    let mut tt = TranspositionTable::new();
    tt.store(&pos, 4, 0, 30, EvalType::UpperBound, mv(0, 56));
    assert_eq!(tt.lookup_eval(&pos, 4, 0, 50, 100), Some(30)); // 30 <= alpha
    assert_eq!(tt.lookup_eval(&pos, 4, 0, 10, 100), None);
    let mut tt2 = TranspositionTable::new();
    tt2.store(&pos, 4, 0, 80, EvalType::LowerBound, mv(0, 56));
    assert_eq!(tt2.lookup_eval(&pos, 4, 0, 10, 50), Some(80)); // 80 >= beta
    assert_eq!(tt2.lookup_eval(&pos, 4, 0, 10, 100), None);
}

#[test]
fn extension_only_in_check_and_under_ceiling() {
    assert_eq!(extension_for(true, 0), 1);
    assert_eq!(extension_for(false, 0), 0);
    assert_eq!(extension_for(true, MAX_EXTENSIONS), 0);
    assert_eq!(extension_for(true, MAX_EXTENSIONS - 1), 1);
    // a check position earns at most one ply
    let mut pos = Position::from_fen("4k3/8/8/8/8/8/4q3/4K3 w - - 0 1").unwrap();
    assert!(pos.in_check());
    assert!(calculate_extensions(&mut pos, 0) <= 1);
}

#[test]
fn mate_eval_band() {
    assert!(is_mate_eval(99_999));
    assert!(is_mate_eval(100_050));
    assert!(!is_mate_eval(99_900));
    assert!(!is_mate_eval(42));
    assert!(!is_mate_eval(-99_999));
}

#[test]
fn move_encoding() {
    let m = mv(0, 56);
    assert_eq!(m.get_src(), 0);
    assert_eq!(m.get_dest(), 56);
    assert!(!m.is_null());
    assert!(Mv::null().is_null());
}

#[test]
fn limiter_accessors() {
    let t = Limiter::time(std::time::Duration::from_millis(100));
    assert!(t.is_time());
    assert!(!t.is_depth());
    assert!(t.get_time().is_some());
    assert_eq!(t.get_depth(), None);
    let d = Limiter::depth(7);
    assert!(!d.is_time());
    assert!(d.is_depth());
    assert_eq!(d.get_depth(), Some(7));
    let b = Limiter::both(7, std::time::Duration::from_millis(100));
    assert!(b.is_time() && b.is_depth());
}

#[test]
fn statistics_start_at_zero() {
    let s = Statistics::default();
    assert_eq!(s.nodes_searched, 0);
    assert_eq!(s.beta_cutoffs, 0);
    assert_eq!(s.evaluated_positions, 0);
    assert_eq!(s.transposition_uses, 0);
}

#[test]
fn tables_have_sixty_four_entries() {
    let t = PieceSquareTables::new();
    assert_eq!(t.pawn.len(), 64);
    assert_eq!(t.knight.len(), 64);
    assert_eq!(t.bishop.len(), 64);
    assert_eq!(t.rook.len(), 64);
    assert_eq!(t.queen.len(), 64);
    assert_eq!(t.king_mid.len(), 64);
    assert_eq!(t.king_end.len(), 64);
    assert_eq!(t.pawn[8], 50); // a7 from black's side
    assert_eq!(t.king_end[0], -50);
}

#[test]
fn malformed_fen_is_rejected() {
    assert!(Position::from_fen("not a fen").is_none());
    assert!(Position::from_fen("8/8/8").is_none());
    // parseable strings the board cannot hold: a missing king, junk in
    // the castling field, move counters past what its builder bears
    assert!(Position::from_fen("8/8/8/8/8/8/8/8 w - - 0 1").is_none());
    assert!(Position::from_fen("k7/8/8/8/8/8/8/8 w - - 0 1").is_none());
    assert!(Position::from_fen("KK6/8/8/8/8/8/8/k7 w - - 0 1").is_none());
    assert!(Position::from_fen("k7/8/8/8/8/8/8/7K w - - 0 0").is_none());
    assert!(Position::from_fen("k7/8/8/8/8/8/8/7K w X - 0 1").is_none());
    assert!(Position::from_fen("k7/8/8/8/8/8/8/7K w AHah - 0 1").is_none());
    assert!(Position::from_fen("k7/8/8/8/8/8/8/7K w - - 0 +0").is_none());
    assert!(Position::from_fen("k7/8/8/8/8/8/8/7K w - - 0 00").is_none());
    assert!(Position::from_fen("k7/8/8/8/8/8/8/7K w - - 0 40000").is_none());
    assert!(Position::from_fen("rnbqkbnr/pppppppp/8/8/8/8/PPPPPPPP/RNBQKBNR w KQkq - 0 1").is_some());
}

#[test]
fn try_apply_move_accepts_only_legal_moves() {
    let mut pos = Position::start_pos();
    let key = pos.zobrist();
    assert!(!pos.try_apply_move(mv(0, 56))); // a1 to a8: not legal here
    assert_eq!(pos.zobrist(), key);
    assert!(pos.try_apply_move(mv(12, 20))); // e2 to e3, a quiet push
    assert_ne!(pos.zobrist(), key);
}

#[test]
fn capture_ordering_prefers_valuable_victims() {
    // The white rook on d2 may take the queen on d5 or the pawn on h2.
    let pos = Position::from_fen("k7/8/8/3q4/8/8/3R3p/K7 w - - 0 1").unwrap();
    let searcher = Searcher::new();
    let ordered = order_moves(&pos, &searcher, 0, true);
    assert!(ordered.len() >= 2);
    assert_eq!(ordered[0].get_dest(), 35); // d5, the queen
}

#[test]
fn time_budget_matches_formula() {
    // book still playing: full double budget
    assert_eq!(time_budget_millis(30, true, 60_000, 30), 4_000);
    // opening (ply 0): n_moves is -10, factor 3
    assert_eq!(time_budget_millis(0, false, 60_000, 30), 6_000);
    // middlegame (ply 15): factor 2
    assert_eq!(time_budget_millis(15, false, 60_000, 30), 4_000);
    // late game (ply 25): n_moves capped at 10, factor 1
    assert_eq!(time_budget_millis(25, false, 60_000, 30), 2_000);
}

#[test]
fn fresh_searcher_commits_nothing_yet() {
    let s = Searcher::new();
    assert!(s.best_move_this_iter.is_null());
    assert!(!s.has_searched_one_move);
    assert_eq!(s.completed_depth, 0);
    assert!(s.opening_book.is_enabled());
}
