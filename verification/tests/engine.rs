//! End-to-end scenarios: mating, stalemate and repetition detection, the
//! transposition cache, perft parity, and the time budget.

use chers::board::Position;
use chers::limiter::Limiter;
use chers::moves::Mv;
use chers::perft::perft;
use chers::search::{is_mate_eval, Searcher, INFINITY, NEGATIVE_INFINITY, IMMEDIATE_MATE_SCORE};
use chers::transposition_table::{EvalType, TranspositionTable};

fn mv(src: u16, dest: u16) -> Mv {
    Mv { data: src | (dest << 6) }
}

#[test]
fn mate_in_one_is_found() {
    let mut pos = Position::from_fen("6k1/5ppp/8/8/8/8/5PPP/R5K1 w - - 0 1").unwrap();
    let mut searcher = Searcher::new();
    let best = searcher.search(&mut pos, Limiter::depth(2));
    // a1 (square 0) to a8 (square 56)
    assert_eq!(best.get_src(), 0);
    assert_eq!(best.get_dest(), 56);

    let mut searcher2 = Searcher::new();
    let mut pos2 = Position::from_fen("6k1/5ppp/8/8/8/8/5PPP/R5K1 w - - 0 1").unwrap();
    let eval = searcher2.alpha_beta(&mut pos2, NEGATIVE_INFINITY, INFINITY, 2, 0, 0, false);
    assert!(is_mate_eval(eval));
    assert!(eval >= IMMEDIATE_MATE_SCORE - 2);
}

#[test]
fn stalemate_scores_zero() {
    for depth in 1..4u8 {
        let mut pos = Position::from_fen("7k/5Q2/6K1/8/8/8/8/8 b - - 0 1").unwrap();
        let mut searcher = Searcher::new();
        let eval = searcher.alpha_beta(&mut pos, NEGATIVE_INFINITY, INFINITY, depth, 0, 0, false);
        assert_eq!(eval, 0);
    }
}

#[test]
fn threefold_repetition_scores_zero() {
    let mut pos = Position::start_pos();
    for m in ["g1f3", "g8f6", "f3g1", "f6g8", "g1f3", "g8f6", "f3g1", "f6g8"] {
        assert!(pos.apply_uci_move(m));
    }
    assert!(pos.threefold_repetition());
    let mut searcher = Searcher::new();
    let eval = searcher.alpha_beta(&mut pos, NEGATIVE_INFINITY, INFINITY, 2, 0, 0, false);
    assert_eq!(eval, 0);
}

#[test]
fn perft_four_matches_reference() {
    let mut pos = Position::start_pos();
    assert_eq!(perft(&mut pos, 4), 197_281);
}

#[test]
fn perft_five_matches_reference() {
    let mut pos = Position::start_pos();
    assert_eq!(perft(&mut pos, 5), 4_865_609);
}

#[test]
fn transposition_hit_at_depth_and_miss_deeper() {
    let pos = Position::start_pos();
    let mut tt = TranspositionTable::new();
    tt.store(&pos, 5, 0, 42, EvalType::Exact, mv(0, 56));
    assert_eq!(tt.lookup_eval(&pos, 5, 0, NEGATIVE_INFINITY, INFINITY), Some(42));
    assert_eq!(tt.lookup_eval(&pos, 6, 0, NEGATIVE_INFINITY, INFINITY), None);
    let stored = tt.get_stored_move(&pos).unwrap();
    assert_eq!(stored.get_src(), 0);
    assert_eq!(stored.get_dest(), 56);
}

#[test]
fn time_budget_is_respected() {
    // A busy middlegame position.
    let fen = "r1bq1rk1/pp2bppp/2n1pn2/2pp4/3P1B2/2NQPN2/PPP2PPP/R3KB1R w KQ - 0 8";
    let mut pos = Position::from_fen(fen).unwrap();
    let mut searcher = Searcher::new();
    let start = std::time::Instant::now();
    let best = searcher.search(&mut pos, Limiter::time(std::time::Duration::from_millis(50)));
    let elapsed = start.elapsed();
    assert!(!best.is_null());
    assert!(elapsed < std::time::Duration::from_millis(5000));
}

#[test]
fn board_identical_after_search() {
    let fen = "r1bq1rk1/pp2bppp/2n1pn2/2pp4/3P1B2/2NQPN2/PPP2PPP/R3KB1R w KQ - 0 8";
    let mut pos = Position::from_fen(fen).unwrap();
    let fen_before = pos.fen();
    let key_before = pos.zobrist();
    let mut searcher = Searcher::new();
    let eval = searcher.alpha_beta(&mut pos, NEGATIVE_INFINITY, INFINITY, 3, 0, 0, false);
    assert!(eval > NEGATIVE_INFINITY);
    assert_eq!(pos.fen(), fen_before);
    assert_eq!(pos.zobrist(), key_before);
}
