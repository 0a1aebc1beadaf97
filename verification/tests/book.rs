//! The opening book: tree building, weighted proposals, cursor movement.

use chers::openings::{CurrentPosition, OpeningBook};

fn game(moves: &[&str]) -> Vec<String> {
    moves.iter().map(|m| m.to_string()).collect()
}

#[test]
fn tree_counts_games_per_continuation() {
    let games = vec![
        game(&["e2e4", "e7e5"]),
        game(&["e2e4", "c7c5"]),
        game(&["d2d4", "d7d5"]),
    ];
    let root = CurrentPosition::new(games, 0);
    assert_eq!(root.count, 3);
    assert_eq!(root.child_positions.len(), 2);
    let e4 = root
        .child_positions
        .iter()
        .find(|c| c.last_move == "e2e4")
        .unwrap();
    assert_eq!(e4.count, 2);
    assert_eq!(e4.child_positions.len(), 2);
    let d4 = root
        .child_positions
        .iter()
        .find(|c| c.last_move == "d2d4")
        .unwrap();
    assert_eq!(d4.count, 1);
    assert_eq!(d4.depth, 1);
}

#[test]
fn book_proposes_a_known_continuation() {
    let games = vec![game(&["e2e4", "e7e5"]), game(&["d2d4", "d7d5"])];
    let mut book = OpeningBook::from_games(games);
    assert!(book.is_enabled());
    for _ in 0..10 {
        let m = book.get_next_move().unwrap();
        assert!(m == "e2e4" || m == "d2d4");
    }
}

#[test]
fn disabled_book_proposes_nothing() {
    let games = vec![game(&["e2e4"])];
    let mut book = OpeningBook::from_games(games);
    book.set_disabled();
    assert_eq!(book.get_next_move(), None);
    book.set_enabled();
    assert!(book.get_next_move().is_some());
}

#[test]
fn cursor_follows_moves_and_resets() {
    let games = vec![game(&["e2e4", "e7e5", "g1f3"]), game(&["e2e4", "c7c5"])];
    let mut book = OpeningBook::from_games(games);
    assert!(book.apply_move("e2e4".to_string()));
    assert!(!book.apply_move("a2a3".to_string()));
    assert!(book.apply_move("e7e5".to_string()));
    let m = book.get_next_move().unwrap();
    assert_eq!(m, "g1f3");
    book.reset();
    let m2 = book.get_next_move().unwrap();
    assert_eq!(m2, "e2e4");
}

#[test]
fn empty_book_proposes_nothing() {
    let mut book = OpeningBook::from_games(Vec::new());
    assert!(book.is_enabled());
    assert_eq!(book.get_next_move(), None);
}
